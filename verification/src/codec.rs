//! Canonical JSON for the persisted task document.
//!
//! The encoder lays out `TasksFile` as compact JSON with a fixed key order;
//! the parser reads exactly that layout back. Both directions are verified:
//! the encoder meets the spec-level `enc_*` functions, the parser meets the
//! spec-level `sp_*` functions, and `lemma_parse_tasks_file_roundtrip` proves
//! that parsing an encoded document yields the document again.

use vstd::prelude::*;

use crate::models::{
    ProjectView, ReminderConfig, ReminderKind, RepeatRuleView, StepView, TaskView,
};
use vstd::string::StrSliceExecFns;

verus! {

// ---------------------------------------------------------------------------
// Spec encoders
// ---------------------------------------------------------------------------

pub open spec fn spec_digit_char(d: int) -> char {
    if d == 0 {
        '0'
    } else if d == 1 {
        '1'
    } else if d == 2 {
        '2'
    } else if d == 3 {
        '3'
    } else if d == 4 {
        '4'
    } else if d == 5 {
        '5'
    } else if d == 6 {
        '6'
    } else if d == 7 {
        '7'
    } else if d == 8 {
        '8'
    } else {
        '9'
    }
}

/// Decimal digits of a non-negative number, most significant first.
pub open spec fn spec_dec_digits(n: int) -> Seq<char>
    decreases n when n >= 0
{
    if n < 10 {
        seq![spec_digit_char(n)]
    } else {
        spec_dec_digits(n / 10).push(spec_digit_char(n % 10))
    }
}

/// Canonical decimal text of an integer.
pub open spec fn enc_int(n: int) -> Seq<char> {
    if n < 0 {
        seq!['-'] + spec_dec_digits(-n)
    } else {
        spec_dec_digits(n)
    }
}

pub open spec fn spec_is_digit(c: char) -> bool {
    c == '0' || c == '1' || c == '2' || c == '3' || c == '4' || c == '5' || c == '6' || c == '7'
        || c == '8' || c == '9'
}

pub open spec fn spec_digit_val(c: char) -> int {
    if c == '0' {
        0
    } else if c == '1' {
        1
    } else if c == '2' {
        2
    } else if c == '3' {
        3
    } else if c == '4' {
        4
    } else if c == '5' {
        5
    } else if c == '6' {
        6
    } else if c == '7' {
        7
    } else if c == '8' {
        8
    } else {
        9
    }
}

/// How one character is written inside a JSON string: quote and backslash
/// are escaped, control characters become a four-digit escape, everything
/// else stands for itself.
pub open spec fn enc_char(c: char) -> Seq<char> {
    if c == '"' {
        seq!['\\', '"']
    } else if c == '\\' {
        seq!['\\', '\\']
    } else if spec_code_of(c) < 32 {
        seq![
            '\\',
            'u',
            '0',
            '0',
            spec_digit_char(spec_code_of(c) / 16),
            spec_hex_char(spec_code_of(c) % 16),
        ]
    } else {
        seq![c]
    }
}

pub open spec fn spec_hex_char(d: int) -> char {
    if d < 10 {
        spec_digit_char(d)
    } else if d == 10 {
        'a'
    } else if d == 11 {
        'b'
    } else if d == 12 {
        'c'
    } else if d == 13 {
        'd'
    } else if d == 14 {
        'e'
    } else {
        'f'
    }
}

/// The body of a JSON string (no quotes), character by character.
pub open spec fn enc_str_body(s: Seq<char>) -> Seq<char>
    decreases s.len()
{
    if s.len() == 0 {
        Seq::<char>::empty()
    } else {
        enc_char(s[0]) + enc_str_body(s.skip(1))
    }
}

/// A quoted JSON string.
pub open spec fn enc_string(s: Seq<char>) -> Seq<char> {
    seq!['"'] + enc_str_body(s) + seq!['"']
}

pub open spec fn enc_bool(b: bool) -> Seq<char> {
    if b {
        "true"@
    } else {
        "false"@
    }
}

pub open spec fn enc_opt_int(o: Option<i64>) -> Seq<char> {
    match o {
        Some(n) => enc_int(n as int),
        None => "null"@,
    }
}

pub open spec fn enc_opt_string(o: Option<Seq<char>>) -> Seq<char> {
    match o {
        Some(s) => enc_string(s),
        None => "null"@,
    }
}

// ---------------------------------------------------------------------------
// Spec parsers
// ---------------------------------------------------------------------------

/// Consume the exact literal at `i`.
pub open spec fn sp_lit(s: Seq<char>, i: int, lit: Seq<char>) -> Option<int> {
    if 0 <= i && i + lit.len() <= s.len() && s.subrange(i, i + lit.len()) == lit {
        Some(i + lit.len())
    } else {
        None
    }
}

/// The maximal run of decimal digits at `i`, and the position after it.
pub open spec fn sp_digit_run(s: Seq<char>, i: int) -> (Seq<char>, int)
    decreases s.len() - i when 0 <= i <= s.len()
{
    if i < s.len() && spec_is_digit(s[i]) {
        let (run, j) = sp_digit_run(s, i + 1);
        (seq![s[i]] + run, j)
    } else {
        (Seq::<char>::empty(), i)
    }
}

/// The number a digit run denotes.
pub open spec fn spec_val_of(ds: Seq<char>) -> int
    decreases ds.len()
{
    if ds.len() == 0 {
        0
    } else {
        spec_val_of(ds.drop_last()) * 10 + spec_digit_val(ds.last())
    }
}

pub open spec fn spec_pow10(k: nat) -> int
    decreases k
{
    if k == 0 {
        1
    } else {
        spec_pow10((k - 1) as nat) * 10
    }
}

/// Parse an integer: an optional minus sign, then one to 37 digits.
pub open spec fn sp_int(s: Seq<char>, i: int) -> Option<(int, int)> {
    if 0 <= i && i < s.len() && s[i] == '-' {
        let (run, j) = sp_digit_run(s, i + 1);
        if 1 <= run.len() <= 37 {
            Some((-spec_val_of(run), j))
        } else {
            None
        }
    } else if 0 <= i && i < s.len() && spec_is_digit(s[i]) {
        let (run, j) = sp_digit_run(s, i);
        if run.len() <= 37 {
            Some((spec_val_of(run), j))
        } else {
            None
        }
    } else {
        None
    }
}

pub open spec fn spec_is_hex_low(c: char) -> bool {
    spec_is_digit(c) || c == 'a' || c == 'b' || c == 'c' || c == 'd' || c == 'e' || c == 'f'
}

pub open spec fn spec_hex_val(c: char) -> int {
    if spec_is_digit(c) {
        spec_digit_val(c)
    } else if c == 'a' {
        10
    } else if c == 'b' {
        11
    } else if c == 'c' {
        12
    } else if c == 'd' {
        13
    } else if c == 'e' {
        14
    } else {
        15
    }
}

/// A character's scalar code.
pub open spec fn spec_code_of(c: char) -> int {
    (c as u32) as int
}

/// The character with the given code.
pub open spec fn spec_char_of_code(v: int) -> char {
    choose|c: char| spec_code_of(c) == v
}

/// Parse a string body up to and including the closing quote.
pub open spec fn sp_str_body(s: Seq<char>, i: int) -> Option<(Seq<char>, int)>
    decreases s.len() - i when 0 <= i <= s.len()
{
    if i >= s.len() {
        None
    } else if s[i] == '"' {
        Some((Seq::<char>::empty(), i + 1))
    } else if s[i] == '\\' {
        if i + 1 < s.len() && (s[i + 1] == '"' || s[i + 1] == '\\') {
            match sp_str_body(s, i + 2) {
                Some((t, j)) => Some((seq![s[i + 1]] + t, j)),
                None => None,
            }
        } else if i + 5 < s.len() && s[i + 1] == 'u' && s[i + 2] == '0' && s[i + 3] == '0'
            && spec_is_hex_low(s[i + 4]) && spec_is_hex_low(s[i + 5]) {
            let v = spec_hex_val(s[i + 4]) * 16 + spec_hex_val(s[i + 5]);
            if v < 32 {
                match sp_str_body(s, i + 6) {
                    Some((t, j)) => Some((seq![spec_char_of_code(v)] + t, j)),
                    None => None,
                }
            } else {
                None
            }
        } else {
            None
        }
    } else {
        match sp_str_body(s, i + 1) {
            Some((t, j)) => Some((seq![s[i]] + t, j)),
            None => None,
        }
    }
}

/// Parse a quoted string.
pub open spec fn sp_string(s: Seq<char>, i: int) -> Option<(Seq<char>, int)> {
    if 0 <= i && i < s.len() && s[i] == '"' {
        sp_str_body(s, i + 1)
    } else {
        None
    }
}

/// Parse `true` or `false`, deciding by the first character.
pub open spec fn sp_bool(s: Seq<char>, i: int) -> Option<(bool, int)> {
    if 0 <= i && i < s.len() && s[i] == 't' {
        match sp_lit(s, i, "true"@) {
            Some(j) => Some((true, j)),
            None => None,
        }
    } else {
        match sp_lit(s, i, "false"@) {
            Some(j) => Some((false, j)),
            None => None,
        }
    }
}

/// Parse `null` or an integer, deciding by the first character.
pub open spec fn sp_opt_int(s: Seq<char>, i: int) -> Option<(Option<int>, int)> {
    if 0 <= i && i < s.len() && s[i] == 'n' {
        match sp_lit(s, i, "null"@) {
            Some(j) => Some((None, j)),
            None => None,
        }
    } else {
        match sp_int(s, i) {
            Some((v, j)) => Some((Some(v), j)),
            None => None,
        }
    }
}

/// Parse `null` or a quoted string, deciding by the first character.
pub open spec fn sp_opt_string(s: Seq<char>, i: int) -> Option<(Option<Seq<char>>, int)> {
    if 0 <= i && i < s.len() && s[i] == 'n' {
        match sp_lit(s, i, "null"@) {
            Some(j) => Some((None, j)),
            None => None,
        }
    } else {
        match sp_string(s, i) {
            Some((v, j)) => Some((Some(v), j)),
            None => None,
        }
    }
}

/// An integer in `i64` range.
pub open spec fn sp_i64(s: Seq<char>, i: int) -> Option<(i64, int)> {
    match sp_int(s, i) {
        Some((v, j)) => if i64::MIN <= v <= i64::MAX {
            Some((v as i64, j))
        } else {
            None
        },
        None => None,
    }
}

/// An integer in `u8` range.
pub open spec fn sp_u8(s: Seq<char>, i: int) -> Option<(u8, int)> {
    match sp_int(s, i) {
        Some((v, j)) => if 0 <= v <= 255 {
            Some((v as u8, j))
        } else {
            None
        },
        None => None,
    }
}

/// `null` or an integer in `i64` range.
pub open spec fn sp_opt_i64(s: Seq<char>, i: int) -> Option<(Option<i64>, int)> {
    match sp_opt_int(s, i) {
        Some((Some(v), j)) => if i64::MIN <= v <= i64::MAX {
            Some((Some(v as i64), j))
        } else {
            None
        },
        Some((None, j)) => Some((None, j)),
        None => None,
    }
}

// ---------------------------------------------------------------------------
// Round-trip lemmas for the primitives
// ---------------------------------------------------------------------------

/// Facts about the canonical digits of `n`: nonempty, all digits, their
/// value is `n`, and at most 37 of them below `pow10(37)`.
pub proof fn lemma_dec_digits_props(n: int)
    requires
        0 <= n,
    ensures
        spec_dec_digits(n).len() >= 1,
        forall|k: int|
            0 <= k < spec_dec_digits(n).len() ==> spec_is_digit(#[trigger] spec_dec_digits(n)[k]),
        spec_val_of(spec_dec_digits(n)) == n,
        n < spec_pow10(37) ==> spec_dec_digits(n).len() <= 37,
    decreases n,
{
    if n < 10 {
        assert(spec_val_of(spec_dec_digits(n)) == n) by {
            assert(spec_dec_digits(n).drop_last() =~= Seq::<char>::empty());
            assert(spec_val_of(Seq::<char>::empty()) == 0);
        }
        assert(spec_pow10(0) == 1);
        assert(spec_pow10(1) == 10);
        lemma_pow10_mono(1, 37);
    } else {
        lemma_dec_digits_props(n / 10);
        let ds = spec_dec_digits(n);
        let prev = spec_dec_digits(n / 10);
        assert(ds == prev.push(spec_digit_char(n % 10)));
        assert(ds.drop_last() =~= prev);
        assert(spec_val_of(ds) == (n / 10) * 10 + n % 10);
        assert(n == (n / 10) * 10 + n % 10) by (nonlinear_arith)
            requires
                n >= 10,
        ;
        if n < spec_pow10(37) {
            lemma_digit_count_bound(n, 37);
        }
        assert(forall|k: int| 0 <= k < ds.len() ==> spec_is_digit(#[trigger] ds[k])) by {
            assert(forall|k: int| 0 <= k < prev.len() ==> spec_is_digit(#[trigger] prev[k]));
            assert(ds[ds.len() - 1] == spec_digit_char(n % 10));
        }
    }
}

pub proof fn lemma_pow10_mono(a: nat, b: nat)
    requires
        a <= b,
    ensures
        spec_pow10(a) <= spec_pow10(b),
        spec_pow10(a) >= 1,
    decreases b - a,
{
    if a == b {
        lemma_pow10_pos(a);
    } else {
        lemma_pow10_mono(a, (b - 1) as nat);
    }
}

pub proof fn lemma_pow10_pos(k: nat)
    ensures
        spec_pow10(k) >= 1,
    decreases k,
{
    if k > 0 {
        lemma_pow10_pos((k - 1) as nat);
    }
}

/// A number below `pow10(m)` has at most `m` canonical digits.
proof fn lemma_digit_count_bound(n: int, m: nat)
    requires
        0 <= n,
        m >= 1,
        n < spec_pow10(m),
    ensures
        spec_dec_digits(n).len() <= m,
    decreases n,
{
    if n < 10 {
    } else {
        assert(spec_pow10(m) == spec_pow10((m - 1) as nat) * 10);
        assert(n / 10 < spec_pow10((m - 1) as nat)) by (nonlinear_arith)
            requires
                n >= 10,
                spec_pow10(m) == spec_pow10((m - 1) as nat) * 10,
                n < spec_pow10(m),
        ;
        if m == 1 {
            lemma_pow10_pos(0);
            assert(false);
        }
        lemma_digit_count_bound(n / 10, (m - 1) as nat);
    }
}

/// The value of a digit run stays below `pow10` of its length.
pub proof fn lemma_val_of_bound(ds: Seq<char>)
    ensures
        0 <= spec_val_of(ds) < spec_pow10(ds.len()),
    decreases ds.len(),
{
    if ds.len() == 0 {
    } else {
        lemma_val_of_bound(ds.drop_last());
        assert(spec_pow10(ds.len()) == spec_pow10((ds.len() - 1) as nat) * 10);
        assert(spec_val_of(ds.drop_last()) <= spec_pow10((ds.len() - 1) as nat) - 1);
    }
}

/// Scanning a digit run that the input starts with finds exactly that run.
pub proof fn lemma_sp_digit_run(s: Seq<char>, i: int, ds: Seq<char>, rest: Seq<char>)
    requires
        0 <= i <= s.len(),
        s.skip(i) == ds + rest,
        forall|k: int| 0 <= k < ds.len() ==> spec_is_digit(#[trigger] ds[k]),
        rest.len() == 0 || !spec_is_digit(rest[0]),
    ensures
        sp_digit_run(s, i) == (ds, i + ds.len()),
    decreases ds.len(),
{
    broadcast use vstd::seq_lib::group_seq_properties;

    if ds.len() == 0 {
        if i < s.len() {
            assert(s[i] == s.skip(i)[0]);
            assert(s[i] == rest[0]);
        }
    } else {
        assert(s.skip(i).len() == s.len() - i);
        assert(s.skip(i)[0] == (ds + rest)[0]);
        assert(s[i] == ds[0]);
        assert forall|k: int|
            0 <= k < s.len() - i - 1 implies s.skip(i + 1)[k] == (ds.skip(1) + rest)[k] by {
            assert(s.skip(i + 1)[k] == s[i + 1 + k]);
            assert(s[i + 1 + k] == s.skip(i)[1 + k]);
            assert(s.skip(i)[1 + k] == (ds + rest)[1 + k]);
        }
        assert(s.skip(i + 1) =~= ds.skip(1) + rest);
        lemma_sp_digit_run(s, i + 1, ds.skip(1), rest);
        assert(seq![s[i]] + ds.skip(1) =~= ds);
    }
}

/// Parsing the canonical encoding of an integer yields the integer, when
/// what follows does not begin with a digit.
pub proof fn lemma_sp_int_enc(s: Seq<char>, i: int, n: int, rest: Seq<char>)
    requires
        0 <= i <= s.len(),
        s.skip(i) == enc_int(n) + rest,
        rest.len() == 0 || !spec_is_digit(rest[0]),
        -spec_pow10(37) < n < spec_pow10(37),
    ensures
        sp_int(s, i) == Some((n, i + enc_int(n).len())),
{
    broadcast use vstd::seq_lib::group_seq_properties;

    if n < 0 {
        lemma_dec_digits_props(-n);
        assert(s.skip(i)[0] == '-');
        assert(s[i] == '-');
        assert(s.skip(i + 1) =~= spec_dec_digits(-n) + rest);
        lemma_sp_digit_run(s, i + 1, spec_dec_digits(-n), rest);
    } else {
        lemma_dec_digits_props(n);
        assert(s.skip(i)[0] == spec_dec_digits(n)[0]);
        assert(s[i] == spec_dec_digits(n)[0]);
        assert(spec_is_digit(s[i]));
        assert(s[i] != '-');
        lemma_sp_digit_run(s, i, spec_dec_digits(n), rest);
    }
}

/// Consuming a literal the input starts with succeeds.
pub proof fn lemma_sp_lit(s: Seq<char>, i: int, lit: Seq<char>, rest: Seq<char>)
    requires
        0 <= i <= s.len(),
        s.skip(i) == lit + rest,
    ensures
        sp_lit(s, i, lit) == Some((i + lit.len()) as int),
{
    broadcast use vstd::seq_lib::group_seq_properties;

    assert(s.skip(i).len() == s.len() - i);
    assert forall|k: int| 0 <= k < lit.len() implies s[i + k] == lit[k] by {
        assert(s.skip(i)[k] == (lit + rest)[k]);
    }
    assert(s.subrange(i, i + lit.len()) =~= lit);
}

/// Parsing the encoding of one string-body character and then a suffix.
proof fn lemma_sp_str_body_enc(s: Seq<char>, i: int, v: Seq<char>, rest: Seq<char>)
    requires
        0 <= i <= s.len(),
        s.skip(i) == enc_str_body(v) + seq!['"'] + rest,
    ensures
        sp_str_body(s, i) == Some((v, i + enc_str_body(v).len() + 1)),
    decreases v.len(),
{
    broadcast use vstd::seq_lib::group_seq_properties;

    assert(s.skip(i).len() == s.len() - i);
    if v.len() == 0 {
        assert(enc_str_body(v) =~= Seq::<char>::empty());
        assert(s.skip(i)[0] == (enc_str_body(v) + seq!['"'] + rest)[0]);
        assert(s[i] == '"');
    } else {
        let c = v[0];
        let e = enc_char(c);
        assert(enc_str_body(v) == e + enc_str_body(v.skip(1)));
        let whole = e + enc_str_body(v.skip(1)) + seq!['"'] + rest;
        assert(s.skip(i) =~= whole);
        let i2 = i + e.len();
        assert(e.len() >= 1);
        assert forall|k: int| 0 <= k < e.len() implies s[i + k] == e[k] by {
            assert(s.skip(i)[k] == whole[k]);
        }
        assert forall|k: int|
            0 <= k < s.len() - i2 implies s.skip(i2)[k] == (enc_str_body(v.skip(1)) + seq!['"']
                + rest)[k] by {
            assert(s.skip(i2)[k] == s[i2 + k]);
            assert(s[i2 + k] == s.skip(i)[e.len() + k]);
            assert(s.skip(i)[e.len() + k] == whole[e.len() + k]);
        }
        assert(s.skip(i2) =~= enc_str_body(v.skip(1)) + seq!['"'] + rest);
        lemma_sp_str_body_enc(s, i2, v.skip(1), rest);
        if c == '"' {
            assert(s[i] == '\\' && s[i + 1] == '"');
            assert(seq![s[i + 1]] + v.skip(1) =~= v);
        } else if c == '\\' {
            assert(s[i] == '\\' && s[i + 1] == '\\');
            assert(seq![s[i + 1]] + v.skip(1) =~= v);
        } else if spec_code_of(c) < 32 {
            let code = spec_code_of(c);
            assert(s[i] == '\\' && s[i + 1] == 'u' && s[i + 2] == '0' && s[i + 3] == '0');
            assert(s[i + 4] == spec_digit_char(code / 16));
            assert(s[i + 5] == spec_hex_char(code % 16));
            assert(spec_is_hex_low(s[i + 4]) && spec_is_hex_low(s[i + 5]));
            let hv = spec_hex_val(s[i + 4]) * 16 + spec_hex_val(s[i + 5]);
            assert(hv == code) by {
                vstd::arithmetic::div_mod::lemma_fundamental_div_mod(code, 16);
                vstd::arithmetic::div_mod::lemma_mod_division_less_than_divisor(code, 16);
                assert(code >= 0);
                assert(code / 16 == 0 || code / 16 == 1);
                assert(spec_hex_val(spec_digit_char(code / 16)) == code / 16);
                assert(spec_hex_val(spec_hex_char(code % 16)) == code % 16);
            }
            let c2 = spec_char_of_code(hv);
            assert(spec_code_of(c2) == hv) by {
                assert(spec_code_of(c) == hv);
            }
            assert(c2 == c) by {
                vstd::utf8::char_u32_cast(c, c as u32);
                vstd::utf8::char_u32_cast(c2, c2 as u32);
                assert(c2 as u32 == c as u32);
            }
            assert(seq![c2] + v.skip(1) =~= v);
        } else {
            assert(s[i] == c);
            assert(s[i] != '"' && s[i] != '\\');
            assert(seq![s[i]] + v.skip(1) =~= v);
        }
    }
}

/// Splitting off a known prefix of the input: positions shift by its length.
pub proof fn lemma_chain(s: Seq<char>, i: int, a: Seq<char>, b: Seq<char>)
    requires
        0 <= i <= s.len(),
        s.skip(i) == a + b,
    ensures
        0 <= i + a.len() <= s.len(),
        s.skip(i + a.len()) == b,
        forall|k: int| 0 <= k < a.len() ==> s[i + k] == a[k],
        forall|k: int| 0 <= k < b.len() ==> s[i + a.len() + k] == b[k],
        s.len() == i + a.len() + b.len(),
{
    broadcast use vstd::seq_lib::group_seq_properties;

    assert(s.skip(i).len() == s.len() - i);
    assert forall|k: int| 0 <= k < a.len() implies s[i + k] == a[k] by {
        assert(s.skip(i)[k] == (a + b)[k]);
    }
    assert forall|k: int| 0 <= k < b.len() implies s[i + a.len() + k] == b[k] by {
        assert(s.skip(i)[a.len() + k] == (a + b)[a.len() + k]);
    }
    assert forall|k: int|
        0 <= k < s.len() - i - a.len() implies s.skip(i + a.len())[k] == b[k] by {
        assert(s.skip(i + a.len())[k] == s[i + a.len() + k]);
    }
    assert(s.skip(i + a.len()) =~= b);
}

/// Concatenation of sequences associates.
pub proof fn lemma_concat_assoc<A>(a: Seq<A>, b: Seq<A>, c: Seq<A>)
    ensures
        (a + b) + c == a + (b + c),
{
    assert((a + b) + c =~= a + (b + c));
}

/// Any `i64` value lies well inside the 37-digit window the parser accepts.
pub proof fn lemma_i64_in_pow37(n: int)
    requires
        -0x8000000000000000 <= n <= 0xffffffffffffffff,
    ensures
        -spec_pow10(37) < n < spec_pow10(37),
{
    assert(spec_pow10(0) == 1);
    assert(spec_pow10(1) == 10);
    assert(spec_pow10(2) == 100);
    assert(spec_pow10(3) == 1000);
    assert(spec_pow10(4) == 10000);
    assert(spec_pow10(5) == 100000);
    assert(spec_pow10(6) == 1000000);
    assert(spec_pow10(7) == 10000000);
    assert(spec_pow10(8) == 100000000);
    assert(spec_pow10(9) == 1000000000);
    assert(spec_pow10(10) == 10000000000);
    assert(spec_pow10(11) == 100000000000);
    assert(spec_pow10(12) == 1000000000000);
    assert(spec_pow10(13) == 10000000000000);
    assert(spec_pow10(14) == 100000000000000);
    assert(spec_pow10(15) == 1000000000000000);
    assert(spec_pow10(16) == 10000000000000000);
    assert(spec_pow10(17) == 100000000000000000);
    assert(spec_pow10(18) == 1000000000000000000);
    assert(spec_pow10(19) == 10000000000000000000);
    assert(spec_pow10(20) == 100000000000000000000);
    lemma_pow10_mono(20, 37);
}

/// Parsing the canonical encoding of a string yields the string.
pub proof fn lemma_sp_string_enc(s: Seq<char>, i: int, v: Seq<char>, rest: Seq<char>)
    requires
        0 <= i <= s.len(),
        s.skip(i) == enc_string(v) + rest,
    ensures
        sp_string(s, i) == Some((v, i + enc_string(v).len())),
{
    broadcast use vstd::seq_lib::group_seq_properties;

    assert(s.skip(i).len() == s.len() - i);
    assert(enc_string(v) == seq!['"'] + (enc_str_body(v) + seq!['"']));
    assert(s.skip(i)[0] == (enc_string(v) + rest)[0]);
    assert(s[i] == '"');
    assert forall|k: int|
        0 <= k < s.len() - i - 1 implies s.skip(i + 1)[k] == (enc_str_body(v) + seq!['"']
            + rest)[k] by {
        assert(s.skip(i + 1)[k] == s[i + 1 + k]);
        assert(s[i + 1 + k] == s.skip(i)[1 + k]);
        assert(s.skip(i)[1 + k] == (enc_string(v) + rest)[1 + k]);
    }
    assert(s.skip(i + 1) =~= enc_str_body(v) + seq!['"'] + rest);
    lemma_sp_str_body_enc(s, i + 1, v, rest);
}

/// Parsing the canonical encoding of a boolean yields the boolean.
pub proof fn lemma_sp_bool_enc(s: Seq<char>, i: int, b: bool, rest: Seq<char>)
    requires
        0 <= i <= s.len(),
        s.skip(i) == enc_bool(b) + rest,
    ensures
        sp_bool(s, i) == Some((b, i + enc_bool(b).len())),
{
    reveal_strlit("true");
    reveal_strlit("false");
    lemma_chain(s, i, enc_bool(b), rest);
    lemma_sp_lit(s, i, enc_bool(b), rest);
    if b {
        assert(s[i] == "true"@[0]);
    } else {
        assert(s[i] == "false"@[0]);
        assert(s[i] != 't');
    }
}

/// Parsing the canonical encoding of an optional integer, followed by a
/// non-digit, yields the value.
pub proof fn lemma_sp_opt_i64_enc(s: Seq<char>, i: int, o: Option<i64>, rest: Seq<char>)
    requires
        0 <= i <= s.len(),
        s.skip(i) == enc_opt_int(o) + rest,
        rest.len() >= 1,
        !spec_is_digit(rest[0]),
    ensures
        sp_opt_i64(s, i) == Some((o, i + enc_opt_int(o).len())),
{
    reveal_strlit("null");
    lemma_chain(s, i, enc_opt_int(o), rest);
    match o {
        None => {
            lemma_sp_lit(s, i, "null"@, rest);
            assert(s[i] == "null"@[0]);
        },
        Some(n) => {
            lemma_i64_in_pow37(n as int);
            lemma_sp_int_enc(s, i, n as int, rest);
            if n < 0 {
                assert(s[i] == enc_int(n as int)[0]);
                assert(s[i] == '-');
            } else {
                lemma_dec_digits_props(n as int);
                assert(s[i] == enc_int(n as int)[0]);
                assert(spec_is_digit(s[i]));
            }
            assert(s[i] != 'n');
        },
    }
}

/// Parsing the canonical encoding of an optional string yields the value.
pub proof fn lemma_sp_opt_string_enc(s: Seq<char>, i: int, o: Option<Seq<char>>, rest: Seq<char>)
    requires
        0 <= i <= s.len(),
        s.skip(i) == enc_opt_string(o) + rest,
    ensures
        sp_opt_string(s, i) == Some((o, i + enc_opt_string(o).len())),
{
    reveal_strlit("null");
    lemma_chain(s, i, enc_opt_string(o), rest);
    match o {
        None => {
            lemma_sp_lit(s, i, "null"@, rest);
            assert(s[i] == "null"@[0]);
        },
        Some(v) => {
            lemma_sp_string_enc(s, i, v, rest);
            assert(s[i] == enc_string(v)[0]);
            assert(s[i] == '"');
        },
    }
}

/// Parsing the canonical encoding of an `i64` followed by a non-digit
/// yields the value.
pub proof fn lemma_sp_i64_enc(s: Seq<char>, i: int, n: i64, rest: Seq<char>)
    requires
        0 <= i <= s.len(),
        s.skip(i) == enc_int(n as int) + rest,
        rest.len() >= 1,
        !spec_is_digit(rest[0]),
    ensures
        sp_i64(s, i) == Some((n, i + enc_int(n as int).len())),
{
    lemma_i64_in_pow37(n as int);
    lemma_sp_int_enc(s, i, n as int, rest);
}

/// Parsing the canonical encoding of a `u8` followed by a non-digit yields
/// the value.
pub proof fn lemma_sp_u8_enc(s: Seq<char>, i: int, n: u8, rest: Seq<char>)
    requires
        0 <= i <= s.len(),
        s.skip(i) == enc_int(n as int) + rest,
        rest.len() >= 1,
        !spec_is_digit(rest[0]),
    ensures
        sp_u8(s, i) == Some((n, i + enc_int(n as int).len())),
{
    lemma_i64_in_pow37(n as int);
    lemma_sp_int_enc(s, i, n as int, rest);
}

} // verus!

