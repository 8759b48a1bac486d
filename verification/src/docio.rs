//! Executable encoder and parser for the persisted task document, each
//! verified against the spec-level layout of the codec modules.

use vstd::prelude::*;

use crate::codec::{
    enc_bool, enc_int, enc_opt_int, enc_opt_string, enc_string, lemma_dec_digits_props,
    lemma_sp_digit_run, lemma_val_of_bound, sp_bool, sp_digit_run, sp_i64, sp_int, sp_lit,
    sp_opt_i64, sp_opt_string, sp_str_body, sp_string, sp_u8, spec_char_of_code, spec_code_of,
    spec_dec_digits, spec_digit_char, spec_digit_val, spec_hex_char, spec_hex_val, spec_is_digit,
    spec_is_hex_low, spec_pow10, spec_val_of, enc_char, enc_str_body, lemma_pow10_mono,
};
use crate::codec::{lemma_concat_assoc};
use crate::docjson::{
    enc_day_items, enc_kind, enc_project, enc_project_items, enc_reminder, enc_repeat, enc_step,
    enc_step_items, enc_tag_items, enc_task, enc_task_items, enc_tasks_file, sp_day_items,
    sp_kind, sp_project, sp_project_items, sp_reminder, sp_repeat, sp_step, sp_step_items,
    sp_tag_items, sp_task, sp_task_items, sp_tasks_file,
};
use crate::models::{
    Project, ProjectView, ReminderConfig, ReminderKind, RepeatRule, Step, StepView, Task,
    TaskView, TasksFile,
};
use vstd::string::StrSliceExecFns;

verus! {

/// Relies on `FromIterator for String`: the characters collected into a
/// string, in order.
#[verifier::external_body]
pub fn string_from_chars(v: &Vec<char>) -> (r: String)
    ensures
        r@ == v@,
{
    v.iter().collect()
}

/// Relies on `str::chars`: the characters of the string, in order.
#[verifier::external_body]
pub fn chars_of_string(s: &str) -> (r: Vec<char>)
    ensures
        r@ == s@,
{
    s.chars().collect()
}

/// Append every character of a literal.
pub(crate) fn push_lit(out: &mut Vec<char>, lit: &str)
    ensures
        final(out)@ == old(out)@ + lit@,
{
    let n = lit.unicode_len();
    let mut i: usize = 0;
    while i < n
        invariant
            0 <= i <= n,
            n == lit@.len(),
            out@ == old(out)@ + lit@.take(i as int),
        decreases n - i,
    {
        let c = lit.get_char(i);
        out.push(c);
        i = i + 1;
        proof {
            assert(lit@.take(i as int) =~= lit@.take(i - 1).push(lit@[i - 1]));
            assert(out@ =~= old(out)@ + lit@.take(i as int));
        }
    }
    proof {
        assert(lit@.take(n as int) =~= lit@);
    }
}

/// The decimal digit character for a value below ten.
fn digit_char_of(d: u8) -> (c: char)
    requires
        d < 10,
    ensures
        c == spec_digit_char(d as int),
{
    if d == 0 {
        '0'
    } else if d == 1 {
        '1'
    } else if d == 2 {
        '2'
    } else if d == 3 {
        '3'
    } else if d == 4 {
        '4'
    } else if d == 5 {
        '5'
    } else if d == 6 {
        '6'
    } else if d == 7 {
        '7'
    } else if d == 8 {
        '8'
    } else {
        '9'
    }
}

/// The lowercase hexadecimal digit character for a value below sixteen.
fn hex_char_of(d: u8) -> (c: char)
    requires
        d < 16,
    ensures
        c == spec_hex_char(d as int),
{
    if d < 10 {
        digit_char_of(d)
    } else if d == 10 {
        'a'
    } else if d == 11 {
        'b'
    } else if d == 12 {
        'c'
    } else if d == 13 {
        'd'
    } else if d == 14 {
        'e'
    } else {
        'f'
    }
}

/// Append the decimal digits of a non-negative number.
fn push_dec(out: &mut Vec<char>, n: u128)
    ensures
        final(out)@ == old(out)@ + spec_dec_digits(n as int),
    decreases n,
{
    if n < 10 {
        let c = digit_char_of(n as u8);
        out.push(c);
        proof {
            assert(out@ =~= old(out)@ + spec_dec_digits(n as int));
        }
    } else {
        push_dec(out, n / 10);
        let c = digit_char_of((n % 10) as u8);
        out.push(c);
        proof {
            assert((n as int) / 10 == (n / 10) as int);
            assert((n as int) % 10 == (n % 10) as int);
            assert(out@ =~= old(out)@ + spec_dec_digits(n as int));
        }
    }
}

/// Append the canonical decimal text of an integer.
pub(crate) fn push_int(out: &mut Vec<char>, n: i64)
    ensures
        final(out)@ == old(out)@ + enc_int(n as int),
{
    if n < 0 {
        out.push('-');
        let mag: u128 = ((-(n + 1)) as u128) + 1;
        proof {
            assert(mag as int == -(n as int));
        }
        push_dec(out, mag);
        proof {
            assert(out@ =~= old(out)@ + enc_int(n as int));
        }
    } else {
        push_dec(out, n as u128);
    }
}

/// Append a quoted, escaped string.
fn push_string(out: &mut Vec<char>, s: &String)
    ensures
        final(out)@ == old(out)@ + enc_string(s@),
{
    out.push('"');
    let n = s.as_str().unicode_len();
    let mut i: usize = 0;
    while i < n
        invariant
            0 <= i <= n,
            n == s@.len(),
            out@ == old(out)@ + seq!['"'] + enc_str_body(s@.take(i as int)),
        decreases n - i,
    {
        let ghost pre = s@.take(i as int);
        let c = s.as_str().get_char(i);
        if c == '"' {
            out.push('\\');
            out.push('"');
        } else if c == '\\' {
            out.push('\\');
            out.push('\\');
        } else if (c as u32) < 32 {
            let code = c as u32;
            out.push('\\');
            out.push('u');
            out.push('0');
            out.push('0');
            let c1 = digit_char_of((code / 16) as u8);
            out.push(c1);
            let c2 = hex_char_of((code % 16) as u8);
            out.push(c2);
            proof {
                assert(spec_code_of(c) == code as int);
                assert((code as int) / 16 == (code / 16) as int);
                assert((code as int) % 16 == (code % 16) as int);
            }
        } else {
            out.push(c);
        }
        i = i + 1;
        proof {
            lemma_enc_str_body_snoc(pre, c);
            assert(s@.take(i as int) =~= pre.push(c));
            assert(out@ =~= old(out)@ + seq!['"'] + enc_str_body(s@.take(i as int)));
        }
    }
    out.push('"');
    proof {
        assert(s@.take(n as int) =~= s@);
        assert(out@ =~= old(out)@ + enc_string(s@));
    }
}

/// Encoding a string body one character longer appends that character's
/// encoding.
proof fn lemma_enc_str_body_snoc(t: Seq<char>, c: char)
    ensures
        enc_str_body(t.push(c)) == enc_str_body(t) + enc_char(c),
    decreases t.len(),
{
    if t.len() == 0 {
        assert(t.push(c).skip(1) =~= Seq::<char>::empty());
        assert(t.push(c)[0] == c);
        assert(enc_str_body(t.push(c)) == enc_char(c) + enc_str_body(t.push(c).skip(1)));
        assert(enc_str_body(Seq::<char>::empty()) == Seq::<char>::empty());
        assert(enc_str_body(t) == Seq::<char>::empty());
        assert(enc_str_body(t.push(c)) =~= enc_str_body(t) + enc_char(c));
    } else {
        lemma_enc_str_body_snoc(t.skip(1), c);
        assert(t.push(c).skip(1) =~= t.skip(1).push(c));
        assert(t.push(c)[0] == t[0]);
        assert(enc_str_body(t.push(c)) == enc_char(t[0]) + enc_str_body(t.skip(1).push(c)));
        assert(enc_str_body(t.skip(1).push(c)) == enc_str_body(t.skip(1)) + enc_char(c));
        crate::codec::lemma_concat_assoc(enc_char(t[0]), enc_str_body(t.skip(1)), enc_char(c));
    }
}

/// Append `true` or `false`.
fn push_bool(out: &mut Vec<char>, b: bool)
    ensures
        final(out)@ == old(out)@ + enc_bool(b),
{
    if b {
        push_lit(out, "true");
    } else {
        push_lit(out, "false");
    }
}

/// Append `null` or an integer.
fn push_opt_int(out: &mut Vec<char>, o: &Option<i64>)
    ensures
        final(out)@ == old(out)@ + enc_opt_int(*o),
{
    match o {
        Some(n) => push_int(out, *n),
        None => push_lit(out, "null"),
    }
}

/// Append `null` or a quoted string.
fn push_opt_string(out: &mut Vec<char>, o: &Option<String>)
    ensures
        final(out)@ == old(out)@ + enc_opt_string(o.deep_view()),
{
    match o {
        Some(s) => push_string(out, s),
        None => push_lit(out, "null"),
    }
}

fn push_kind(out: &mut Vec<char>, k: ReminderKind)
    ensures
        final(out)@ == old(out)@ + enc_kind(k),
{
    match k {
        ReminderKind::NoReminder => push_lit(out, "\"none\""),
        ReminderKind::Normal => push_lit(out, "\"normal\""),
        ReminderKind::Forced => push_lit(out, "\"forced\""),
    }
}

#[verifier::rlimit(100)]
#[verifier::spinoff_prover]
fn push_reminder(out: &mut Vec<char>, rc: &ReminderConfig)
    ensures
        final(out)@ == old(out)@ + enc_reminder(*rc),
{
    push_lit(out, "{\"kind\":");
    push_kind(out, rc.kind);
    push_lit(out, ",\"remind_at\":");
    push_opt_int(out, &rc.remind_at);
    push_lit(out, ",\"snoozed_until\":");
    push_opt_int(out, &rc.snoozed_until);
    push_lit(out, ",\"forced_dismissed\":");
    push_bool(out, rc.forced_dismissed);
    push_lit(out, ",\"last_fired_at\":");
    push_opt_int(out, &rc.last_fired_at);
    push_lit(out, ",\"repeat_fired_count\":");
    push_int(out, rc.repeat_fired_count);
    push_lit(out, "}");
    proof {
        lemma_concat_assoc(old(out)@ + "{\"kind\":"@ + enc_kind(rc.kind) + ",\"remind_at\":"@ + enc_opt_int(rc.remind_at) + ",\"snoozed_until\":"@ + enc_opt_int(rc.snoozed_until) + ",\"forced_dismissed\":"@ + enc_bool(rc.forced_dismissed) + ",\"last_fired_at\":"@ + enc_opt_int(rc.last_fired_at) + ",\"repeat_fired_count\":"@, enc_int(rc.repeat_fired_count as int), "}"@);
        lemma_concat_assoc(old(out)@ + "{\"kind\":"@ + enc_kind(rc.kind) + ",\"remind_at\":"@ + enc_opt_int(rc.remind_at) + ",\"snoozed_until\":"@ + enc_opt_int(rc.snoozed_until) + ",\"forced_dismissed\":"@ + enc_bool(rc.forced_dismissed) + ",\"last_fired_at\":"@ + enc_opt_int(rc.last_fired_at), ",\"repeat_fired_count\":"@, enc_int(rc.repeat_fired_count as int) + ("}"@));
        lemma_concat_assoc(old(out)@ + "{\"kind\":"@ + enc_kind(rc.kind) + ",\"remind_at\":"@ + enc_opt_int(rc.remind_at) + ",\"snoozed_until\":"@ + enc_opt_int(rc.snoozed_until) + ",\"forced_dismissed\":"@ + enc_bool(rc.forced_dismissed) + ",\"last_fired_at\":"@, enc_opt_int(rc.last_fired_at), ",\"repeat_fired_count\":"@ + (enc_int(rc.repeat_fired_count as int) + ("}"@)));
        lemma_concat_assoc(old(out)@ + "{\"kind\":"@ + enc_kind(rc.kind) + ",\"remind_at\":"@ + enc_opt_int(rc.remind_at) + ",\"snoozed_until\":"@ + enc_opt_int(rc.snoozed_until) + ",\"forced_dismissed\":"@ + enc_bool(rc.forced_dismissed), ",\"last_fired_at\":"@, enc_opt_int(rc.last_fired_at) + (",\"repeat_fired_count\":"@ + (enc_int(rc.repeat_fired_count as int) + ("}"@))));
        lemma_concat_assoc(old(out)@ + "{\"kind\":"@ + enc_kind(rc.kind) + ",\"remind_at\":"@ + enc_opt_int(rc.remind_at) + ",\"snoozed_until\":"@ + enc_opt_int(rc.snoozed_until) + ",\"forced_dismissed\":"@, enc_bool(rc.forced_dismissed), ",\"last_fired_at\":"@ + (enc_opt_int(rc.last_fired_at) + (",\"repeat_fired_count\":"@ + (enc_int(rc.repeat_fired_count as int) + ("}"@)))));
        lemma_concat_assoc(old(out)@ + "{\"kind\":"@ + enc_kind(rc.kind) + ",\"remind_at\":"@ + enc_opt_int(rc.remind_at) + ",\"snoozed_until\":"@ + enc_opt_int(rc.snoozed_until), ",\"forced_dismissed\":"@, enc_bool(rc.forced_dismissed) + (",\"last_fired_at\":"@ + (enc_opt_int(rc.last_fired_at) + (",\"repeat_fired_count\":"@ + (enc_int(rc.repeat_fired_count as int) + ("}"@))))));
        lemma_concat_assoc(old(out)@ + "{\"kind\":"@ + enc_kind(rc.kind) + ",\"remind_at\":"@ + enc_opt_int(rc.remind_at) + ",\"snoozed_until\":"@, enc_opt_int(rc.snoozed_until), ",\"forced_dismissed\":"@ + (enc_bool(rc.forced_dismissed) + (",\"last_fired_at\":"@ + (enc_opt_int(rc.last_fired_at) + (",\"repeat_fired_count\":"@ + (enc_int(rc.repeat_fired_count as int) + ("}"@)))))));
        lemma_concat_assoc(old(out)@ + "{\"kind\":"@ + enc_kind(rc.kind) + ",\"remind_at\":"@ + enc_opt_int(rc.remind_at), ",\"snoozed_until\":"@, enc_opt_int(rc.snoozed_until) + (",\"forced_dismissed\":"@ + (enc_bool(rc.forced_dismissed) + (",\"last_fired_at\":"@ + (enc_opt_int(rc.last_fired_at) + (",\"repeat_fired_count\":"@ + (enc_int(rc.repeat_fired_count as int) + ("}"@))))))));
        lemma_concat_assoc(old(out)@ + "{\"kind\":"@ + enc_kind(rc.kind) + ",\"remind_at\":"@, enc_opt_int(rc.remind_at), ",\"snoozed_until\":"@ + (enc_opt_int(rc.snoozed_until) + (",\"forced_dismissed\":"@ + (enc_bool(rc.forced_dismissed) + (",\"last_fired_at\":"@ + (enc_opt_int(rc.last_fired_at) + (",\"repeat_fired_count\":"@ + (enc_int(rc.repeat_fired_count as int) + ("}"@)))))))));
        lemma_concat_assoc(old(out)@ + "{\"kind\":"@ + enc_kind(rc.kind), ",\"remind_at\":"@, enc_opt_int(rc.remind_at) + (",\"snoozed_until\":"@ + (enc_opt_int(rc.snoozed_until) + (",\"forced_dismissed\":"@ + (enc_bool(rc.forced_dismissed) + (",\"last_fired_at\":"@ + (enc_opt_int(rc.last_fired_at) + (",\"repeat_fired_count\":"@ + (enc_int(rc.repeat_fired_count as int) + ("}"@))))))))));
        lemma_concat_assoc(old(out)@ + "{\"kind\":"@, enc_kind(rc.kind), ",\"remind_at\":"@ + (enc_opt_int(rc.remind_at) + (",\"snoozed_until\":"@ + (enc_opt_int(rc.snoozed_until) + (",\"forced_dismissed\":"@ + (enc_bool(rc.forced_dismissed) + (",\"last_fired_at\":"@ + (enc_opt_int(rc.last_fired_at) + (",\"repeat_fired_count\":"@ + (enc_int(rc.repeat_fired_count as int) + ("}"@)))))))))));
        lemma_concat_assoc(old(out)@, "{\"kind\":"@, enc_kind(rc.kind) + (",\"remind_at\":"@ + (enc_opt_int(rc.remind_at) + (",\"snoozed_until\":"@ + (enc_opt_int(rc.snoozed_until) + (",\"forced_dismissed\":"@ + (enc_bool(rc.forced_dismissed) + (",\"last_fired_at\":"@ + (enc_opt_int(rc.last_fired_at) + (",\"repeat_fired_count\":"@ + (enc_int(rc.repeat_fired_count as int) + ("}"@))))))))))));
    }
}

fn push_day_items(out: &mut Vec<char>, items: &Vec<u8>, start: usize)
    requires
        start < items.len(),
    ensures
        final(out)@ == old(out)@ + enc_day_items(items@.skip(start as int)),
    decreases items.len() - start,
{
    let ghost whole = items@.skip(start as int);
    push_int(out, items[start] as i64);
    if start + 1 < items.len() {
        out.push(',');
        push_day_items(out, items, start + 1);
        proof {
            assert(whole[0] == items@[start as int]);
            assert(whole.skip(1) =~= items@.skip(start as int + 1));
            assert(enc_day_items(whole) == enc_int(whole[0] as int) + (seq![',']
                + enc_day_items(whole.skip(1))));
            lemma_concat_assoc(
                old(out)@,
                enc_int(items@[start as int] as int),
                seq![','] + enc_day_items(items@.skip(start as int + 1)),
            );
            lemma_concat_assoc(
                old(out)@ + enc_int(items@[start as int] as int),
                seq![','],
                enc_day_items(items@.skip(start as int + 1)),
            );
        }
    } else {
        proof {
            assert(whole.len() == 1);
            assert(whole[0] == items@[start as int]);
            assert(enc_day_items(whole) == enc_int(whole[0] as int));
        }
    }
}

#[verifier::rlimit(100)]
#[verifier::spinoff_prover]
fn push_repeat(out: &mut Vec<char>, r: &RepeatRule)
    ensures
        final(out)@ == old(out)@ + enc_repeat(r.deep_view()),
{
    match r {
        RepeatRule::NoRepeat => {
            push_lit(out, "{\"type\":\"none\"}");
        },
        RepeatRule::Daily { workday_only } => {
            push_lit(out, "{\"type\":\"daily\",\"workday_only\":");
            push_bool(out, *workday_only);
            push_lit(out, "}");
            proof {
                lemma_concat_assoc(
                    old(out)@,
                    "{\"type\":\"daily\",\"workday_only\":"@,
                    enc_bool(*workday_only) + ("}"@),
                );
                lemma_concat_assoc(
                    old(out)@ + "{\"type\":\"daily\",\"workday_only\":"@,
                    enc_bool(*workday_only),
                    "}"@,
                );
            }
        },
        RepeatRule::Weekly { days } => {
            push_lit(out, "{\"type\":\"weekly\",\"days\":[");
            if days.len() > 0 {
                push_day_items(out, days, 0);
                proof {
                    assert(days@.skip(0) =~= days@);
                    assert(days.deep_view() =~= days@);
                }
            } else {
                proof {
                    assert(days.deep_view() =~= days@);
                    assert(enc_day_items(days.deep_view()) =~= Seq::<char>::empty());
                }
            }
            push_lit(out, "]}");
            proof {
                assert(days.deep_view() =~= days@);
                lemma_concat_assoc(
                    old(out)@,
                    "{\"type\":\"weekly\",\"days\":["@,
                    enc_day_items(days.deep_view()) + ("]}"@),
                );
                lemma_concat_assoc(
                    old(out)@ + "{\"type\":\"weekly\",\"days\":["@,
                    enc_day_items(days.deep_view()),
                    "]}"@,
                );
                assert(final(out)@ =~= old(out)@ + enc_repeat(r.deep_view()));
            }
        },
        RepeatRule::Monthly { day } => {
            push_lit(out, "{\"type\":\"monthly\",\"day\":");
            push_int(out, *day as i64);
            push_lit(out, "}");
            proof {
                lemma_concat_assoc(
                    old(out)@,
                    "{\"type\":\"monthly\",\"day\":"@,
                    enc_int(*day as int) + ("}"@),
                );
                lemma_concat_assoc(
                    old(out)@ + "{\"type\":\"monthly\",\"day\":"@,
                    enc_int(*day as int),
                    "}"@,
                );
            }
        },
        RepeatRule::Yearly { month, day } => {
            push_lit(out, "{\"type\":\"yearly\",\"month\":");
            push_int(out, *month as i64);
            push_lit(out, ",\"day\":");
            push_int(out, *day as i64);
            push_lit(out, "}");
            proof {
                lemma_concat_assoc(
                    old(out)@,
                    "{\"type\":\"yearly\",\"month\":"@,
                    enc_int(*month as int) + (",\"day\":"@ + (enc_int(*day as int) + ("}"@))),
                );
                lemma_concat_assoc(
                    old(out)@ + "{\"type\":\"yearly\",\"month\":"@,
                    enc_int(*month as int),
                    ",\"day\":"@ + (enc_int(*day as int) + ("}"@)),
                );
                lemma_concat_assoc(
                    old(out)@ + "{\"type\":\"yearly\",\"month\":"@ + enc_int(*month as int),
                    ",\"day\":"@,
                    enc_int(*day as int) + ("}"@),
                );
                lemma_concat_assoc(
                    old(out)@ + "{\"type\":\"yearly\",\"month\":"@ + enc_int(*month as int)
                        + ",\"day\":"@,
                    enc_int(*day as int),
                    "}"@,
                );
            }
        },
    }
}

#[verifier::rlimit(100)]
#[verifier::spinoff_prover]
fn push_step(out: &mut Vec<char>, st: &Step)
    ensures
        final(out)@ == old(out)@ + enc_step(st.deep_view()),
{
    push_lit(out, "{\"id\":");
    push_string(out, &st.id);
    push_lit(out, ",\"title\":");
    push_string(out, &st.title);
    push_lit(out, ",\"completed\":");
    push_bool(out, st.completed);
    push_lit(out, ",\"created_at\":");
    push_int(out, st.created_at);
    push_lit(out, ",\"completed_at\":");
    push_opt_int(out, &st.completed_at);
    push_lit(out, "}");
    proof {
        lemma_concat_assoc(old(out)@ + "{\"id\":"@ + enc_string(st.id@) + ",\"title\":"@ + enc_string(st.title@) + ",\"completed\":"@ + enc_bool(st.completed) + ",\"created_at\":"@ + enc_int(st.created_at as int) + ",\"completed_at\":"@, enc_opt_int(st.completed_at), "}"@);
        lemma_concat_assoc(old(out)@ + "{\"id\":"@ + enc_string(st.id@) + ",\"title\":"@ + enc_string(st.title@) + ",\"completed\":"@ + enc_bool(st.completed) + ",\"created_at\":"@ + enc_int(st.created_at as int), ",\"completed_at\":"@, enc_opt_int(st.completed_at) + ("}"@));
        lemma_concat_assoc(old(out)@ + "{\"id\":"@ + enc_string(st.id@) + ",\"title\":"@ + enc_string(st.title@) + ",\"completed\":"@ + enc_bool(st.completed) + ",\"created_at\":"@, enc_int(st.created_at as int), ",\"completed_at\":"@ + (enc_opt_int(st.completed_at) + ("}"@)));
        lemma_concat_assoc(old(out)@ + "{\"id\":"@ + enc_string(st.id@) + ",\"title\":"@ + enc_string(st.title@) + ",\"completed\":"@ + enc_bool(st.completed), ",\"created_at\":"@, enc_int(st.created_at as int) + (",\"completed_at\":"@ + (enc_opt_int(st.completed_at) + ("}"@))));
        lemma_concat_assoc(old(out)@ + "{\"id\":"@ + enc_string(st.id@) + ",\"title\":"@ + enc_string(st.title@) + ",\"completed\":"@, enc_bool(st.completed), ",\"created_at\":"@ + (enc_int(st.created_at as int) + (",\"completed_at\":"@ + (enc_opt_int(st.completed_at) + ("}"@)))));
        lemma_concat_assoc(old(out)@ + "{\"id\":"@ + enc_string(st.id@) + ",\"title\":"@ + enc_string(st.title@), ",\"completed\":"@, enc_bool(st.completed) + (",\"created_at\":"@ + (enc_int(st.created_at as int) + (",\"completed_at\":"@ + (enc_opt_int(st.completed_at) + ("}"@))))));
        lemma_concat_assoc(old(out)@ + "{\"id\":"@ + enc_string(st.id@) + ",\"title\":"@, enc_string(st.title@), ",\"completed\":"@ + (enc_bool(st.completed) + (",\"created_at\":"@ + (enc_int(st.created_at as int) + (",\"completed_at\":"@ + (enc_opt_int(st.completed_at) + ("}"@)))))));
        lemma_concat_assoc(old(out)@ + "{\"id\":"@ + enc_string(st.id@), ",\"title\":"@, enc_string(st.title@) + (",\"completed\":"@ + (enc_bool(st.completed) + (",\"created_at\":"@ + (enc_int(st.created_at as int) + (",\"completed_at\":"@ + (enc_opt_int(st.completed_at) + ("}"@))))))));
        lemma_concat_assoc(old(out)@ + "{\"id\":"@, enc_string(st.id@), ",\"title\":"@ + (enc_string(st.title@) + (",\"completed\":"@ + (enc_bool(st.completed) + (",\"created_at\":"@ + (enc_int(st.created_at as int) + (",\"completed_at\":"@ + (enc_opt_int(st.completed_at) + ("}"@)))))))));
        lemma_concat_assoc(old(out)@, "{\"id\":"@, enc_string(st.id@) + (",\"title\":"@ + (enc_string(st.title@) + (",\"completed\":"@ + (enc_bool(st.completed) + (",\"created_at\":"@ + (enc_int(st.created_at as int) + (",\"completed_at\":"@ + (enc_opt_int(st.completed_at) + ("}"@))))))))));
    }
}

fn push_step_items(out: &mut Vec<char>, items: &Vec<Step>, start: usize)
    requires
        start < items.len(),
    ensures
        final(out)@ == old(out)@ + enc_step_items(items.deep_view().skip(start as int)),
    decreases items.len() - start,
{
    let ghost whole = items.deep_view().skip(start as int);
    push_step(out, &items[start]);
    if start + 1 < items.len() {
        out.push(',');
        push_step_items(out, items, start + 1);
        proof {
            assert(whole[0] == items.deep_view()[start as int]);
            assert(whole.skip(1) =~= items.deep_view().skip(start as int + 1));
            lemma_concat_assoc(
                old(out)@,
                enc_step(whole[0]),
                seq![','] + enc_step_items(whole.skip(1)),
            );
            lemma_concat_assoc(
                old(out)@ + enc_step(whole[0]),
                seq![','],
                enc_step_items(whole.skip(1)),
            );
            assert(final(out)@ =~= old(out)@ + enc_step_items(whole));
        }
    } else {
        proof {
            assert(whole.len() == 1);
            assert(whole[0] == items.deep_view()[start as int]);
            assert(final(out)@ =~= old(out)@ + enc_step_items(whole));
        }
    }
}

fn push_tag_items(out: &mut Vec<char>, items: &Vec<String>, start: usize)
    requires
        start < items.len(),
    ensures
        final(out)@ == old(out)@ + enc_tag_items(items.deep_view().skip(start as int)),
    decreases items.len() - start,
{
    let ghost whole = items.deep_view().skip(start as int);
    push_string(out, &items[start]);
    if start + 1 < items.len() {
        out.push(',');
        push_tag_items(out, items, start + 1);
        proof {
            assert(whole[0] == items.deep_view()[start as int]);
            assert(whole.skip(1) =~= items.deep_view().skip(start as int + 1));
            lemma_concat_assoc(
                old(out)@,
                enc_string(whole[0]),
                seq![','] + enc_tag_items(whole.skip(1)),
            );
            lemma_concat_assoc(
                old(out)@ + enc_string(whole[0]),
                seq![','],
                enc_tag_items(whole.skip(1)),
            );
            assert(final(out)@ =~= old(out)@ + enc_tag_items(whole));
        }
    } else {
        proof {
            assert(whole.len() == 1);
            assert(whole[0] == items.deep_view()[start as int]);
            assert(final(out)@ =~= old(out)@ + enc_tag_items(whole));
        }
    }
}

#[verifier::rlimit(100)]
#[verifier::spinoff_prover]
fn push_project(out: &mut Vec<char>, p: &Project)
    ensures
        final(out)@ == old(out)@ + enc_project(p.deep_view()),
{
    push_lit(out, "{\"id\":");
    push_string(out, &p.id);
    push_lit(out, ",\"name\":");
    push_string(out, &p.name);
    push_lit(out, ",\"pinned\":");
    push_bool(out, p.pinned);
    push_lit(out, ",\"sort_order\":");
    push_int(out, p.sort_order);
    push_lit(out, ",\"created_at\":");
    push_int(out, p.created_at);
    push_lit(out, ",\"updated_at\":");
    push_int(out, p.updated_at);
    push_lit(out, ",\"sample_tag\":");
    push_opt_string(out, &p.sample_tag);
    push_lit(out, "}");
    proof {
        lemma_concat_assoc(old(out)@ + "{\"id\":"@ + enc_string(p.id@) + ",\"name\":"@ + enc_string(p.name@) + ",\"pinned\":"@ + enc_bool(p.pinned) + ",\"sort_order\":"@ + enc_int(p.sort_order as int) + ",\"created_at\":"@ + enc_int(p.created_at as int) + ",\"updated_at\":"@ + enc_int(p.updated_at as int) + ",\"sample_tag\":"@, enc_opt_string(p.sample_tag.deep_view()), "}"@);
        lemma_concat_assoc(old(out)@ + "{\"id\":"@ + enc_string(p.id@) + ",\"name\":"@ + enc_string(p.name@) + ",\"pinned\":"@ + enc_bool(p.pinned) + ",\"sort_order\":"@ + enc_int(p.sort_order as int) + ",\"created_at\":"@ + enc_int(p.created_at as int) + ",\"updated_at\":"@ + enc_int(p.updated_at as int), ",\"sample_tag\":"@, enc_opt_string(p.sample_tag.deep_view()) + ("}"@));
        lemma_concat_assoc(old(out)@ + "{\"id\":"@ + enc_string(p.id@) + ",\"name\":"@ + enc_string(p.name@) + ",\"pinned\":"@ + enc_bool(p.pinned) + ",\"sort_order\":"@ + enc_int(p.sort_order as int) + ",\"created_at\":"@ + enc_int(p.created_at as int) + ",\"updated_at\":"@, enc_int(p.updated_at as int), ",\"sample_tag\":"@ + (enc_opt_string(p.sample_tag.deep_view()) + ("}"@)));
        lemma_concat_assoc(old(out)@ + "{\"id\":"@ + enc_string(p.id@) + ",\"name\":"@ + enc_string(p.name@) + ",\"pinned\":"@ + enc_bool(p.pinned) + ",\"sort_order\":"@ + enc_int(p.sort_order as int) + ",\"created_at\":"@ + enc_int(p.created_at as int), ",\"updated_at\":"@, enc_int(p.updated_at as int) + (",\"sample_tag\":"@ + (enc_opt_string(p.sample_tag.deep_view()) + ("}"@))));
        lemma_concat_assoc(old(out)@ + "{\"id\":"@ + enc_string(p.id@) + ",\"name\":"@ + enc_string(p.name@) + ",\"pinned\":"@ + enc_bool(p.pinned) + ",\"sort_order\":"@ + enc_int(p.sort_order as int) + ",\"created_at\":"@, enc_int(p.created_at as int), ",\"updated_at\":"@ + (enc_int(p.updated_at as int) + (",\"sample_tag\":"@ + (enc_opt_string(p.sample_tag.deep_view()) + ("}"@)))));
        lemma_concat_assoc(old(out)@ + "{\"id\":"@ + enc_string(p.id@) + ",\"name\":"@ + enc_string(p.name@) + ",\"pinned\":"@ + enc_bool(p.pinned) + ",\"sort_order\":"@ + enc_int(p.sort_order as int), ",\"created_at\":"@, enc_int(p.created_at as int) + (",\"updated_at\":"@ + (enc_int(p.updated_at as int) + (",\"sample_tag\":"@ + (enc_opt_string(p.sample_tag.deep_view()) + ("}"@))))));
        lemma_concat_assoc(old(out)@ + "{\"id\":"@ + enc_string(p.id@) + ",\"name\":"@ + enc_string(p.name@) + ",\"pinned\":"@ + enc_bool(p.pinned) + ",\"sort_order\":"@, enc_int(p.sort_order as int), ",\"created_at\":"@ + (enc_int(p.created_at as int) + (",\"updated_at\":"@ + (enc_int(p.updated_at as int) + (",\"sample_tag\":"@ + (enc_opt_string(p.sample_tag.deep_view()) + ("}"@)))))));
        lemma_concat_assoc(old(out)@ + "{\"id\":"@ + enc_string(p.id@) + ",\"name\":"@ + enc_string(p.name@) + ",\"pinned\":"@ + enc_bool(p.pinned), ",\"sort_order\":"@, enc_int(p.sort_order as int) + (",\"created_at\":"@ + (enc_int(p.created_at as int) + (",\"updated_at\":"@ + (enc_int(p.updated_at as int) + (",\"sample_tag\":"@ + (enc_opt_string(p.sample_tag.deep_view()) + ("}"@))))))));
        lemma_concat_assoc(old(out)@ + "{\"id\":"@ + enc_string(p.id@) + ",\"name\":"@ + enc_string(p.name@) + ",\"pinned\":"@, enc_bool(p.pinned), ",\"sort_order\":"@ + (enc_int(p.sort_order as int) + (",\"created_at\":"@ + (enc_int(p.created_at as int) + (",\"updated_at\":"@ + (enc_int(p.updated_at as int) + (",\"sample_tag\":"@ + (enc_opt_string(p.sample_tag.deep_view()) + ("}"@)))))))));
        lemma_concat_assoc(old(out)@ + "{\"id\":"@ + enc_string(p.id@) + ",\"name\":"@ + enc_string(p.name@), ",\"pinned\":"@, enc_bool(p.pinned) + (",\"sort_order\":"@ + (enc_int(p.sort_order as int) + (",\"created_at\":"@ + (enc_int(p.created_at as int) + (",\"updated_at\":"@ + (enc_int(p.updated_at as int) + (",\"sample_tag\":"@ + (enc_opt_string(p.sample_tag.deep_view()) + ("}"@))))))))));
        lemma_concat_assoc(old(out)@ + "{\"id\":"@ + enc_string(p.id@) + ",\"name\":"@, enc_string(p.name@), ",\"pinned\":"@ + (enc_bool(p.pinned) + (",\"sort_order\":"@ + (enc_int(p.sort_order as int) + (",\"created_at\":"@ + (enc_int(p.created_at as int) + (",\"updated_at\":"@ + (enc_int(p.updated_at as int) + (",\"sample_tag\":"@ + (enc_opt_string(p.sample_tag.deep_view()) + ("}"@)))))))))));
        lemma_concat_assoc(old(out)@ + "{\"id\":"@ + enc_string(p.id@), ",\"name\":"@, enc_string(p.name@) + (",\"pinned\":"@ + (enc_bool(p.pinned) + (",\"sort_order\":"@ + (enc_int(p.sort_order as int) + (",\"created_at\":"@ + (enc_int(p.created_at as int) + (",\"updated_at\":"@ + (enc_int(p.updated_at as int) + (",\"sample_tag\":"@ + (enc_opt_string(p.sample_tag.deep_view()) + ("}"@))))))))))));
        lemma_concat_assoc(old(out)@ + "{\"id\":"@, enc_string(p.id@), ",\"name\":"@ + (enc_string(p.name@) + (",\"pinned\":"@ + (enc_bool(p.pinned) + (",\"sort_order\":"@ + (enc_int(p.sort_order as int) + (",\"created_at\":"@ + (enc_int(p.created_at as int) + (",\"updated_at\":"@ + (enc_int(p.updated_at as int) + (",\"sample_tag\":"@ + (enc_opt_string(p.sample_tag.deep_view()) + ("}"@)))))))))))));
        lemma_concat_assoc(old(out)@, "{\"id\":"@, enc_string(p.id@) + (",\"name\":"@ + (enc_string(p.name@) + (",\"pinned\":"@ + (enc_bool(p.pinned) + (",\"sort_order\":"@ + (enc_int(p.sort_order as int) + (",\"created_at\":"@ + (enc_int(p.created_at as int) + (",\"updated_at\":"@ + (enc_int(p.updated_at as int) + (",\"sample_tag\":"@ + (enc_opt_string(p.sample_tag.deep_view()) + ("}"@))))))))))))));
    }
}

#[verifier::rlimit(100)]
#[verifier::spinoff_prover]
fn push_task(out: &mut Vec<char>, t: &Task)
    ensures
        final(out)@ == old(out)@ + enc_task(t.deep_view()),
{
    push_lit(out, "{\"id\":");
    push_string(out, &t.id);
    push_lit(out, ",\"project_id\":");
    push_string(out, &t.project_id);
    push_lit(out, ",\"title\":");
    push_string(out, &t.title);
    push_lit(out, ",\"due_at\":");
    push_int(out, t.due_at);
    push_lit(out, ",\"important\":");
    push_bool(out, t.important);
    push_lit(out, ",\"completed\":");
    push_bool(out, t.completed);
    push_lit(out, ",\"completed_at\":");
    push_opt_int(out, &t.completed_at);
    push_lit(out, ",\"created_at\":");
    push_int(out, t.created_at);
    push_lit(out, ",\"updated_at\":");
    push_int(out, t.updated_at);
    push_lit(out, ",\"sort_order\":");
    push_int(out, t.sort_order);
    push_lit(out, ",\"quadrant\":");
    push_int(out, t.quadrant as i64);
    push_lit(out, ",\"notes\":");
    push_opt_string(out, &t.notes);
    push_lit(out, ",\"steps\":[");
    if t.steps.len() > 0 {
        push_step_items(out, &t.steps, 0);
        proof {
            assert(t.steps.deep_view().skip(0) =~= t.steps.deep_view());
        }
    } else {
        proof {
            assert(enc_step_items(t.steps.deep_view()) =~= Seq::<char>::empty());
        }
    }
    push_lit(out, "],\"tags\":[");
    if t.tags.len() > 0 {
        push_tag_items(out, &t.tags, 0);
        proof {
            assert(t.tags.deep_view().skip(0) =~= t.tags.deep_view());
        }
    } else {
        proof {
            assert(enc_tag_items(t.tags.deep_view()) =~= Seq::<char>::empty());
        }
    }
    push_lit(out, "],\"sample_tag\":");
    push_opt_string(out, &t.sample_tag);
    push_lit(out, ",\"reminder\":");
    push_reminder(out, &t.reminder);
    push_lit(out, ",\"repeat\":");
    push_repeat(out, &t.repeat);
    push_lit(out, "}");
    proof {
        reveal(enc_task);
        lemma_concat_assoc(old(out)@ + "{\"id\":"@ + enc_string(t.id@) + ",\"project_id\":"@ + enc_string(t.project_id@) + ",\"title\":"@ + enc_string(t.title@) + ",\"due_at\":"@ + enc_int(t.due_at as int) + ",\"important\":"@ + enc_bool(t.important) + ",\"completed\":"@ + enc_bool(t.completed) + ",\"completed_at\":"@ + enc_opt_int(t.completed_at) + ",\"created_at\":"@ + enc_int(t.created_at as int) + ",\"updated_at\":"@ + enc_int(t.updated_at as int) + ",\"sort_order\":"@ + enc_int(t.sort_order as int) + ",\"quadrant\":"@ + enc_int(t.quadrant as int) + ",\"notes\":"@ + enc_opt_string(t.notes.deep_view()) + ",\"steps\":["@ + enc_step_items(t.steps.deep_view()) + "],\"tags\":["@ + enc_tag_items(t.tags.deep_view()) + "],\"sample_tag\":"@ + enc_opt_string(t.sample_tag.deep_view()) + ",\"reminder\":"@ + enc_reminder(t.reminder) + ",\"repeat\":"@, enc_repeat(t.repeat.deep_view()), "}"@);
        lemma_concat_assoc(old(out)@ + "{\"id\":"@ + enc_string(t.id@) + ",\"project_id\":"@ + enc_string(t.project_id@) + ",\"title\":"@ + enc_string(t.title@) + ",\"due_at\":"@ + enc_int(t.due_at as int) + ",\"important\":"@ + enc_bool(t.important) + ",\"completed\":"@ + enc_bool(t.completed) + ",\"completed_at\":"@ + enc_opt_int(t.completed_at) + ",\"created_at\":"@ + enc_int(t.created_at as int) + ",\"updated_at\":"@ + enc_int(t.updated_at as int) + ",\"sort_order\":"@ + enc_int(t.sort_order as int) + ",\"quadrant\":"@ + enc_int(t.quadrant as int) + ",\"notes\":"@ + enc_opt_string(t.notes.deep_view()) + ",\"steps\":["@ + enc_step_items(t.steps.deep_view()) + "],\"tags\":["@ + enc_tag_items(t.tags.deep_view()) + "],\"sample_tag\":"@ + enc_opt_string(t.sample_tag.deep_view()) + ",\"reminder\":"@ + enc_reminder(t.reminder), ",\"repeat\":"@, enc_repeat(t.repeat.deep_view()) + ("}"@));
        lemma_concat_assoc(old(out)@ + "{\"id\":"@ + enc_string(t.id@) + ",\"project_id\":"@ + enc_string(t.project_id@) + ",\"title\":"@ + enc_string(t.title@) + ",\"due_at\":"@ + enc_int(t.due_at as int) + ",\"important\":"@ + enc_bool(t.important) + ",\"completed\":"@ + enc_bool(t.completed) + ",\"completed_at\":"@ + enc_opt_int(t.completed_at) + ",\"created_at\":"@ + enc_int(t.created_at as int) + ",\"updated_at\":"@ + enc_int(t.updated_at as int) + ",\"sort_order\":"@ + enc_int(t.sort_order as int) + ",\"quadrant\":"@ + enc_int(t.quadrant as int) + ",\"notes\":"@ + enc_opt_string(t.notes.deep_view()) + ",\"steps\":["@ + enc_step_items(t.steps.deep_view()) + "],\"tags\":["@ + enc_tag_items(t.tags.deep_view()) + "],\"sample_tag\":"@ + enc_opt_string(t.sample_tag.deep_view()) + ",\"reminder\":"@, enc_reminder(t.reminder), ",\"repeat\":"@ + (enc_repeat(t.repeat.deep_view()) + ("}"@)));
        lemma_concat_assoc(old(out)@ + "{\"id\":"@ + enc_string(t.id@) + ",\"project_id\":"@ + enc_string(t.project_id@) + ",\"title\":"@ + enc_string(t.title@) + ",\"due_at\":"@ + enc_int(t.due_at as int) + ",\"important\":"@ + enc_bool(t.important) + ",\"completed\":"@ + enc_bool(t.completed) + ",\"completed_at\":"@ + enc_opt_int(t.completed_at) + ",\"created_at\":"@ + enc_int(t.created_at as int) + ",\"updated_at\":"@ + enc_int(t.updated_at as int) + ",\"sort_order\":"@ + enc_int(t.sort_order as int) + ",\"quadrant\":"@ + enc_int(t.quadrant as int) + ",\"notes\":"@ + enc_opt_string(t.notes.deep_view()) + ",\"steps\":["@ + enc_step_items(t.steps.deep_view()) + "],\"tags\":["@ + enc_tag_items(t.tags.deep_view()) + "],\"sample_tag\":"@ + enc_opt_string(t.sample_tag.deep_view()), ",\"reminder\":"@, enc_reminder(t.reminder) + (",\"repeat\":"@ + (enc_repeat(t.repeat.deep_view()) + ("}"@))));
        lemma_concat_assoc(old(out)@ + "{\"id\":"@ + enc_string(t.id@) + ",\"project_id\":"@ + enc_string(t.project_id@) + ",\"title\":"@ + enc_string(t.title@) + ",\"due_at\":"@ + enc_int(t.due_at as int) + ",\"important\":"@ + enc_bool(t.important) + ",\"completed\":"@ + enc_bool(t.completed) + ",\"completed_at\":"@ + enc_opt_int(t.completed_at) + ",\"created_at\":"@ + enc_int(t.created_at as int) + ",\"updated_at\":"@ + enc_int(t.updated_at as int) + ",\"sort_order\":"@ + enc_int(t.sort_order as int) + ",\"quadrant\":"@ + enc_int(t.quadrant as int) + ",\"notes\":"@ + enc_opt_string(t.notes.deep_view()) + ",\"steps\":["@ + enc_step_items(t.steps.deep_view()) + "],\"tags\":["@ + enc_tag_items(t.tags.deep_view()) + "],\"sample_tag\":"@, enc_opt_string(t.sample_tag.deep_view()), ",\"reminder\":"@ + (enc_reminder(t.reminder) + (",\"repeat\":"@ + (enc_repeat(t.repeat.deep_view()) + ("}"@)))));
        lemma_concat_assoc(old(out)@ + "{\"id\":"@ + enc_string(t.id@) + ",\"project_id\":"@ + enc_string(t.project_id@) + ",\"title\":"@ + enc_string(t.title@) + ",\"due_at\":"@ + enc_int(t.due_at as int) + ",\"important\":"@ + enc_bool(t.important) + ",\"completed\":"@ + enc_bool(t.completed) + ",\"completed_at\":"@ + enc_opt_int(t.completed_at) + ",\"created_at\":"@ + enc_int(t.created_at as int) + ",\"updated_at\":"@ + enc_int(t.updated_at as int) + ",\"sort_order\":"@ + enc_int(t.sort_order as int) + ",\"quadrant\":"@ + enc_int(t.quadrant as int) + ",\"notes\":"@ + enc_opt_string(t.notes.deep_view()) + ",\"steps\":["@ + enc_step_items(t.steps.deep_view()) + "],\"tags\":["@ + enc_tag_items(t.tags.deep_view()), "],\"sample_tag\":"@, enc_opt_string(t.sample_tag.deep_view()) + (",\"reminder\":"@ + (enc_reminder(t.reminder) + (",\"repeat\":"@ + (enc_repeat(t.repeat.deep_view()) + ("}"@))))));
        lemma_concat_assoc(old(out)@ + "{\"id\":"@ + enc_string(t.id@) + ",\"project_id\":"@ + enc_string(t.project_id@) + ",\"title\":"@ + enc_string(t.title@) + ",\"due_at\":"@ + enc_int(t.due_at as int) + ",\"important\":"@ + enc_bool(t.important) + ",\"completed\":"@ + enc_bool(t.completed) + ",\"completed_at\":"@ + enc_opt_int(t.completed_at) + ",\"created_at\":"@ + enc_int(t.created_at as int) + ",\"updated_at\":"@ + enc_int(t.updated_at as int) + ",\"sort_order\":"@ + enc_int(t.sort_order as int) + ",\"quadrant\":"@ + enc_int(t.quadrant as int) + ",\"notes\":"@ + enc_opt_string(t.notes.deep_view()) + ",\"steps\":["@ + enc_step_items(t.steps.deep_view()) + "],\"tags\":["@, enc_tag_items(t.tags.deep_view()), "],\"sample_tag\":"@ + (enc_opt_string(t.sample_tag.deep_view()) + (",\"reminder\":"@ + (enc_reminder(t.reminder) + (",\"repeat\":"@ + (enc_repeat(t.repeat.deep_view()) + ("}"@)))))));
        lemma_concat_assoc(old(out)@ + "{\"id\":"@ + enc_string(t.id@) + ",\"project_id\":"@ + enc_string(t.project_id@) + ",\"title\":"@ + enc_string(t.title@) + ",\"due_at\":"@ + enc_int(t.due_at as int) + ",\"important\":"@ + enc_bool(t.important) + ",\"completed\":"@ + enc_bool(t.completed) + ",\"completed_at\":"@ + enc_opt_int(t.completed_at) + ",\"created_at\":"@ + enc_int(t.created_at as int) + ",\"updated_at\":"@ + enc_int(t.updated_at as int) + ",\"sort_order\":"@ + enc_int(t.sort_order as int) + ",\"quadrant\":"@ + enc_int(t.quadrant as int) + ",\"notes\":"@ + enc_opt_string(t.notes.deep_view()) + ",\"steps\":["@ + enc_step_items(t.steps.deep_view()), "],\"tags\":["@, enc_tag_items(t.tags.deep_view()) + ("],\"sample_tag\":"@ + (enc_opt_string(t.sample_tag.deep_view()) + (",\"reminder\":"@ + (enc_reminder(t.reminder) + (",\"repeat\":"@ + (enc_repeat(t.repeat.deep_view()) + ("}"@))))))));
        lemma_concat_assoc(old(out)@ + "{\"id\":"@ + enc_string(t.id@) + ",\"project_id\":"@ + enc_string(t.project_id@) + ",\"title\":"@ + enc_string(t.title@) + ",\"due_at\":"@ + enc_int(t.due_at as int) + ",\"important\":"@ + enc_bool(t.important) + ",\"completed\":"@ + enc_bool(t.completed) + ",\"completed_at\":"@ + enc_opt_int(t.completed_at) + ",\"created_at\":"@ + enc_int(t.created_at as int) + ",\"updated_at\":"@ + enc_int(t.updated_at as int) + ",\"sort_order\":"@ + enc_int(t.sort_order as int) + ",\"quadrant\":"@ + enc_int(t.quadrant as int) + ",\"notes\":"@ + enc_opt_string(t.notes.deep_view()) + ",\"steps\":["@, enc_step_items(t.steps.deep_view()), "],\"tags\":["@ + (enc_tag_items(t.tags.deep_view()) + ("],\"sample_tag\":"@ + (enc_opt_string(t.sample_tag.deep_view()) + (",\"reminder\":"@ + (enc_reminder(t.reminder) + (",\"repeat\":"@ + (enc_repeat(t.repeat.deep_view()) + ("}"@)))))))));
        lemma_concat_assoc(old(out)@ + "{\"id\":"@ + enc_string(t.id@) + ",\"project_id\":"@ + enc_string(t.project_id@) + ",\"title\":"@ + enc_string(t.title@) + ",\"due_at\":"@ + enc_int(t.due_at as int) + ",\"important\":"@ + enc_bool(t.important) + ",\"completed\":"@ + enc_bool(t.completed) + ",\"completed_at\":"@ + enc_opt_int(t.completed_at) + ",\"created_at\":"@ + enc_int(t.created_at as int) + ",\"updated_at\":"@ + enc_int(t.updated_at as int) + ",\"sort_order\":"@ + enc_int(t.sort_order as int) + ",\"quadrant\":"@ + enc_int(t.quadrant as int) + ",\"notes\":"@ + enc_opt_string(t.notes.deep_view()), ",\"steps\":["@, enc_step_items(t.steps.deep_view()) + ("],\"tags\":["@ + (enc_tag_items(t.tags.deep_view()) + ("],\"sample_tag\":"@ + (enc_opt_string(t.sample_tag.deep_view()) + (",\"reminder\":"@ + (enc_reminder(t.reminder) + (",\"repeat\":"@ + (enc_repeat(t.repeat.deep_view()) + ("}"@))))))))));
        lemma_concat_assoc(old(out)@ + "{\"id\":"@ + enc_string(t.id@) + ",\"project_id\":"@ + enc_string(t.project_id@) + ",\"title\":"@ + enc_string(t.title@) + ",\"due_at\":"@ + enc_int(t.due_at as int) + ",\"important\":"@ + enc_bool(t.important) + ",\"completed\":"@ + enc_bool(t.completed) + ",\"completed_at\":"@ + enc_opt_int(t.completed_at) + ",\"created_at\":"@ + enc_int(t.created_at as int) + ",\"updated_at\":"@ + enc_int(t.updated_at as int) + ",\"sort_order\":"@ + enc_int(t.sort_order as int) + ",\"quadrant\":"@ + enc_int(t.quadrant as int) + ",\"notes\":"@, enc_opt_string(t.notes.deep_view()), ",\"steps\":["@ + (enc_step_items(t.steps.deep_view()) + ("],\"tags\":["@ + (enc_tag_items(t.tags.deep_view()) + ("],\"sample_tag\":"@ + (enc_opt_string(t.sample_tag.deep_view()) + (",\"reminder\":"@ + (enc_reminder(t.reminder) + (",\"repeat\":"@ + (enc_repeat(t.repeat.deep_view()) + ("}"@)))))))))));
        lemma_concat_assoc(old(out)@ + "{\"id\":"@ + enc_string(t.id@) + ",\"project_id\":"@ + enc_string(t.project_id@) + ",\"title\":"@ + enc_string(t.title@) + ",\"due_at\":"@ + enc_int(t.due_at as int) + ",\"important\":"@ + enc_bool(t.important) + ",\"completed\":"@ + enc_bool(t.completed) + ",\"completed_at\":"@ + enc_opt_int(t.completed_at) + ",\"created_at\":"@ + enc_int(t.created_at as int) + ",\"updated_at\":"@ + enc_int(t.updated_at as int) + ",\"sort_order\":"@ + enc_int(t.sort_order as int) + ",\"quadrant\":"@ + enc_int(t.quadrant as int), ",\"notes\":"@, enc_opt_string(t.notes.deep_view()) + (",\"steps\":["@ + (enc_step_items(t.steps.deep_view()) + ("],\"tags\":["@ + (enc_tag_items(t.tags.deep_view()) + ("],\"sample_tag\":"@ + (enc_opt_string(t.sample_tag.deep_view()) + (",\"reminder\":"@ + (enc_reminder(t.reminder) + (",\"repeat\":"@ + (enc_repeat(t.repeat.deep_view()) + ("}"@))))))))))));
        lemma_concat_assoc(old(out)@ + "{\"id\":"@ + enc_string(t.id@) + ",\"project_id\":"@ + enc_string(t.project_id@) + ",\"title\":"@ + enc_string(t.title@) + ",\"due_at\":"@ + enc_int(t.due_at as int) + ",\"important\":"@ + enc_bool(t.important) + ",\"completed\":"@ + enc_bool(t.completed) + ",\"completed_at\":"@ + enc_opt_int(t.completed_at) + ",\"created_at\":"@ + enc_int(t.created_at as int) + ",\"updated_at\":"@ + enc_int(t.updated_at as int) + ",\"sort_order\":"@ + enc_int(t.sort_order as int) + ",\"quadrant\":"@, enc_int(t.quadrant as int), ",\"notes\":"@ + (enc_opt_string(t.notes.deep_view()) + (",\"steps\":["@ + (enc_step_items(t.steps.deep_view()) + ("],\"tags\":["@ + (enc_tag_items(t.tags.deep_view()) + ("],\"sample_tag\":"@ + (enc_opt_string(t.sample_tag.deep_view()) + (",\"reminder\":"@ + (enc_reminder(t.reminder) + (",\"repeat\":"@ + (enc_repeat(t.repeat.deep_view()) + ("}"@)))))))))))));
        lemma_concat_assoc(old(out)@ + "{\"id\":"@ + enc_string(t.id@) + ",\"project_id\":"@ + enc_string(t.project_id@) + ",\"title\":"@ + enc_string(t.title@) + ",\"due_at\":"@ + enc_int(t.due_at as int) + ",\"important\":"@ + enc_bool(t.important) + ",\"completed\":"@ + enc_bool(t.completed) + ",\"completed_at\":"@ + enc_opt_int(t.completed_at) + ",\"created_at\":"@ + enc_int(t.created_at as int) + ",\"updated_at\":"@ + enc_int(t.updated_at as int) + ",\"sort_order\":"@ + enc_int(t.sort_order as int), ",\"quadrant\":"@, enc_int(t.quadrant as int) + (",\"notes\":"@ + (enc_opt_string(t.notes.deep_view()) + (",\"steps\":["@ + (enc_step_items(t.steps.deep_view()) + ("],\"tags\":["@ + (enc_tag_items(t.tags.deep_view()) + ("],\"sample_tag\":"@ + (enc_opt_string(t.sample_tag.deep_view()) + (",\"reminder\":"@ + (enc_reminder(t.reminder) + (",\"repeat\":"@ + (enc_repeat(t.repeat.deep_view()) + ("}"@))))))))))))));
        lemma_concat_assoc(old(out)@ + "{\"id\":"@ + enc_string(t.id@) + ",\"project_id\":"@ + enc_string(t.project_id@) + ",\"title\":"@ + enc_string(t.title@) + ",\"due_at\":"@ + enc_int(t.due_at as int) + ",\"important\":"@ + enc_bool(t.important) + ",\"completed\":"@ + enc_bool(t.completed) + ",\"completed_at\":"@ + enc_opt_int(t.completed_at) + ",\"created_at\":"@ + enc_int(t.created_at as int) + ",\"updated_at\":"@ + enc_int(t.updated_at as int) + ",\"sort_order\":"@, enc_int(t.sort_order as int), ",\"quadrant\":"@ + (enc_int(t.quadrant as int) + (",\"notes\":"@ + (enc_opt_string(t.notes.deep_view()) + (",\"steps\":["@ + (enc_step_items(t.steps.deep_view()) + ("],\"tags\":["@ + (enc_tag_items(t.tags.deep_view()) + ("],\"sample_tag\":"@ + (enc_opt_string(t.sample_tag.deep_view()) + (",\"reminder\":"@ + (enc_reminder(t.reminder) + (",\"repeat\":"@ + (enc_repeat(t.repeat.deep_view()) + ("}"@)))))))))))))));
        lemma_concat_assoc(old(out)@ + "{\"id\":"@ + enc_string(t.id@) + ",\"project_id\":"@ + enc_string(t.project_id@) + ",\"title\":"@ + enc_string(t.title@) + ",\"due_at\":"@ + enc_int(t.due_at as int) + ",\"important\":"@ + enc_bool(t.important) + ",\"completed\":"@ + enc_bool(t.completed) + ",\"completed_at\":"@ + enc_opt_int(t.completed_at) + ",\"created_at\":"@ + enc_int(t.created_at as int) + ",\"updated_at\":"@ + enc_int(t.updated_at as int), ",\"sort_order\":"@, enc_int(t.sort_order as int) + (",\"quadrant\":"@ + (enc_int(t.quadrant as int) + (",\"notes\":"@ + (enc_opt_string(t.notes.deep_view()) + (",\"steps\":["@ + (enc_step_items(t.steps.deep_view()) + ("],\"tags\":["@ + (enc_tag_items(t.tags.deep_view()) + ("],\"sample_tag\":"@ + (enc_opt_string(t.sample_tag.deep_view()) + (",\"reminder\":"@ + (enc_reminder(t.reminder) + (",\"repeat\":"@ + (enc_repeat(t.repeat.deep_view()) + ("}"@))))))))))))))));
        lemma_concat_assoc(old(out)@ + "{\"id\":"@ + enc_string(t.id@) + ",\"project_id\":"@ + enc_string(t.project_id@) + ",\"title\":"@ + enc_string(t.title@) + ",\"due_at\":"@ + enc_int(t.due_at as int) + ",\"important\":"@ + enc_bool(t.important) + ",\"completed\":"@ + enc_bool(t.completed) + ",\"completed_at\":"@ + enc_opt_int(t.completed_at) + ",\"created_at\":"@ + enc_int(t.created_at as int) + ",\"updated_at\":"@, enc_int(t.updated_at as int), ",\"sort_order\":"@ + (enc_int(t.sort_order as int) + (",\"quadrant\":"@ + (enc_int(t.quadrant as int) + (",\"notes\":"@ + (enc_opt_string(t.notes.deep_view()) + (",\"steps\":["@ + (enc_step_items(t.steps.deep_view()) + ("],\"tags\":["@ + (enc_tag_items(t.tags.deep_view()) + ("],\"sample_tag\":"@ + (enc_opt_string(t.sample_tag.deep_view()) + (",\"reminder\":"@ + (enc_reminder(t.reminder) + (",\"repeat\":"@ + (enc_repeat(t.repeat.deep_view()) + ("}"@)))))))))))))))));
        lemma_concat_assoc(old(out)@ + "{\"id\":"@ + enc_string(t.id@) + ",\"project_id\":"@ + enc_string(t.project_id@) + ",\"title\":"@ + enc_string(t.title@) + ",\"due_at\":"@ + enc_int(t.due_at as int) + ",\"important\":"@ + enc_bool(t.important) + ",\"completed\":"@ + enc_bool(t.completed) + ",\"completed_at\":"@ + enc_opt_int(t.completed_at) + ",\"created_at\":"@ + enc_int(t.created_at as int), ",\"updated_at\":"@, enc_int(t.updated_at as int) + (",\"sort_order\":"@ + (enc_int(t.sort_order as int) + (",\"quadrant\":"@ + (enc_int(t.quadrant as int) + (",\"notes\":"@ + (enc_opt_string(t.notes.deep_view()) + (",\"steps\":["@ + (enc_step_items(t.steps.deep_view()) + ("],\"tags\":["@ + (enc_tag_items(t.tags.deep_view()) + ("],\"sample_tag\":"@ + (enc_opt_string(t.sample_tag.deep_view()) + (",\"reminder\":"@ + (enc_reminder(t.reminder) + (",\"repeat\":"@ + (enc_repeat(t.repeat.deep_view()) + ("}"@))))))))))))))))));
        lemma_concat_assoc(old(out)@ + "{\"id\":"@ + enc_string(t.id@) + ",\"project_id\":"@ + enc_string(t.project_id@) + ",\"title\":"@ + enc_string(t.title@) + ",\"due_at\":"@ + enc_int(t.due_at as int) + ",\"important\":"@ + enc_bool(t.important) + ",\"completed\":"@ + enc_bool(t.completed) + ",\"completed_at\":"@ + enc_opt_int(t.completed_at) + ",\"created_at\":"@, enc_int(t.created_at as int), ",\"updated_at\":"@ + (enc_int(t.updated_at as int) + (",\"sort_order\":"@ + (enc_int(t.sort_order as int) + (",\"quadrant\":"@ + (enc_int(t.quadrant as int) + (",\"notes\":"@ + (enc_opt_string(t.notes.deep_view()) + (",\"steps\":["@ + (enc_step_items(t.steps.deep_view()) + ("],\"tags\":["@ + (enc_tag_items(t.tags.deep_view()) + ("],\"sample_tag\":"@ + (enc_opt_string(t.sample_tag.deep_view()) + (",\"reminder\":"@ + (enc_reminder(t.reminder) + (",\"repeat\":"@ + (enc_repeat(t.repeat.deep_view()) + ("}"@)))))))))))))))))));
        lemma_concat_assoc(old(out)@ + "{\"id\":"@ + enc_string(t.id@) + ",\"project_id\":"@ + enc_string(t.project_id@) + ",\"title\":"@ + enc_string(t.title@) + ",\"due_at\":"@ + enc_int(t.due_at as int) + ",\"important\":"@ + enc_bool(t.important) + ",\"completed\":"@ + enc_bool(t.completed) + ",\"completed_at\":"@ + enc_opt_int(t.completed_at), ",\"created_at\":"@, enc_int(t.created_at as int) + (",\"updated_at\":"@ + (enc_int(t.updated_at as int) + (",\"sort_order\":"@ + (enc_int(t.sort_order as int) + (",\"quadrant\":"@ + (enc_int(t.quadrant as int) + (",\"notes\":"@ + (enc_opt_string(t.notes.deep_view()) + (",\"steps\":["@ + (enc_step_items(t.steps.deep_view()) + ("],\"tags\":["@ + (enc_tag_items(t.tags.deep_view()) + ("],\"sample_tag\":"@ + (enc_opt_string(t.sample_tag.deep_view()) + (",\"reminder\":"@ + (enc_reminder(t.reminder) + (",\"repeat\":"@ + (enc_repeat(t.repeat.deep_view()) + ("}"@))))))))))))))))))));
        lemma_concat_assoc(old(out)@ + "{\"id\":"@ + enc_string(t.id@) + ",\"project_id\":"@ + enc_string(t.project_id@) + ",\"title\":"@ + enc_string(t.title@) + ",\"due_at\":"@ + enc_int(t.due_at as int) + ",\"important\":"@ + enc_bool(t.important) + ",\"completed\":"@ + enc_bool(t.completed) + ",\"completed_at\":"@, enc_opt_int(t.completed_at), ",\"created_at\":"@ + (enc_int(t.created_at as int) + (",\"updated_at\":"@ + (enc_int(t.updated_at as int) + (",\"sort_order\":"@ + (enc_int(t.sort_order as int) + (",\"quadrant\":"@ + (enc_int(t.quadrant as int) + (",\"notes\":"@ + (enc_opt_string(t.notes.deep_view()) + (",\"steps\":["@ + (enc_step_items(t.steps.deep_view()) + ("],\"tags\":["@ + (enc_tag_items(t.tags.deep_view()) + ("],\"sample_tag\":"@ + (enc_opt_string(t.sample_tag.deep_view()) + (",\"reminder\":"@ + (enc_reminder(t.reminder) + (",\"repeat\":"@ + (enc_repeat(t.repeat.deep_view()) + ("}"@)))))))))))))))))))));
        lemma_concat_assoc(old(out)@ + "{\"id\":"@ + enc_string(t.id@) + ",\"project_id\":"@ + enc_string(t.project_id@) + ",\"title\":"@ + enc_string(t.title@) + ",\"due_at\":"@ + enc_int(t.due_at as int) + ",\"important\":"@ + enc_bool(t.important) + ",\"completed\":"@ + enc_bool(t.completed), ",\"completed_at\":"@, enc_opt_int(t.completed_at) + (",\"created_at\":"@ + (enc_int(t.created_at as int) + (",\"updated_at\":"@ + (enc_int(t.updated_at as int) + (",\"sort_order\":"@ + (enc_int(t.sort_order as int) + (",\"quadrant\":"@ + (enc_int(t.quadrant as int) + (",\"notes\":"@ + (enc_opt_string(t.notes.deep_view()) + (",\"steps\":["@ + (enc_step_items(t.steps.deep_view()) + ("],\"tags\":["@ + (enc_tag_items(t.tags.deep_view()) + ("],\"sample_tag\":"@ + (enc_opt_string(t.sample_tag.deep_view()) + (",\"reminder\":"@ + (enc_reminder(t.reminder) + (",\"repeat\":"@ + (enc_repeat(t.repeat.deep_view()) + ("}"@))))))))))))))))))))));
        lemma_concat_assoc(old(out)@ + "{\"id\":"@ + enc_string(t.id@) + ",\"project_id\":"@ + enc_string(t.project_id@) + ",\"title\":"@ + enc_string(t.title@) + ",\"due_at\":"@ + enc_int(t.due_at as int) + ",\"important\":"@ + enc_bool(t.important) + ",\"completed\":"@, enc_bool(t.completed), ",\"completed_at\":"@ + (enc_opt_int(t.completed_at) + (",\"created_at\":"@ + (enc_int(t.created_at as int) + (",\"updated_at\":"@ + (enc_int(t.updated_at as int) + (",\"sort_order\":"@ + (enc_int(t.sort_order as int) + (",\"quadrant\":"@ + (enc_int(t.quadrant as int) + (",\"notes\":"@ + (enc_opt_string(t.notes.deep_view()) + (",\"steps\":["@ + (enc_step_items(t.steps.deep_view()) + ("],\"tags\":["@ + (enc_tag_items(t.tags.deep_view()) + ("],\"sample_tag\":"@ + (enc_opt_string(t.sample_tag.deep_view()) + (",\"reminder\":"@ + (enc_reminder(t.reminder) + (",\"repeat\":"@ + (enc_repeat(t.repeat.deep_view()) + ("}"@)))))))))))))))))))))));
        lemma_concat_assoc(old(out)@ + "{\"id\":"@ + enc_string(t.id@) + ",\"project_id\":"@ + enc_string(t.project_id@) + ",\"title\":"@ + enc_string(t.title@) + ",\"due_at\":"@ + enc_int(t.due_at as int) + ",\"important\":"@ + enc_bool(t.important), ",\"completed\":"@, enc_bool(t.completed) + (",\"completed_at\":"@ + (enc_opt_int(t.completed_at) + (",\"created_at\":"@ + (enc_int(t.created_at as int) + (",\"updated_at\":"@ + (enc_int(t.updated_at as int) + (",\"sort_order\":"@ + (enc_int(t.sort_order as int) + (",\"quadrant\":"@ + (enc_int(t.quadrant as int) + (",\"notes\":"@ + (enc_opt_string(t.notes.deep_view()) + (",\"steps\":["@ + (enc_step_items(t.steps.deep_view()) + ("],\"tags\":["@ + (enc_tag_items(t.tags.deep_view()) + ("],\"sample_tag\":"@ + (enc_opt_string(t.sample_tag.deep_view()) + (",\"reminder\":"@ + (enc_reminder(t.reminder) + (",\"repeat\":"@ + (enc_repeat(t.repeat.deep_view()) + ("}"@))))))))))))))))))))))));
        lemma_concat_assoc(old(out)@ + "{\"id\":"@ + enc_string(t.id@) + ",\"project_id\":"@ + enc_string(t.project_id@) + ",\"title\":"@ + enc_string(t.title@) + ",\"due_at\":"@ + enc_int(t.due_at as int) + ",\"important\":"@, enc_bool(t.important), ",\"completed\":"@ + (enc_bool(t.completed) + (",\"completed_at\":"@ + (enc_opt_int(t.completed_at) + (",\"created_at\":"@ + (enc_int(t.created_at as int) + (",\"updated_at\":"@ + (enc_int(t.updated_at as int) + (",\"sort_order\":"@ + (enc_int(t.sort_order as int) + (",\"quadrant\":"@ + (enc_int(t.quadrant as int) + (",\"notes\":"@ + (enc_opt_string(t.notes.deep_view()) + (",\"steps\":["@ + (enc_step_items(t.steps.deep_view()) + ("],\"tags\":["@ + (enc_tag_items(t.tags.deep_view()) + ("],\"sample_tag\":"@ + (enc_opt_string(t.sample_tag.deep_view()) + (",\"reminder\":"@ + (enc_reminder(t.reminder) + (",\"repeat\":"@ + (enc_repeat(t.repeat.deep_view()) + ("}"@)))))))))))))))))))))))));
        lemma_concat_assoc(old(out)@ + "{\"id\":"@ + enc_string(t.id@) + ",\"project_id\":"@ + enc_string(t.project_id@) + ",\"title\":"@ + enc_string(t.title@) + ",\"due_at\":"@ + enc_int(t.due_at as int), ",\"important\":"@, enc_bool(t.important) + (",\"completed\":"@ + (enc_bool(t.completed) + (",\"completed_at\":"@ + (enc_opt_int(t.completed_at) + (",\"created_at\":"@ + (enc_int(t.created_at as int) + (",\"updated_at\":"@ + (enc_int(t.updated_at as int) + (",\"sort_order\":"@ + (enc_int(t.sort_order as int) + (",\"quadrant\":"@ + (enc_int(t.quadrant as int) + (",\"notes\":"@ + (enc_opt_string(t.notes.deep_view()) + (",\"steps\":["@ + (enc_step_items(t.steps.deep_view()) + ("],\"tags\":["@ + (enc_tag_items(t.tags.deep_view()) + ("],\"sample_tag\":"@ + (enc_opt_string(t.sample_tag.deep_view()) + (",\"reminder\":"@ + (enc_reminder(t.reminder) + (",\"repeat\":"@ + (enc_repeat(t.repeat.deep_view()) + ("}"@))))))))))))))))))))))))));
        lemma_concat_assoc(old(out)@ + "{\"id\":"@ + enc_string(t.id@) + ",\"project_id\":"@ + enc_string(t.project_id@) + ",\"title\":"@ + enc_string(t.title@) + ",\"due_at\":"@, enc_int(t.due_at as int), ",\"important\":"@ + (enc_bool(t.important) + (",\"completed\":"@ + (enc_bool(t.completed) + (",\"completed_at\":"@ + (enc_opt_int(t.completed_at) + (",\"created_at\":"@ + (enc_int(t.created_at as int) + (",\"updated_at\":"@ + (enc_int(t.updated_at as int) + (",\"sort_order\":"@ + (enc_int(t.sort_order as int) + (",\"quadrant\":"@ + (enc_int(t.quadrant as int) + (",\"notes\":"@ + (enc_opt_string(t.notes.deep_view()) + (",\"steps\":["@ + (enc_step_items(t.steps.deep_view()) + ("],\"tags\":["@ + (enc_tag_items(t.tags.deep_view()) + ("],\"sample_tag\":"@ + (enc_opt_string(t.sample_tag.deep_view()) + (",\"reminder\":"@ + (enc_reminder(t.reminder) + (",\"repeat\":"@ + (enc_repeat(t.repeat.deep_view()) + ("}"@)))))))))))))))))))))))))));
        lemma_concat_assoc(old(out)@ + "{\"id\":"@ + enc_string(t.id@) + ",\"project_id\":"@ + enc_string(t.project_id@) + ",\"title\":"@ + enc_string(t.title@), ",\"due_at\":"@, enc_int(t.due_at as int) + (",\"important\":"@ + (enc_bool(t.important) + (",\"completed\":"@ + (enc_bool(t.completed) + (",\"completed_at\":"@ + (enc_opt_int(t.completed_at) + (",\"created_at\":"@ + (enc_int(t.created_at as int) + (",\"updated_at\":"@ + (enc_int(t.updated_at as int) + (",\"sort_order\":"@ + (enc_int(t.sort_order as int) + (",\"quadrant\":"@ + (enc_int(t.quadrant as int) + (",\"notes\":"@ + (enc_opt_string(t.notes.deep_view()) + (",\"steps\":["@ + (enc_step_items(t.steps.deep_view()) + ("],\"tags\":["@ + (enc_tag_items(t.tags.deep_view()) + ("],\"sample_tag\":"@ + (enc_opt_string(t.sample_tag.deep_view()) + (",\"reminder\":"@ + (enc_reminder(t.reminder) + (",\"repeat\":"@ + (enc_repeat(t.repeat.deep_view()) + ("}"@))))))))))))))))))))))))))));
        lemma_concat_assoc(old(out)@ + "{\"id\":"@ + enc_string(t.id@) + ",\"project_id\":"@ + enc_string(t.project_id@) + ",\"title\":"@, enc_string(t.title@), ",\"due_at\":"@ + (enc_int(t.due_at as int) + (",\"important\":"@ + (enc_bool(t.important) + (",\"completed\":"@ + (enc_bool(t.completed) + (",\"completed_at\":"@ + (enc_opt_int(t.completed_at) + (",\"created_at\":"@ + (enc_int(t.created_at as int) + (",\"updated_at\":"@ + (enc_int(t.updated_at as int) + (",\"sort_order\":"@ + (enc_int(t.sort_order as int) + (",\"quadrant\":"@ + (enc_int(t.quadrant as int) + (",\"notes\":"@ + (enc_opt_string(t.notes.deep_view()) + (",\"steps\":["@ + (enc_step_items(t.steps.deep_view()) + ("],\"tags\":["@ + (enc_tag_items(t.tags.deep_view()) + ("],\"sample_tag\":"@ + (enc_opt_string(t.sample_tag.deep_view()) + (",\"reminder\":"@ + (enc_reminder(t.reminder) + (",\"repeat\":"@ + (enc_repeat(t.repeat.deep_view()) + ("}"@)))))))))))))))))))))))))))));
        lemma_concat_assoc(old(out)@ + "{\"id\":"@ + enc_string(t.id@) + ",\"project_id\":"@ + enc_string(t.project_id@), ",\"title\":"@, enc_string(t.title@) + (",\"due_at\":"@ + (enc_int(t.due_at as int) + (",\"important\":"@ + (enc_bool(t.important) + (",\"completed\":"@ + (enc_bool(t.completed) + (",\"completed_at\":"@ + (enc_opt_int(t.completed_at) + (",\"created_at\":"@ + (enc_int(t.created_at as int) + (",\"updated_at\":"@ + (enc_int(t.updated_at as int) + (",\"sort_order\":"@ + (enc_int(t.sort_order as int) + (",\"quadrant\":"@ + (enc_int(t.quadrant as int) + (",\"notes\":"@ + (enc_opt_string(t.notes.deep_view()) + (",\"steps\":["@ + (enc_step_items(t.steps.deep_view()) + ("],\"tags\":["@ + (enc_tag_items(t.tags.deep_view()) + ("],\"sample_tag\":"@ + (enc_opt_string(t.sample_tag.deep_view()) + (",\"reminder\":"@ + (enc_reminder(t.reminder) + (",\"repeat\":"@ + (enc_repeat(t.repeat.deep_view()) + ("}"@))))))))))))))))))))))))))))));
        lemma_concat_assoc(old(out)@ + "{\"id\":"@ + enc_string(t.id@) + ",\"project_id\":"@, enc_string(t.project_id@), ",\"title\":"@ + (enc_string(t.title@) + (",\"due_at\":"@ + (enc_int(t.due_at as int) + (",\"important\":"@ + (enc_bool(t.important) + (",\"completed\":"@ + (enc_bool(t.completed) + (",\"completed_at\":"@ + (enc_opt_int(t.completed_at) + (",\"created_at\":"@ + (enc_int(t.created_at as int) + (",\"updated_at\":"@ + (enc_int(t.updated_at as int) + (",\"sort_order\":"@ + (enc_int(t.sort_order as int) + (",\"quadrant\":"@ + (enc_int(t.quadrant as int) + (",\"notes\":"@ + (enc_opt_string(t.notes.deep_view()) + (",\"steps\":["@ + (enc_step_items(t.steps.deep_view()) + ("],\"tags\":["@ + (enc_tag_items(t.tags.deep_view()) + ("],\"sample_tag\":"@ + (enc_opt_string(t.sample_tag.deep_view()) + (",\"reminder\":"@ + (enc_reminder(t.reminder) + (",\"repeat\":"@ + (enc_repeat(t.repeat.deep_view()) + ("}"@)))))))))))))))))))))))))))))));
        lemma_concat_assoc(old(out)@ + "{\"id\":"@ + enc_string(t.id@), ",\"project_id\":"@, enc_string(t.project_id@) + (",\"title\":"@ + (enc_string(t.title@) + (",\"due_at\":"@ + (enc_int(t.due_at as int) + (",\"important\":"@ + (enc_bool(t.important) + (",\"completed\":"@ + (enc_bool(t.completed) + (",\"completed_at\":"@ + (enc_opt_int(t.completed_at) + (",\"created_at\":"@ + (enc_int(t.created_at as int) + (",\"updated_at\":"@ + (enc_int(t.updated_at as int) + (",\"sort_order\":"@ + (enc_int(t.sort_order as int) + (",\"quadrant\":"@ + (enc_int(t.quadrant as int) + (",\"notes\":"@ + (enc_opt_string(t.notes.deep_view()) + (",\"steps\":["@ + (enc_step_items(t.steps.deep_view()) + ("],\"tags\":["@ + (enc_tag_items(t.tags.deep_view()) + ("],\"sample_tag\":"@ + (enc_opt_string(t.sample_tag.deep_view()) + (",\"reminder\":"@ + (enc_reminder(t.reminder) + (",\"repeat\":"@ + (enc_repeat(t.repeat.deep_view()) + ("}"@))))))))))))))))))))))))))))))));
        lemma_concat_assoc(old(out)@ + "{\"id\":"@, enc_string(t.id@), ",\"project_id\":"@ + (enc_string(t.project_id@) + (",\"title\":"@ + (enc_string(t.title@) + (",\"due_at\":"@ + (enc_int(t.due_at as int) + (",\"important\":"@ + (enc_bool(t.important) + (",\"completed\":"@ + (enc_bool(t.completed) + (",\"completed_at\":"@ + (enc_opt_int(t.completed_at) + (",\"created_at\":"@ + (enc_int(t.created_at as int) + (",\"updated_at\":"@ + (enc_int(t.updated_at as int) + (",\"sort_order\":"@ + (enc_int(t.sort_order as int) + (",\"quadrant\":"@ + (enc_int(t.quadrant as int) + (",\"notes\":"@ + (enc_opt_string(t.notes.deep_view()) + (",\"steps\":["@ + (enc_step_items(t.steps.deep_view()) + ("],\"tags\":["@ + (enc_tag_items(t.tags.deep_view()) + ("],\"sample_tag\":"@ + (enc_opt_string(t.sample_tag.deep_view()) + (",\"reminder\":"@ + (enc_reminder(t.reminder) + (",\"repeat\":"@ + (enc_repeat(t.repeat.deep_view()) + ("}"@)))))))))))))))))))))))))))))))));
        lemma_concat_assoc(old(out)@, "{\"id\":"@, enc_string(t.id@) + (",\"project_id\":"@ + (enc_string(t.project_id@) + (",\"title\":"@ + (enc_string(t.title@) + (",\"due_at\":"@ + (enc_int(t.due_at as int) + (",\"important\":"@ + (enc_bool(t.important) + (",\"completed\":"@ + (enc_bool(t.completed) + (",\"completed_at\":"@ + (enc_opt_int(t.completed_at) + (",\"created_at\":"@ + (enc_int(t.created_at as int) + (",\"updated_at\":"@ + (enc_int(t.updated_at as int) + (",\"sort_order\":"@ + (enc_int(t.sort_order as int) + (",\"quadrant\":"@ + (enc_int(t.quadrant as int) + (",\"notes\":"@ + (enc_opt_string(t.notes.deep_view()) + (",\"steps\":["@ + (enc_step_items(t.steps.deep_view()) + ("],\"tags\":["@ + (enc_tag_items(t.tags.deep_view()) + ("],\"sample_tag\":"@ + (enc_opt_string(t.sample_tag.deep_view()) + (",\"reminder\":"@ + (enc_reminder(t.reminder) + (",\"repeat\":"@ + (enc_repeat(t.repeat.deep_view()) + ("}"@))))))))))))))))))))))))))))))))));
    }
}

fn push_task_items(out: &mut Vec<char>, items: &Vec<Task>, start: usize)
    requires
        start < items.len(),
    ensures
        final(out)@ == old(out)@ + enc_task_items(items.deep_view().skip(start as int)),
    decreases items.len() - start,
{
    let ghost whole = items.deep_view().skip(start as int);
    push_task(out, &items[start]);
    if start + 1 < items.len() {
        out.push(',');
        push_task_items(out, items, start + 1);
        proof {
            assert(whole[0] == items.deep_view()[start as int]);
            assert(whole.skip(1) =~= items.deep_view().skip(start as int + 1));
            lemma_concat_assoc(
                old(out)@,
                enc_task(whole[0]),
                seq![','] + enc_task_items(whole.skip(1)),
            );
            lemma_concat_assoc(
                old(out)@ + enc_task(whole[0]),
                seq![','],
                enc_task_items(whole.skip(1)),
            );
            assert(final(out)@ =~= old(out)@ + enc_task_items(whole));
        }
    } else {
        proof {
            assert(whole.len() == 1);
            assert(whole[0] == items.deep_view()[start as int]);
            assert(final(out)@ =~= old(out)@ + enc_task_items(whole));
        }
    }
}

fn push_project_items(out: &mut Vec<char>, items: &Vec<Project>, start: usize)
    requires
        start < items.len(),
    ensures
        final(out)@ == old(out)@ + enc_project_items(items.deep_view().skip(start as int)),
    decreases items.len() - start,
{
    let ghost whole = items.deep_view().skip(start as int);
    push_project(out, &items[start]);
    if start + 1 < items.len() {
        out.push(',');
        push_project_items(out, items, start + 1);
        proof {
            assert(whole[0] == items.deep_view()[start as int]);
            assert(whole.skip(1) =~= items.deep_view().skip(start as int + 1));
            lemma_concat_assoc(
                old(out)@,
                enc_project(whole[0]),
                seq![','] + enc_project_items(whole.skip(1)),
            );
            lemma_concat_assoc(
                old(out)@ + enc_project(whole[0]),
                seq![','],
                enc_project_items(whole.skip(1)),
            );
            assert(final(out)@ =~= old(out)@ + enc_project_items(whole));
        }
    } else {
        proof {
            assert(whole.len() == 1);
            assert(whole[0] == items.deep_view()[start as int]);
            assert(final(out)@ =~= old(out)@ + enc_project_items(whole));
        }
    }
}

#[verifier::rlimit(100)]
#[verifier::spinoff_prover]
fn push_tasks_file(out: &mut Vec<char>, f: &TasksFile)
    ensures
        final(out)@ == old(out)@ + enc_tasks_file(f.schema_version, f.tasks.deep_view(), f.projects.deep_view()),
{
    push_lit(out, "{\"schema_version\":");
    push_int(out, f.schema_version as i64);
    push_lit(out, ",\"tasks\":[");
    if f.tasks.len() > 0 {
        push_task_items(out, &f.tasks, 0);
        proof {
            assert(f.tasks.deep_view().skip(0) =~= f.tasks.deep_view());
        }
    } else {
        proof {
            assert(enc_task_items(f.tasks.deep_view()) =~= Seq::<char>::empty());
        }
    }
    push_lit(out, "],\"projects\":[");
    if f.projects.len() > 0 {
        push_project_items(out, &f.projects, 0);
        proof {
            assert(f.projects.deep_view().skip(0) =~= f.projects.deep_view());
        }
    } else {
        proof {
            assert(enc_project_items(f.projects.deep_view()) =~= Seq::<char>::empty());
        }
    }
    push_lit(out, "]}");
    proof {
        lemma_concat_assoc(old(out)@ + "{\"schema_version\":"@ + enc_int(f.schema_version as int) + ",\"tasks\":["@ + enc_task_items(f.tasks.deep_view()) + "],\"projects\":["@, enc_project_items(f.projects.deep_view()), "]}"@);
        lemma_concat_assoc(old(out)@ + "{\"schema_version\":"@ + enc_int(f.schema_version as int) + ",\"tasks\":["@ + enc_task_items(f.tasks.deep_view()), "],\"projects\":["@, enc_project_items(f.projects.deep_view()) + ("]}"@));
        lemma_concat_assoc(old(out)@ + "{\"schema_version\":"@ + enc_int(f.schema_version as int) + ",\"tasks\":["@, enc_task_items(f.tasks.deep_view()), "],\"projects\":["@ + (enc_project_items(f.projects.deep_view()) + ("]}"@)));
        lemma_concat_assoc(old(out)@ + "{\"schema_version\":"@ + enc_int(f.schema_version as int), ",\"tasks\":["@, enc_task_items(f.tasks.deep_view()) + ("],\"projects\":["@ + (enc_project_items(f.projects.deep_view()) + ("]}"@))));
        lemma_concat_assoc(old(out)@ + "{\"schema_version\":"@, enc_int(f.schema_version as int), ",\"tasks\":["@ + (enc_task_items(f.tasks.deep_view()) + ("],\"projects\":["@ + (enc_project_items(f.projects.deep_view()) + ("]}"@)))));
        lemma_concat_assoc(old(out)@, "{\"schema_version\":"@, enc_int(f.schema_version as int) + (",\"tasks\":["@ + (enc_task_items(f.tasks.deep_view()) + ("],\"projects\":["@ + (enc_project_items(f.projects.deep_view()) + ("]}"@))))));
    }
}

/// Encode the task document as canonical JSON text.
pub fn encode_tasks_file(f: &TasksFile) -> (r: Vec<char>)
    ensures
        r@ == enc_tasks_file(f.schema_version, f.tasks.deep_view(), f.projects.deep_view()),
{
    let mut out: Vec<char> = Vec::new();
    push_tasks_file(&mut out, f);
    proof {
        assert(out@ =~= enc_tasks_file(
            f.schema_version,
            f.tasks.deep_view(),
            f.projects.deep_view(),
        ));
    }
    out
}

/// Consume the literal at `pos`, if present.
fn eat_lit(s: &Vec<char>, pos: usize, lit: &str) -> (r: Option<usize>)
    ensures
        match r {
            Some(j) => sp_lit(s@, pos as int, lit@) == Some(j as int) && pos <= j <= s@.len()
                && j as int == pos + lit@.len(),
            None => sp_lit(s@, pos as int, lit@) is None,
        },
{
    let n = lit.unicode_len();
    if pos > s.len() || n > s.len() - pos {
        return None;
    }
    let mut k: usize = 0;
    while k < n
        invariant
            0 <= k <= n,
            n == lit@.len(),
            pos + n <= s.len(),
            forall|m: int| 0 <= m < k ==> s@[pos + m] == lit@[m],
        decreases n - k,
    {
        if !(s[pos + k] == lit.get_char(k)) {
            proof {
                assert(s@.subrange(pos as int, pos + n)[k as int] != lit@[k as int]);
            }
            return None;
        }
        k = k + 1;
    }
    proof {
        assert(s@.subrange(pos as int, pos + n) =~= lit@);
    }
    Some(pos + n)
}

/// Scan the maximal digit run starting at `pos`.
fn scan_digits(s: &Vec<char>, pos: usize) -> (j: usize)
    requires
        pos <= s@.len(),
    ensures
        pos <= j <= s@.len(),
        sp_digit_run(s@, pos as int) == (s@.subrange(pos as int, j as int), j as int),
        forall|m: int| pos <= m < j ==> spec_is_digit(#[trigger] s@[m]),
        pos < s@.len() && spec_is_digit(s@[pos as int]) ==> j > pos,
{
    let mut k: usize = pos;
    while k < s.len() && is_digit_char(s[k])
        invariant
            pos <= k <= s@.len(),
            forall|m: int| pos <= m < k ==> spec_is_digit(#[trigger] s@[m]),
        decreases s@.len() - k,
    {
        k = k + 1;
    }
    proof {
        broadcast use vstd::seq_lib::lemma_seq_skip_index;
        broadcast use vstd::seq_lib::lemma_seq_skip_len;

        let ds = s@.subrange(pos as int, k as int);
        let rest = s@.skip(k as int);
        assert(s@.skip(pos as int) =~= ds + rest);
        lemma_sp_digit_run(s@, pos as int, ds, rest);
    }
    k
}

fn is_digit_char(c: char) -> (r: bool)
    ensures
        r == spec_is_digit(c),
{
    c == '0' || c == '1' || c == '2' || c == '3' || c == '4' || c == '5' || c == '6' || c == '7'
        || c == '8' || c == '9'
}

fn digit_val_of(c: char) -> (r: u8)
    requires
        spec_is_digit(c),
    ensures
        r as int == spec_digit_val(c),
        r < 10,
{
    if c == '0' {
        0
    } else if c == '1' {
        1
    } else if c == '2' {
        2
    } else if c == '3' {
        3
    } else if c == '4' {
        4
    } else if c == '5' {
        5
    } else if c == '6' {
        6
    } else if c == '7' {
        7
    } else if c == '8' {
        8
    } else {
        9
    }
}

/// The value of a digit run of at most 37 digits.
fn run_value(s: &Vec<char>, from: usize, to: usize) -> (v: u128)
    requires
        from <= to <= s@.len(),
        to - from <= 37,
        forall|m: int| from <= m < to ==> spec_is_digit(#[trigger] s@[m]),
    ensures
        v as int == spec_val_of(s@.subrange(from as int, to as int)),
{
    proof {
        lemma_pow10_narrow();
    }
    let mut acc: u128 = 0;
    let mut k: usize = from;
    while k < to
        invariant
            from <= k <= to <= s@.len(),
            to - from <= 37,
            forall|m: int| from <= m < to ==> spec_is_digit(#[trigger] s@[m]),
            acc as int == spec_val_of(s@.subrange(from as int, k as int)),
            (acc as int) < spec_pow10((k - from) as nat),
            spec_pow10(37) < 0x100000000000000000000000000000000,
        decreases to - k,
    {
        let d = digit_val_of(s[k]);
        proof {
            let pre = s@.subrange(from as int, k as int);
            let cur = s@.subrange(from as int, k + 1);
            assert(cur.drop_last() =~= pre);
            assert(cur.last() == s@[k as int]);
            lemma_pow10_mono((k - from) as nat, 37);
            assert(spec_pow10((k + 1 - from) as nat) == spec_pow10((k - from) as nat) * 10);
            lemma_pow10_mono((k + 1 - from) as nat, 37);
        }
        acc = acc * 10 + (d as u128);
        k = k + 1;
    }
    acc
}

/// The numeric window the parser accepts fits a `u128`.
proof fn lemma_pow10_narrow()
    ensures
        spec_pow10(37) < 0x100000000000000000000000000000000,
{
    assert(spec_pow10(0) == 1);
    assert(spec_pow10(1) == 10);
    assert(spec_pow10(2) == 100);
    assert(spec_pow10(3) == 1000);
    assert(spec_pow10(4) == 10000);
    assert(spec_pow10(5) == 100000);
    assert(spec_pow10(6) == 1000000);
    assert(spec_pow10(7) == 10000000);
    assert(spec_pow10(8) == 100000000);
    assert(spec_pow10(9) == 1000000000);
    assert(spec_pow10(10) == 10000000000);
    assert(spec_pow10(11) == 100000000000);
    assert(spec_pow10(12) == 1000000000000);
    assert(spec_pow10(13) == 10000000000000);
    assert(spec_pow10(14) == 100000000000000);
    assert(spec_pow10(15) == 1000000000000000);
    assert(spec_pow10(16) == 10000000000000000);
    assert(spec_pow10(17) == 100000000000000000);
    assert(spec_pow10(18) == 1000000000000000000);
    assert(spec_pow10(19) == 10000000000000000000);
    assert(spec_pow10(20) == 100000000000000000000);
    assert(spec_pow10(21) == 1000000000000000000000);
    assert(spec_pow10(22) == 10000000000000000000000);
    assert(spec_pow10(23) == 100000000000000000000000);
    assert(spec_pow10(24) == 1000000000000000000000000);
    assert(spec_pow10(25) == 10000000000000000000000000);
    assert(spec_pow10(26) == 100000000000000000000000000);
    assert(spec_pow10(27) == 1000000000000000000000000000);
    assert(spec_pow10(28) == 10000000000000000000000000000);
    assert(spec_pow10(29) == 100000000000000000000000000000);
    assert(spec_pow10(30) == 1000000000000000000000000000000);
    assert(spec_pow10(31) == 10000000000000000000000000000000);
    assert(spec_pow10(32) == 100000000000000000000000000000000);
    assert(spec_pow10(33) == 1000000000000000000000000000000000);
    assert(spec_pow10(34) == 10000000000000000000000000000000000);
    assert(spec_pow10(35) == 100000000000000000000000000000000000);
    assert(spec_pow10(36) == 1000000000000000000000000000000000000);
    assert(spec_pow10(37) == 10000000000000000000000000000000000000);
}

/// Parse an integer within `i64` range.
fn parse_i64(s: &Vec<char>, pos: usize) -> (r: Option<(i64, usize)>)
    ensures
        match r {
            Some((v, j)) => sp_i64(s@, pos as int) == Some((v, j as int)) && pos < j <= s@.len(),
            None => sp_i64(s@, pos as int) is None,
        },
{
    if pos >= s.len() {
        return None;
    }
    if s[pos] == '-' {
        let j = scan_digits(s, pos + 1);
        let len = j - (pos + 1);
        if len < 1 || len > 37 {
            return None;
        }
        let mag = run_value(s, pos + 1, j);
        proof {
            lemma_pow10_narrow();
            lemma_val_of_bound(s@.subrange(pos + 1, j as int));
        }
        if mag > 9223372036854775808u128 {
            proof {
                assert(sp_i64(s@, pos as int) is None);
            }
            return None;
        }
        let v: i64 = if mag == 9223372036854775808u128 {
            i64::MIN
        } else {
            -(mag as i64)
        };
        Some((v, j))
    } else {
        if !is_digit_char(s[pos]) {
            return None;
        }
        let j = scan_digits(s, pos);
        let len = j - pos;
        if len > 37 {
            return None;
        }
        let mag = run_value(s, pos, j);
        if mag > 9223372036854775807u128 {
            proof {
                assert(sp_i64(s@, pos as int) is None);
            }
            return None;
        }
        Some((mag as i64, j))
    }
}

/// Parse an integer within `u8` range.
fn parse_u8(s: &Vec<char>, pos: usize) -> (r: Option<(u8, usize)>)
    ensures
        match r {
            Some((v, j)) => sp_u8(s@, pos as int) == Some((v, j as int)) && pos < j <= s@.len(),
            None => sp_u8(s@, pos as int) is None,
        },
{
    if pos >= s.len() {
        return None;
    }
    if s[pos] == '-' {
        let j = scan_digits(s, pos + 1);
        let len = j - (pos + 1);
        if len < 1 || len > 37 {
            return None;
        }
        let mag = run_value(s, pos + 1, j);
        proof {
            lemma_val_of_bound(s@.subrange(pos + 1, j as int));
        }
        if mag == 0 {
            Some((0u8, j))
        } else {
            None
        }
    } else {
        if !is_digit_char(s[pos]) {
            return None;
        }
        let j = scan_digits(s, pos);
        let len = j - pos;
        if len > 37 {
            return None;
        }
        let mag = run_value(s, pos, j);
        if mag > 255 {
            return None;
        }
        Some((mag as u8, j))
    }
}

fn is_hex_low_char(c: char) -> (r: bool)
    ensures
        r == spec_is_hex_low(c),
{
    is_digit_char(c) || c == 'a' || c == 'b' || c == 'c' || c == 'd' || c == 'e' || c == 'f'
}

fn hex_val_of(c: char) -> (r: u8)
    requires
        spec_is_hex_low(c),
    ensures
        r as int == spec_hex_val(c),
        r < 16,
{
    if is_digit_char(c) {
        digit_val_of(c)
    } else if c == 'a' {
        10
    } else if c == 'b' {
        11
    } else if c == 'c' {
        12
    } else if c == 'd' {
        13
    } else if c == 'e' {
        14
    } else {
        15
    }
}

/// The control character with the given code.
fn char_from_low(code: u8) -> (c: char)
    requires
        code < 32,
    ensures
        c as u32 == code as u32,
{
    if code == 0 {
        '\u{0}'
    } else if code == 1 {
        '\u{1}'
    } else if code == 2 {
        '\u{2}'
    } else if code == 3 {
        '\u{3}'
    } else if code == 4 {
        '\u{4}'
    } else if code == 5 {
        '\u{5}'
    } else if code == 6 {
        '\u{6}'
    } else if code == 7 {
        '\u{7}'
    } else if code == 8 {
        '\u{8}'
    } else if code == 9 {
        '\u{9}'
    } else if code == 10 {
        '\u{a}'
    } else if code == 11 {
        '\u{b}'
    } else if code == 12 {
        '\u{c}'
    } else if code == 13 {
        '\u{d}'
    } else if code == 14 {
        '\u{e}'
    } else if code == 15 {
        '\u{f}'
    } else if code == 16 {
        '\u{10}'
    } else if code == 17 {
        '\u{11}'
    } else if code == 18 {
        '\u{12}'
    } else if code == 19 {
        '\u{13}'
    } else if code == 20 {
        '\u{14}'
    } else if code == 21 {
        '\u{15}'
    } else if code == 22 {
        '\u{16}'
    } else if code == 23 {
        '\u{17}'
    } else if code == 24 {
        '\u{18}'
    } else if code == 25 {
        '\u{19}'
    } else if code == 26 {
        '\u{1a}'
    } else if code == 27 {
        '\u{1b}'
    } else if code == 28 {
        '\u{1c}'
    } else if code == 29 {
        '\u{1d}'
    } else if code == 30 {
        '\u{1e}'
    } else {
        '\u{1f}'
    }
}

/// Parse a quoted, escaped string.
fn parse_string(s: &Vec<char>, pos: usize) -> (r: Option<(String, usize)>)
    ensures
        match r {
            Some((v, j)) => sp_string(s@, pos as int) == Some((v@, j as int)) && pos < j
                <= s@.len(),
            None => sp_string(s@, pos as int) is None,
        },
{
    if pos >= s.len() || !(s[pos] == '"') {
        return None;
    }
    let mut acc: Vec<char> = Vec::new();
    let mut k: usize = pos + 1;
    proof {
        assert(acc@ =~= Seq::<char>::empty());
    }
    loop
        invariant
            pos + 1 <= k <= s.len(),
            pos < s@.len(),
            s@[pos as int] == '"',
            (match sp_str_body(s@, k as int) {
                Some((t, j)) => sp_str_body(s@, pos + 1) == Some((acc@ + t, j)),
                None => sp_str_body(s@, pos + 1) is None,
            }),
        decreases s@.len() - k,
    {
        if k >= s.len() {
            return None;
        }
        let c = s[k];
        if c == '"' {
            let out = string_from_chars(&acc);
            proof {
                assert(acc@ + Seq::<char>::empty() =~= acc@);
            }
            return Some((out, k + 1));
        } else if c == '\\' {
            if k + 1 < s.len() && (s[k + 1] == '"' || s[k + 1] == '\\') {
                let ghost prev = acc@;
                let x = s[k + 1];
                acc.push(x);
                k = k + 2;
                proof {
                    match sp_str_body(s@, k as int) {
                        Some((t2, j2)) => {
                            assert((prev + (seq![x] + t2)) =~= (prev.push(x) + t2));
                        },
                        None => {},
                    }
                }
            } else if s.len() - k > 5 && s[k + 1] == 'u' && s[k + 2] == '0' && s[k + 3] == '0'
                && is_hex_low_char(s[k + 4]) && is_hex_low_char(s[k + 5]) {
                let hv: u8 = hex_val_of(s[k + 4]) * 16 + hex_val_of(s[k + 5]);
                if hv >= 32 {
                    return None;
                }
                let ghost prev = acc@;
                let c2 = char_from_low(hv);
                acc.push(c2);
                k = k + 6;
                proof {
                    let v = spec_hex_val(s@[k - 2]) * 16 + spec_hex_val(s@[k - 1]);
                    assert(v == hv as int);
                    let cs = spec_char_of_code(v);
                    assert(spec_code_of(c2) == v);
                    assert(spec_code_of(cs) == v);
                    vstd::utf8::char_u32_cast(c2, c2 as u32);
                    vstd::utf8::char_u32_cast(cs, cs as u32);
                    assert(cs == c2);
                    match sp_str_body(s@, k as int) {
                        Some((t2, j2)) => {
                            assert((prev + (seq![cs] + t2)) =~= (prev.push(c2) + t2));
                        },
                        None => {},
                    }
                }
            } else {
                return None;
            }
        } else {
            let ghost prev = acc@;
            acc.push(c);
            k = k + 1;
            proof {
                match sp_str_body(s@, k as int) {
                    Some((t2, j2)) => {
                        assert((prev + (seq![c] + t2)) =~= (prev.push(c) + t2));
                    },
                    None => {},
                }
            }
        }
    }
}

/// Parse `true` or `false`.
fn parse_bool(s: &Vec<char>, pos: usize) -> (r: Option<(bool, usize)>)
    ensures
        match r {
            Some((v, j)) => sp_bool(s@, pos as int) == Some((v, j as int)) && pos <= j <= s@.len(),
            None => sp_bool(s@, pos as int) is None,
        },
{
    if pos < s.len() && s[pos] == 't' {
        match eat_lit(s, pos, "true") {
            Some(j) => Some((true, j)),
            None => None,
        }
    } else {
        match eat_lit(s, pos, "false") {
            Some(j) => Some((false, j)),
            None => None,
        }
    }
}

/// Parse `null` or an integer within `i64` range.
fn parse_opt_i64(s: &Vec<char>, pos: usize) -> (r: Option<(Option<i64>, usize)>)
    ensures
        match r {
            Some((v, j)) => sp_opt_i64(s@, pos as int) == Some((v, j as int)) && pos <= j
                <= s@.len(),
            None => sp_opt_i64(s@, pos as int) is None,
        },
{
    if pos < s.len() && s[pos] == 'n' {
        match eat_lit(s, pos, "null") {
            Some(j) => Some((None, j)),
            None => None,
        }
    } else {
        match parse_i64(s, pos) {
            Some((v, j)) => Some((Some(v), j)),
            None => None,
        }
    }
}

/// Parse `null` or a quoted string.
fn parse_opt_string(s: &Vec<char>, pos: usize) -> (r: Option<(Option<String>, usize)>)
    ensures
        match r {
            Some((v, j)) => sp_opt_string(s@, pos as int) == Some((v.deep_view(), j as int)) && pos
                <= j <= s@.len(),
            None => sp_opt_string(s@, pos as int) is None,
        },
{
    if pos < s.len() && s[pos] == 'n' {
        match eat_lit(s, pos, "null") {
            Some(j) => Some((None, j)),
            None => None,
        }
    } else {
        match parse_string(s, pos) {
            Some((v, j)) => Some((Some(v), j)),
            None => None,
        }
    }
}

/// Parse a reminder kind.
fn parse_kind(s: &Vec<char>, pos: usize) -> (r: Option<(ReminderKind, usize)>)
    ensures
        match r {
            Some((v, j)) => sp_kind(s@, pos as int) == Some((v, j as int)) && pos <= j <= s@.len(),
            None => sp_kind(s@, pos as int) is None,
        },
{
    if pos < s.len() && s.len() - pos > 1 && s[pos + 1] == 'f' {
        match eat_lit(s, pos, "\"forced\"") {
            Some(j) => Some((ReminderKind::Forced, j)),
            None => None,
        }
    } else if pos < s.len() && s.len() - pos > 3 && s[pos + 3] == 'n' {
        match eat_lit(s, pos, "\"none\"") {
            Some(j) => Some((ReminderKind::NoReminder, j)),
            None => None,
        }
    } else {
        match eat_lit(s, pos, "\"normal\"") {
            Some(j) => Some((ReminderKind::Normal, j)),
            None => None,
        }
    }
}

/// Parse a reminder configuration object.
fn parse_reminder(s: &Vec<char>, pos: usize) -> (r: Option<(ReminderConfig, usize)>)
    ensures
        match r {
            Some((v, j)) => sp_reminder(s@, pos as int) == Some((v, j as int)) && pos <= j
                <= s@.len(),
            None => sp_reminder(s@, pos as int) is None,
        },
{
    let j1 = match eat_lit(s, pos, "{\"kind\":") {
        Some(j) => j,
        None => {
            return None;
        },
    };
    let (kind, j2) = match parse_kind(s, j1) {
        Some(x) => x,
        None => {
            return None;
        },
    };
    let j3 = match eat_lit(s, j2, ",\"remind_at\":") {
        Some(j) => j,
        None => {
            return None;
        },
    };
    let (remind_at, j4) = match parse_opt_i64(s, j3) {
        Some(x) => x,
        None => {
            return None;
        },
    };
    let j5 = match eat_lit(s, j4, ",\"snoozed_until\":") {
        Some(j) => j,
        None => {
            return None;
        },
    };
    let (snoozed_until, j6) = match parse_opt_i64(s, j5) {
        Some(x) => x,
        None => {
            return None;
        },
    };
    let j7 = match eat_lit(s, j6, ",\"forced_dismissed\":") {
        Some(j) => j,
        None => {
            return None;
        },
    };
    let (forced_dismissed, j8) = match parse_bool(s, j7) {
        Some(x) => x,
        None => {
            return None;
        },
    };
    let j9 = match eat_lit(s, j8, ",\"last_fired_at\":") {
        Some(j) => j,
        None => {
            return None;
        },
    };
    let (last_fired_at, j10) = match parse_opt_i64(s, j9) {
        Some(x) => x,
        None => {
            return None;
        },
    };
    let j11 = match eat_lit(s, j10, ",\"repeat_fired_count\":") {
        Some(j) => j,
        None => {
            return None;
        },
    };
    let (repeat_fired_count, j12) = match parse_i64(s, j11) {
        Some(x) => x,
        None => {
            return None;
        },
    };
    let j13 = match eat_lit(s, j12, "}") {
        Some(j) => j,
        None => {
            return None;
        },
    };
    Some(
        (
            ReminderConfig {
                kind,
                remind_at,
                snoozed_until,
                forced_dismissed,
                last_fired_at,
                repeat_fired_count,
            },
            j13,
        ),
    )
}

/// Parse comma-separated weekday numbers, stopping before the bracket.
fn parse_day_items(s: &Vec<char>, pos: usize) -> (r: Option<(Vec<u8>, usize)>)
    requires
        pos <= s@.len(),
    ensures
        match r {
            Some((v, j)) => sp_day_items(s@, pos as int, Seq::<u8>::empty()) == Some(
                (v@, j as int),
            ) && pos <= j <= s@.len(),
            None => sp_day_items(s@, pos as int, Seq::<u8>::empty()) is None,
        },
{
    let mut acc: Vec<u8> = Vec::new();
    let mut cur: usize = pos;
    proof {
        assert(acc@ =~= Seq::<u8>::empty());
    }
    loop
        invariant
            pos <= cur <= s.len(),
            (match sp_day_items(s@, cur as int, acc@) {
                Some(x) => sp_day_items(s@, pos as int, Seq::<u8>::empty()) == Some(x),
                None => sp_day_items(s@, pos as int, Seq::<u8>::empty()) is None,
            }),
        decreases s@.len() - cur,
    {
        let (v, j) = match parse_u8(s, cur) {
            Some(x) => x,
            None => {
                return None;
            },
        };
        acc.push(v);
        if j < s.len() && s[j] == ',' {
            cur = j + 1;
        } else {
            return Some((acc, j));
        }
    }
}

/// Parse a repeat rule object.
fn parse_repeat(s: &Vec<char>, pos: usize) -> (r: Option<(RepeatRule, usize)>)
    ensures
        match r {
            Some((v, j)) => sp_repeat(s@, pos as int) == Some((v.deep_view(), j as int)) && pos <= j
                <= s@.len(),
            None => sp_repeat(s@, pos as int) is None,
        },
{
    let j = match eat_lit(s, pos, "{\"type\":\"") {
        Some(j) => j,
        None => {
            return None;
        },
    };
    if j < s.len() && s[j] == 'n' {
        match eat_lit(s, j, "none\"}") {
            Some(j2) => Some((RepeatRule::NoRepeat, j2)),
            None => None,
        }
    } else if j < s.len() && s[j] == 'd' {
        let j2 = match eat_lit(s, j, "daily\",\"workday_only\":") {
            Some(x) => x,
            None => {
                return None;
            },
        };
        let (b, j3) = match parse_bool(s, j2) {
            Some(x) => x,
            None => {
                return None;
            },
        };
        match eat_lit(s, j3, "}") {
            Some(j4) => Some((RepeatRule::Daily { workday_only: b }, j4)),
            None => None,
        }
    } else if j < s.len() && s[j] == 'w' {
        let j2 = match eat_lit(s, j, "weekly\",\"days\":[") {
            Some(x) => x,
            None => {
                return None;
            },
        };
        if j2 < s.len() && s[j2] == ']' {
            match eat_lit(s, j2, "]}") {
                Some(j3) => {
                    let days: Vec<u8> = Vec::new();
                    proof {
                        assert(days.deep_view() =~= Seq::<u8>::empty());
                    }
                    Some((RepeatRule::Weekly { days }, j3))
                },
                None => None,
            }
        } else {
            let (days, j3) = match parse_day_items(s, j2) {
                Some(x) => x,
                None => {
                    return None;
                },
            };
            match eat_lit(s, j3, "]}") {
                Some(j4) => {
                    proof {
                        assert(days.deep_view() =~= days@);
                    }
                    Some((RepeatRule::Weekly { days }, j4))
                },
                None => None,
            }
        }
    } else if j < s.len() && s[j] == 'm' {
        let j2 = match eat_lit(s, j, "monthly\",\"day\":") {
            Some(x) => x,
            None => {
                return None;
            },
        };
        let (d, j3) = match parse_u8(s, j2) {
            Some(x) => x,
            None => {
                return None;
            },
        };
        match eat_lit(s, j3, "}") {
            Some(j4) => Some((RepeatRule::Monthly { day: d }, j4)),
            None => None,
        }
    } else {
        let j2 = match eat_lit(s, j, "yearly\",\"month\":") {
            Some(x) => x,
            None => {
                return None;
            },
        };
        let (m, j3) = match parse_u8(s, j2) {
            Some(x) => x,
            None => {
                return None;
            },
        };
        let j4 = match eat_lit(s, j3, ",\"day\":") {
            Some(x) => x,
            None => {
                return None;
            },
        };
        let (d, j5) = match parse_u8(s, j4) {
            Some(x) => x,
            None => {
                return None;
            },
        };
        match eat_lit(s, j5, "}") {
            Some(j6) => Some((RepeatRule::Yearly { month: m, day: d }, j6)),
            None => None,
        }
    }
}

/// Parse a step object.
fn parse_step(s: &Vec<char>, pos: usize) -> (r: Option<(Step, usize)>)
    ensures
        match r {
            Some((v, j)) => sp_step(s@, pos as int) == Some((v.deep_view(), j as int)) && pos < j
                <= s@.len(),
            None => sp_step(s@, pos as int) is None,
        },
{
    let j1 = match eat_lit(s, pos, "{\"id\":") {
        Some(j) => j,
        None => {
            return None;
        },
    };
    let (id, j2) = match parse_string(s, j1) {
        Some(x) => x,
        None => {
            return None;
        },
    };
    let j3 = match eat_lit(s, j2, ",\"title\":") {
        Some(j) => j,
        None => {
            return None;
        },
    };
    let (title, j4) = match parse_string(s, j3) {
        Some(x) => x,
        None => {
            return None;
        },
    };
    let j5 = match eat_lit(s, j4, ",\"completed\":") {
        Some(j) => j,
        None => {
            return None;
        },
    };
    let (completed, j6) = match parse_bool(s, j5) {
        Some(x) => x,
        None => {
            return None;
        },
    };
    let j7 = match eat_lit(s, j6, ",\"created_at\":") {
        Some(j) => j,
        None => {
            return None;
        },
    };
    let (created_at, j8) = match parse_i64(s, j7) {
        Some(x) => x,
        None => {
            return None;
        },
    };
    let j9 = match eat_lit(s, j8, ",\"completed_at\":") {
        Some(j) => j,
        None => {
            return None;
        },
    };
    let (completed_at, j10) = match parse_opt_i64(s, j9) {
        Some(x) => x,
        None => {
            return None;
        },
    };
    let j11 = match eat_lit(s, j10, "}") {
        Some(j) => j,
        None => {
            return None;
        },
    };
    proof {
        reveal_strlit("{\"id\":");
    }
    Some((Step { id, title, completed, created_at, completed_at }, j11))
}

/// Parse comma-separated steps, stopping before the bracket.
fn parse_step_items(s: &Vec<char>, pos: usize) -> (r: Option<(Vec<Step>, usize)>)
    requires
        pos <= s@.len(),
    ensures
        match r {
            Some((v, j)) => sp_step_items(s@, pos as int, Seq::<StepView>::empty()) == Some(
                (v.deep_view(), j as int),
            ) && pos <= j <= s@.len(),
            None => sp_step_items(s@, pos as int, Seq::<StepView>::empty()) is None,
        },
{
    let mut acc: Vec<Step> = Vec::new();
    let mut cur: usize = pos;
    proof {
        assert(acc.deep_view() =~= Seq::<StepView>::empty());
    }
    loop
        invariant
            pos <= cur <= s.len(),
            (match sp_step_items(s@, cur as int, acc.deep_view()) {
                Some(x) => sp_step_items(s@, pos as int, Seq::<StepView>::empty()) == Some(x),
                None => sp_step_items(s@, pos as int, Seq::<StepView>::empty()) is None,
            }),
        decreases s@.len() - cur,
    {
        let ghost prev = acc.deep_view();
        let (v, j) = match parse_step(s, cur) {
            Some(x) => x,
            None => {
                return None;
            },
        };
        let ghost vv = v.deep_view();
        acc.push(v);
        proof {
            assert(acc.deep_view() =~= prev.push(vv));
        }
        if j < s.len() && s[j] == ',' {
            cur = j + 1;
        } else {
            return Some((acc, j));
        }
    }
}

/// Parse comma-separated strings, stopping before the bracket.
fn parse_tag_items(s: &Vec<char>, pos: usize) -> (r: Option<(Vec<String>, usize)>)
    requires
        pos <= s@.len(),
    ensures
        match r {
            Some((v, j)) => sp_tag_items(s@, pos as int, Seq::<Seq<char>>::empty()) == Some(
                (v.deep_view(), j as int),
            ) && pos <= j <= s@.len(),
            None => sp_tag_items(s@, pos as int, Seq::<Seq<char>>::empty()) is None,
        },
{
    let mut acc: Vec<String> = Vec::new();
    let mut cur: usize = pos;
    proof {
        assert(acc.deep_view() =~= Seq::<Seq<char>>::empty());
    }
    loop
        invariant
            pos <= cur <= s.len(),
            (match sp_tag_items(s@, cur as int, acc.deep_view()) {
                Some(x) => sp_tag_items(s@, pos as int, Seq::<Seq<char>>::empty()) == Some(x),
                None => sp_tag_items(s@, pos as int, Seq::<Seq<char>>::empty()) is None,
            }),
        decreases s@.len() - cur,
    {
        let ghost prev = acc.deep_view();
        let (v, j) = match parse_string(s, cur) {
            Some(x) => x,
            None => {
                return None;
            },
        };
        let ghost vv = v@;
        acc.push(v);
        proof {
            assert(acc.deep_view() =~= prev.push(vv));
        }
        if j < s.len() && s[j] == ',' {
            cur = j + 1;
        } else {
            return Some((acc, j));
        }
    }
}

/// Parse a project object.
fn parse_project(s: &Vec<char>, pos: usize) -> (r: Option<(Project, usize)>)
    ensures
        match r {
            Some((v, j)) => sp_project(s@, pos as int) == Some((v.deep_view(), j as int)) && pos
                < j <= s@.len(),
            None => sp_project(s@, pos as int) is None,
        },
{
    let j1 = match eat_lit(s, pos, "{\"id\":") {
        Some(j) => j,
        None => {
            return None;
        },
    };
    let (id, j2) = match parse_string(s, j1) {
        Some(x) => x,
        None => {
            return None;
        },
    };
    let j3 = match eat_lit(s, j2, ",\"name\":") {
        Some(j) => j,
        None => {
            return None;
        },
    };
    let (name, j4) = match parse_string(s, j3) {
        Some(x) => x,
        None => {
            return None;
        },
    };
    let j5 = match eat_lit(s, j4, ",\"pinned\":") {
        Some(j) => j,
        None => {
            return None;
        },
    };
    let (pinned, j6) = match parse_bool(s, j5) {
        Some(x) => x,
        None => {
            return None;
        },
    };
    let j7 = match eat_lit(s, j6, ",\"sort_order\":") {
        Some(j) => j,
        None => {
            return None;
        },
    };
    let (sort_order, j8) = match parse_i64(s, j7) {
        Some(x) => x,
        None => {
            return None;
        },
    };
    let j9 = match eat_lit(s, j8, ",\"created_at\":") {
        Some(j) => j,
        None => {
            return None;
        },
    };
    let (created_at, j10) = match parse_i64(s, j9) {
        Some(x) => x,
        None => {
            return None;
        },
    };
    let j11 = match eat_lit(s, j10, ",\"updated_at\":") {
        Some(j) => j,
        None => {
            return None;
        },
    };
    let (updated_at, j12) = match parse_i64(s, j11) {
        Some(x) => x,
        None => {
            return None;
        },
    };
    let j13 = match eat_lit(s, j12, ",\"sample_tag\":") {
        Some(j) => j,
        None => {
            return None;
        },
    };
    let (sample_tag, j14) = match parse_opt_string(s, j13) {
        Some(x) => x,
        None => {
            return None;
        },
    };
    let j15 = match eat_lit(s, j14, "}") {
        Some(j) => j,
        None => {
            return None;
        },
    };
    proof {
        reveal_strlit("{\"id\":");
    }
    Some((Project { id, name, pinned, sort_order, created_at, updated_at, sample_tag }, j15))
}

/// Parse comma-separated projects, stopping before the bracket.
fn parse_project_items(s: &Vec<char>, pos: usize) -> (r: Option<(Vec<Project>, usize)>)
    requires
        pos <= s@.len(),
    ensures
        match r {
            Some((v, j)) => sp_project_items(s@, pos as int, Seq::<ProjectView>::empty()) == Some(
                (v.deep_view(), j as int),
            ) && pos <= j <= s@.len(),
            None => sp_project_items(s@, pos as int, Seq::<ProjectView>::empty()) is None,
        },
{
    let mut acc: Vec<Project> = Vec::new();
    let mut cur: usize = pos;
    proof {
        assert(acc.deep_view() =~= Seq::<ProjectView>::empty());
    }
    loop
        invariant
            pos <= cur <= s.len(),
            (match sp_project_items(s@, cur as int, acc.deep_view()) {
                Some(x) => sp_project_items(s@, pos as int, Seq::<ProjectView>::empty()) == Some(
                    x,
                ),
                None => sp_project_items(s@, pos as int, Seq::<ProjectView>::empty()) is None,
            }),
        decreases s@.len() - cur,
    {
        let ghost prev = acc.deep_view();
        let (v, j) = match parse_project(s, cur) {
            Some(x) => x,
            None => {
                return None;
            },
        };
        let ghost vv = v.deep_view();
        acc.push(v);
        proof {
            assert(acc.deep_view() =~= prev.push(vv));
        }
        if j < s.len() && s[j] == ',' {
            cur = j + 1;
        } else {
            return Some((acc, j));
        }
    }
}

/// Parse a task object.
#[verifier::rlimit(100)]
#[verifier::spinoff_prover]
fn parse_task(s: &Vec<char>, pos: usize) -> (r: Option<(Task, usize)>)
    ensures
        match r {
            Some((v, j)) => sp_task(s@, pos as int) == Some((v.deep_view(), j as int)) && pos < j
                <= s@.len(),
            None => sp_task(s@, pos as int) is None,
        },
{
    let j1 = match eat_lit(s, pos, "{\"id\":") {
        Some(j) => j,
        None => {
            return None;
        },
    };
    let (id, j2) = match parse_string(s, j1) {
        Some(x) => x,
        None => {
            return None;
        },
    };
    let j3 = match eat_lit(s, j2, ",\"project_id\":") {
        Some(j) => j,
        None => {
            return None;
        },
    };
    let (project_id, j4) = match parse_string(s, j3) {
        Some(x) => x,
        None => {
            return None;
        },
    };
    let j5 = match eat_lit(s, j4, ",\"title\":") {
        Some(j) => j,
        None => {
            return None;
        },
    };
    let (title, j6) = match parse_string(s, j5) {
        Some(x) => x,
        None => {
            return None;
        },
    };
    let j7 = match eat_lit(s, j6, ",\"due_at\":") {
        Some(j) => j,
        None => {
            return None;
        },
    };
    let (due_at, j8) = match parse_i64(s, j7) {
        Some(x) => x,
        None => {
            return None;
        },
    };
    let j9 = match eat_lit(s, j8, ",\"important\":") {
        Some(j) => j,
        None => {
            return None;
        },
    };
    let (important, j10) = match parse_bool(s, j9) {
        Some(x) => x,
        None => {
            return None;
        },
    };
    let j11 = match eat_lit(s, j10, ",\"completed\":") {
        Some(j) => j,
        None => {
            return None;
        },
    };
    let (completed, j12) = match parse_bool(s, j11) {
        Some(x) => x,
        None => {
            return None;
        },
    };
    let j13 = match eat_lit(s, j12, ",\"completed_at\":") {
        Some(j) => j,
        None => {
            return None;
        },
    };
    let (completed_at, j14) = match parse_opt_i64(s, j13) {
        Some(x) => x,
        None => {
            return None;
        },
    };
    let j15 = match eat_lit(s, j14, ",\"created_at\":") {
        Some(j) => j,
        None => {
            return None;
        },
    };
    let (created_at, j16) = match parse_i64(s, j15) {
        Some(x) => x,
        None => {
            return None;
        },
    };
    let j17 = match eat_lit(s, j16, ",\"updated_at\":") {
        Some(j) => j,
        None => {
            return None;
        },
    };
    let (updated_at, j18) = match parse_i64(s, j17) {
        Some(x) => x,
        None => {
            return None;
        },
    };
    let j19 = match eat_lit(s, j18, ",\"sort_order\":") {
        Some(j) => j,
        None => {
            return None;
        },
    };
    let (sort_order, j20) = match parse_i64(s, j19) {
        Some(x) => x,
        None => {
            return None;
        },
    };
    let j21 = match eat_lit(s, j20, ",\"quadrant\":") {
        Some(j) => j,
        None => {
            return None;
        },
    };
    let (quadrant, j22) = match parse_u8(s, j21) {
        Some(x) => x,
        None => {
            return None;
        },
    };
    let j23 = match eat_lit(s, j22, ",\"notes\":") {
        Some(j) => j,
        None => {
            return None;
        },
    };
    let (notes, j24) = match parse_opt_string(s, j23) {
        Some(x) => x,
        None => {
            return None;
        },
    };
    let j25 = match eat_lit(s, j24, ",\"steps\":[") {
        Some(j) => j,
        None => {
            return None;
        },
    };
    let (steps, j26): (Vec<Step>, usize) = if j25 < s.len() && s[j25] == ']' {
        let empty_steps: Vec<Step> = Vec::new();
        proof {
            assert(empty_steps.deep_view() =~= Seq::<StepView>::empty());
        }
        (empty_steps, j25)
    } else {
        match parse_step_items(s, j25) {
            Some(x) => x,
            None => {
                return None;
            },
        }
    };
    let j27 = match eat_lit(s, j26, "],\"tags\":[") {
        Some(j) => j,
        None => {
            return None;
        },
    };
    let (tags, j28): (Vec<String>, usize) = if j27 < s.len() && s[j27] == ']' {
        let empty_tags: Vec<String> = Vec::new();
        proof {
            assert(empty_tags.deep_view() =~= Seq::<Seq<char>>::empty());
        }
        (empty_tags, j27)
    } else {
        match parse_tag_items(s, j27) {
            Some(x) => x,
            None => {
                return None;
            },
        }
    };
    let j29 = match eat_lit(s, j28, "],\"sample_tag\":") {
        Some(j) => j,
        None => {
            return None;
        },
    };
    let (sample_tag, j30) = match parse_opt_string(s, j29) {
        Some(x) => x,
        None => {
            return None;
        },
    };
    let j31 = match eat_lit(s, j30, ",\"reminder\":") {
        Some(j) => j,
        None => {
            return None;
        },
    };
    let (reminder, j32) = match parse_reminder(s, j31) {
        Some(x) => x,
        None => {
            return None;
        },
    };
    let j33 = match eat_lit(s, j32, ",\"repeat\":") {
        Some(j) => j,
        None => {
            return None;
        },
    };
    let (repeat, j34) = match parse_repeat(s, j33) {
        Some(x) => x,
        None => {
            return None;
        },
    };
    let j35 = match eat_lit(s, j34, "}") {
        Some(j) => j,
        None => {
            return None;
        },
    };
    proof {
        reveal_strlit("{\"id\":");
    }
    Some(
        (
            Task {
                id,
                project_id,
                title,
                due_at,
                important,
                completed,
                completed_at,
                created_at,
                updated_at,
                sort_order,
                quadrant,
                notes,
                steps,
                tags,
                sample_tag,
                reminder,
                repeat,
            },
            j35,
        ),
    )
}

/// Parse comma-separated tasks, stopping before the bracket.
fn parse_task_items(s: &Vec<char>, pos: usize) -> (r: Option<(Vec<Task>, usize)>)
    requires
        pos <= s@.len(),
    ensures
        match r {
            Some((v, j)) => sp_task_items(s@, pos as int, Seq::<TaskView>::empty()) == Some(
                (v.deep_view(), j as int),
            ) && pos <= j <= s@.len(),
            None => sp_task_items(s@, pos as int, Seq::<TaskView>::empty()) is None,
        },
{
    let mut acc: Vec<Task> = Vec::new();
    let mut cur: usize = pos;
    proof {
        assert(acc.deep_view() =~= Seq::<TaskView>::empty());
    }
    loop
        invariant
            pos <= cur <= s.len(),
            (match sp_task_items(s@, cur as int, acc.deep_view()) {
                Some(x) => sp_task_items(s@, pos as int, Seq::<TaskView>::empty()) == Some(x),
                None => sp_task_items(s@, pos as int, Seq::<TaskView>::empty()) is None,
            }),
        decreases s@.len() - cur,
    {
        let ghost prev = acc.deep_view();
        let (v, j) = match parse_task(s, cur) {
            Some(x) => x,
            None => {
                return None;
            },
        };
        let ghost vv = v.deep_view();
        acc.push(v);
        proof {
            assert(acc.deep_view() =~= prev.push(vv));
        }
        if j < s.len() && s[j] == ',' {
            cur = j + 1;
        } else {
            return Some((acc, j));
        }
    }
}

/// Parse a complete task document; succeeds only when the whole text is
/// exactly one canonical document.
pub fn parse_tasks_file(s: &Vec<char>) -> (r: Option<TasksFile>)
    ensures
        match r {
            Some(f) => sp_tasks_file(s@, 0) == Some(
                (
                    (f.schema_version, f.tasks.deep_view(), f.projects.deep_view()),
                    s@.len() as int,
                ),
            ),
            None => forall|v: (u32, Seq<TaskView>, Seq<ProjectView>)|
                sp_tasks_file(s@, 0) != Some((v, s@.len() as int)),
        },
{
    let j1 = match eat_lit(s, 0, "{\"schema_version\":") {
        Some(j) => j,
        None => {
            return None;
        },
    };
    let (schema_version, j2) = match parse_u32(s, j1) {
        Some(x) => x,
        None => {
            return None;
        },
    };
    let j3 = match eat_lit(s, j2, ",\"tasks\":[") {
        Some(j) => j,
        None => {
            return None;
        },
    };
    let (tasks, j4): (Vec<Task>, usize) = if j3 < s.len() && s[j3] == ']' {
        let empty_tasks: Vec<Task> = Vec::new();
        proof {
            assert(empty_tasks.deep_view() =~= Seq::<TaskView>::empty());
        }
        (empty_tasks, j3)
    } else {
        match parse_task_items(s, j3) {
            Some(x) => x,
            None => {
                return None;
            },
        }
    };
    let j5 = match eat_lit(s, j4, "],\"projects\":[") {
        Some(j) => j,
        None => {
            return None;
        },
    };
    let (projects, j6): (Vec<Project>, usize) = if j5 < s.len() && s[j5] == ']' {
        let empty_projects: Vec<Project> = Vec::new();
        proof {
            assert(empty_projects.deep_view() =~= Seq::<ProjectView>::empty());
        }
        (empty_projects, j5)
    } else {
        match parse_project_items(s, j5) {
            Some(x) => x,
            None => {
                return None;
            },
        }
    };
    let j7 = match eat_lit(s, j6, "]}") {
        Some(j) => j,
        None => {
            return None;
        },
    };
    if j7 != s.len() {
        return None;
    }
    Some(TasksFile { schema_version, tasks, projects })
}

/// Parse an integer within `u32` range.
fn parse_u32(s: &Vec<char>, pos: usize) -> (r: Option<(u32, usize)>)
    ensures
        match r {
            Some((v, j)) => ({
                &&& sp_int(s@, pos as int) matches Some((sv, sj)) && sv == v as int && sj
                    == j as int
                &&& 0 <= v as int <= u32::MAX
                &&& pos < j <= s@.len()
            }),
            None => (match sp_int(s@, pos as int) {
                Some((sv, sj)) => !(0 <= sv <= u32::MAX),
                None => true,
            }),
        },
{
    if pos >= s.len() {
        return None;
    }
    if s[pos] == '-' {
        let j = scan_digits(s, pos + 1);
        let len = j - (pos + 1);
        if len < 1 || len > 37 {
            return None;
        }
        let mag = run_value(s, pos + 1, j);
        proof {
            lemma_val_of_bound(s@.subrange(pos + 1, j as int));
        }
        if mag == 0 {
            Some((0u32, j))
        } else {
            None
        }
    } else {
        if !is_digit_char(s[pos]) {
            return None;
        }
        let j = scan_digits(s, pos);
        let len = j - pos;
        if len > 37 {
            return None;
        }
        let mag = run_value(s, pos, j);
        if mag > 0xffffffffu128 {
            return None;
        }
        Some((mag as u32, j))
    }
}

} // verus!
