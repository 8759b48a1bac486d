//! The pure half of durable storage: rendering and reading the canonical
//! task document, the atomic write's temp-name and retry decisions,
//! backup-name selection, retention and eviction choice, filename
//! sanitizing, and the calendar-boundary auto-backup policy. The shell
//! around this library performs the file reads, writes, copies and
//! deletes that these decisions drive.

use vstd::prelude::*;

use crate::calendar::{
    days_from_civil, spec_days_from_civil, spec_weekday_from_days, weekday_from_days,
};
use crate::codec::{enc_int, spec_dec_digits};
use crate::docio::{chars_of_string, encode_tasks_file, parse_tasks_file, string_from_chars};
use crate::docjson::{enc_tasks_file, sp_tasks_file};
use crate::localtime::{local_civil_of, LocalCivil};
use crate::models::{BackupEntry, BackupSchedule, Settings, TasksFile};
use vstd::relations::sorted_by;
use vstd::seq_lib::{to_multiset_build, to_multiset_remove};
use vstd::string::StrSliceExecFns;

verus! {

/// How many backup snapshots are retained.
pub const BACKUP_LIMIT: usize = 5;

/// The two failure kinds of the storage layer: a filesystem-level fault and
/// a malformed document.
#[derive(Debug)]
pub enum StorageError {
    Io(String),
    Format(String),
}

/// A backup filename is safe when it is a plain name: nonempty, not a dot
/// name, and free of path separators.
pub open spec fn spec_safe_backup_name(s: Seq<char>) -> bool {
    &&& s.len() > 0
    &&& s != "."@
    &&& s != ".."@
    &&& forall|i: int| 0 <= i < s.len() ==> #[trigger] s[i] != '/' && s[i] != '\\'
}

/// The canonical backup filename for a date text and a same-day index:
/// `data-DATE.json`, then `data-DATE-2.json` and so on.
pub open spec fn spec_backup_name(date: Seq<char>, k: int) -> Seq<char> {
    if k == 1 {
        "data-"@ + date + ".json"@
    } else {
        "data-"@ + date + "-"@ + spec_dec_digits(k) + ".json"@
    }
}

/// The number of backups beyond the retention limit.
pub open spec fn spec_backup_overflow(count: int) -> int {
    if count > BACKUP_LIMIT {
        count - BACKUP_LIMIT
    } else {
        0
    }
}

/// Removing the overflow always brings the count back within the retention
/// limit.
pub proof fn lemma_trim_restores_retention(count: int)
    requires
        count >= 0,
    ensures
        count - spec_backup_overflow(count) <= BACKUP_LIMIT,
{
}

/// How often the atomic write retries a collided temporary name before
/// surfacing an error.
pub const TEMP_ATTEMPT_LIMIT: u8 = 10;

/// The temporary sibling name the atomic write uses for a file stem: the
/// deterministic `.tmp` name first, then names suffixed with the process id
/// and the attempt number.
pub open spec fn spec_temp_name(stem: Seq<char>, pid: int, attempt: int) -> Seq<char> {
    if attempt == 0 {
        stem + ".tmp"@
    } else {
        stem + ".tmp."@ + spec_dec_digits(pid) + "."@ + spec_dec_digits(attempt)
    }
}

/// Build the temporary name for one write attempt.
pub fn temp_attempt_name(stem: &String, pid: u32, attempt: u8) -> (r: String)
    ensures
        r@ == spec_temp_name(stem@, pid as int, attempt as int),
{
    let mut name = chars_of_string(stem.as_str());
    if attempt == 0 {
        crate::docio::push_lit(&mut name, ".tmp");
    } else {
        crate::docio::push_lit(&mut name, ".tmp.");
        crate::docio::push_int(&mut name, pid as i64);
        crate::docio::push_lit(&mut name, ".");
        crate::docio::push_int(&mut name, attempt as i64);
    }
    let out = string_from_chars(&name);
    proof {
        if attempt > 0 {
            assert(enc_int(pid as int) == spec_dec_digits(pid as int));
            assert(enc_int(attempt as int) == spec_dec_digits(attempt as int));
        }
        assert(out@ =~= spec_temp_name(stem@, pid as int, attempt as int));
    }
    out
}

/// How creating a temporary file ended, as a plain value.
#[derive(Clone, Copy, Debug, PartialEq, Eq, Structural)]
pub enum CreateOutcome {
    Created,
    NameTaken,
    IsDirectory,
    NoPermission,
    OtherFailure,
}

/// What the atomic write does next after one create attempt.
#[derive(Clone, Copy, Debug, PartialEq, Eq, Structural)]
pub enum RetryAction {
    Proceed,
    Retry,
    GiveUp,
}

/// Only a name collision, a directory squatting on the name, or a transient
/// permission error is worth another temporary name.
pub open spec fn spec_retryable_create(o: CreateOutcome) -> bool {
    o == CreateOutcome::NameTaken || o == CreateOutcome::IsDirectory || o
        == CreateOutcome::NoPermission
}

/// The atomic write's retry decision: proceed on success, retry a retryable
/// failure while attempts remain, give up otherwise.
pub open spec fn spec_retry_action(attempt: int, o: CreateOutcome) -> RetryAction {
    if o == CreateOutcome::Created {
        RetryAction::Proceed
    } else if spec_retryable_create(o) && attempt < TEMP_ATTEMPT_LIMIT {
        RetryAction::Retry
    } else {
        RetryAction::GiveUp
    }
}

/// Decide one step of the atomic write's bounded retry loop. The shell runs
/// the loop: it creates the temporary file, writes, syncs and renames, and
/// removes the temporary file on every exit path but a successful rename.
pub fn retry_create_step(attempt: u8, outcome: CreateOutcome) -> (r: RetryAction)
    ensures
        r == spec_retry_action(attempt as int, outcome),
{
    if outcome == CreateOutcome::Created {
        RetryAction::Proceed
    } else if (outcome == CreateOutcome::NameTaken || outcome == CreateOutcome::IsDirectory
        || outcome == CreateOutcome::NoPermission) && attempt < TEMP_ATTEMPT_LIMIT {
        RetryAction::Retry
    } else {
        RetryAction::GiveUp
    }
}

/// Check a caller-supplied backup filename: plain names only, so a name can
/// never escape the backup directory.
pub fn sanitize_backup_filename(filename: &String) -> (r: bool)
    ensures
        r == spec_safe_backup_name(filename@),
{
    let n = filename.as_str().unicode_len();
    if n == 0 {
        return false;
    }
    let mut i: usize = 0;
    let mut all_dots = true;
    while i < n
        invariant
            0 <= i <= n,
            n == filename@.len(),
            forall|j: int| 0 <= j < i ==> #[trigger] filename@[j] != '/' && filename@[j] != '\\',
            all_dots == (forall|j: int| 0 <= j < i ==> #[trigger] filename@[j] == '.'),
        decreases n - i,
    {
        let c = filename.as_str().get_char(i);
        if c == '/' || c == '\\' {
            return false;
        }
        if !(c == '.') {
            all_dots = false;
        }
        i = i + 1;
    }
    if all_dots && n <= 2 {
        proof {
            reveal_strlit(".");
            reveal_strlit("..");
            if n == 1 {
                assert(filename@ =~= "."@);
            } else {
                assert(filename@ =~= ".."@);
            }
        }
        return false;
    }
    proof {
        reveal_strlit(".");
        reveal_strlit("..");
        if filename@ == "."@ {
            assert(filename@[0] == '.');
            assert(false);
        }
        if filename@ == ".."@ {
            assert(filename@[0] == '.' && filename@[1] == '.');
            assert(false);
        }
    }
    true
}

/// True iff the name list holds the name.
fn name_in_list(names: &Vec<String>, name: &Vec<char>) -> (r: bool)
    ensures
        r == names.deep_view().contains(name@),
{
    let mut i: usize = 0;
    while i < names.len()
        invariant
            0 <= i <= names.len(),
            forall|j: int| 0 <= j < i ==> (#[trigger] names.deep_view()[j]) != name@,
        decreases names.len() - i,
    {
        let cand = chars_of_string(names[i].as_str());
        if char_vecs_equal(&cand, name) {
            proof {
                assert(names.deep_view()[i as int] == name@);
            }
            return true;
        }
        i = i + 1;
    }
    proof {
        if names.deep_view().contains(name@) {
            let k = choose|k: int|
                0 <= k < names.deep_view().len() && names.deep_view()[k] == name@;
            assert(false);
        }
    }
    false
}

fn char_vecs_equal(a: &Vec<char>, b: &Vec<char>) -> (r: bool)
    ensures
        r == (a@ == b@),
{
    if a.len() != b.len() {
        proof {
            assert(a@.len() != b@.len());
        }
        return false;
    }
    let mut i: usize = 0;
    while i < a.len()
        invariant
            0 <= i <= a@.len(),
            a@.len() == b@.len(),
            forall|j: int| 0 <= j < i ==> a@[j] == b@[j],
        decreases a@.len() - i,
    {
        if !(a[i] == b[i]) {
            return false;
        }
        i = i + 1;
    }
    proof {
        assert(a@ =~= b@);
    }
    true
}

/// The pure core of the storage layer. The root path is carried for the
/// shell around the library, which joins it with the file names.
pub struct Storage {
    pub root: String,
}

impl Storage {
    pub fn new(root: String) -> (r: Storage)
        ensures
            r.root == root,
    {
        Storage { root }
    }

    /// Render the task document as its canonical text. The shell writes it
    /// with a write-to-temp, sync, rename sequence.
    pub fn save_tasks(&self, data: &TasksFile) -> (r: Vec<char>)
        ensures
            r@ == enc_tasks_file(
                data.schema_version,
                data.tasks.deep_view(),
                data.projects.deep_view(),
            ),
    {
        encode_tasks_file(data)
    }

    /// Read a task document back from its text: the canonical text of a
    /// document yields exactly that document, anything else is a format
    /// error the caller may recover from with a default document.
    pub fn load_tasks(&self, text: &Vec<char>) -> (r: Result<TasksFile, StorageError>)
        ensures
            r matches Ok(f) ==> sp_tasks_file(text@, 0) == Some(
                (
                    (f.schema_version, f.tasks.deep_view(), f.projects.deep_view()),
                    text@.len() as int,
                ),
            ),
            r matches Err(e) ==> (e matches StorageError::Format(_)) && (forall|
                v: (u32, Seq<crate::models::TaskView>, Seq<crate::models::ProjectView>),
            |
                sp_tasks_file(text@, 0) != Some((v, text@.len() as int))),
    {
        match parse_tasks_file(text) {
            Some(f) => Ok(f),
            None => Err(StorageError::Format("malformed task document".to_owned())),
        }
    }

    /// As `load_tasks`, for a document imported from an arbitrary file the
    /// shell has read.
    pub fn restore_from_path(&self, text: &Vec<char>) -> (r: Result<TasksFile, StorageError>)
        ensures
            r matches Ok(f) ==> sp_tasks_file(text@, 0) == Some(
                (
                    (f.schema_version, f.tasks.deep_view(), f.projects.deep_view()),
                    text@.len() as int,
                ),
            ),
            r matches Err(_) ==> (forall|
                v: (u32, Seq<crate::models::TaskView>, Seq<crate::models::ProjectView>),
            |
                sp_tasks_file(text@, 0) != Some((v, text@.len() as int))),
    {
        self.load_tasks(text)
    }

    /// Restore from a named backup the shell has read: the name is rejected
    /// outright when it could escape the backup directory, and the text is
    /// then read like any document.
    pub fn restore_backup(&self, filename: &String, text: &Vec<char>) -> (r: Result<
        TasksFile,
        StorageError,
    >)
        ensures
            !spec_safe_backup_name(filename@) ==> (r matches Err(e) && e matches StorageError::Io(
                _,
            )),
            spec_safe_backup_name(filename@) ==> {
                &&& (r matches Ok(f) ==> sp_tasks_file(text@, 0) == Some(
                    (
                        (f.schema_version, f.tasks.deep_view(), f.projects.deep_view()),
                        text@.len() as int,
                    ),
                ))
                &&& (r matches Err(e) ==> (e matches StorageError::Format(_)) && (forall|
                    v: (u32, Seq<crate::models::TaskView>, Seq<crate::models::ProjectView>),
                |
                    sp_tasks_file(text@, 0) != Some((v, text@.len() as int))))
            },
    {
        if !sanitize_backup_filename(filename) {
            return Err(StorageError::Io("invalid backup filename".to_owned()));
        }
        self.load_tasks(text)
    }

    /// Choose the first free canonical backup name for the date: the plain
    /// dated name, then dash-numbered variants; an error exactly when all
    /// ten thousand same-day candidates are taken.
    pub fn next_backup_name(&self, date: &String, existing: &Vec<String>) -> (r: Result<
        String,
        StorageError,
    >)
        ensures
            r matches Ok(n) ==> exists|k: int|
                1 <= k <= 9999 && n@ == #[trigger] spec_backup_name(date@, k)
                    && !existing.deep_view().contains(n@) && (forall|j: int|
                    1 <= j < k ==> existing.deep_view().contains(#[trigger] spec_backup_name(
                        date@,
                        j,
                    ))),
            r is Err ==> forall|j: int|
                1 <= j <= 9999 ==> existing.deep_view().contains(#[trigger] spec_backup_name(
                    date@,
                    j,
                )),
    {
        let mut k: u16 = 1;
        while k <= 9999
            invariant
                1 <= k <= 10000,
                forall|j: int|
                    1 <= j < k ==> existing.deep_view().contains(#[trigger] spec_backup_name(
                        date@,
                        j,
                    )),
            decreases 10000 - k,
        {
            let mut name: Vec<char> = Vec::new();
            crate::docio::push_lit(&mut name, "data-");
            let date_chars = chars_of_string(date.as_str());
            let mut m: usize = 0;
            while m < date_chars.len()
                invariant
                    0 <= m <= date_chars@.len(),
                    date_chars@ == date@,
                    name@ == "data-"@ + date@.take(m as int),
                decreases date_chars@.len() - m,
            {
                name.push(date_chars[m]);
                m = m + 1;
                proof {
                    assert(date@.take(m as int) =~= date@.take(m - 1).push(date@[m - 1]));
                    assert(name@ =~= "data-"@ + date@.take(m as int));
                }
            }
            proof {
                assert(date@.take(date@.len() as int) =~= date@);
            }
            if k > 1 {
                name.push('-');
                crate::docio::push_int(&mut name, k as i64);
            }
            crate::docio::push_lit(&mut name, ".json");
            proof {
                reveal_strlit("-");
                if k == 1 {
                    assert(name@ =~= spec_backup_name(date@, k as int));
                } else {
                    assert(enc_int(k as int) == spec_dec_digits(k as int));
                    assert("-"@ =~= seq!['-']);
                    assert(name@ =~= spec_backup_name(date@, k as int));
                }
            }
            if !name_in_list(existing, &name) {
                let out = string_from_chars(&name);
                return Ok(out);
            }
            k = k + 1;
        }
        Err(StorageError::Io("no free backup name for this date".to_owned()))
    }

    /// How many backups must leave so that at most the retention limit
    /// remains.
    pub fn backup_overflow(&self, count: usize) -> (r: usize)
        ensures
            r as int == spec_backup_overflow(count as int),
            count - r <= BACKUP_LIMIT,
    {
        if count > BACKUP_LIMIT {
            count - BACKUP_LIMIT
        } else {
            0
        }
    }

    /// The names of the backups that must leave so that at most the
    /// retention limit remains: the overflow oldest, by modification time.
    pub fn select_evictions(&self, entries: Vec<BackupEntry>) -> (r: Vec<String>)
        ensures
            r@.len() == spec_backup_overflow(entries@.len() as int),
            exists|sorted: Seq<BackupEntry>|
                {
                    &&& (#[trigger] sorted.to_multiset()) == entries@.to_multiset()
                    &&& sorted_by(
                        sorted,
                        |a: BackupEntry, b: BackupEntry| a.modified_at <= b.modified_at,
                    )
                    &&& r.deep_view() == sorted.take(
                        spec_backup_overflow(entries@.len() as int),
                    ).map_values(|e: BackupEntry| e.name@)
                },
    {
        let ghost n = entries@.len() as int;
        let overflow = self.backup_overflow(entries.len());
        let sorted = sort_entries_by_age(entries);
        let ghost sorted0 = sorted@;
        let mut rest = sorted;
        let mut out: Vec<String> = Vec::new();
        let mut i: usize = 0;
        proof {
            assert(out.deep_view() =~= sorted0.take(0).map_values(|e: BackupEntry| e.name@));
            assert(rest@ =~= sorted0.skip(0));
        }
        while i < overflow
            invariant
                0 <= i <= overflow,
                overflow as int == spec_backup_overflow(sorted0.len() as int),
                rest@ == sorted0.skip(i as int),
                out.deep_view() == sorted0.take(i as int).map_values(|e: BackupEntry| e.name@),
            decreases overflow - i,
        {
            let ghost prev = out.deep_view();
            let e = rest.remove(0);
            let ghost ev = e.name@;
            out.push(e.name);
            i = i + 1;
            proof {
                assert(sorted0.skip(i - 1)[0] == sorted0[i - 1]);
                assert(rest@ =~= sorted0.skip(i as int));
                assert(out.deep_view() =~= prev.push(ev));
                assert(sorted0.take(i as int) =~= sorted0.take(i - 1).push(sorted0[i - 1]));
                assert(out.deep_view() =~= sorted0.take(i as int).map_values(
                    |e2: BackupEntry| e2.name@,
                ));
            }
        }
        proof {
            assert(sorted0.to_multiset() == sorted0.to_multiset());
        }
        out
    }

    /// Whether a save must take a backup first: only when no backup has yet
    /// been taken inside the current calendar period.
    pub fn should_auto_backup(&self, settings: &Settings, now: i64) -> (r: bool)
        ensures
            settings.backup_schedule == BackupSchedule::Never ==> !r,
            settings.backup_schedule != BackupSchedule::Never && settings.last_backup_at is None
                ==> r,
    {
        match settings.backup_schedule {
            BackupSchedule::Never => false,
            BackupSchedule::Daily => is_new_day(settings.last_backup_at, now),
            BackupSchedule::Weekly => is_new_week(settings.last_backup_at, now),
            BackupSchedule::Monthly => is_new_month(settings.last_backup_at, now),
        }
    }
}

/// Sort backup entries by modification time, oldest first (a permutation
/// of the input).
fn sort_entries_by_age(entries: Vec<BackupEntry>) -> (r: Vec<BackupEntry>)
    ensures
        r@.to_multiset() == entries@.to_multiset(),
        r@.len() == entries@.len(),
        sorted_by(r@, |a: BackupEntry, b: BackupEntry| a.modified_at <= b.modified_at),
{
    broadcast use vstd::multiset::group_multiset_axioms;
    broadcast use vstd::seq_lib::group_to_multiset_ensures;

    let ghost leq = |a: BackupEntry, b: BackupEntry| a.modified_at <= b.modified_at;
    let mut rest = entries;
    let mut out: Vec<BackupEntry> = Vec::new();
    proof {
        assert(out@.to_multiset().add(rest@.to_multiset()) =~= entries@.to_multiset());
    }
    while rest.len() > 0
        invariant
            out@.to_multiset().add(rest@.to_multiset()) == entries@.to_multiset(),
            out@.len() + rest@.len() == entries@.len(),
            sorted_by(out@, leq),
            leq == (|a: BackupEntry, b: BackupEntry| a.modified_at <= b.modified_at),
            forall|i: int, j: int|
                0 <= i < out@.len() && 0 <= j < rest@.len() ==> leq(out@[i], rest@[j]),
        decreases rest.len(),
    {
        let mut m: usize = 0;
        let mut i: usize = 1;
        while i < rest.len()
            invariant
                0 < rest@.len(),
                0 <= m < i <= rest@.len(),
                leq == (|a: BackupEntry, b: BackupEntry| a.modified_at <= b.modified_at),
                forall|j: int| 0 <= j < i ==> leq(rest@[m as int], rest@[j]),
            decreases rest.len() - i,
        {
            if rest[i].modified_at < rest[m].modified_at {
                m = i;
            }
            i = i + 1;
        }
        let ghost old_out = out@;
        let ghost old_rest = rest@;
        let e = rest.remove(m);
        out.push(e);
        proof {
            broadcast use vstd::multiset::group_multiset_axioms;

            to_multiset_remove(old_rest, m as int);
            to_multiset_build(old_out, e);
            assert(old_rest.contains(e));
            vstd::seq_lib::to_multiset_contains(old_rest, e);
            assert(out@.to_multiset().add(rest@.to_multiset()) =~= entries@.to_multiset());
            assert forall|i2: int, j2: int|
                0 <= i2 < out@.len() && 0 <= j2 < rest@.len() implies leq(out@[i2], rest@[j2]) by {
                if i2 < old_out.len() {
                    assert(out@[i2] == old_out[i2]);
                }
                if j2 < m {
                    assert(rest@[j2] == old_rest[j2]);
                } else {
                    assert(rest@[j2] == old_rest[j2 + 1]);
                }
            }
            assert forall|i2: int, j2: int|
                0 <= i2 <= j2 < out@.len() implies leq(out@[i2], out@[j2]) by {
                if j2 < old_out.len() {
                    assert(sorted_by(old_out, leq));
                } else if i2 < old_out.len() {
                    assert(leq(old_out[i2], old_rest[m as int]));
                }
            }
        }
    }
    proof {
        assert(rest@.to_multiset() =~= Seq::<BackupEntry>::empty().to_multiset());
        assert(out@.to_multiset() =~= entries@.to_multiset());
    }
    out
}

/// A value as one CSV cell: wrapped in quotes, every inner quote doubled.
pub open spec fn spec_csv_escape(s: Seq<char>) -> Seq<char> {
    seq!['"'] + spec_csv_body(s) + seq!['"']
}

pub open spec fn spec_csv_body(s: Seq<char>) -> Seq<char>
    decreases s.len(),
{
    if s.len() == 0 {
        Seq::<char>::empty()
    } else if s[0] == '"' {
        seq!['"', '"'] + spec_csv_body(s.skip(1))
    } else {
        seq![s[0]] + spec_csv_body(s.skip(1))
    }
}

proof fn lemma_csv_body_snoc(t: Seq<char>, c: char)
    ensures
        spec_csv_body(t.push(c)) == spec_csv_body(t) + (if c == '"' {
            seq!['"', '"']
        } else {
            seq![c]
        }),
    decreases t.len(),
{
    let enc = if c == '"' {
        seq!['"', '"']
    } else {
        seq![c]
    };
    if t.len() == 0 {
        assert(t.push(c).skip(1) =~= Seq::<char>::empty());
        assert(t.push(c)[0] == c);
        assert(spec_csv_body(t.push(c)) == enc + spec_csv_body(t.push(c).skip(1)));
        assert(spec_csv_body(Seq::<char>::empty()) == Seq::<char>::empty());
        assert(spec_csv_body(t) == Seq::<char>::empty());
        assert(spec_csv_body(t.push(c)) =~= spec_csv_body(t) + enc);
    } else {
        lemma_csv_body_snoc(t.skip(1), c);
        assert(t.push(c).skip(1) =~= t.skip(1).push(c));
        assert(t.push(c)[0] == t[0]);
        if t[0] == '"' {
            crate::codec::lemma_concat_assoc(seq!['"', '"'], spec_csv_body(t.skip(1)), enc);
        } else {
            crate::codec::lemma_concat_assoc(seq![t[0]], spec_csv_body(t.skip(1)), enc);
        }
    }
}

/// Escape one value for a CSV cell.
pub fn csv_escape(value: &String) -> (r: String)
    ensures
        r@ == spec_csv_escape(value@),
{
    let mut out: Vec<char> = Vec::new();
    out.push('"');
    let n = value.as_str().unicode_len();
    let mut i: usize = 0;
    while i < n
        invariant
            0 <= i <= n,
            n == value@.len(),
            out@ == seq!['"'] + spec_csv_body(value@.take(i as int)),
        decreases n - i,
    {
        let ghost pre = value@.take(i as int);
        let c = value.as_str().get_char(i);
        if c == '"' {
            out.push('"');
            out.push('"');
        } else {
            out.push(c);
        }
        i = i + 1;
        proof {
            lemma_csv_body_snoc(pre, c);
            assert(value@.take(i as int) =~= pre.push(c));
            assert(out@ =~= seq!['"'] + spec_csv_body(value@.take(i as int)));
        }
    }
    out.push('"');
    let r = string_from_chars(&out);
    proof {
        assert(value@.take(n as int) =~= value@);
        assert(out@ =~= spec_csv_escape(value@));
    }
    r
}

/// Two local timestamps fall on the same calendar day.
pub open spec fn spec_same_civil_day(a: LocalCivil, b: LocalCivil) -> bool {
    a.year == b.year && a.month == b.month && a.day == b.day
}

/// Two local timestamps fall in the same week (weeks starting Monday),
/// judged by the day number of each date's Monday; dates outside the
/// supported calendar window only compare equal as whole days.
pub open spec fn spec_same_week(a: LocalCivil, b: LocalCivil) -> bool {
    if 1970 <= a.year <= 9999 && 1970 <= b.year <= 9999 {
        spec_monday_of(a) == spec_monday_of(b)
    } else {
        spec_same_civil_day(a, b)
    }
}

pub open spec fn spec_monday_of(c: LocalCivil) -> int {
    let d = spec_days_from_civil(c.year as int, c.month as int, c.day as int);
    d - (spec_weekday_from_days(d) - 1)
}

/// Two local timestamps fall in the same calendar month.
pub open spec fn spec_same_month(a: LocalCivil, b: LocalCivil) -> bool {
    a.year == b.year && a.month == b.month
}

fn same_civil_day(a: LocalCivil, b: LocalCivil) -> (r: bool)
    ensures
        r == spec_same_civil_day(a, b),
{
    a.year == b.year && a.month == b.month && a.day == b.day
}

/// The shape every local civil value handed over by the clock boundary has.
pub open spec fn spec_valid_local(c: LocalCivil) -> bool {
    1 <= c.month <= 12 && 1 <= c.day && c.day as int <= crate::calendar::spec_days_in_month(
        c.year as int,
        c.month as int,
    )
}

fn same_week(a: LocalCivil, b: LocalCivil) -> (r: bool)
    requires
        spec_valid_local(a),
        spec_valid_local(b),
    ensures
        r == spec_same_week(a, b),
{
    if 1970 <= a.year && a.year <= 9999 && 1970 <= b.year && b.year <= 9999 {
        proof {
            crate::calendar::lemma_days_before_year_bounds(a.year as int);
            crate::calendar::lemma_days_before_month_bounds(a.year as int, a.month as int);
            crate::calendar::lemma_days_before_year_bounds(b.year as int);
            crate::calendar::lemma_days_before_month_bounds(b.year as int, b.month as int);
        }
        let da = days_from_civil(a.year, a.month, a.day);
        let db = days_from_civil(b.year, b.month, b.day);
        let wa = weekday_from_days(da);
        let wb = weekday_from_days(db);
        da - (wa as i64 - 1) == db - (wb as i64 - 1)
    } else {
        same_civil_day(a, b)
    }
}

fn same_month(a: LocalCivil, b: LocalCivil) -> (r: bool)
    ensures
        r == spec_same_month(a, b),
{
    a.year == b.year && a.month == b.month
}

/// The calendar period an auto-backup schedule watches.
#[derive(Clone, Copy, Debug, PartialEq, Eq, Structural)]
pub enum PeriodKind {
    Day,
    Week,
    Month,
}

/// Whether two local instants fall in the same period of the given kind.
pub open spec fn spec_same_period(kind: PeriodKind, a: LocalCivil, b: LocalCivil) -> bool {
    match kind {
        PeriodKind::Day => spec_same_civil_day(a, b),
        PeriodKind::Week => spec_same_week(a, b),
        PeriodKind::Month => spec_same_month(a, b),
    }
}

/// The period decision over the two clock-boundary outcomes: when both
/// instants decompose, compare their periods; when neither does, nothing
/// changed; when exactly one does, the boundary was crossed.
pub open spec fn spec_period_changed(
    kind: PeriodKind,
    a: Option<LocalCivil>,
    b: Option<LocalCivil>,
) -> bool {
    match (a, b) {
        (Some(x), Some(y)) => !spec_same_period(kind, x, y),
        (None, None) => false,
        _ => true,
    }
}

/// Decide whether the period boundary lies between two decomposed instants.
pub fn period_changed(kind: PeriodKind, a: Option<LocalCivil>, b: Option<LocalCivil>) -> (r: bool)
    requires
        a matches Some(x) ==> spec_valid_local(x),
        b matches Some(y) ==> spec_valid_local(y),
    ensures
        r == spec_period_changed(kind, a, b),
{
    match (a, b) {
        (Some(x), Some(y)) => match kind {
            PeriodKind::Day => !same_civil_day(x, y),
            PeriodKind::Week => !same_week(x, y),
            PeriodKind::Month => !same_month(x, y),
        },
        (None, None) => false,
        _ => true,
    }
}

/// A backup is owed daily when the last one fell on another local calendar
/// day (or there has been none, or either instant is unrepresentable in
/// different ways).
fn is_new_day(last: Option<i64>, now: i64) -> (r: bool)
    ensures
        last is None ==> r,
{
    match last {
        None => true,
        Some(ts) => period_changed(PeriodKind::Day, local_civil_of(ts), local_civil_of(now)),
    }
}

/// As `is_new_day`, on week boundaries.
fn is_new_week(last: Option<i64>, now: i64) -> (r: bool)
    ensures
        last is None ==> r,
{
    match last {
        None => true,
        Some(ts) => period_changed(PeriodKind::Week, local_civil_of(ts), local_civil_of(now)),
    }
}

/// As `is_new_day`, on month boundaries.
fn is_new_month(last: Option<i64>, now: i64) -> (r: bool)
    ensures
        last is None ==> r,
{
    match last {
        None => true,
        Some(ts) => period_changed(PeriodKind::Month, local_civil_of(ts), local_civil_of(now)),
    }
}

} // verus!
