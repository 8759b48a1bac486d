//! Recurrence calculator: advance a due date along a repeat rule.
//!
//! The calendar arithmetic is fully verified on civil dates and day numbers.
//! `next_due_timestamp_utc` carries an exact contract; `next_due_timestamp`
//! goes through the machine's local time zone, whose resolution no contract
//! can pin down, and so states nothing of its machine-dependent result.

use vstd::prelude::*;

use crate::calendar::{
    civil_from_days, days_from_civil, days_in_month, lemma_days_before_month_bounds,
    lemma_days_before_year_bounds, lemma_days_before_year_monotone, lemma_spec_civil_of,
    lemma_within_year_bounds, spec_civil_of, spec_day_of, spec_days_in_month,
    spec_weekday_from_days, valid_date, weekday_from_days, CivilDate, MAX_CIVIL_DAY, TS_LIMIT,
};
use crate::localtime::{
    local_civil_of, now_timestamp, resolve_local_civil, LocalCivil, LocalResolution,
};
use crate::models::{ReminderConfig, ReminderKind, RepeatRule, RepeatRuleView, Task, TaskView};
use vstd::arithmetic::div_mod::{
    lemma_fundamental_div_mod, lemma_fundamental_div_mod_converse_div,
    lemma_fundamental_div_mod_converse_mod, lemma_mod_division_less_than_divisor,
};

verus! {

/// Saturday or Sunday.
pub open spec fn spec_is_weekend(days: int) -> bool {
    spec_weekday_from_days(days) == 6 || spec_weekday_from_days(days) == 7
}

/// The weekly rule's day set mentions weekday number `wd`.
pub open spec fn weekday_set_contains(days: Seq<u8>, wd: int) -> bool {
    exists|i: int| 0 <= i < days.len() && days[i] as int == wd
}

/// The weekly rule's day set holds at least one real weekday number.
pub open spec fn weekday_set_has_valid(days: Seq<u8>) -> bool {
    exists|i: int| 0 <= i < days.len() && 1 <= #[trigger] days[i] <= 7
}

/// A month number clamped to `[1, 12]`.
pub open spec fn spec_clamp_month(m: u8) -> int {
    if m < 1 {
        1
    } else if m > 12 {
        12
    } else {
        m as int
    }
}

/// A day-of-month clamped to `[1, last day of the month]`.
pub open spec fn spec_clamp_day(y: int, m: int, d: u8) -> int {
    let safe = if d < 1 {
        1
    } else {
        d as int
    };
    let last = spec_days_in_month(y, m);
    if safe > last {
        last
    } else {
        safe
    }
}

/// What the next due date is, per rule. This is the recurrence calculator's
/// whole contract: date `r` follows `date` under `rule`.
pub open spec fn next_date_matches(date: CivilDate, rule: RepeatRuleView, r: CivilDate) -> bool {
    match rule {
        RepeatRuleView::NoRepeat => r == date,
        RepeatRuleView::Daily { workday_only } => {
            if workday_only {
                &&& spec_day_of(date) < spec_day_of(r) <= spec_day_of(date) + 3
                &&& !spec_is_weekend(spec_day_of(r))
                &&& forall|k: int|
                    spec_day_of(date) < k < spec_day_of(r) ==> spec_is_weekend(k)
            } else {
                spec_day_of(r) == spec_day_of(date) + 1
            }
        },
        RepeatRuleView::Weekly { days } => {
            if weekday_set_has_valid(days) {
                &&& spec_day_of(date) < spec_day_of(r) <= spec_day_of(date) + 7
                &&& weekday_set_contains(days, spec_weekday_from_days(spec_day_of(r)))
                &&& forall|k: int|
                    spec_day_of(date) < k < spec_day_of(r) ==> !weekday_set_contains(
                        days,
                        spec_weekday_from_days(k),
                    )
            } else {
                spec_day_of(r) == spec_day_of(date) + 7
            }
        },
        RepeatRuleView::Monthly { day } => {
            &&& if date.month < 12 {
                r.year == date.year && r.month == date.month + 1
            } else {
                r.year == date.year + 1 && r.month == 1
            }
            &&& r.day as int == spec_clamp_day(r.year as int, r.month as int, day)
        },
        RepeatRuleView::Yearly { month, day } => {
            &&& r.year == date.year + 1
            &&& r.month as int == spec_clamp_month(month)
            &&& r.day as int == spec_clamp_day(r.year as int, r.month as int, day)
        },
    }
}

/// Stepping a day number by `k` rotates the weekday by `k` within 1..=7.
proof fn lemma_weekday_add(d: int, k: int)
    requires
        0 <= k <= 7,
    ensures
        spec_weekday_from_days(d + k) == if spec_weekday_from_days(d) + k <= 7 {
            spec_weekday_from_days(d) + k
        } else {
            spec_weekday_from_days(d) + k - 7
        },
{
    let q = (d + 3) / 7;
    let r = (d + 3) % 7;
    lemma_fundamental_div_mod(d + 3, 7);
    lemma_mod_division_less_than_divisor(d + 3, 7);
    if r + k < 7 {
        lemma_fundamental_div_mod_converse_mod(d + k + 3, 7, q, r + k);
    } else {
        lemma_fundamental_div_mod_converse_mod(d + k + 3, 7, q + 1, r + k - 7);
    }
}

/// Within the next seven days there is one of each weekday, so a day set
/// holding a real weekday number is hit within seven days.
proof fn lemma_weekday_cover(d0: int, days: Seq<u8>)
    requires
        weekday_set_has_valid(days),
    ensures
        exists|off: int|
            1 <= off <= 7 && #[trigger] weekday_set_contains(
                days,
                spec_weekday_from_days(d0 + off),
            ),
{
    let i = choose|i: int| 0 <= i < days.len() && 1 <= #[trigger] days[i] <= 7;
    let wd0 = days[i] as int;
    let w = spec_weekday_from_days(d0);
    lemma_mod_division_less_than_divisor(d0 + 3, 7);
    let off = if wd0 > w {
        wd0 - w
    } else {
        wd0 - w + 7
    };
    lemma_weekday_add(d0, off);
    assert(spec_weekday_from_days(d0 + off) == wd0);
    assert(weekday_set_contains(days, spec_weekday_from_days(d0 + off)));
    assert(1 <= off <= 7 && weekday_set_contains(days, spec_weekday_from_days(d0 + off)));
}

/// A valid date whose year is capped sits below the day-number ceiling that
/// `civil_from_days` accepts.
proof fn lemma_day_of_upper(date: CivilDate)
    requires
        valid_date(date),
        date.year <= 10000,
    ensures
        spec_day_of(date) <= 2939345,
{
    lemma_days_before_year_bounds(date.year as int);
    lemma_days_before_month_bounds(date.year as int, date.month as int);
}

/// A date at most 365 days past a valid date is at most one year later.
proof fn lemma_year_step_bound(date: CivilDate, r: CivilDate)
    requires
        valid_date(date),
        valid_date(r),
        spec_day_of(r) <= spec_day_of(date) + 365,
    ensures
        r.year <= date.year + 1,
{
    if r.year >= date.year + 2 {
        lemma_days_before_year_monotone(date.year as int, date.year + 1);
        lemma_days_before_year_monotone(date.year + 1, r.year as int);
        lemma_within_year_bounds(date.year as int, date.month as int, date.day as int);
        lemma_days_before_month_bounds(r.year as int, r.month as int);
        assert(false);
    }
}

/// The input-date ceiling keeps the year at or below 9999.
proof fn lemma_input_year_bound(date: CivilDate)
    requires
        valid_date(date),
        spec_day_of(date) <= MAX_CIVIL_DAY,
    ensures
        date.year <= 9999,
{
    lemma_days_before_year_bounds(date.year as int);
    lemma_days_before_month_bounds(date.year as int, date.month as int);
}

/// True iff the weekly day set mentions `wd`.
fn weekday_set_check(days: &Vec<u8>, wd: u8) -> (r: bool)
    ensures
        r == weekday_set_contains(days@, wd as int),
{
    let mut i: usize = 0;
    while i < days.len()
        invariant
            0 <= i <= days.len(),
            forall|j: int| 0 <= j < i ==> days@[j] != wd,
        decreases days.len() - i,
    {
        if days[i] == wd {
            return true;
        }
        i = i + 1;
    }
    false
}

/// True iff the weekly day set holds at least one real weekday number.
fn weekday_set_any_valid(days: &Vec<u8>) -> (r: bool)
    ensures
        r == weekday_set_has_valid(days@),
{
    let mut i: usize = 0;
    while i < days.len()
        invariant
            0 <= i <= days.len(),
            forall|j: int| 0 <= j < i ==> !(1 <= #[trigger] days@[j] <= 7),
        decreases days.len() - i,
    {
        if 1 <= days[i] && days[i] <= 7 {
            return true;
        }
        i = i + 1;
    }
    false
}

/// The next due date after `date` under `rule`.
///
/// Daily advances one day, skipping Saturday and Sunday when asked to.
/// Weekly finds the earliest strictly later date whose weekday is in the set,
/// or falls seven days ahead when the set holds no real weekday. Monthly
/// advances one month and Yearly one year, clamping the configured day (and
/// month) into the resulting month.
pub fn next_due_date(date: CivilDate, rule: &RepeatRule) -> (r: CivilDate)
    requires
        valid_date(date),
        spec_day_of(date) <= MAX_CIVIL_DAY,
    ensures
        valid_date(r),
        r.year <= date.year + 1,
        next_date_matches(date, rule.deep_view(), r),
{
    proof {
        lemma_input_year_bound(date);
    }
    match rule {
        RepeatRule::NoRepeat => date,
        RepeatRule::Daily { workday_only } => {
            let d0 = days_from_civil(date.year, date.month, date.day);
            let mut d1 = d0 + 1;
            if *workday_only {
                let wd = weekday_from_days(d1);
                proof {
                    lemma_weekday_add(d0 + 1, 1);
                    lemma_weekday_add(d0 + 1, 2);
                }
                if wd == 6 {
                    d1 = d1 + 2;
                } else if wd == 7 {
                    d1 = d1 + 1;
                }
            }
            let r = civil_from_days(d1);
            proof {
                lemma_year_step_bound(date, r);
            }
            r
        },
        RepeatRule::Weekly { days } => {
            let d0 = days_from_civil(date.year, date.month, date.day);
            proof {
                assert(days.deep_view() =~= days@);
            }
            if !weekday_set_any_valid(days) {
                let r = civil_from_days(d0 + 7);
                proof {
                    lemma_year_step_bound(date, r);
                }
                return r;
            }
            let mut off: i64 = 1;
            loop
                invariant
                    1 <= off <= 7,
                    weekday_set_has_valid(days@),
                    0 <= d0 <= MAX_CIVIL_DAY,
                    d0 == spec_day_of(date),
                    forall|k: int|
                        d0 < k < d0 + off ==> !weekday_set_contains(
                            days@,
                            spec_weekday_from_days(k),
                        ),
                ensures
                    1 <= off <= 7,
                    weekday_set_contains(days@, spec_weekday_from_days(d0 + off)),
                    forall|k: int|
                        d0 < k < d0 + off ==> !weekday_set_contains(
                            days@,
                            spec_weekday_from_days(k),
                        ),
                decreases 7 - off,
            {
                let wd = weekday_from_days(d0 + off);
                if weekday_set_check(days, wd) {
                    break;
                }
                proof {
                    if off == 7 {
                        lemma_weekday_cover(d0 as int, days@);
                        let w = choose|w: int|
                            1 <= w <= 7 && #[trigger] weekday_set_contains(
                                days@,
                                spec_weekday_from_days(d0 + w),
                            );
                        assert(false);
                    }
                }
                off = off + 1;
            }
            let r = civil_from_days(d0 + off);
            proof {
                lemma_year_step_bound(date, r);
            }
            r
        },
        RepeatRule::Monthly { day } => {
            let y2: i64 = if date.month == 12 {
                date.year + 1
            } else {
                date.year
            };
            let m2: u8 = if date.month == 12 {
                1
            } else {
                date.month + 1
            };
            let last = days_in_month(y2, m2);
            let safe: u8 = if *day < 1 {
                1
            } else {
                *day
            };
            let use_day: u8 = if safe > last {
                last
            } else {
                safe
            };
            CivilDate { year: y2, month: m2, day: use_day }
        },
        RepeatRule::Yearly { month, day } => {
            let y2: i64 = date.year + 1;
            let m2: u8 = if *month < 1 {
                1
            } else if *month > 12 {
                12
            } else {
                *month
            };
            let last = days_in_month(y2, m2);
            let safe: u8 = if *day < 1 {
                1
            } else {
                *day
            };
            let use_day: u8 = if safe > last {
                last
            } else {
                safe
            };
            CivilDate { year: y2, month: m2, day: use_day }
        },
    }
}

/// The civil date in which a representable timestamp falls, read as UTC.
pub open spec fn spec_utc_date_of(ts: int) -> CivilDate {
    let c = spec_civil_of(ts / 86400);
    CivilDate { year: c.0 as i64, month: c.1 as u8, day: c.2 as u8 }
}

/// `next_due_date` lifted to epoch-second timestamps read as UTC: the date
/// advances along the rule and the time of day is kept. The result's day
/// number stays inside the window where `spec_civil_of` is pinned, so a
/// caller can recover the concrete instant from the date relation.
pub fn next_due_timestamp_utc(due_at: i64, repeat: &RepeatRule) -> (r: i64)
    requires
        0 <= due_at < TS_LIMIT,
    ensures
        0 <= r,
        r / 86400 <= 2939345,
        r % 86400 == due_at % 86400,
        next_date_matches(spec_utc_date_of(due_at as int), repeat.deep_view(), spec_utc_date_of(r as int)),
{
    let d0 = due_at / 86400;
    let tod = due_at % 86400;
    proof {
        lemma_mod_division_less_than_divisor(due_at as int, 86400);
        lemma_fundamental_div_mod(due_at as int, 86400);
        assert(d0 <= MAX_CIVIL_DAY) by {
            if d0 > MAX_CIVIL_DAY {
                assert(due_at as int >= 86400 * (MAX_CIVIL_DAY + 1));
            }
        };
    }
    let date = civil_from_days(d0);
    proof {
        lemma_spec_civil_of(d0 as int);
        assert(spec_utc_date_of(due_at as int) == date);
    }
    let next = next_due_date(date, repeat);
    proof {
        lemma_input_year_bound(date);
        lemma_day_of_upper(next);
    }
    let d1 = days_from_civil(next.year, next.month, next.day);
    let r = d1 * 86400 + tod;
    proof {
        lemma_fundamental_div_mod_converse_mod(r as int, 86400, d1 as int, tod as int);
        lemma_fundamental_div_mod_converse_div(r as int, 86400, d1 as int, tod as int);
        lemma_spec_civil_of(d1 as int);
        assert(spec_utc_date_of(r as int) == next);
    }
    r
}

/// A rule that skips weekends never lands on Saturday or Sunday.
pub proof fn lemma_workday_rule_avoids_weekend(date: CivilDate, rule: RepeatRuleView, r: CivilDate)
    requires
        rule == (RepeatRuleView::Daily { workday_only: true }),
        next_date_matches(date, rule, r),
    ensures
        spec_weekday_from_days(spec_day_of(r)) != 6,
        spec_weekday_from_days(spec_day_of(r)) != 7,
{
}

/// Under a monthly or yearly rule with a real day-of-month, the resulting
/// day equals the configured day capped at the length of the resulting
/// month.
pub proof fn lemma_month_day_clamped(date: CivilDate, rule: RepeatRuleView, r: CivilDate)
    requires
        (rule matches RepeatRuleView::Monthly { day } && day >= 1) || (rule
            matches RepeatRuleView::Yearly { month, day } && day >= 1),
        next_date_matches(date, rule, r),
    ensures
        r.day as int == ({
            let day = match rule {
                RepeatRuleView::Monthly { day } => day as int,
                RepeatRuleView::Yearly { month, day } => day as int,
                _ => 0,
            };
            let last = spec_days_in_month(r.year as int, r.month as int);
            if day <= last {
                day
            } else {
                last
            }
        }),
{
}

/// Saturating difference of two timestamps, never below zero.
fn sat_diff_nonneg(a: i64, b: i64) -> (r: i64)
    ensures
        r as int == spec_sat_diff_nonneg(a as int, b as int),
{
    if b >= a {
        0
    } else if b >= 0 {
        a - b
    } else if a <= i64::MAX + b {
        a - b
    } else {
        i64::MAX
    }
}

/// `max(a - b, 0)`, saturated at the largest timestamp.
pub open spec fn spec_sat_diff_nonneg(a: int, b: int) -> int {
    if b >= a {
        0
    } else if a - b > i64::MAX {
        i64::MAX as int
    } else {
        a - b
    }
}

/// `a - b`, saturated at the smallest timestamp.
pub open spec fn spec_sat_sub(a: int, b: int) -> int {
    if a - b < i64::MIN {
        i64::MIN as int
    } else {
        a - b
    }
}

fn sat_sub(a: i64, b: i64) -> (r: i64)
    requires
        b >= 0,
    ensures
        r as int == spec_sat_sub(a as int, b as int),
{
    if a >= i64::MIN + b {
        a - b
    } else {
        i64::MIN
    }
}

/// The successor task spawned when a repeating task is completed: same
/// content under a fresh id derived from the parent's id and the spawn
/// time, cleared lifecycle and reminder state, the new due time, and the
/// reminder offset carried over so a copied override cannot fire at once.
pub open spec fn spec_next_repeat_task(
    completed: TaskView,
    next_due: i64,
    now: i64,
    now_millis: i64,
) -> TaskView {
    let old_default_target = if completed.reminder.kind == ReminderKind::Normal {
        spec_sat_sub(completed.due_at as int, 600)
    } else {
        completed.due_at as int
    };
    let old_target = match completed.reminder.remind_at {
        Some(r) => r as int,
        None => old_default_target,
    };
    let offset = spec_sat_diff_nonneg(completed.due_at as int, old_target);
    TaskView {
        id: completed.id + seq!['-'] + crate::codec::enc_int(now as int),
        completed: false,
        completed_at: None,
        created_at: now,
        updated_at: now,
        sort_order: now_millis,
        due_at: next_due,
        reminder: ReminderConfig {
            last_fired_at: None,
            forced_dismissed: false,
            snoozed_until: None,
            repeat_fired_count: 0,
            remind_at: if completed.reminder.kind == ReminderKind::NoReminder {
                None
            } else {
                Some(spec_sat_sub(next_due as int, offset) as i64)
            },
            ..completed.reminder
        },
        ..completed
    }
}

/// Build the successor task for a completed repeating task.
pub fn build_next_repeat_task(completed: &Task, next_due: i64, now: i64, now_millis: i64) -> (next:
    Task)
    ensures
        next.deep_view() == spec_next_repeat_task(
            completed.deep_view(),
            next_due,
            now,
            now_millis,
        ),
{
    let mut next = completed.clone();
    let mut id_chars = crate::docio::chars_of_string(completed.id.as_str());
    id_chars.push('-');
    crate::docio::push_int(&mut id_chars, now);
    next.id = crate::docio::string_from_chars(&id_chars);
    next.completed = false;
    next.completed_at = None;
    next.created_at = now;
    next.updated_at = now;
    next.sort_order = now_millis;
    next.due_at = next_due;
    next.reminder.last_fired_at = None;
    next.reminder.forced_dismissed = false;
    next.reminder.snoozed_until = None;
    next.reminder.repeat_fired_count = 0;
    if next.reminder.kind == ReminderKind::NoReminder {
        next.reminder.remind_at = None;
    } else {
        let old_default_target = if completed.reminder.kind == ReminderKind::Normal {
            sat_sub(completed.due_at, 600)
        } else {
            completed.due_at
        };
        let old_target = match completed.reminder.remind_at {
            Some(r) => r,
            None => old_default_target,
        };
        let offset = sat_diff_nonneg(completed.due_at, old_target);
        next.reminder.remind_at = Some(sat_sub(next_due, offset));
    }
    proof {
        assert(completed.id@ + seq!['-'] + crate::codec::enc_int(now as int) =~= completed.id@ + (
        seq!['-'] + crate::codec::enc_int(now as int)));
        assert(next.deep_view() =~= spec_next_repeat_task(
            completed.deep_view(),
            next_due,
            now,
            now_millis,
        ));
    }
    next
}

/// Resolve a naive local date-time to an instant, preferring the earlier of
/// two ambiguous instants; inside a clock jump-forward, shift one hour later
/// and retry, and fall back to `base_ts` if even that does not exist.
fn resolve_preferring_earliest(next: CivilDate, secs: u32, base_ts: i64) -> i64
    requires
        valid_date(next),
        next.year <= 10000,
        secs < 86400,
{
    match resolve_local_civil(next.year, next.month, next.day, secs) {
        LocalResolution::Single(t) => t,
        LocalResolution::Ambiguous(a, _b) => a,
        LocalResolution::Absent => {
            let mut secs2 = secs + 3600;
            let mut date2 = next;
            if secs2 >= 86400 {
                secs2 = secs2 - 86400;
                proof {
                    lemma_day_of_upper(next);
                }
                let dd = days_from_civil(next.year, next.month, next.day) + 1;
                date2 = civil_from_days(dd);
            }
            match resolve_local_civil(date2.year, date2.month, date2.day, secs2) {
                LocalResolution::Single(t) => t,
                LocalResolution::Ambiguous(a, _b) => a,
                LocalResolution::Absent => base_ts,
            }
        },
    }
}

/// Advance `due_at` along `repeat`, interpreting it in the machine's local
/// time zone, as the interactive application does.
///
/// The due instant is read as a local calendar date plus time of day, the
/// date advances by `next_due_date` (the verified calculator), and the same
/// time of day is re-attached. A local time erased by a clock jump-forward is
/// shifted one hour later; of two instants left by a clock roll-back the
/// earlier is chosen. A `due_at` outside the representable window falls back
/// to the current time. The local time zone is machine state, so no contract
/// pins this function's result; the calendar logic behind it is verified in
/// `next_due_date` and exactly specified in `next_due_timestamp_utc`.
pub fn next_due_timestamp(due_at: i64, repeat: &RepeatRule) -> i64 {
    let c: LocalCivil = match local_civil_of(due_at) {
        Some(c) => c,
        None => {
            return now_timestamp();
        },
    };
    if c.year < 1970 || c.year > 9999 {
        return now_timestamp();
    }
    let d0 = days_from_civil(c.year, c.month, c.day);
    if d0 > MAX_CIVIL_DAY {
        return now_timestamp();
    }
    let date = CivilDate { year: c.year, month: c.month, day: c.day };
    let next = next_due_date(date, repeat);
    resolve_preferring_earliest(next, c.secs, due_at)
}

} // verus!
