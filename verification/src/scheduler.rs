//! Reminder scheduler: decide, for one instant, which tasks must fire.
//!
//! `spec_is_due` is the whole decision, written out as mathematics;
//! `collect_due_tasks` returns exactly the due tasks, ordered important-first
//! and then by due time.

use vstd::prelude::*;

use crate::models::{lemma_filter_singleton, ReminderKind, Settings, Task};
use vstd::relations::sorted_by;
use vstd::seq_lib::{to_multiset_build, to_multiset_remove};

verus! {

/// The instant a reminder aims at before overrides: ten minutes before the
/// due time for a soft reminder, the due time itself for a blocking one.
/// The subtraction saturates at the smallest timestamp.
pub open spec fn spec_default_target(t: Task) -> int {
    if t.reminder.kind == ReminderKind::Normal {
        if t.due_at >= i64::MIN + 600 {
            t.due_at - 600
        } else {
            i64::MIN as int
        }
    } else {
        t.due_at as int
    }
}

/// The target instant: an active snooze wins over an explicit override,
/// which wins over the computed default.
pub open spec fn spec_target_time(t: Task) -> int {
    match t.reminder.snoozed_until {
        Some(s) => s as int,
        None => match t.reminder.remind_at {
            Some(r) => r as int,
            None => spec_default_target(t),
        },
    }
}

/// Addition on timestamps that saturates at the largest value.
pub open spec fn spec_sat_add(a: int, b: int) -> int {
    if a + b > i64::MAX {
        i64::MAX as int
    } else {
        a + b
    }
}

/// Whether a repeating reminder (with positive effective interval) is due.
pub open spec fn spec_repeat_due(t: Task, interval: int, max_times: int, now: int) -> bool {
    let fired = if t.reminder.repeat_fired_count > 0 {
        t.reminder.repeat_fired_count as int
    } else {
        0
    };
    &&& !(max_times > 0 && fired >= max_times)
    &&& {
        let last_or_min = match t.reminder.last_fired_at {
            Some(l) => l as int,
            None => i64::MIN as int,
        };
        let next_target = match t.reminder.snoozed_until {
            Some(s) => if s > last_or_min {
                s as int
            } else {
                match t.reminder.last_fired_at {
                    Some(l) => spec_sat_add(l as int, interval),
                    None => spec_target_time(t),
                }
            },
            None => match t.reminder.last_fired_at {
                Some(l) => spec_sat_add(l as int, interval),
                None => spec_target_time(t),
            },
        };
        now >= next_target
    }
}

/// Whether `t` must fire a reminder at `now` under `settings`: never for a
/// completed task, a task without a reminder, or a dismissed blocking
/// reminder; otherwise single-shot or repeating, by the effective interval.
pub open spec fn spec_is_due(t: Task, settings: Settings, now: i64) -> bool {
    &&& !t.completed
    &&& t.reminder.kind != ReminderKind::NoReminder
    &&& !(t.reminder.kind == ReminderKind::Forced && t.reminder.forced_dismissed)
    &&& {
        let interval = if settings.reminder_repeat_interval_sec > 0 {
            settings.reminder_repeat_interval_sec as int
        } else {
            0
        };
        let eff = if t.reminder.kind == ReminderKind::Normal {
            interval
        } else {
            0
        };
        if eff <= 0 {
            let already = match t.reminder.last_fired_at {
                Some(l) => l as int >= spec_target_time(t),
                None => false,
            };
            !already && now as int >= spec_target_time(t)
        } else {
            spec_repeat_due(t, eff, settings.reminder_repeat_max_times as int, now as int)
        }
    }
}

/// Ordering of fired reminders: important tasks first, then earlier due
/// times first.
pub open spec fn spec_reminder_order(a: Task, b: Task) -> bool {
    if a.important != b.important {
        a.important
    } else {
        a.due_at <= b.due_at
    }
}

/// A task that is due is not completed, carries a reminder, and, when the
/// reminder is a blocking one, has not been dismissed.
pub proof fn lemma_due_task_is_live(t: Task, settings: Settings, now: i64)
    requires
        spec_is_due(t, settings, now),
    ensures
        !t.completed,
        t.reminder.kind != ReminderKind::NoReminder,
        !(t.reminder.kind == ReminderKind::Forced && t.reminder.forced_dismissed),
{
}

/// Once a repeating reminder has fired as often as the configured limit
/// allows, it is excluded, no matter how far `now` runs past its target.
pub proof fn lemma_repeat_limit_excludes(t: Task, settings: Settings, now: i64)
    requires
        t.reminder.kind == ReminderKind::Normal,
        settings.reminder_repeat_interval_sec > 0,
        settings.reminder_repeat_max_times > 0,
        t.reminder.repeat_fired_count >= settings.reminder_repeat_max_times,
    ensures
        !spec_is_due(t, settings, now),
{
}

fn sat_add(a: i64, b: i64) -> (r: i64)
    requires
        b >= 0,
    ensures
        r as int == spec_sat_add(a as int, b as int),
{
    if a > i64::MAX - b {
        i64::MAX
    } else {
        a + b
    }
}

/// The scheduler's decision for one task.
fn is_due(t: &Task, settings: &Settings, now: i64) -> (r: bool)
    ensures
        r == spec_is_due(*t, *settings, now),
{
    if t.completed {
        return false;
    }
    if t.reminder.kind == ReminderKind::NoReminder {
        return false;
    }
    if t.reminder.kind == ReminderKind::Forced && t.reminder.forced_dismissed {
        return false;
    }
    let default_target: i64 = if t.reminder.kind == ReminderKind::Normal {
        if t.due_at >= i64::MIN + 600 {
            t.due_at - 600
        } else {
            i64::MIN
        }
    } else {
        t.due_at
    };
    let target_time: i64 = match t.reminder.snoozed_until {
        Some(s) => s,
        None => match t.reminder.remind_at {
            Some(r) => r,
            None => default_target,
        },
    };
    let repeat_interval: i64 = if settings.reminder_repeat_interval_sec > 0 {
        settings.reminder_repeat_interval_sec
    } else {
        0
    };
    let eff: i64 = if t.reminder.kind == ReminderKind::Normal {
        repeat_interval
    } else {
        0
    };
    if eff <= 0 {
        let already: bool = match t.reminder.last_fired_at {
            Some(l) => l >= target_time,
            None => false,
        };
        return !already && now >= target_time;
    }
    let fired: i64 = if t.reminder.repeat_fired_count > 0 {
        t.reminder.repeat_fired_count
    } else {
        0
    };
    if settings.reminder_repeat_max_times > 0 && fired >= settings.reminder_repeat_max_times {
        return false;
    }
    let last_or_min: i64 = match t.reminder.last_fired_at {
        Some(l) => l,
        None => i64::MIN,
    };
    let next_target: i64 = match t.reminder.snoozed_until {
        Some(s) => if s > last_or_min {
            s
        } else {
            match t.reminder.last_fired_at {
                Some(l) => sat_add(l, eff),
                None => target_time,
            }
        },
        None => match t.reminder.last_fired_at {
            Some(l) => sat_add(l, eff),
            None => target_time,
        },
    };
    now >= next_target
}

/// True iff `a` comes at or before `b` in reminder order.
fn reminder_order_le(a: &Task, b: &Task) -> (r: bool)
    ensures
        r == spec_reminder_order(*a, *b),
{
    if a.important != b.important {
        a.important
    } else {
        a.due_at <= b.due_at
    }
}

/// Sort tasks into reminder order (a permutation of the input).
fn sort_by_reminder_order(tasks: Vec<Task>) -> (r: Vec<Task>)
    ensures
        r@.to_multiset() == tasks@.to_multiset(),
        sorted_by(r@, |a: Task, b: Task| spec_reminder_order(a, b)),
{
    broadcast use vstd::multiset::group_multiset_axioms;
    broadcast use vstd::seq_lib::group_to_multiset_ensures;

    let ghost leq = |a: Task, b: Task| spec_reminder_order(a, b);
    let mut rest = tasks;
    let mut out: Vec<Task> = Vec::new();
    proof {
        assert(out@.to_multiset().add(rest@.to_multiset()) =~= tasks@.to_multiset());
    }
    while rest.len() > 0
        invariant
            out@.to_multiset().add(rest@.to_multiset()) == tasks@.to_multiset(),
            sorted_by(out@, leq),
            leq == (|a: Task, b: Task| spec_reminder_order(a, b)),
            forall|i: int, j: int|
                0 <= i < out@.len() && 0 <= j < rest@.len() ==> leq(out@[i], rest@[j]),
        decreases rest.len(),
    {
        let mut m: usize = 0;
        let mut i: usize = 1;
        while i < rest.len()
            invariant
                0 < rest@.len(),
                0 <= m < i <= rest@.len(),
                leq == (|a: Task, b: Task| spec_reminder_order(a, b)),
                forall|j: int| 0 <= j < i ==> leq(rest@[m as int], rest@[j]),
            decreases rest.len() - i,
        {
            if !reminder_order_le(&rest[m], &rest[i]) {
                m = i;
            }
            i = i + 1;
        }
        let ghost old_out = out@;
        let ghost old_rest = rest@;
        let t = rest.remove(m);
        out.push(t);
        proof {
            broadcast use vstd::multiset::group_multiset_axioms;

            to_multiset_remove(old_rest, m as int);
            to_multiset_build(old_out, t);
            assert(old_rest.contains(t));
            vstd::seq_lib::to_multiset_contains(old_rest, t);
            assert(out@.to_multiset().add(rest@.to_multiset()) =~= tasks@.to_multiset());
            assert forall|i2: int, j2: int|
                0 <= i2 < out@.len() && 0 <= j2 < rest@.len() implies leq(out@[i2], rest@[j2]) by {
                if i2 < old_out.len() {
                    assert(out@[i2] == old_out[i2]);
                }
                if j2 < m {
                    assert(rest@[j2] == old_rest[j2]);
                } else {
                    assert(rest@[j2] == old_rest[j2 + 1]);
                }
            }
            assert forall|i2: int, j2: int|
                0 <= i2 <= j2 < out@.len() implies leq(out@[i2], out@[j2]) by {
                if j2 < old_out.len() {
                    assert(sorted_by(old_out, leq));
                } else if i2 < old_out.len() {
                    assert(leq(old_out[i2], old_rest[m as int]));
                }
            }
        }
    }
    proof {
        assert(rest@.to_multiset() =~= Seq::<Task>::empty().to_multiset());
        assert(out@.to_multiset() =~= tasks@.to_multiset());
    }
    out
}

/// Collect the tasks that must fire a reminder at `now`: exactly those for
/// which `spec_is_due` holds, ordered important-first and then by due time.
pub fn collect_due_tasks(tasks: Vec<Task>, settings: &Settings, now: i64) -> (due: Vec<Task>)
    ensures
        due@.to_multiset() == tasks@.filter(
            |t: Task| spec_is_due(t, *settings, now),
        ).to_multiset(),
        sorted_by(due@, |a: Task, b: Task| spec_reminder_order(a, b)),
        forall|i: int| 0 <= i < due@.len() ==> spec_is_due(#[trigger] due@[i], *settings, now),
{
    let ghost pred = |t: Task| spec_is_due(t, *settings, now);
    let ghost orig = tasks@;
    let mut rest = tasks;
    let mut picked: Vec<Task> = Vec::new();
    let ghost mut done = Seq::<Task>::empty();
    proof {
        assert(done + rest@ =~= orig);
        assert(done.filter(pred) =~= Seq::<Task>::empty());
    }
    while rest.len() > 0
        invariant
            done + rest@ == orig,
            picked@ == done.filter(pred),
            pred == (|t: Task| spec_is_due(t, *settings, now)),
        decreases rest.len(),
    {
        let ghost old_done = done;
        let ghost old_rest = rest@;
        let t = rest.remove(0);
        proof {
            done = old_done.push(t);
            assert(old_rest =~= seq![t] + rest@);
            assert(done =~= old_done + seq![t]);
            assert(done + rest@ =~= orig);
            Seq::filter_distributes_over_add(old_done, seq![t], pred);
            lemma_filter_singleton(t, pred);
        }
        if is_due(&t, settings, now) {
            picked.push(t);
            proof {
                assert(picked@ =~= done.filter(pred));
            }
        } else {
            proof {
                assert(picked@ =~= done.filter(pred));
            }
        }
    }
    proof {
        assert(done =~= orig);
    }
    let due = sort_by_reminder_order(picked);
    proof {
        broadcast use vstd::seq_lib::group_to_multiset_ensures;
        broadcast use vstd::multiset::group_multiset_axioms;

        assert forall|i: int| 0 <= i < due@.len() implies spec_is_due(
            #[trigger] due@[i],
            *settings,
            now,
        ) by {
            assert(due@.to_multiset().count(due@[i]) > 0);
            assert(orig.filter(pred).contains(due@[i]));
            let k = choose|k: int| 0 <= k < orig.filter(pred).len() && orig.filter(pred)[k] == due@[i];
            orig.lemma_filter_pred(pred, k);
        }
    }
    due
}

} // verus!
