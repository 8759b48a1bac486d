//! Canonical JSON layout of the persisted task document, built on the
//! primitive encoders and parsers of the codec module: one encoder and one
//! parser per structure, with round-trip lemmas tying them together.

use vstd::prelude::*;

use crate::codec::{
    enc_bool, enc_int, enc_opt_int, enc_opt_string, enc_string, lemma_chain,
    lemma_concat_assoc, lemma_dec_digits_props, lemma_i64_in_pow37, lemma_sp_bool_enc,
    lemma_sp_i64_enc, lemma_sp_int_enc, lemma_sp_lit, lemma_sp_opt_i64_enc,
    lemma_sp_opt_string_enc, lemma_sp_string_enc, lemma_sp_u8_enc, sp_bool, sp_i64, sp_int,
    sp_lit, sp_opt_i64, sp_opt_string, sp_string, sp_u8, spec_is_digit,
};
use crate::models::{ProjectView, ReminderConfig, ReminderKind, RepeatRuleView, StepView, TaskView};

verus! {

// ---------------------------------------------------------------------------
// Spec encoders for the document structures
// ---------------------------------------------------------------------------

pub open spec fn enc_kind(k: ReminderKind) -> Seq<char> {
    match k {
        ReminderKind::NoReminder => "\"none\""@,
        ReminderKind::Normal => "\"normal\""@,
        ReminderKind::Forced => "\"forced\""@,
    }
}

pub open spec fn enc_reminder(rc: ReminderConfig) -> Seq<char> {
    "{\"kind\":"@ + (enc_kind(rc.kind) + (",\"remind_at\":"@ + (enc_opt_int(rc.remind_at) + (",\"snoozed_until\":"@ + (enc_opt_int(rc.snoozed_until) + (",\"forced_dismissed\":"@ + (enc_bool(rc.forced_dismissed) + (",\"last_fired_at\":"@ + (enc_opt_int(rc.last_fired_at) + (",\"repeat_fired_count\":"@ + (enc_int(rc.repeat_fired_count as int) + ("}"@))))))))))))
}

pub open spec fn enc_day_items(items: Seq<u8>) -> Seq<char>
    decreases items.len()
{
    if items.len() == 0 {
        Seq::<char>::empty()
    } else if items.len() == 1 {
        enc_int(items[0] as int)
    } else {
        enc_int(items[0] as int) + (seq![','] + enc_day_items(items.skip(1)))
    }
}

pub open spec fn enc_repeat(r: RepeatRuleView) -> Seq<char> {
    match r {
        RepeatRuleView::NoRepeat => "{\"type\":\"none\"}"@,
        RepeatRuleView::Daily { workday_only } => "{\"type\":\"daily\",\"workday_only\":"@ + (
        enc_bool(workday_only) + ("}"@)),
        RepeatRuleView::Weekly { days } => "{\"type\":\"weekly\",\"days\":["@ + (
        enc_day_items(days) + ("]}"@)),
        RepeatRuleView::Monthly { day } => "{\"type\":\"monthly\",\"day\":"@ + (enc_int(
            day as int,
        ) + ("}"@)),
        RepeatRuleView::Yearly { month, day } => "{\"type\":\"yearly\",\"month\":"@ + (enc_int(
            month as int,
        ) + (",\"day\":"@ + (enc_int(day as int) + ("}"@)))),
    }
}

pub open spec fn enc_step(st: StepView) -> Seq<char> {
    "{\"id\":"@ + (enc_string(st.id) + (",\"title\":"@ + (enc_string(st.title) + (",\"completed\":"@ + (enc_bool(st.completed) + (",\"created_at\":"@ + (enc_int(st.created_at as int) + (",\"completed_at\":"@ + (enc_opt_int(st.completed_at) + ("}"@))))))))))
}

pub open spec fn enc_step_items(items: Seq<StepView>) -> Seq<char>
    decreases items.len()
{
    if items.len() == 0 {
        Seq::<char>::empty()
    } else if items.len() == 1 {
        enc_step(items[0])
    } else {
        enc_step(items[0]) + (seq![','] + enc_step_items(items.skip(1)))
    }
}

pub open spec fn enc_tag_items(items: Seq<Seq<char>>) -> Seq<char>
    decreases items.len()
{
    if items.len() == 0 {
        Seq::<char>::empty()
    } else if items.len() == 1 {
        enc_string(items[0])
    } else {
        enc_string(items[0]) + (seq![','] + enc_tag_items(items.skip(1)))
    }
}

#[verifier::opaque]
pub open spec fn enc_task(t: TaskView) -> Seq<char> {
    "{\"id\":"@ + (enc_string(t.id) + (",\"project_id\":"@ + (enc_string(t.project_id) + (",\"title\":"@ + (enc_string(t.title) + (",\"due_at\":"@ + (enc_int(t.due_at as int) + (",\"important\":"@ + (enc_bool(t.important) + (",\"completed\":"@ + (enc_bool(t.completed) + (",\"completed_at\":"@ + (enc_opt_int(t.completed_at) + (",\"created_at\":"@ + (enc_int(t.created_at as int) + (",\"updated_at\":"@ + (enc_int(t.updated_at as int) + (",\"sort_order\":"@ + (enc_int(t.sort_order as int) + (",\"quadrant\":"@ + (enc_int(t.quadrant as int) + (",\"notes\":"@ + (enc_opt_string(t.notes) + (",\"steps\":["@ + (enc_step_items(t.steps) + ("],\"tags\":["@ + (enc_tag_items(t.tags) + ("],\"sample_tag\":"@ + (enc_opt_string(t.sample_tag) + (",\"reminder\":"@ + (enc_reminder(t.reminder) + (",\"repeat\":"@ + (enc_repeat(t.repeat) + ("}"@))))))))))))))))))))))))))))))))))
}

/// An encoded task is nonempty and starts with an opening brace.
pub proof fn lemma_enc_task_first(t: TaskView)
    ensures
        enc_task(t).len() >= 1,
        enc_task(t)[0] == '{',
{
    reveal(enc_task);
    reveal_strlit("{\"id\":");
}

pub open spec fn enc_task_items(items: Seq<TaskView>) -> Seq<char>
    decreases items.len()
{
    if items.len() == 0 {
        Seq::<char>::empty()
    } else if items.len() == 1 {
        enc_task(items[0])
    } else {
        enc_task(items[0]) + (seq![','] + enc_task_items(items.skip(1)))
    }
}

pub open spec fn enc_project(p: ProjectView) -> Seq<char> {
    "{\"id\":"@ + (enc_string(p.id) + (",\"name\":"@ + (enc_string(p.name) + (",\"pinned\":"@ + (enc_bool(p.pinned) + (",\"sort_order\":"@ + (enc_int(p.sort_order as int) + (",\"created_at\":"@ + (enc_int(p.created_at as int) + (",\"updated_at\":"@ + (enc_int(p.updated_at as int) + (",\"sample_tag\":"@ + (enc_opt_string(p.sample_tag) + ("}"@))))))))))))))
}

pub open spec fn enc_project_items(items: Seq<ProjectView>) -> Seq<char>
    decreases items.len()
{
    if items.len() == 0 {
        Seq::<char>::empty()
    } else if items.len() == 1 {
        enc_project(items[0])
    } else {
        enc_project(items[0]) + (seq![','] + enc_project_items(items.skip(1)))
    }
}

/// The whole persisted task document.
pub open spec fn enc_tasks_file(
    schema_version: u32,
    tasks: Seq<TaskView>,
    projects: Seq<ProjectView>,
) -> Seq<char> {
    "{\"schema_version\":"@ + (enc_int(schema_version as int) + (",\"tasks\":["@ + (enc_task_items(tasks) + ("],\"projects\":["@ + (enc_project_items(projects) + ("]}"@))))))
}


// ---------------------------------------------------------------------------
// Spec parsers for the document structures
// ---------------------------------------------------------------------------

/// Parse a reminder kind, deciding among the three tags by their first
/// distinguishing characters.
pub open spec fn sp_kind(s: Seq<char>, i: int) -> Option<(ReminderKind, int)> {
    if 0 <= i && i + 1 < s.len() && s[i + 1] == 'f' {
        match sp_lit(s, i, "\"forced\""@) {
            Some(j) => Some((ReminderKind::Forced, j)),
            None => None,
        }
    } else if 0 <= i && i + 3 < s.len() && s[i + 3] == 'n' {
        match sp_lit(s, i, "\"none\""@) {
            Some(j) => Some((ReminderKind::NoReminder, j)),
            None => None,
        }
    } else {
        match sp_lit(s, i, "\"normal\""@) {
            Some(j) => Some((ReminderKind::Normal, j)),
            None => None,
        }
    }
}

/// Parse a reminder configuration object.
pub open spec fn sp_reminder(s: Seq<char>, i: int) -> Option<(ReminderConfig, int)> {
    match sp_lit(s, i, "{\"kind\":"@) {
        Some(j1) => match sp_kind(s, j1) {
            Some((kind, j2)) => match sp_lit(s, j2, ",\"remind_at\":"@) {
                Some(j3) => match sp_opt_i64(s, j3) {
                    Some((remind_at, j4)) => sp_reminder_tail(s, j4, kind, remind_at),
                    None => None,
                },
                None => None,
            },
            None => None,
        },
        None => None,
    }
}

pub open spec fn sp_reminder_tail(s: Seq<char>, i: int, kind: ReminderKind, remind_at: Option<
    i64,
>) -> Option<(ReminderConfig, int)> {
    match sp_lit(s, i, ",\"snoozed_until\":"@) {
        Some(j5) => match sp_opt_i64(s, j5) {
            Some((snoozed_until, j6)) => match sp_lit(s, j6, ",\"forced_dismissed\":"@) {
                Some(j7) => match sp_bool(s, j7) {
                    Some((forced_dismissed, j8)) => match sp_lit(s, j8, ",\"last_fired_at\":"@) {
                        Some(j9) => match sp_opt_i64(s, j9) {
                            Some((last_fired_at, j10)) => match sp_lit(
                                s,
                                j10,
                                ",\"repeat_fired_count\":"@,
                            ) {
                                Some(j11) => match sp_i64(s, j11) {
                                    Some((repeat_fired_count, j12)) => match sp_lit(s, j12, "}"@) {
                                        Some(j13) => Some(
                                            (
                                                ReminderConfig {
                                                    kind,
                                                    remind_at,
                                                    snoozed_until,
                                                    forced_dismissed,
                                                    last_fired_at,
                                                    repeat_fired_count,
                                                },
                                                j13,
                                            ),
                                        ),
                                        None => None,
                                    },
                                    None => None,
                                },
                                None => None,
                            },
                            None => None,
                        },
                        None => None,
                    },
                    None => None,
                },
                None => None,
            },
            None => None,
        },
        None => None,
    }
}

/// Parse comma-separated weekday numbers, stopping before the bracket.
pub open spec fn sp_day_items(s: Seq<char>, i: int, acc: Seq<u8>) -> Option<(Seq<u8>, int)>
    decreases s.len() - i when 0 <= i <= s.len()
{
    match sp_u8(s, i) {
        Some((v, j)) => if i < j <= s.len() {
            if j < s.len() && s[j] == ',' {
                sp_day_items(s, j + 1, acc.push(v))
            } else {
                Some((acc.push(v), j))
            }
        } else {
            None
        },
        None => None,
    }
}

/// Parse a repeat rule object, deciding among the five tags by their first
/// characters.
pub open spec fn sp_repeat(s: Seq<char>, i: int) -> Option<(RepeatRuleView, int)> {
    match sp_lit(s, i, "{\"type\":\""@) {
        Some(j) => if j < s.len() && s[j] == 'n' {
            match sp_lit(s, j, "none\"}"@) {
                Some(j2) => Some((RepeatRuleView::NoRepeat, j2)),
                None => None,
            }
        } else if j < s.len() && s[j] == 'd' {
            match sp_lit(s, j, "daily\",\"workday_only\":"@) {
                Some(j2) => match sp_bool(s, j2) {
                    Some((b, j3)) => match sp_lit(s, j3, "}"@) {
                        Some(j4) => Some((RepeatRuleView::Daily { workday_only: b }, j4)),
                        None => None,
                    },
                    None => None,
                },
                None => None,
            }
        } else if j < s.len() && s[j] == 'w' {
            match sp_lit(s, j, "weekly\",\"days\":["@) {
                Some(j2) => if j2 < s.len() && s[j2] == ']' {
                    match sp_lit(s, j2, "]}"@) {
                        Some(j3) => Some((RepeatRuleView::Weekly { days: Seq::<u8>::empty() }, j3)),
                        None => None,
                    }
                } else {
                    match sp_day_items(s, j2, Seq::<u8>::empty()) {
                        Some((days, j3)) => match sp_lit(s, j3, "]}"@) {
                            Some(j4) => Some((RepeatRuleView::Weekly { days }, j4)),
                            None => None,
                        },
                        None => None,
                    }
                },
                None => None,
            }
        } else if j < s.len() && s[j] == 'm' {
            match sp_lit(s, j, "monthly\",\"day\":"@) {
                Some(j2) => match sp_u8(s, j2) {
                    Some((d, j3)) => match sp_lit(s, j3, "}"@) {
                        Some(j4) => Some((RepeatRuleView::Monthly { day: d }, j4)),
                        None => None,
                    },
                    None => None,
                },
                None => None,
            }
        } else {
            match sp_lit(s, j, "yearly\",\"month\":"@) {
                Some(j2) => match sp_u8(s, j2) {
                    Some((m, j3)) => match sp_lit(s, j3, ",\"day\":"@) {
                        Some(j4) => match sp_u8(s, j4) {
                            Some((d, j5)) => match sp_lit(s, j5, "}"@) {
                                Some(j6) => Some((RepeatRuleView::Yearly { month: m, day: d }, j6)),
                                None => None,
                            },
                            None => None,
                        },
                        None => None,
                    },
                    None => None,
                },
                None => None,
            }
        },
        None => None,
    }
}

/// Parse a step object.
pub open spec fn sp_step(s: Seq<char>, i: int) -> Option<(StepView, int)> {
    match sp_lit(s, i, "{\"id\":"@) {
        Some(j1) => match sp_string(s, j1) {
            Some((id, j2)) => match sp_lit(s, j2, ",\"title\":"@) {
                Some(j3) => match sp_string(s, j3) {
                    Some((title, j4)) => match sp_lit(s, j4, ",\"completed\":"@) {
                        Some(j5) => match sp_bool(s, j5) {
                            Some((completed, j6)) => match sp_lit(s, j6, ",\"created_at\":"@) {
                                Some(j7) => match sp_i64(s, j7) {
                                    Some((created_at, j8)) => match sp_lit(
                                        s,
                                        j8,
                                        ",\"completed_at\":"@,
                                    ) {
                                        Some(j9) => match sp_opt_i64(s, j9) {
                                            Some((completed_at, j10)) => match sp_lit(
                                                s,
                                                j10,
                                                "}"@,
                                            ) {
                                                Some(j11) => Some(
                                                    (
                                                        StepView {
                                                            id,
                                                            title,
                                                            completed,
                                                            created_at,
                                                            completed_at,
                                                        },
                                                        j11,
                                                    ),
                                                ),
                                                None => None,
                                            },
                                            None => None,
                                        },
                                        None => None,
                                    },
                                    None => None,
                                },
                                None => None,
                            },
                            None => None,
                        },
                        None => None,
                    },
                    None => None,
                },
                None => None,
            },
            None => None,
        },
        None => None,
    }
}

/// Parse comma-separated steps, stopping before the bracket.
pub open spec fn sp_step_items(s: Seq<char>, i: int, acc: Seq<StepView>) -> Option<
    (Seq<StepView>, int),
>
    decreases s.len() - i when 0 <= i <= s.len()
{
    match sp_step(s, i) {
        Some((v, j)) => if i < j <= s.len() {
            if j < s.len() && s[j] == ',' {
                sp_step_items(s, j + 1, acc.push(v))
            } else {
                Some((acc.push(v), j))
            }
        } else {
            None
        },
        None => None,
    }
}

/// Parse comma-separated strings, stopping before the bracket.
pub open spec fn sp_tag_items(s: Seq<char>, i: int, acc: Seq<Seq<char>>) -> Option<
    (Seq<Seq<char>>, int),
>
    decreases s.len() - i when 0 <= i <= s.len()
{
    match sp_string(s, i) {
        Some((v, j)) => if i < j <= s.len() {
            if j < s.len() && s[j] == ',' {
                sp_tag_items(s, j + 1, acc.push(v))
            } else {
                Some((acc.push(v), j))
            }
        } else {
            None
        },
        None => None,
    }
}

/// Parse a task object.
pub open spec fn sp_task(s: Seq<char>, i: int) -> Option<(TaskView, int)> {
    match sp_lit(s, i, "{\"id\":"@) {
        Some(j1) => match sp_string(s, j1) {
            Some((id, j2)) => match sp_lit(s, j2, ",\"project_id\":"@) {
                Some(j3) => match sp_string(s, j3) {
                    Some((project_id, j4)) => match sp_lit(s, j4, ",\"title\":"@) {
                        Some(j5) => match sp_string(s, j5) {
                            Some((title, j6)) => match sp_lit(s, j6, ",\"due_at\":"@) {
                                Some(j7) => match sp_i64(s, j7) {
                                    Some((due_at, j8)) => sp_task_tail1(
                                        s,
                                        j8,
                                        id,
                                        project_id,
                                        title,
                                        due_at,
                                    ),
                                    None => None,
                                },
                                None => None,
                            },
                            None => None,
                        },
                        None => None,
                    },
                    None => None,
                },
                None => None,
            },
            None => None,
        },
        None => None,
    }
}

pub open spec fn sp_task_tail1(
    s: Seq<char>,
    i: int,
    id: Seq<char>,
    project_id: Seq<char>,
    title: Seq<char>,
    due_at: i64,
) -> Option<(TaskView, int)> {
    match sp_lit(s, i, ",\"important\":"@) {
        Some(j1) => match sp_bool(s, j1) {
            Some((important, j2)) => match sp_lit(s, j2, ",\"completed\":"@) {
                Some(j3) => match sp_bool(s, j3) {
                    Some((completed, j4)) => match sp_lit(s, j4, ",\"completed_at\":"@) {
                        Some(j5) => match sp_opt_i64(s, j5) {
                            Some((completed_at, j6)) => match sp_lit(s, j6, ",\"created_at\":"@) {
                                Some(j7) => match sp_i64(s, j7) {
                                    Some((created_at, j8)) => match sp_lit(
                                        s,
                                        j8,
                                        ",\"updated_at\":"@,
                                    ) {
                                        Some(j9) => match sp_i64(s, j9) {
                                            Some((updated_at, j10)) => sp_task_tail2(
                                                s,
                                                j10,
                                                id,
                                                project_id,
                                                title,
                                                due_at,
                                                important,
                                                completed,
                                                completed_at,
                                                created_at,
                                                updated_at,
                                            ),
                                            None => None,
                                        },
                                        None => None,
                                    },
                                    None => None,
                                },
                                None => None,
                            },
                            None => None,
                        },
                        None => None,
                    },
                    None => None,
                },
                None => None,
            },
            None => None,
        },
        None => None,
    }
}

pub open spec fn sp_task_tail2(
    s: Seq<char>,
    i: int,
    id: Seq<char>,
    project_id: Seq<char>,
    title: Seq<char>,
    due_at: i64,
    important: bool,
    completed: bool,
    completed_at: Option<i64>,
    created_at: i64,
    updated_at: i64,
) -> Option<(TaskView, int)> {
    match sp_lit(s, i, ",\"sort_order\":"@) {
        Some(j1) => match sp_i64(s, j1) {
            Some((sort_order, j2)) => match sp_lit(s, j2, ",\"quadrant\":"@) {
                Some(j3) => match sp_u8(s, j3) {
                    Some((quadrant, j4)) => match sp_lit(s, j4, ",\"notes\":"@) {
                        Some(j5) => match sp_opt_string(s, j5) {
                            Some((notes, j6)) => match sp_lit(s, j6, ",\"steps\":["@) {
                                Some(j7) => {
                                    let steps_res: Option<(Seq<StepView>, int)> = if j7 < s.len()
                                        && s[j7] == ']' {
                                        Some((Seq::<StepView>::empty(), j7))
                                    } else {
                                        sp_step_items(s, j7, Seq::<StepView>::empty())
                                    };
                                    match steps_res {
                                        Some((steps, j8)) => match sp_lit(s, j8, "],\"tags\":["@) {
                                            Some(j9) => {
                                                let tags_res: Option<(Seq<Seq<char>>, int)> = if j9
                                                    < s.len() && s[j9] == ']' {
                                                    Some((Seq::<Seq<char>>::empty(), j9))
                                                } else {
                                                    sp_tag_items(s, j9, Seq::<Seq<char>>::empty())
                                                };
                                                match tags_res {
                                                    Some((tags, j10)) => sp_task_tail3(
                                                        s,
                                                        j10,
                                                        TaskView {
                                                            id,
                                                            project_id,
                                                            title,
                                                            due_at,
                                                            important,
                                                            completed,
                                                            completed_at,
                                                            created_at,
                                                            updated_at,
                                                            sort_order,
                                                            quadrant,
                                                            notes,
                                                            steps,
                                                            tags,
                                                            sample_tag: None,
                                                            reminder: ReminderConfig {
                                                                kind: ReminderKind::NoReminder,
                                                                remind_at: None,
                                                                snoozed_until: None,
                                                                forced_dismissed: false,
                                                                last_fired_at: None,
                                                                repeat_fired_count: 0,
                                                            },
                                                            repeat: RepeatRuleView::NoRepeat,
                                                        },
                                                    ),
                                                    None => None,
                                                }
                                            },
                                            None => None,
                                        },
                                        None => None,
                                    }
                                },
                                None => None,
                            },
                            None => None,
                        },
                        None => None,
                    },
                    None => None,
                },
                None => None,
            },
            None => None,
        },
        None => None,
    }
}

pub open spec fn sp_task_tail3(s: Seq<char>, i: int, partial: TaskView) -> Option<
    (TaskView, int),
> {
    match sp_lit(s, i, "],\"sample_tag\":"@) {
        Some(j1) => match sp_opt_string(s, j1) {
            Some((sample_tag, j2)) => match sp_lit(s, j2, ",\"reminder\":"@) {
                Some(j3) => match sp_reminder(s, j3) {
                    Some((reminder, j4)) => match sp_lit(s, j4, ",\"repeat\":"@) {
                        Some(j5) => match sp_repeat(s, j5) {
                            Some((repeat, j6)) => match sp_lit(s, j6, "}"@) {
                                Some(j7) => Some(
                                    (TaskView { sample_tag, reminder, repeat, ..partial }, j7),
                                ),
                                None => None,
                            },
                            None => None,
                        },
                        None => None,
                    },
                    None => None,
                },
                None => None,
            },
            None => None,
        },
        None => None,
    }
}

/// Parse comma-separated tasks, stopping before the bracket.
pub open spec fn sp_task_items(s: Seq<char>, i: int, acc: Seq<TaskView>) -> Option<
    (Seq<TaskView>, int),
>
    decreases s.len() - i when 0 <= i <= s.len()
{
    match sp_task(s, i) {
        Some((v, j)) => if i < j <= s.len() {
            if j < s.len() && s[j] == ',' {
                sp_task_items(s, j + 1, acc.push(v))
            } else {
                Some((acc.push(v), j))
            }
        } else {
            None
        },
        None => None,
    }
}

/// Parse a project object.
pub open spec fn sp_project(s: Seq<char>, i: int) -> Option<(ProjectView, int)> {
    match sp_lit(s, i, "{\"id\":"@) {
        Some(j1) => match sp_string(s, j1) {
            Some((id, j2)) => match sp_lit(s, j2, ",\"name\":"@) {
                Some(j3) => match sp_string(s, j3) {
                    Some((name, j4)) => match sp_lit(s, j4, ",\"pinned\":"@) {
                        Some(j5) => match sp_bool(s, j5) {
                            Some((pinned, j6)) => sp_project_tail(s, j6, id, name, pinned),
                            None => None,
                        },
                        None => None,
                    },
                    None => None,
                },
                None => None,
            },
            None => None,
        },
        None => None,
    }
}

pub open spec fn sp_project_tail(
    s: Seq<char>,
    i: int,
    id: Seq<char>,
    name: Seq<char>,
    pinned: bool,
) -> Option<(ProjectView, int)> {
    match sp_lit(s, i, ",\"sort_order\":"@) {
        Some(j7) => match sp_i64(s, j7) {
            Some((sort_order, j8)) => match sp_lit(s, j8, ",\"created_at\":"@) {
                Some(j9) => match sp_i64(s, j9) {
                    Some((created_at, j10)) => match sp_lit(s, j10, ",\"updated_at\":"@) {
                        Some(j11) => match sp_i64(s, j11) {
                            Some((updated_at, j12)) => match sp_lit(s, j12, ",\"sample_tag\":"@) {
                                Some(j13) => match sp_opt_string(s, j13) {
                                    Some((sample_tag, j14)) => match sp_lit(s, j14, "}"@) {
                                        Some(j15) => Some(
                                            (
                                                ProjectView {
                                                    id,
                                                    name,
                                                    pinned,
                                                    sort_order,
                                                    created_at,
                                                    updated_at,
                                                    sample_tag,
                                                },
                                                j15,
                                            ),
                                        ),
                                        None => None,
                                    },
                                    None => None,
                                },
                                None => None,
                            },
                            None => None,
                        },
                        None => None,
                    },
                    None => None,
                },
                None => None,
            },
            None => None,
        },
        None => None,
    }
}

/// Parse comma-separated projects, stopping before the bracket.
pub open spec fn sp_project_items(s: Seq<char>, i: int, acc: Seq<ProjectView>) -> Option<
    (Seq<ProjectView>, int),
>
    decreases s.len() - i when 0 <= i <= s.len()
{
    match sp_project(s, i) {
        Some((v, j)) => if i < j <= s.len() {
            if j < s.len() && s[j] == ',' {
                sp_project_items(s, j + 1, acc.push(v))
            } else {
                Some((acc.push(v), j))
            }
        } else {
            None
        },
        None => None,
    }
}

/// Parse the whole persisted task document; the position returned points
/// just past the closing brace.
pub open spec fn sp_tasks_file(s: Seq<char>, i: int) -> Option<
    ((u32, Seq<TaskView>, Seq<ProjectView>), int),
> {
    match sp_lit(s, i, "{\"schema_version\":"@) {
        Some(j1) => match sp_int(s, j1) {
            Some((sv, j2)) => if 0 <= sv <= u32::MAX {
                match sp_lit(s, j2, ",\"tasks\":["@) {
                    Some(j3) => {
                        let tasks_res: Option<(Seq<TaskView>, int)> = if j3 < s.len() && s[j3]
                            == ']' {
                            Some((Seq::<TaskView>::empty(), j3))
                        } else {
                            sp_task_items(s, j3, Seq::<TaskView>::empty())
                        };
                        match tasks_res {
                            Some((tasks, j4)) => match sp_lit(s, j4, "],\"projects\":["@) {
                                Some(j5) => {
                                    let projects_res: Option<(Seq<ProjectView>, int)> = if j5
                                        < s.len() && s[j5] == ']' {
                                        Some((Seq::<ProjectView>::empty(), j5))
                                    } else {
                                        sp_project_items(s, j5, Seq::<ProjectView>::empty())
                                    };
                                    match projects_res {
                                        Some((projects, j6)) => match sp_lit(s, j6, "]}"@) {
                                            Some(j7) => Some(((sv as u32, tasks, projects), j7)),
                                            None => None,
                                        },
                                        None => None,
                                    }
                                },
                                None => None,
                            },
                            None => None,
                        }
                    },
                    None => None,
                }
            } else {
                None
            },
            None => None,
        },
        None => None,
    }
}


/// Parsing the canonical encoding of a reminder kind yields the kind.
pub proof fn lemma_sp_kind_enc(s: Seq<char>, i: int, k: ReminderKind, rest: Seq<char>)
    requires
        0 <= i <= s.len(),
        s.skip(i) == enc_kind(k) + rest,
    ensures
        sp_kind(s, i) == Some((k, i + enc_kind(k).len())),
{
    reveal_strlit("\"none\"");
    reveal_strlit("\"normal\"");
    reveal_strlit("\"forced\"");
    lemma_chain(s, i, enc_kind(k), rest);
    lemma_sp_lit(s, i, enc_kind(k), rest);
    match k {
        ReminderKind::NoReminder => {
            assert(s[i + 1] == "\"none\""@[1]);
            assert(s[i + 3] == "\"none\""@[3]);
            assert(s[i + 1] != 'f');
        },
        ReminderKind::Normal => {
            assert(s[i + 1] == "\"normal\""@[1]);
            assert(s[i + 3] == "\"normal\""@[3]);
            assert(s[i + 1] != 'f');
            assert(s[i + 3] != 'n');
        },
        ReminderKind::Forced => {
            assert(s[i + 1] == "\"forced\""@[1]);
        },
    }
}

#[verifier::rlimit(100)]
#[verifier::spinoff_prover]
pub proof fn lemma_sp_step_enc(s: Seq<char>, i: int, st: StepView, rest: Seq<char>)
    requires
        0 <= i <= s.len(),
        s.skip(i) == enc_step(st) + rest,
    ensures
        sp_step(s, i) == Some((st, i + enc_step(st).len())),
{
    broadcast use vstd::seq_lib::lemma_seq_skip_index;
    broadcast use vstd::seq_lib::lemma_seq_skip_len;

    reveal_strlit(",\"completed\":");
    reveal_strlit(",\"completed_at\":");
    reveal_strlit(",\"created_at\":");
    reveal_strlit(",\"title\":");
    reveal_strlit("{\"id\":");
    reveal_strlit("}");
    let t0 = ("{\"id\":"@ + (enc_string(st.id) + (",\"title\":"@ + (enc_string(st.title) + (",\"completed\":"@ + (enc_bool(st.completed) + (",\"created_at\":"@ + (enc_int(st.created_at as int) + (",\"completed_at\":"@ + (enc_opt_int(st.completed_at) + ("}"@))))))))))) + rest;
    let t1 = (enc_string(st.id) + (",\"title\":"@ + (enc_string(st.title) + (",\"completed\":"@ + (enc_bool(st.completed) + (",\"created_at\":"@ + (enc_int(st.created_at as int) + (",\"completed_at\":"@ + (enc_opt_int(st.completed_at) + ("}"@)))))))))) + rest;
    let t2 = (",\"title\":"@ + (enc_string(st.title) + (",\"completed\":"@ + (enc_bool(st.completed) + (",\"created_at\":"@ + (enc_int(st.created_at as int) + (",\"completed_at\":"@ + (enc_opt_int(st.completed_at) + ("}"@))))))))) + rest;
    let t3 = (enc_string(st.title) + (",\"completed\":"@ + (enc_bool(st.completed) + (",\"created_at\":"@ + (enc_int(st.created_at as int) + (",\"completed_at\":"@ + (enc_opt_int(st.completed_at) + ("}"@)))))))) + rest;
    let t4 = (",\"completed\":"@ + (enc_bool(st.completed) + (",\"created_at\":"@ + (enc_int(st.created_at as int) + (",\"completed_at\":"@ + (enc_opt_int(st.completed_at) + ("}"@))))))) + rest;
    let t5 = (enc_bool(st.completed) + (",\"created_at\":"@ + (enc_int(st.created_at as int) + (",\"completed_at\":"@ + (enc_opt_int(st.completed_at) + ("}"@)))))) + rest;
    let t6 = (",\"created_at\":"@ + (enc_int(st.created_at as int) + (",\"completed_at\":"@ + (enc_opt_int(st.completed_at) + ("}"@))))) + rest;
    let t7 = (enc_int(st.created_at as int) + (",\"completed_at\":"@ + (enc_opt_int(st.completed_at) + ("}"@)))) + rest;
    let t8 = (",\"completed_at\":"@ + (enc_opt_int(st.completed_at) + ("}"@))) + rest;
    let t9 = (enc_opt_int(st.completed_at) + ("}"@)) + rest;
    let t10 = ("}"@) + rest;
    assert(s.skip(i) =~= t0);
    assert(t0 =~= "{\"id\":"@ + t1);
    assert(t1 =~= enc_string(st.id) + t2);
    assert(t2 =~= ",\"title\":"@ + t3);
    assert(t3 =~= enc_string(st.title) + t4);
    assert(t4 =~= ",\"completed\":"@ + t5);
    assert(t5 =~= enc_bool(st.completed) + t6);
    assert(t6 =~= ",\"created_at\":"@ + t7);
    assert(t7 =~= enc_int(st.created_at as int) + t8);
    assert(t8 =~= ",\"completed_at\":"@ + t9);
    assert(t9 =~= enc_opt_int(st.completed_at) + t10);
    assert(t10 =~= "}"@ + rest);
    let p0 = i;
    lemma_chain(s, p0, "{\"id\":"@, t1);
    lemma_sp_lit(s, p0, "{\"id\":"@, t1);
    let p1 = p0 + "{\"id\":"@.len();
    lemma_chain(s, p1, enc_string(st.id), t2);
    lemma_sp_string_enc(s, p1, st.id, t2);
    let p2 = p1 + enc_string(st.id).len();
    lemma_chain(s, p2, ",\"title\":"@, t3);
    lemma_sp_lit(s, p2, ",\"title\":"@, t3);
    let p3 = p2 + ",\"title\":"@.len();
    lemma_chain(s, p3, enc_string(st.title), t4);
    lemma_sp_string_enc(s, p3, st.title, t4);
    let p4 = p3 + enc_string(st.title).len();
    lemma_chain(s, p4, ",\"completed\":"@, t5);
    lemma_sp_lit(s, p4, ",\"completed\":"@, t5);
    let p5 = p4 + ",\"completed\":"@.len();
    lemma_chain(s, p5, enc_bool(st.completed), t6);
    lemma_sp_bool_enc(s, p5, st.completed, t6);
    let p6 = p5 + enc_bool(st.completed).len();
    lemma_chain(s, p6, ",\"created_at\":"@, t7);
    lemma_sp_lit(s, p6, ",\"created_at\":"@, t7);
    let p7 = p6 + ",\"created_at\":"@.len();
    lemma_chain(s, p7, enc_int(st.created_at as int), t8);
    assert(t8[0] == ',');
    assert(!spec_is_digit(t8[0]));
    lemma_sp_i64_enc(s, p7, st.created_at, t8);
    let p8 = p7 + enc_int(st.created_at as int).len();
    lemma_chain(s, p8, ",\"completed_at\":"@, t9);
    lemma_sp_lit(s, p8, ",\"completed_at\":"@, t9);
    let p9 = p8 + ",\"completed_at\":"@.len();
    lemma_chain(s, p9, enc_opt_int(st.completed_at), t10);
    assert(t10[0] == '}');
    assert(!spec_is_digit(t10[0]));
    lemma_sp_opt_i64_enc(s, p9, st.completed_at, t10);
    let p10 = p9 + enc_opt_int(st.completed_at).len();
    lemma_chain(s, p10, "}"@, rest);
    lemma_sp_lit(s, p10, "}"@, rest);
    let p11 = p10 + "}"@.len();
}

#[verifier::rlimit(100)]
#[verifier::spinoff_prover]
pub proof fn lemma_sp_reminder_tail_enc(s: Seq<char>, i: int, rc: ReminderConfig, rest: Seq<char>)
    requires
        0 <= i <= s.len(),
        s.skip(i) == (",\"snoozed_until\":"@ + (enc_opt_int(rc.snoozed_until) + (",\"forced_dismissed\":"@ + (enc_bool(rc.forced_dismissed) + (",\"last_fired_at\":"@ + (enc_opt_int(rc.last_fired_at) + (",\"repeat_fired_count\":"@ + (enc_int(rc.repeat_fired_count as int) + ("}"@))))))))) + rest,
    ensures
        sp_reminder_tail(s, i, rc.kind, rc.remind_at) == Some((rc, i + ",\"snoozed_until\":"@.len() + enc_opt_int(rc.snoozed_until).len() + ",\"forced_dismissed\":"@.len() + enc_bool(rc.forced_dismissed).len() + ",\"last_fired_at\":"@.len() + enc_opt_int(rc.last_fired_at).len() + ",\"repeat_fired_count\":"@.len() + enc_int(rc.repeat_fired_count as int).len() + "}"@.len())),
{
    broadcast use vstd::seq_lib::lemma_seq_skip_index;
    broadcast use vstd::seq_lib::lemma_seq_skip_len;

    reveal_strlit(",\"forced_dismissed\":");
    reveal_strlit(",\"last_fired_at\":");
    reveal_strlit(",\"repeat_fired_count\":");
    reveal_strlit(",\"snoozed_until\":");
    reveal_strlit("}");
    let t0 = (",\"snoozed_until\":"@ + (enc_opt_int(rc.snoozed_until) + (",\"forced_dismissed\":"@ + (enc_bool(rc.forced_dismissed) + (",\"last_fired_at\":"@ + (enc_opt_int(rc.last_fired_at) + (",\"repeat_fired_count\":"@ + (enc_int(rc.repeat_fired_count as int) + ("}"@))))))))) + rest;
    let t1 = (enc_opt_int(rc.snoozed_until) + (",\"forced_dismissed\":"@ + (enc_bool(rc.forced_dismissed) + (",\"last_fired_at\":"@ + (enc_opt_int(rc.last_fired_at) + (",\"repeat_fired_count\":"@ + (enc_int(rc.repeat_fired_count as int) + ("}"@)))))))) + rest;
    let t2 = (",\"forced_dismissed\":"@ + (enc_bool(rc.forced_dismissed) + (",\"last_fired_at\":"@ + (enc_opt_int(rc.last_fired_at) + (",\"repeat_fired_count\":"@ + (enc_int(rc.repeat_fired_count as int) + ("}"@))))))) + rest;
    let t3 = (enc_bool(rc.forced_dismissed) + (",\"last_fired_at\":"@ + (enc_opt_int(rc.last_fired_at) + (",\"repeat_fired_count\":"@ + (enc_int(rc.repeat_fired_count as int) + ("}"@)))))) + rest;
    let t4 = (",\"last_fired_at\":"@ + (enc_opt_int(rc.last_fired_at) + (",\"repeat_fired_count\":"@ + (enc_int(rc.repeat_fired_count as int) + ("}"@))))) + rest;
    let t5 = (enc_opt_int(rc.last_fired_at) + (",\"repeat_fired_count\":"@ + (enc_int(rc.repeat_fired_count as int) + ("}"@)))) + rest;
    let t6 = (",\"repeat_fired_count\":"@ + (enc_int(rc.repeat_fired_count as int) + ("}"@))) + rest;
    let t7 = (enc_int(rc.repeat_fired_count as int) + ("}"@)) + rest;
    let t8 = ("}"@) + rest;
    assert(s.skip(i) =~= t0);
    assert(t0 =~= ",\"snoozed_until\":"@ + t1);
    assert(t1 =~= enc_opt_int(rc.snoozed_until) + t2);
    assert(t2 =~= ",\"forced_dismissed\":"@ + t3);
    assert(t3 =~= enc_bool(rc.forced_dismissed) + t4);
    assert(t4 =~= ",\"last_fired_at\":"@ + t5);
    assert(t5 =~= enc_opt_int(rc.last_fired_at) + t6);
    assert(t6 =~= ",\"repeat_fired_count\":"@ + t7);
    assert(t7 =~= enc_int(rc.repeat_fired_count as int) + t8);
    assert(t8 =~= "}"@ + rest);
    let p0 = i;
    lemma_chain(s, p0, ",\"snoozed_until\":"@, t1);
    lemma_sp_lit(s, p0, ",\"snoozed_until\":"@, t1);
    let p1 = p0 + ",\"snoozed_until\":"@.len();
    lemma_chain(s, p1, enc_opt_int(rc.snoozed_until), t2);
    assert(t2[0] == ',');
    assert(!spec_is_digit(t2[0]));
    lemma_sp_opt_i64_enc(s, p1, rc.snoozed_until, t2);
    let p2 = p1 + enc_opt_int(rc.snoozed_until).len();
    lemma_chain(s, p2, ",\"forced_dismissed\":"@, t3);
    lemma_sp_lit(s, p2, ",\"forced_dismissed\":"@, t3);
    let p3 = p2 + ",\"forced_dismissed\":"@.len();
    lemma_chain(s, p3, enc_bool(rc.forced_dismissed), t4);
    lemma_sp_bool_enc(s, p3, rc.forced_dismissed, t4);
    let p4 = p3 + enc_bool(rc.forced_dismissed).len();
    lemma_chain(s, p4, ",\"last_fired_at\":"@, t5);
    lemma_sp_lit(s, p4, ",\"last_fired_at\":"@, t5);
    let p5 = p4 + ",\"last_fired_at\":"@.len();
    lemma_chain(s, p5, enc_opt_int(rc.last_fired_at), t6);
    assert(t6[0] == ',');
    assert(!spec_is_digit(t6[0]));
    lemma_sp_opt_i64_enc(s, p5, rc.last_fired_at, t6);
    let p6 = p5 + enc_opt_int(rc.last_fired_at).len();
    lemma_chain(s, p6, ",\"repeat_fired_count\":"@, t7);
    lemma_sp_lit(s, p6, ",\"repeat_fired_count\":"@, t7);
    let p7 = p6 + ",\"repeat_fired_count\":"@.len();
    lemma_chain(s, p7, enc_int(rc.repeat_fired_count as int), t8);
    assert(t8[0] == '}');
    assert(!spec_is_digit(t8[0]));
    lemma_sp_i64_enc(s, p7, rc.repeat_fired_count, t8);
    let p8 = p7 + enc_int(rc.repeat_fired_count as int).len();
    lemma_chain(s, p8, "}"@, rest);
    lemma_sp_lit(s, p8, "}"@, rest);
    let p9 = p8 + "}"@.len();
}

#[verifier::rlimit(100)]
#[verifier::spinoff_prover]
pub proof fn lemma_sp_reminder_enc(s: Seq<char>, i: int, rc: ReminderConfig, rest: Seq<char>)
    requires
        0 <= i <= s.len(),
        s.skip(i) == enc_reminder(rc) + rest,
    ensures
        sp_reminder(s, i) == Some((rc, i + enc_reminder(rc).len())),
{
    broadcast use vstd::seq_lib::lemma_seq_skip_index;
    broadcast use vstd::seq_lib::lemma_seq_skip_len;

    reveal_strlit(",\"remind_at\":");
    reveal_strlit(",\"snoozed_until\":");
    reveal_strlit("{\"kind\":");
    let t0 = ("{\"kind\":"@ + (enc_kind(rc.kind) + (",\"remind_at\":"@ + (enc_opt_int(rc.remind_at) + ((",\"snoozed_until\":"@ + (enc_opt_int(rc.snoozed_until) + (",\"forced_dismissed\":"@ + (enc_bool(rc.forced_dismissed) + (",\"last_fired_at\":"@ + (enc_opt_int(rc.last_fired_at) + (",\"repeat_fired_count\":"@ + (enc_int(rc.repeat_fired_count as int) + ("}"@)))))))))))))) + rest;
    let t1 = (enc_kind(rc.kind) + (",\"remind_at\":"@ + (enc_opt_int(rc.remind_at) + ((",\"snoozed_until\":"@ + (enc_opt_int(rc.snoozed_until) + (",\"forced_dismissed\":"@ + (enc_bool(rc.forced_dismissed) + (",\"last_fired_at\":"@ + (enc_opt_int(rc.last_fired_at) + (",\"repeat_fired_count\":"@ + (enc_int(rc.repeat_fired_count as int) + ("}"@))))))))))))) + rest;
    let t2 = (",\"remind_at\":"@ + (enc_opt_int(rc.remind_at) + ((",\"snoozed_until\":"@ + (enc_opt_int(rc.snoozed_until) + (",\"forced_dismissed\":"@ + (enc_bool(rc.forced_dismissed) + (",\"last_fired_at\":"@ + (enc_opt_int(rc.last_fired_at) + (",\"repeat_fired_count\":"@ + (enc_int(rc.repeat_fired_count as int) + ("}"@)))))))))))) + rest;
    let t3 = (enc_opt_int(rc.remind_at) + ((",\"snoozed_until\":"@ + (enc_opt_int(rc.snoozed_until) + (",\"forced_dismissed\":"@ + (enc_bool(rc.forced_dismissed) + (",\"last_fired_at\":"@ + (enc_opt_int(rc.last_fired_at) + (",\"repeat_fired_count\":"@ + (enc_int(rc.repeat_fired_count as int) + ("}"@))))))))))) + rest;
    let t4 = ((",\"snoozed_until\":"@ + (enc_opt_int(rc.snoozed_until) + (",\"forced_dismissed\":"@ + (enc_bool(rc.forced_dismissed) + (",\"last_fired_at\":"@ + (enc_opt_int(rc.last_fired_at) + (",\"repeat_fired_count\":"@ + (enc_int(rc.repeat_fired_count as int) + ("}"@)))))))))) + rest;
    assert(s.skip(i) =~= t0);
    assert(t0 =~= "{\"kind\":"@ + t1);
    assert(t1 =~= enc_kind(rc.kind) + t2);
    assert(t2 =~= ",\"remind_at\":"@ + t3);
    assert(t3 =~= enc_opt_int(rc.remind_at) + t4);
    let p0 = i;
    lemma_chain(s, p0, "{\"kind\":"@, t1);
    lemma_sp_lit(s, p0, "{\"kind\":"@, t1);
    let p1 = p0 + "{\"kind\":"@.len();
    lemma_chain(s, p1, enc_kind(rc.kind), t2);
    lemma_sp_kind_enc(s, p1, rc.kind, t2);
    let p2 = p1 + enc_kind(rc.kind).len();
    lemma_chain(s, p2, ",\"remind_at\":"@, t3);
    lemma_sp_lit(s, p2, ",\"remind_at\":"@, t3);
    let p3 = p2 + ",\"remind_at\":"@.len();
    lemma_chain(s, p3, enc_opt_int(rc.remind_at), t4);
    assert(t4[0] == ',');
    assert(!spec_is_digit(t4[0]));
    lemma_sp_opt_i64_enc(s, p3, rc.remind_at, t4);
    let p4 = p3 + enc_opt_int(rc.remind_at).len();
    lemma_sp_reminder_tail_enc(s, p4, rc, rest);
}

#[verifier::rlimit(100)]
#[verifier::spinoff_prover]
pub proof fn lemma_sp_project_tail_enc(s: Seq<char>, i: int, p: ProjectView, rest: Seq<char>)
    requires
        0 <= i <= s.len(),
        s.skip(i) == (",\"sort_order\":"@ + (enc_int(p.sort_order as int) + (",\"created_at\":"@ + (enc_int(p.created_at as int) + (",\"updated_at\":"@ + (enc_int(p.updated_at as int) + (",\"sample_tag\":"@ + (enc_opt_string(p.sample_tag) + ("}"@))))))))) + rest,
    ensures
        sp_project_tail(s, i, p.id, p.name, p.pinned) == Some((p, i + ",\"sort_order\":"@.len() + enc_int(p.sort_order as int).len() + ",\"created_at\":"@.len() + enc_int(p.created_at as int).len() + ",\"updated_at\":"@.len() + enc_int(p.updated_at as int).len() + ",\"sample_tag\":"@.len() + enc_opt_string(p.sample_tag).len() + "}"@.len())),
{
    broadcast use vstd::seq_lib::lemma_seq_skip_index;
    broadcast use vstd::seq_lib::lemma_seq_skip_len;

    reveal_strlit(",\"created_at\":");
    reveal_strlit(",\"sample_tag\":");
    reveal_strlit(",\"sort_order\":");
    reveal_strlit(",\"updated_at\":");
    reveal_strlit("}");
    let t0 = (",\"sort_order\":"@ + (enc_int(p.sort_order as int) + (",\"created_at\":"@ + (enc_int(p.created_at as int) + (",\"updated_at\":"@ + (enc_int(p.updated_at as int) + (",\"sample_tag\":"@ + (enc_opt_string(p.sample_tag) + ("}"@))))))))) + rest;
    let t1 = (enc_int(p.sort_order as int) + (",\"created_at\":"@ + (enc_int(p.created_at as int) + (",\"updated_at\":"@ + (enc_int(p.updated_at as int) + (",\"sample_tag\":"@ + (enc_opt_string(p.sample_tag) + ("}"@)))))))) + rest;
    let t2 = (",\"created_at\":"@ + (enc_int(p.created_at as int) + (",\"updated_at\":"@ + (enc_int(p.updated_at as int) + (",\"sample_tag\":"@ + (enc_opt_string(p.sample_tag) + ("}"@))))))) + rest;
    let t3 = (enc_int(p.created_at as int) + (",\"updated_at\":"@ + (enc_int(p.updated_at as int) + (",\"sample_tag\":"@ + (enc_opt_string(p.sample_tag) + ("}"@)))))) + rest;
    let t4 = (",\"updated_at\":"@ + (enc_int(p.updated_at as int) + (",\"sample_tag\":"@ + (enc_opt_string(p.sample_tag) + ("}"@))))) + rest;
    let t5 = (enc_int(p.updated_at as int) + (",\"sample_tag\":"@ + (enc_opt_string(p.sample_tag) + ("}"@)))) + rest;
    let t6 = (",\"sample_tag\":"@ + (enc_opt_string(p.sample_tag) + ("}"@))) + rest;
    let t7 = (enc_opt_string(p.sample_tag) + ("}"@)) + rest;
    let t8 = ("}"@) + rest;
    assert(s.skip(i) =~= t0);
    assert(t0 =~= ",\"sort_order\":"@ + t1);
    assert(t1 =~= enc_int(p.sort_order as int) + t2);
    assert(t2 =~= ",\"created_at\":"@ + t3);
    assert(t3 =~= enc_int(p.created_at as int) + t4);
    assert(t4 =~= ",\"updated_at\":"@ + t5);
    assert(t5 =~= enc_int(p.updated_at as int) + t6);
    assert(t6 =~= ",\"sample_tag\":"@ + t7);
    assert(t7 =~= enc_opt_string(p.sample_tag) + t8);
    assert(t8 =~= "}"@ + rest);
    let p0 = i;
    lemma_chain(s, p0, ",\"sort_order\":"@, t1);
    lemma_sp_lit(s, p0, ",\"sort_order\":"@, t1);
    let p1 = p0 + ",\"sort_order\":"@.len();
    lemma_chain(s, p1, enc_int(p.sort_order as int), t2);
    assert(t2[0] == ',');
    assert(!spec_is_digit(t2[0]));
    lemma_sp_i64_enc(s, p1, p.sort_order, t2);
    let p2 = p1 + enc_int(p.sort_order as int).len();
    lemma_chain(s, p2, ",\"created_at\":"@, t3);
    lemma_sp_lit(s, p2, ",\"created_at\":"@, t3);
    let p3 = p2 + ",\"created_at\":"@.len();
    lemma_chain(s, p3, enc_int(p.created_at as int), t4);
    assert(t4[0] == ',');
    assert(!spec_is_digit(t4[0]));
    lemma_sp_i64_enc(s, p3, p.created_at, t4);
    let p4 = p3 + enc_int(p.created_at as int).len();
    lemma_chain(s, p4, ",\"updated_at\":"@, t5);
    lemma_sp_lit(s, p4, ",\"updated_at\":"@, t5);
    let p5 = p4 + ",\"updated_at\":"@.len();
    lemma_chain(s, p5, enc_int(p.updated_at as int), t6);
    assert(t6[0] == ',');
    assert(!spec_is_digit(t6[0]));
    lemma_sp_i64_enc(s, p5, p.updated_at, t6);
    let p6 = p5 + enc_int(p.updated_at as int).len();
    lemma_chain(s, p6, ",\"sample_tag\":"@, t7);
    lemma_sp_lit(s, p6, ",\"sample_tag\":"@, t7);
    let p7 = p6 + ",\"sample_tag\":"@.len();
    lemma_chain(s, p7, enc_opt_string(p.sample_tag), t8);
    lemma_sp_opt_string_enc(s, p7, p.sample_tag, t8);
    let p8 = p7 + enc_opt_string(p.sample_tag).len();
    lemma_chain(s, p8, "}"@, rest);
    lemma_sp_lit(s, p8, "}"@, rest);
    let p9 = p8 + "}"@.len();
}

#[verifier::rlimit(100)]
#[verifier::spinoff_prover]
pub proof fn lemma_sp_project_enc(s: Seq<char>, i: int, p: ProjectView, rest: Seq<char>)
    requires
        0 <= i <= s.len(),
        s.skip(i) == enc_project(p) + rest,
    ensures
        sp_project(s, i) == Some((p, i + enc_project(p).len())),
{
    broadcast use vstd::seq_lib::lemma_seq_skip_index;
    broadcast use vstd::seq_lib::lemma_seq_skip_len;

    reveal_strlit(",\"name\":");
    reveal_strlit(",\"pinned\":");
    reveal_strlit("{\"id\":");
    let t0 = ("{\"id\":"@ + (enc_string(p.id) + (",\"name\":"@ + (enc_string(p.name) + (",\"pinned\":"@ + (enc_bool(p.pinned) + ((",\"sort_order\":"@ + (enc_int(p.sort_order as int) + (",\"created_at\":"@ + (enc_int(p.created_at as int) + (",\"updated_at\":"@ + (enc_int(p.updated_at as int) + (",\"sample_tag\":"@ + (enc_opt_string(p.sample_tag) + ("}"@)))))))))))))))) + rest;
    let t1 = (enc_string(p.id) + (",\"name\":"@ + (enc_string(p.name) + (",\"pinned\":"@ + (enc_bool(p.pinned) + ((",\"sort_order\":"@ + (enc_int(p.sort_order as int) + (",\"created_at\":"@ + (enc_int(p.created_at as int) + (",\"updated_at\":"@ + (enc_int(p.updated_at as int) + (",\"sample_tag\":"@ + (enc_opt_string(p.sample_tag) + ("}"@))))))))))))))) + rest;
    let t2 = (",\"name\":"@ + (enc_string(p.name) + (",\"pinned\":"@ + (enc_bool(p.pinned) + ((",\"sort_order\":"@ + (enc_int(p.sort_order as int) + (",\"created_at\":"@ + (enc_int(p.created_at as int) + (",\"updated_at\":"@ + (enc_int(p.updated_at as int) + (",\"sample_tag\":"@ + (enc_opt_string(p.sample_tag) + ("}"@)))))))))))))) + rest;
    let t3 = (enc_string(p.name) + (",\"pinned\":"@ + (enc_bool(p.pinned) + ((",\"sort_order\":"@ + (enc_int(p.sort_order as int) + (",\"created_at\":"@ + (enc_int(p.created_at as int) + (",\"updated_at\":"@ + (enc_int(p.updated_at as int) + (",\"sample_tag\":"@ + (enc_opt_string(p.sample_tag) + ("}"@))))))))))))) + rest;
    let t4 = (",\"pinned\":"@ + (enc_bool(p.pinned) + ((",\"sort_order\":"@ + (enc_int(p.sort_order as int) + (",\"created_at\":"@ + (enc_int(p.created_at as int) + (",\"updated_at\":"@ + (enc_int(p.updated_at as int) + (",\"sample_tag\":"@ + (enc_opt_string(p.sample_tag) + ("}"@)))))))))))) + rest;
    let t5 = (enc_bool(p.pinned) + ((",\"sort_order\":"@ + (enc_int(p.sort_order as int) + (",\"created_at\":"@ + (enc_int(p.created_at as int) + (",\"updated_at\":"@ + (enc_int(p.updated_at as int) + (",\"sample_tag\":"@ + (enc_opt_string(p.sample_tag) + ("}"@))))))))))) + rest;
    let t6 = ((",\"sort_order\":"@ + (enc_int(p.sort_order as int) + (",\"created_at\":"@ + (enc_int(p.created_at as int) + (",\"updated_at\":"@ + (enc_int(p.updated_at as int) + (",\"sample_tag\":"@ + (enc_opt_string(p.sample_tag) + ("}"@)))))))))) + rest;
    assert(s.skip(i) =~= t0);
    assert(t0 =~= "{\"id\":"@ + t1);
    assert(t1 =~= enc_string(p.id) + t2);
    assert(t2 =~= ",\"name\":"@ + t3);
    assert(t3 =~= enc_string(p.name) + t4);
    assert(t4 =~= ",\"pinned\":"@ + t5);
    assert(t5 =~= enc_bool(p.pinned) + t6);
    let p0 = i;
    lemma_chain(s, p0, "{\"id\":"@, t1);
    lemma_sp_lit(s, p0, "{\"id\":"@, t1);
    let p1 = p0 + "{\"id\":"@.len();
    lemma_chain(s, p1, enc_string(p.id), t2);
    lemma_sp_string_enc(s, p1, p.id, t2);
    let p2 = p1 + enc_string(p.id).len();
    lemma_chain(s, p2, ",\"name\":"@, t3);
    lemma_sp_lit(s, p2, ",\"name\":"@, t3);
    let p3 = p2 + ",\"name\":"@.len();
    lemma_chain(s, p3, enc_string(p.name), t4);
    lemma_sp_string_enc(s, p3, p.name, t4);
    let p4 = p3 + enc_string(p.name).len();
    lemma_chain(s, p4, ",\"pinned\":"@, t5);
    lemma_sp_lit(s, p4, ",\"pinned\":"@, t5);
    let p5 = p4 + ",\"pinned\":"@.len();
    lemma_chain(s, p5, enc_bool(p.pinned), t6);
    lemma_sp_bool_enc(s, p5, p.pinned, t6);
    let p6 = p5 + enc_bool(p.pinned).len();
    lemma_sp_project_tail_enc(s, p6, p, rest);
}

#[verifier::rlimit(100)]
#[verifier::spinoff_prover]
pub proof fn lemma_sp_day_items_enc(s: Seq<char>, i: int, items: Seq<u8>, acc: Seq<u8>, rest: Seq<char>)
    requires
        0 <= i <= s.len(),
        items.len() >= 1,
        s.skip(i) == enc_day_items(items) + rest,
        rest.len() >= 1,
        rest[0] == ']',
    ensures
        sp_day_items(s, i, acc) == Some((acc + items, i + enc_day_items(items).len())),
    decreases items.len(),
{
    broadcast use vstd::seq_lib::lemma_seq_skip_index;
    broadcast use vstd::seq_lib::lemma_seq_skip_len;

    lemma_dec_digits_props(items[0] as int);
    if items.len() == 1 {
        assert(enc_day_items(items) == enc_int(items[0] as int));
        lemma_chain(s, i, enc_int(items[0] as int), rest);
        assert(!spec_is_digit(']')); assert(!spec_is_digit(','));
        lemma_sp_u8_enc(s, i, items[0], rest);
        let j = i + enc_int(items[0] as int).len();
        assert(s[j] == rest[0]);
        assert(s[j] == ']');
        assert(acc + items =~= acc.push(items[0]));
    } else {
        let e0 = enc_int(items[0] as int);
        let t1 = (seq![','] + enc_day_items(items.skip(1))) + rest;
        assert(s.skip(i) =~= e0 + t1);
        lemma_chain(s, i, e0, t1);
        assert(!spec_is_digit(']')); assert(!spec_is_digit(','));
        lemma_sp_u8_enc(s, i, items[0], t1);
        let j = i + e0.len();
        assert(s[j] == t1[0]);
        assert(s[j] == ',');
        let t2 = enc_day_items(items.skip(1)) + rest;
        assert(t1 =~= seq![','] + t2);
        lemma_chain(s, j, seq![','], t2);
        lemma_sp_day_items_enc(s, j + 1, items.skip(1), acc.push(items[0]), rest);
        assert(acc.push(items[0]) + items.skip(1) =~= acc + items);
    }
}

#[verifier::rlimit(100)]
#[verifier::spinoff_prover]
pub proof fn lemma_sp_tag_items_enc(s: Seq<char>, i: int, items: Seq<Seq<char>>, acc: Seq<Seq<char>>, rest: Seq<char>)
    requires
        0 <= i <= s.len(),
        items.len() >= 1,
        s.skip(i) == enc_tag_items(items) + rest,
        rest.len() >= 1,
        rest[0] == ']',
    ensures
        sp_tag_items(s, i, acc) == Some((acc + items, i + enc_tag_items(items).len())),
    decreases items.len(),
{
    broadcast use vstd::seq_lib::lemma_seq_skip_index;
    broadcast use vstd::seq_lib::lemma_seq_skip_len;


    if items.len() == 1 {
        assert(enc_tag_items(items) == enc_string(items[0]));
        lemma_chain(s, i, enc_string(items[0]), rest);
        lemma_sp_string_enc(s, i, items[0], rest);
        let j = i + enc_string(items[0]).len();
        assert(s[j] == rest[0]);
        assert(s[j] == ']');
        assert(acc + items =~= acc.push(items[0]));
    } else {
        let e0 = enc_string(items[0]);
        let t1 = (seq![','] + enc_tag_items(items.skip(1))) + rest;
        assert(s.skip(i) =~= e0 + t1);
        lemma_chain(s, i, e0, t1);
        lemma_sp_string_enc(s, i, items[0], t1);
        let j = i + e0.len();
        assert(s[j] == t1[0]);
        assert(s[j] == ',');
        let t2 = enc_tag_items(items.skip(1)) + rest;
        assert(t1 =~= seq![','] + t2);
        lemma_chain(s, j, seq![','], t2);
        lemma_sp_tag_items_enc(s, j + 1, items.skip(1), acc.push(items[0]), rest);
        assert(acc.push(items[0]) + items.skip(1) =~= acc + items);
    }
}

#[verifier::rlimit(100)]
#[verifier::spinoff_prover]
pub proof fn lemma_sp_step_items_enc(s: Seq<char>, i: int, items: Seq<StepView>, acc: Seq<StepView>, rest: Seq<char>)
    requires
        0 <= i <= s.len(),
        items.len() >= 1,
        s.skip(i) == enc_step_items(items) + rest,
        rest.len() >= 1,
        rest[0] == ']',
    ensures
        sp_step_items(s, i, acc) == Some((acc + items, i + enc_step_items(items).len())),
    decreases items.len(),
{
    broadcast use vstd::seq_lib::lemma_seq_skip_index;
    broadcast use vstd::seq_lib::lemma_seq_skip_len;

    reveal_strlit("{\"id\":");
    assert(enc_step(items[0]).len() >= 1);
    if items.len() == 1 {
        assert(enc_step_items(items) == enc_step(items[0]));
        lemma_chain(s, i, enc_step(items[0]), rest);
        lemma_sp_step_enc(s, i, items[0], rest);
        let j = i + enc_step(items[0]).len();
        assert(s[j] == rest[0]);
        assert(s[j] == ']');
        assert(acc + items =~= acc.push(items[0]));
    } else {
        let e0 = enc_step(items[0]);
        let t1 = (seq![','] + enc_step_items(items.skip(1))) + rest;
        assert(s.skip(i) =~= e0 + t1);
        lemma_chain(s, i, e0, t1);
        lemma_sp_step_enc(s, i, items[0], t1);
        let j = i + e0.len();
        assert(s[j] == t1[0]);
        assert(s[j] == ',');
        let t2 = enc_step_items(items.skip(1)) + rest;
        assert(t1 =~= seq![','] + t2);
        lemma_chain(s, j, seq![','], t2);
        lemma_sp_step_items_enc(s, j + 1, items.skip(1), acc.push(items[0]), rest);
        assert(acc.push(items[0]) + items.skip(1) =~= acc + items);
    }
}

#[verifier::rlimit(100)]
#[verifier::spinoff_prover]
pub proof fn lemma_sp_project_items_enc(s: Seq<char>, i: int, items: Seq<ProjectView>, acc: Seq<ProjectView>, rest: Seq<char>)
    requires
        0 <= i <= s.len(),
        items.len() >= 1,
        s.skip(i) == enc_project_items(items) + rest,
        rest.len() >= 1,
        rest[0] == ']',
    ensures
        sp_project_items(s, i, acc) == Some((acc + items, i + enc_project_items(items).len())),
    decreases items.len(),
{
    broadcast use vstd::seq_lib::lemma_seq_skip_index;
    broadcast use vstd::seq_lib::lemma_seq_skip_len;

    reveal_strlit("{\"id\":");
    assert(enc_project(items[0]).len() >= 1);
    if items.len() == 1 {
        assert(enc_project_items(items) == enc_project(items[0]));
        lemma_chain(s, i, enc_project(items[0]), rest);
        lemma_sp_project_enc(s, i, items[0], rest);
        let j = i + enc_project(items[0]).len();
        assert(s[j] == rest[0]);
        assert(s[j] == ']');
        assert(acc + items =~= acc.push(items[0]));
    } else {
        let e0 = enc_project(items[0]);
        let t1 = (seq![','] + enc_project_items(items.skip(1))) + rest;
        assert(s.skip(i) =~= e0 + t1);
        lemma_chain(s, i, e0, t1);
        lemma_sp_project_enc(s, i, items[0], t1);
        let j = i + e0.len();
        assert(s[j] == t1[0]);
        assert(s[j] == ',');
        let t2 = enc_project_items(items.skip(1)) + rest;
        assert(t1 =~= seq![','] + t2);
        lemma_chain(s, j, seq![','], t2);
        lemma_sp_project_items_enc(s, j + 1, items.skip(1), acc.push(items[0]), rest);
        assert(acc.push(items[0]) + items.skip(1) =~= acc + items);
    }
}

#[verifier::rlimit(100)]
#[verifier::spinoff_prover]
pub proof fn lemma_sp_repeat_enc(s: Seq<char>, i: int, r: RepeatRuleView, rest: Seq<char>)
    requires
        0 <= i <= s.len(),
        s.skip(i) == enc_repeat(r) + rest,
    ensures
        sp_repeat(s, i) == Some((r, i + enc_repeat(r).len())),
{
    broadcast use vstd::seq_lib::lemma_seq_skip_index;
    broadcast use vstd::seq_lib::lemma_seq_skip_len;

    reveal_strlit("{\"type\":\"");
    reveal_strlit("{\"type\":\"none\"}");
    reveal_strlit("{\"type\":\"daily\",\"workday_only\":");
    reveal_strlit("{\"type\":\"weekly\",\"days\":[");
    reveal_strlit("{\"type\":\"monthly\",\"day\":");
    reveal_strlit("{\"type\":\"yearly\",\"month\":");
    reveal_strlit("none\"}");
    reveal_strlit("daily\",\"workday_only\":");
    reveal_strlit("weekly\",\"days\":[");
    reveal_strlit("monthly\",\"day\":");
    reveal_strlit("yearly\",\"month\":");
    reveal_strlit(",\"day\":");
    reveal_strlit("}");
    reveal_strlit("]}");
    match r {
        RepeatRuleView::NoRepeat => {
            let t1 = "none\"}"@ + rest;
            assert(enc_repeat(r) =~= "{\"type\":\""@ + "none\"}"@);
            assert(s.skip(i) =~= "{\"type\":\""@ + t1);
            lemma_chain(s, i, "{\"type\":\""@, t1);
            lemma_sp_lit(s, i, "{\"type\":\""@, t1);
            let p1 = i + "{\"type\":\""@.len();
            assert(s[p1] == t1[0]);
            assert(s[p1] == 'n');
            lemma_chain(s, p1, "none\"}"@, rest);
            lemma_sp_lit(s, p1, "none\"}"@, rest);
        },
        RepeatRuleView::Daily { workday_only } => {
            let t2 = enc_bool(workday_only) + ("}"@ + rest);
            let t1 = "daily\",\"workday_only\":"@ + t2;
            assert(s.skip(i) =~= "{\"type\":\""@ + t1);
            lemma_chain(s, i, "{\"type\":\""@, t1);
            lemma_sp_lit(s, i, "{\"type\":\""@, t1);
            let p1 = i + "{\"type\":\""@.len();
            assert(s[p1] == t1[0]);
            assert(s[p1] == 'd');
            lemma_chain(s, p1, "daily\",\"workday_only\":"@, t2);
            lemma_sp_lit(s, p1, "daily\",\"workday_only\":"@, t2);
            let p2 = p1 + "daily\",\"workday_only\":"@.len();
            let t3 = "}"@ + rest;
            assert(t2 =~= enc_bool(workday_only) + t3);
            lemma_chain(s, p2, enc_bool(workday_only), t3);
            lemma_sp_bool_enc(s, p2, workday_only, t3);
            let p3 = p2 + enc_bool(workday_only).len();
            lemma_chain(s, p3, "}"@, rest);
            lemma_sp_lit(s, p3, "}"@, rest);
        },
        RepeatRuleView::Weekly { days } => {
            let t2 = enc_day_items(days) + ("]}"@ + rest);
            let t1 = "weekly\",\"days\":["@ + t2;
            assert(s.skip(i) =~= "{\"type\":\""@ + t1);
            lemma_chain(s, i, "{\"type\":\""@, t1);
            lemma_sp_lit(s, i, "{\"type\":\""@, t1);
            let p1 = i + "{\"type\":\""@.len();
            assert(s[p1] == t1[0]);
            assert(s[p1] == 'w');
            lemma_chain(s, p1, "weekly\",\"days\":["@, t2);
            lemma_sp_lit(s, p1, "weekly\",\"days\":["@, t2);
            let p2 = p1 + "weekly\",\"days\":["@.len();
            let t3 = "]}"@ + rest;
            assert(t2 =~= enc_day_items(days) + t3);
            lemma_chain(s, p2, enc_day_items(days), t3);
            assert(t3[0] == ']');
            if days.len() == 0 {
                assert(enc_day_items(days) =~= Seq::<char>::empty());
                assert(s[p2] == t3[0]);
                assert(s[p2] == ']');
                lemma_chain(s, p2, "]}"@, rest);
                lemma_sp_lit(s, p2, "]}"@, rest);
            } else {
                assert(s[p2] == (enc_day_items(days) + t3)[0]);
                lemma_dec_digits_props(days[0] as int);
                assert(enc_day_items(days)[0] == enc_int(days[0] as int)[0]);
                assert(spec_is_digit(enc_day_items(days)[0]));
                assert(s[p2] != ']');
                lemma_sp_day_items_enc(s, p2, days, Seq::<u8>::empty(), t3);
                assert(Seq::<u8>::empty() + days =~= days);
                let p3 = p2 + enc_day_items(days).len();
                lemma_chain(s, p3, "]}"@, rest);
                lemma_sp_lit(s, p3, "]}"@, rest);
            }
        },
        RepeatRuleView::Monthly { day } => {
            let t2 = enc_int(day as int) + ("}"@ + rest);
            let t1 = "monthly\",\"day\":"@ + t2;
            assert(s.skip(i) =~= "{\"type\":\""@ + t1);
            lemma_chain(s, i, "{\"type\":\""@, t1);
            lemma_sp_lit(s, i, "{\"type\":\""@, t1);
            let p1 = i + "{\"type\":\""@.len();
            assert(s[p1] == t1[0]);
            assert(s[p1] == 'm');
            lemma_chain(s, p1, "monthly\",\"day\":"@, t2);
            lemma_sp_lit(s, p1, "monthly\",\"day\":"@, t2);
            let p2 = p1 + "monthly\",\"day\":"@.len();
            let t3 = "}"@ + rest;
            assert(t2 =~= enc_int(day as int) + t3);
            lemma_chain(s, p2, enc_int(day as int), t3);
            assert(t3[0] == '}');
            assert(!spec_is_digit(t3[0]));
            lemma_sp_u8_enc(s, p2, day, t3);
            let p3 = p2 + enc_int(day as int).len();
            lemma_chain(s, p3, "}"@, rest);
            lemma_sp_lit(s, p3, "}"@, rest);
        },
        RepeatRuleView::Yearly { month, day } => {
            let t4 = enc_int(day as int) + ("}"@ + rest);
            let t3 = ",\"day\":"@ + t4;
            let t2 = enc_int(month as int) + t3;
            let t1 = "yearly\",\"month\":"@ + t2;
            assert(s.skip(i) =~= "{\"type\":\""@ + t1);
            lemma_chain(s, i, "{\"type\":\""@, t1);
            lemma_sp_lit(s, i, "{\"type\":\""@, t1);
            let p1 = i + "{\"type\":\""@.len();
            assert(s[p1] == t1[0]);
            assert(s[p1] == 'y');
            assert(s[p1] != 'n' && s[p1] != 'd' && s[p1] != 'w' && s[p1] != 'm');
            lemma_chain(s, p1, "yearly\",\"month\":"@, t2);
            lemma_sp_lit(s, p1, "yearly\",\"month\":"@, t2);
            let p2 = p1 + "yearly\",\"month\":"@.len();
            lemma_chain(s, p2, enc_int(month as int), t3);
            assert(t3[0] == ',');
            assert(!spec_is_digit(t3[0]));
            lemma_sp_u8_enc(s, p2, month, t3);
            let p3 = p2 + enc_int(month as int).len();
            lemma_chain(s, p3, ",\"day\":"@, t4);
            lemma_sp_lit(s, p3, ",\"day\":"@, t4);
            let p4 = p3 + ",\"day\":"@.len();
            let t5 = "}"@ + rest;
            assert(t4 =~= enc_int(day as int) + t5);
            lemma_chain(s, p4, enc_int(day as int), t5);
            assert(t5[0] == '}');
            assert(!spec_is_digit(t5[0]));
            lemma_sp_u8_enc(s, p4, day, t5);
            let p5 = p4 + enc_int(day as int).len();
            lemma_chain(s, p5, "}"@, rest);
            lemma_sp_lit(s, p5, "}"@, rest);
        },
    }
}

#[verifier::rlimit(100)]
#[verifier::spinoff_prover]
pub proof fn lemma_sp_task_tail3_enc(s: Seq<char>, i: int, t: TaskView, partial: TaskView, rest: Seq<char>)
    requires
        0 <= i <= s.len(),
        partial == (TaskView {
            sample_tag: partial.sample_tag,
            reminder: partial.reminder,
            repeat: partial.repeat,
            ..t
        }),
        s.skip(i) == ("],\"sample_tag\":"@ + (enc_opt_string(t.sample_tag) + (",\"reminder\":"@ + (enc_reminder(t.reminder) + (",\"repeat\":"@ + (enc_repeat(t.repeat) + ("}"@))))))) + rest,
    ensures
        sp_task_tail3(s, i, partial) == Some((t, i + "],\"sample_tag\":"@.len() + enc_opt_string(t.sample_tag).len() + ",\"reminder\":"@.len() + enc_reminder(t.reminder).len() + ",\"repeat\":"@.len() + enc_repeat(t.repeat).len() + "}"@.len())),
{
    broadcast use vstd::seq_lib::lemma_seq_skip_index;
    broadcast use vstd::seq_lib::lemma_seq_skip_len;

    reveal_strlit(",\"reminder\":");
    reveal_strlit(",\"repeat\":");
    reveal_strlit("],\"sample_tag\":");
    reveal_strlit("}");
    let t0 = ("],\"sample_tag\":"@ + (enc_opt_string(t.sample_tag) + (",\"reminder\":"@ + (enc_reminder(t.reminder) + (",\"repeat\":"@ + (enc_repeat(t.repeat) + ("}"@))))))) + rest;
    let t1 = (enc_opt_string(t.sample_tag) + (",\"reminder\":"@ + (enc_reminder(t.reminder) + (",\"repeat\":"@ + (enc_repeat(t.repeat) + ("}"@)))))) + rest;
    let t2 = (",\"reminder\":"@ + (enc_reminder(t.reminder) + (",\"repeat\":"@ + (enc_repeat(t.repeat) + ("}"@))))) + rest;
    let t3 = (enc_reminder(t.reminder) + (",\"repeat\":"@ + (enc_repeat(t.repeat) + ("}"@)))) + rest;
    let t4 = (",\"repeat\":"@ + (enc_repeat(t.repeat) + ("}"@))) + rest;
    let t5 = (enc_repeat(t.repeat) + ("}"@)) + rest;
    let t6 = ("}"@) + rest;
    assert(s.skip(i) =~= t0);
    assert(t0 =~= "],\"sample_tag\":"@ + t1);
    assert(t1 =~= enc_opt_string(t.sample_tag) + t2);
    assert(t2 =~= ",\"reminder\":"@ + t3);
    assert(t3 =~= enc_reminder(t.reminder) + t4);
    assert(t4 =~= ",\"repeat\":"@ + t5);
    assert(t5 =~= enc_repeat(t.repeat) + t6);
    assert(t6 =~= "}"@ + rest);
    let p0 = i;
    lemma_chain(s, p0, "],\"sample_tag\":"@, t1);
    lemma_sp_lit(s, p0, "],\"sample_tag\":"@, t1);
    let p1 = p0 + "],\"sample_tag\":"@.len();
    lemma_chain(s, p1, enc_opt_string(t.sample_tag), t2);
    lemma_sp_opt_string_enc(s, p1, t.sample_tag, t2);
    let p2 = p1 + enc_opt_string(t.sample_tag).len();
    lemma_chain(s, p2, ",\"reminder\":"@, t3);
    lemma_sp_lit(s, p2, ",\"reminder\":"@, t3);
    let p3 = p2 + ",\"reminder\":"@.len();
    lemma_chain(s, p3, enc_reminder(t.reminder), t4);
    lemma_sp_reminder_enc(s, p3, t.reminder, t4);
    let p4 = p3 + enc_reminder(t.reminder).len();
    lemma_chain(s, p4, ",\"repeat\":"@, t5);
    lemma_sp_lit(s, p4, ",\"repeat\":"@, t5);
    let p5 = p4 + ",\"repeat\":"@.len();
    lemma_chain(s, p5, enc_repeat(t.repeat), t6);
    lemma_sp_repeat_enc(s, p5, t.repeat, t6);
    let p6 = p5 + enc_repeat(t.repeat).len();
    lemma_chain(s, p6, "}"@, rest);
    lemma_sp_lit(s, p6, "}"@, rest);
    let p7 = p6 + "}"@.len();
}

#[verifier::rlimit(100)]
#[verifier::spinoff_prover]
pub proof fn lemma_sp_task_tail2_enc(s: Seq<char>, i: int, t: TaskView, rest: Seq<char>)
    requires
        0 <= i <= s.len(),
        s.skip(i) == (",\"sort_order\":"@ + (enc_int(t.sort_order as int) + (",\"quadrant\":"@ + (enc_int(t.quadrant as int) + (",\"notes\":"@ + (enc_opt_string(t.notes) + (",\"steps\":["@ + (enc_step_items(t.steps) + ("],\"tags\":["@ + (enc_tag_items(t.tags) + (("],\"sample_tag\":"@ + (enc_opt_string(t.sample_tag) + (",\"reminder\":"@ + (enc_reminder(t.reminder) + (",\"repeat\":"@ + (enc_repeat(t.repeat) + ("}"@)))))))))))))))))) + rest,
    ensures
        sp_task_tail2(s, i, t.id, t.project_id, t.title, t.due_at, t.important, t.completed, t.completed_at, t.created_at, t.updated_at) == Some((t, i + ",\"sort_order\":"@.len() + enc_int(t.sort_order as int).len() + ",\"quadrant\":"@.len() + enc_int(t.quadrant as int).len() + ",\"notes\":"@.len() + enc_opt_string(t.notes).len() + ",\"steps\":["@.len() + enc_step_items(t.steps).len() + "],\"tags\":["@.len() + enc_tag_items(t.tags).len() + "],\"sample_tag\":"@.len() + enc_opt_string(t.sample_tag).len() + ",\"reminder\":"@.len() + enc_reminder(t.reminder).len() + ",\"repeat\":"@.len() + enc_repeat(t.repeat).len() + "}"@.len())),
{
    reveal_strlit(",\"notes\":");
    reveal_strlit(",\"quadrant\":");
    reveal_strlit(",\"sort_order\":");
    reveal_strlit(",\"steps\":[");
    reveal_strlit("{\"id\":");
    reveal_strlit("],\"sample_tag\":");
    reveal_strlit("],\"tags\":[");
    let p0 = i;
    lemma_concat_assoc(",\"sort_order\":"@, enc_int(t.sort_order as int) + (",\"quadrant\":"@ + (enc_int(t.quadrant as int) + (",\"notes\":"@ + (enc_opt_string(t.notes) + (",\"steps\":["@ + (enc_step_items(t.steps) + ("],\"tags\":["@ + (enc_tag_items(t.tags) + (("],\"sample_tag\":"@ + (enc_opt_string(t.sample_tag) + (",\"reminder\":"@ + (enc_reminder(t.reminder) + (",\"repeat\":"@ + (enc_repeat(t.repeat) + ("}"@)))))))))))))))), rest);
    lemma_chain(s, p0, ",\"sort_order\":"@, ((enc_int(t.sort_order as int) + (",\"quadrant\":"@ + (enc_int(t.quadrant as int) + (",\"notes\":"@ + (enc_opt_string(t.notes) + (",\"steps\":["@ + (enc_step_items(t.steps) + ("],\"tags\":["@ + (enc_tag_items(t.tags) + (("],\"sample_tag\":"@ + (enc_opt_string(t.sample_tag) + (",\"reminder\":"@ + (enc_reminder(t.reminder) + (",\"repeat\":"@ + (enc_repeat(t.repeat) + ("}"@))))))))))))))))) + rest));
    lemma_sp_lit(s, p0, ",\"sort_order\":"@, ((enc_int(t.sort_order as int) + (",\"quadrant\":"@ + (enc_int(t.quadrant as int) + (",\"notes\":"@ + (enc_opt_string(t.notes) + (",\"steps\":["@ + (enc_step_items(t.steps) + ("],\"tags\":["@ + (enc_tag_items(t.tags) + (("],\"sample_tag\":"@ + (enc_opt_string(t.sample_tag) + (",\"reminder\":"@ + (enc_reminder(t.reminder) + (",\"repeat\":"@ + (enc_repeat(t.repeat) + ("}"@))))))))))))))))) + rest));
    let p1 = p0 + ",\"sort_order\":"@.len();
    lemma_concat_assoc(enc_int(t.sort_order as int), ",\"quadrant\":"@ + (enc_int(t.quadrant as int) + (",\"notes\":"@ + (enc_opt_string(t.notes) + (",\"steps\":["@ + (enc_step_items(t.steps) + ("],\"tags\":["@ + (enc_tag_items(t.tags) + (("],\"sample_tag\":"@ + (enc_opt_string(t.sample_tag) + (",\"reminder\":"@ + (enc_reminder(t.reminder) + (",\"repeat\":"@ + (enc_repeat(t.repeat) + ("}"@))))))))))))))), rest);
    lemma_chain(s, p1, enc_int(t.sort_order as int), ((",\"quadrant\":"@ + (enc_int(t.quadrant as int) + (",\"notes\":"@ + (enc_opt_string(t.notes) + (",\"steps\":["@ + (enc_step_items(t.steps) + ("],\"tags\":["@ + (enc_tag_items(t.tags) + (("],\"sample_tag\":"@ + (enc_opt_string(t.sample_tag) + (",\"reminder\":"@ + (enc_reminder(t.reminder) + (",\"repeat\":"@ + (enc_repeat(t.repeat) + ("}"@)))))))))))))))) + rest));
    assert((",\"quadrant\":"@ + (enc_int(t.quadrant as int) + (",\"notes\":"@ + (enc_opt_string(t.notes) + (",\"steps\":["@ + (enc_step_items(t.steps) + ("],\"tags\":["@ + (enc_tag_items(t.tags) + (("],\"sample_tag\":"@ + (enc_opt_string(t.sample_tag) + (",\"reminder\":"@ + (enc_reminder(t.reminder) + (",\"repeat\":"@ + (enc_repeat(t.repeat) + ("}"@))))))))))))))))[0] == ',');
    assert(((",\"quadrant\":"@ + (enc_int(t.quadrant as int) + (",\"notes\":"@ + (enc_opt_string(t.notes) + (",\"steps\":["@ + (enc_step_items(t.steps) + ("],\"tags\":["@ + (enc_tag_items(t.tags) + (("],\"sample_tag\":"@ + (enc_opt_string(t.sample_tag) + (",\"reminder\":"@ + (enc_reminder(t.reminder) + (",\"repeat\":"@ + (enc_repeat(t.repeat) + ("}"@)))))))))))))))) + rest)[0] == (",\"quadrant\":"@ + (enc_int(t.quadrant as int) + (",\"notes\":"@ + (enc_opt_string(t.notes) + (",\"steps\":["@ + (enc_step_items(t.steps) + ("],\"tags\":["@ + (enc_tag_items(t.tags) + (("],\"sample_tag\":"@ + (enc_opt_string(t.sample_tag) + (",\"reminder\":"@ + (enc_reminder(t.reminder) + (",\"repeat\":"@ + (enc_repeat(t.repeat) + ("}"@))))))))))))))))[0]);
    assert(!spec_is_digit(((",\"quadrant\":"@ + (enc_int(t.quadrant as int) + (",\"notes\":"@ + (enc_opt_string(t.notes) + (",\"steps\":["@ + (enc_step_items(t.steps) + ("],\"tags\":["@ + (enc_tag_items(t.tags) + (("],\"sample_tag\":"@ + (enc_opt_string(t.sample_tag) + (",\"reminder\":"@ + (enc_reminder(t.reminder) + (",\"repeat\":"@ + (enc_repeat(t.repeat) + ("}"@)))))))))))))))) + rest)[0]));
    lemma_sp_i64_enc(s, p1, t.sort_order, ((",\"quadrant\":"@ + (enc_int(t.quadrant as int) + (",\"notes\":"@ + (enc_opt_string(t.notes) + (",\"steps\":["@ + (enc_step_items(t.steps) + ("],\"tags\":["@ + (enc_tag_items(t.tags) + (("],\"sample_tag\":"@ + (enc_opt_string(t.sample_tag) + (",\"reminder\":"@ + (enc_reminder(t.reminder) + (",\"repeat\":"@ + (enc_repeat(t.repeat) + ("}"@)))))))))))))))) + rest));
    let p2 = p1 + enc_int(t.sort_order as int).len();
    lemma_concat_assoc(",\"quadrant\":"@, enc_int(t.quadrant as int) + (",\"notes\":"@ + (enc_opt_string(t.notes) + (",\"steps\":["@ + (enc_step_items(t.steps) + ("],\"tags\":["@ + (enc_tag_items(t.tags) + (("],\"sample_tag\":"@ + (enc_opt_string(t.sample_tag) + (",\"reminder\":"@ + (enc_reminder(t.reminder) + (",\"repeat\":"@ + (enc_repeat(t.repeat) + ("}"@)))))))))))))), rest);
    lemma_chain(s, p2, ",\"quadrant\":"@, ((enc_int(t.quadrant as int) + (",\"notes\":"@ + (enc_opt_string(t.notes) + (",\"steps\":["@ + (enc_step_items(t.steps) + ("],\"tags\":["@ + (enc_tag_items(t.tags) + (("],\"sample_tag\":"@ + (enc_opt_string(t.sample_tag) + (",\"reminder\":"@ + (enc_reminder(t.reminder) + (",\"repeat\":"@ + (enc_repeat(t.repeat) + ("}"@))))))))))))))) + rest));
    lemma_sp_lit(s, p2, ",\"quadrant\":"@, ((enc_int(t.quadrant as int) + (",\"notes\":"@ + (enc_opt_string(t.notes) + (",\"steps\":["@ + (enc_step_items(t.steps) + ("],\"tags\":["@ + (enc_tag_items(t.tags) + (("],\"sample_tag\":"@ + (enc_opt_string(t.sample_tag) + (",\"reminder\":"@ + (enc_reminder(t.reminder) + (",\"repeat\":"@ + (enc_repeat(t.repeat) + ("}"@))))))))))))))) + rest));
    let p3 = p2 + ",\"quadrant\":"@.len();
    lemma_concat_assoc(enc_int(t.quadrant as int), ",\"notes\":"@ + (enc_opt_string(t.notes) + (",\"steps\":["@ + (enc_step_items(t.steps) + ("],\"tags\":["@ + (enc_tag_items(t.tags) + (("],\"sample_tag\":"@ + (enc_opt_string(t.sample_tag) + (",\"reminder\":"@ + (enc_reminder(t.reminder) + (",\"repeat\":"@ + (enc_repeat(t.repeat) + ("}"@))))))))))))), rest);
    lemma_chain(s, p3, enc_int(t.quadrant as int), ((",\"notes\":"@ + (enc_opt_string(t.notes) + (",\"steps\":["@ + (enc_step_items(t.steps) + ("],\"tags\":["@ + (enc_tag_items(t.tags) + (("],\"sample_tag\":"@ + (enc_opt_string(t.sample_tag) + (",\"reminder\":"@ + (enc_reminder(t.reminder) + (",\"repeat\":"@ + (enc_repeat(t.repeat) + ("}"@)))))))))))))) + rest));
    assert((",\"notes\":"@ + (enc_opt_string(t.notes) + (",\"steps\":["@ + (enc_step_items(t.steps) + ("],\"tags\":["@ + (enc_tag_items(t.tags) + (("],\"sample_tag\":"@ + (enc_opt_string(t.sample_tag) + (",\"reminder\":"@ + (enc_reminder(t.reminder) + (",\"repeat\":"@ + (enc_repeat(t.repeat) + ("}"@))))))))))))))[0] == ',');
    assert(((",\"notes\":"@ + (enc_opt_string(t.notes) + (",\"steps\":["@ + (enc_step_items(t.steps) + ("],\"tags\":["@ + (enc_tag_items(t.tags) + (("],\"sample_tag\":"@ + (enc_opt_string(t.sample_tag) + (",\"reminder\":"@ + (enc_reminder(t.reminder) + (",\"repeat\":"@ + (enc_repeat(t.repeat) + ("}"@)))))))))))))) + rest)[0] == (",\"notes\":"@ + (enc_opt_string(t.notes) + (",\"steps\":["@ + (enc_step_items(t.steps) + ("],\"tags\":["@ + (enc_tag_items(t.tags) + (("],\"sample_tag\":"@ + (enc_opt_string(t.sample_tag) + (",\"reminder\":"@ + (enc_reminder(t.reminder) + (",\"repeat\":"@ + (enc_repeat(t.repeat) + ("}"@))))))))))))))[0]);
    assert(!spec_is_digit(((",\"notes\":"@ + (enc_opt_string(t.notes) + (",\"steps\":["@ + (enc_step_items(t.steps) + ("],\"tags\":["@ + (enc_tag_items(t.tags) + (("],\"sample_tag\":"@ + (enc_opt_string(t.sample_tag) + (",\"reminder\":"@ + (enc_reminder(t.reminder) + (",\"repeat\":"@ + (enc_repeat(t.repeat) + ("}"@)))))))))))))) + rest)[0]));
    lemma_sp_u8_enc(s, p3, t.quadrant, ((",\"notes\":"@ + (enc_opt_string(t.notes) + (",\"steps\":["@ + (enc_step_items(t.steps) + ("],\"tags\":["@ + (enc_tag_items(t.tags) + (("],\"sample_tag\":"@ + (enc_opt_string(t.sample_tag) + (",\"reminder\":"@ + (enc_reminder(t.reminder) + (",\"repeat\":"@ + (enc_repeat(t.repeat) + ("}"@)))))))))))))) + rest));
    let p4 = p3 + enc_int(t.quadrant as int).len();
    lemma_concat_assoc(",\"notes\":"@, enc_opt_string(t.notes) + (",\"steps\":["@ + (enc_step_items(t.steps) + ("],\"tags\":["@ + (enc_tag_items(t.tags) + (("],\"sample_tag\":"@ + (enc_opt_string(t.sample_tag) + (",\"reminder\":"@ + (enc_reminder(t.reminder) + (",\"repeat\":"@ + (enc_repeat(t.repeat) + ("}"@)))))))))))), rest);
    lemma_chain(s, p4, ",\"notes\":"@, ((enc_opt_string(t.notes) + (",\"steps\":["@ + (enc_step_items(t.steps) + ("],\"tags\":["@ + (enc_tag_items(t.tags) + (("],\"sample_tag\":"@ + (enc_opt_string(t.sample_tag) + (",\"reminder\":"@ + (enc_reminder(t.reminder) + (",\"repeat\":"@ + (enc_repeat(t.repeat) + ("}"@))))))))))))) + rest));
    lemma_sp_lit(s, p4, ",\"notes\":"@, ((enc_opt_string(t.notes) + (",\"steps\":["@ + (enc_step_items(t.steps) + ("],\"tags\":["@ + (enc_tag_items(t.tags) + (("],\"sample_tag\":"@ + (enc_opt_string(t.sample_tag) + (",\"reminder\":"@ + (enc_reminder(t.reminder) + (",\"repeat\":"@ + (enc_repeat(t.repeat) + ("}"@))))))))))))) + rest));
    let p5 = p4 + ",\"notes\":"@.len();
    lemma_concat_assoc(enc_opt_string(t.notes), ",\"steps\":["@ + (enc_step_items(t.steps) + ("],\"tags\":["@ + (enc_tag_items(t.tags) + (("],\"sample_tag\":"@ + (enc_opt_string(t.sample_tag) + (",\"reminder\":"@ + (enc_reminder(t.reminder) + (",\"repeat\":"@ + (enc_repeat(t.repeat) + ("}"@))))))))))), rest);
    lemma_chain(s, p5, enc_opt_string(t.notes), ((",\"steps\":["@ + (enc_step_items(t.steps) + ("],\"tags\":["@ + (enc_tag_items(t.tags) + (("],\"sample_tag\":"@ + (enc_opt_string(t.sample_tag) + (",\"reminder\":"@ + (enc_reminder(t.reminder) + (",\"repeat\":"@ + (enc_repeat(t.repeat) + ("}"@)))))))))))) + rest));
    lemma_sp_opt_string_enc(s, p5, t.notes, ((",\"steps\":["@ + (enc_step_items(t.steps) + ("],\"tags\":["@ + (enc_tag_items(t.tags) + (("],\"sample_tag\":"@ + (enc_opt_string(t.sample_tag) + (",\"reminder\":"@ + (enc_reminder(t.reminder) + (",\"repeat\":"@ + (enc_repeat(t.repeat) + ("}"@)))))))))))) + rest));
    let p6 = p5 + enc_opt_string(t.notes).len();
    lemma_concat_assoc(",\"steps\":["@, enc_step_items(t.steps) + ("],\"tags\":["@ + (enc_tag_items(t.tags) + (("],\"sample_tag\":"@ + (enc_opt_string(t.sample_tag) + (",\"reminder\":"@ + (enc_reminder(t.reminder) + (",\"repeat\":"@ + (enc_repeat(t.repeat) + ("}"@)))))))))), rest);
    lemma_chain(s, p6, ",\"steps\":["@, ((enc_step_items(t.steps) + ("],\"tags\":["@ + (enc_tag_items(t.tags) + (("],\"sample_tag\":"@ + (enc_opt_string(t.sample_tag) + (",\"reminder\":"@ + (enc_reminder(t.reminder) + (",\"repeat\":"@ + (enc_repeat(t.repeat) + ("}"@))))))))))) + rest));
    lemma_sp_lit(s, p6, ",\"steps\":["@, ((enc_step_items(t.steps) + ("],\"tags\":["@ + (enc_tag_items(t.tags) + (("],\"sample_tag\":"@ + (enc_opt_string(t.sample_tag) + (",\"reminder\":"@ + (enc_reminder(t.reminder) + (",\"repeat\":"@ + (enc_repeat(t.repeat) + ("}"@))))))))))) + rest));
    let p7 = p6 + ",\"steps\":["@.len();
    lemma_concat_assoc(enc_step_items(t.steps), "],\"tags\":["@ + (enc_tag_items(t.tags) + (("],\"sample_tag\":"@ + (enc_opt_string(t.sample_tag) + (",\"reminder\":"@ + (enc_reminder(t.reminder) + (",\"repeat\":"@ + (enc_repeat(t.repeat) + ("}"@))))))))), rest);
    lemma_chain(s, p7, enc_step_items(t.steps), (("],\"tags\":["@ + (enc_tag_items(t.tags) + (("],\"sample_tag\":"@ + (enc_opt_string(t.sample_tag) + (",\"reminder\":"@ + (enc_reminder(t.reminder) + (",\"repeat\":"@ + (enc_repeat(t.repeat) + ("}"@)))))))))) + rest));
    assert(("],\"tags\":["@ + (enc_tag_items(t.tags) + (("],\"sample_tag\":"@ + (enc_opt_string(t.sample_tag) + (",\"reminder\":"@ + (enc_reminder(t.reminder) + (",\"repeat\":"@ + (enc_repeat(t.repeat) + ("}"@))))))))))[0] == ']');
    assert((("],\"tags\":["@ + (enc_tag_items(t.tags) + (("],\"sample_tag\":"@ + (enc_opt_string(t.sample_tag) + (",\"reminder\":"@ + (enc_reminder(t.reminder) + (",\"repeat\":"@ + (enc_repeat(t.repeat) + ("}"@)))))))))) + rest)[0] == ("],\"tags\":["@ + (enc_tag_items(t.tags) + (("],\"sample_tag\":"@ + (enc_opt_string(t.sample_tag) + (",\"reminder\":"@ + (enc_reminder(t.reminder) + (",\"repeat\":"@ + (enc_repeat(t.repeat) + ("}"@))))))))))[0]);
    if t.steps.len() == 0 {
        assert(enc_step_items(t.steps) =~= Seq::<char>::empty());
        assert(s[p7] == (("],\"tags\":["@ + (enc_tag_items(t.tags) + (("],\"sample_tag\":"@ + (enc_opt_string(t.sample_tag) + (",\"reminder\":"@ + (enc_reminder(t.reminder) + (",\"repeat\":"@ + (enc_repeat(t.repeat) + ("}"@)))))))))) + rest)[0]);
        assert(s[p7] == ']');
    } else {
        assert(s[p7] == (enc_step_items(t.steps) + (("],\"tags\":["@ + (enc_tag_items(t.tags) + (("],\"sample_tag\":"@ + (enc_opt_string(t.sample_tag) + (",\"reminder\":"@ + (enc_reminder(t.reminder) + (",\"repeat\":"@ + (enc_repeat(t.repeat) + ("}"@)))))))))) + rest))[0]);
        assert((enc_step_items(t.steps))[0] == enc_step(t.steps[0])[0]);
        assert(enc_step(t.steps[0])[0] == '{');
        assert(s[p7] != ']');
        lemma_sp_step_items_enc(s, p7, t.steps, Seq::<StepView>::empty(), (("],\"tags\":["@ + (enc_tag_items(t.tags) + (("],\"sample_tag\":"@ + (enc_opt_string(t.sample_tag) + (",\"reminder\":"@ + (enc_reminder(t.reminder) + (",\"repeat\":"@ + (enc_repeat(t.repeat) + ("}"@)))))))))) + rest));
        assert(Seq::<StepView>::empty() + t.steps =~= t.steps);
    }
    let p8 = p7 + enc_step_items(t.steps).len();
    lemma_concat_assoc("],\"tags\":["@, enc_tag_items(t.tags) + (("],\"sample_tag\":"@ + (enc_opt_string(t.sample_tag) + (",\"reminder\":"@ + (enc_reminder(t.reminder) + (",\"repeat\":"@ + (enc_repeat(t.repeat) + ("}"@)))))))), rest);
    lemma_chain(s, p8, "],\"tags\":["@, ((enc_tag_items(t.tags) + (("],\"sample_tag\":"@ + (enc_opt_string(t.sample_tag) + (",\"reminder\":"@ + (enc_reminder(t.reminder) + (",\"repeat\":"@ + (enc_repeat(t.repeat) + ("}"@))))))))) + rest));
    lemma_sp_lit(s, p8, "],\"tags\":["@, ((enc_tag_items(t.tags) + (("],\"sample_tag\":"@ + (enc_opt_string(t.sample_tag) + (",\"reminder\":"@ + (enc_reminder(t.reminder) + (",\"repeat\":"@ + (enc_repeat(t.repeat) + ("}"@))))))))) + rest));
    let p9 = p8 + "],\"tags\":["@.len();
    lemma_concat_assoc(enc_tag_items(t.tags), ("],\"sample_tag\":"@ + (enc_opt_string(t.sample_tag) + (",\"reminder\":"@ + (enc_reminder(t.reminder) + (",\"repeat\":"@ + (enc_repeat(t.repeat) + ("}"@))))))), rest);
    lemma_chain(s, p9, enc_tag_items(t.tags), ((("],\"sample_tag\":"@ + (enc_opt_string(t.sample_tag) + (",\"reminder\":"@ + (enc_reminder(t.reminder) + (",\"repeat\":"@ + (enc_repeat(t.repeat) + ("}"@)))))))) + rest));
    assert((("],\"sample_tag\":"@ + (enc_opt_string(t.sample_tag) + (",\"reminder\":"@ + (enc_reminder(t.reminder) + (",\"repeat\":"@ + (enc_repeat(t.repeat) + ("}"@))))))))[0] == ']');
    assert(((("],\"sample_tag\":"@ + (enc_opt_string(t.sample_tag) + (",\"reminder\":"@ + (enc_reminder(t.reminder) + (",\"repeat\":"@ + (enc_repeat(t.repeat) + ("}"@)))))))) + rest)[0] == (("],\"sample_tag\":"@ + (enc_opt_string(t.sample_tag) + (",\"reminder\":"@ + (enc_reminder(t.reminder) + (",\"repeat\":"@ + (enc_repeat(t.repeat) + ("}"@))))))))[0]);
    if t.tags.len() == 0 {
        assert(enc_tag_items(t.tags) =~= Seq::<char>::empty());
        assert(s[p9] == ((("],\"sample_tag\":"@ + (enc_opt_string(t.sample_tag) + (",\"reminder\":"@ + (enc_reminder(t.reminder) + (",\"repeat\":"@ + (enc_repeat(t.repeat) + ("}"@)))))))) + rest)[0]);
        assert(s[p9] == ']');
    } else {
        assert(s[p9] == (enc_tag_items(t.tags) + ((("],\"sample_tag\":"@ + (enc_opt_string(t.sample_tag) + (",\"reminder\":"@ + (enc_reminder(t.reminder) + (",\"repeat\":"@ + (enc_repeat(t.repeat) + ("}"@)))))))) + rest))[0]);
        assert((enc_tag_items(t.tags))[0] == enc_string(t.tags[0])[0]);
        assert(enc_string(t.tags[0])[0] == '"');
        assert(s[p9] != ']');
        lemma_sp_tag_items_enc(s, p9, t.tags, Seq::<Seq<char>>::empty(), ((("],\"sample_tag\":"@ + (enc_opt_string(t.sample_tag) + (",\"reminder\":"@ + (enc_reminder(t.reminder) + (",\"repeat\":"@ + (enc_repeat(t.repeat) + ("}"@)))))))) + rest));
        assert(Seq::<Seq<char>>::empty() + t.tags =~= t.tags);
    }
    let p10 = p9 + enc_tag_items(t.tags).len();
    let partial = TaskView {
        id: t.id,
        project_id: t.project_id,
        title: t.title,
        due_at: t.due_at,
        important: t.important,
        completed: t.completed,
        completed_at: t.completed_at,
        created_at: t.created_at,
        updated_at: t.updated_at,
        sort_order: t.sort_order,
        quadrant: t.quadrant,
        notes: t.notes,
        steps: t.steps,
        tags: t.tags,
        sample_tag: None,
        reminder: (ReminderConfig { kind: ReminderKind::NoReminder, remind_at: None, snoozed_until: None, forced_dismissed: false, last_fired_at: None, repeat_fired_count: 0 }),
        repeat: RepeatRuleView::NoRepeat,
    };
    lemma_sp_task_tail3_enc(s, p10, t, partial, rest);
}

#[verifier::rlimit(100)]
#[verifier::spinoff_prover]
pub proof fn lemma_sp_task_tail1_enc(s: Seq<char>, i: int, t: TaskView, rest: Seq<char>)
    requires
        0 <= i <= s.len(),
        s.skip(i) == (",\"important\":"@ + (enc_bool(t.important) + (",\"completed\":"@ + (enc_bool(t.completed) + (",\"completed_at\":"@ + (enc_opt_int(t.completed_at) + (",\"created_at\":"@ + (enc_int(t.created_at as int) + (",\"updated_at\":"@ + (enc_int(t.updated_at as int) + ((",\"sort_order\":"@ + (enc_int(t.sort_order as int) + (",\"quadrant\":"@ + (enc_int(t.quadrant as int) + (",\"notes\":"@ + (enc_opt_string(t.notes) + (",\"steps\":["@ + (enc_step_items(t.steps) + ("],\"tags\":["@ + (enc_tag_items(t.tags) + (("],\"sample_tag\":"@ + (enc_opt_string(t.sample_tag) + (",\"reminder\":"@ + (enc_reminder(t.reminder) + (",\"repeat\":"@ + (enc_repeat(t.repeat) + ("}"@))))))))))))))))))))))))))))) + rest,
    ensures
        sp_task_tail1(s, i, t.id, t.project_id, t.title, t.due_at) == Some((t, i + ",\"important\":"@.len() + enc_bool(t.important).len() + ",\"completed\":"@.len() + enc_bool(t.completed).len() + ",\"completed_at\":"@.len() + enc_opt_int(t.completed_at).len() + ",\"created_at\":"@.len() + enc_int(t.created_at as int).len() + ",\"updated_at\":"@.len() + enc_int(t.updated_at as int).len() + ",\"sort_order\":"@.len() + enc_int(t.sort_order as int).len() + ",\"quadrant\":"@.len() + enc_int(t.quadrant as int).len() + ",\"notes\":"@.len() + enc_opt_string(t.notes).len() + ",\"steps\":["@.len() + enc_step_items(t.steps).len() + "],\"tags\":["@.len() + enc_tag_items(t.tags).len() + "],\"sample_tag\":"@.len() + enc_opt_string(t.sample_tag).len() + ",\"reminder\":"@.len() + enc_reminder(t.reminder).len() + ",\"repeat\":"@.len() + enc_repeat(t.repeat).len() + "}"@.len())),
{
    reveal_strlit(",\"completed\":");
    reveal_strlit(",\"completed_at\":");
    reveal_strlit(",\"created_at\":");
    reveal_strlit(",\"important\":");
    reveal_strlit(",\"sort_order\":");
    reveal_strlit(",\"updated_at\":");
    let p0 = i;
    lemma_concat_assoc(",\"important\":"@, enc_bool(t.important) + (",\"completed\":"@ + (enc_bool(t.completed) + (",\"completed_at\":"@ + (enc_opt_int(t.completed_at) + (",\"created_at\":"@ + (enc_int(t.created_at as int) + (",\"updated_at\":"@ + (enc_int(t.updated_at as int) + ((",\"sort_order\":"@ + (enc_int(t.sort_order as int) + (",\"quadrant\":"@ + (enc_int(t.quadrant as int) + (",\"notes\":"@ + (enc_opt_string(t.notes) + (",\"steps\":["@ + (enc_step_items(t.steps) + ("],\"tags\":["@ + (enc_tag_items(t.tags) + (("],\"sample_tag\":"@ + (enc_opt_string(t.sample_tag) + (",\"reminder\":"@ + (enc_reminder(t.reminder) + (",\"repeat\":"@ + (enc_repeat(t.repeat) + ("}"@))))))))))))))))))))))))))), rest);
    lemma_chain(s, p0, ",\"important\":"@, ((enc_bool(t.important) + (",\"completed\":"@ + (enc_bool(t.completed) + (",\"completed_at\":"@ + (enc_opt_int(t.completed_at) + (",\"created_at\":"@ + (enc_int(t.created_at as int) + (",\"updated_at\":"@ + (enc_int(t.updated_at as int) + ((",\"sort_order\":"@ + (enc_int(t.sort_order as int) + (",\"quadrant\":"@ + (enc_int(t.quadrant as int) + (",\"notes\":"@ + (enc_opt_string(t.notes) + (",\"steps\":["@ + (enc_step_items(t.steps) + ("],\"tags\":["@ + (enc_tag_items(t.tags) + (("],\"sample_tag\":"@ + (enc_opt_string(t.sample_tag) + (",\"reminder\":"@ + (enc_reminder(t.reminder) + (",\"repeat\":"@ + (enc_repeat(t.repeat) + ("}"@)))))))))))))))))))))))))))) + rest));
    lemma_sp_lit(s, p0, ",\"important\":"@, ((enc_bool(t.important) + (",\"completed\":"@ + (enc_bool(t.completed) + (",\"completed_at\":"@ + (enc_opt_int(t.completed_at) + (",\"created_at\":"@ + (enc_int(t.created_at as int) + (",\"updated_at\":"@ + (enc_int(t.updated_at as int) + ((",\"sort_order\":"@ + (enc_int(t.sort_order as int) + (",\"quadrant\":"@ + (enc_int(t.quadrant as int) + (",\"notes\":"@ + (enc_opt_string(t.notes) + (",\"steps\":["@ + (enc_step_items(t.steps) + ("],\"tags\":["@ + (enc_tag_items(t.tags) + (("],\"sample_tag\":"@ + (enc_opt_string(t.sample_tag) + (",\"reminder\":"@ + (enc_reminder(t.reminder) + (",\"repeat\":"@ + (enc_repeat(t.repeat) + ("}"@)))))))))))))))))))))))))))) + rest));
    let p1 = p0 + ",\"important\":"@.len();
    lemma_concat_assoc(enc_bool(t.important), ",\"completed\":"@ + (enc_bool(t.completed) + (",\"completed_at\":"@ + (enc_opt_int(t.completed_at) + (",\"created_at\":"@ + (enc_int(t.created_at as int) + (",\"updated_at\":"@ + (enc_int(t.updated_at as int) + ((",\"sort_order\":"@ + (enc_int(t.sort_order as int) + (",\"quadrant\":"@ + (enc_int(t.quadrant as int) + (",\"notes\":"@ + (enc_opt_string(t.notes) + (",\"steps\":["@ + (enc_step_items(t.steps) + ("],\"tags\":["@ + (enc_tag_items(t.tags) + (("],\"sample_tag\":"@ + (enc_opt_string(t.sample_tag) + (",\"reminder\":"@ + (enc_reminder(t.reminder) + (",\"repeat\":"@ + (enc_repeat(t.repeat) + ("}"@)))))))))))))))))))))))))), rest);
    lemma_chain(s, p1, enc_bool(t.important), ((",\"completed\":"@ + (enc_bool(t.completed) + (",\"completed_at\":"@ + (enc_opt_int(t.completed_at) + (",\"created_at\":"@ + (enc_int(t.created_at as int) + (",\"updated_at\":"@ + (enc_int(t.updated_at as int) + ((",\"sort_order\":"@ + (enc_int(t.sort_order as int) + (",\"quadrant\":"@ + (enc_int(t.quadrant as int) + (",\"notes\":"@ + (enc_opt_string(t.notes) + (",\"steps\":["@ + (enc_step_items(t.steps) + ("],\"tags\":["@ + (enc_tag_items(t.tags) + (("],\"sample_tag\":"@ + (enc_opt_string(t.sample_tag) + (",\"reminder\":"@ + (enc_reminder(t.reminder) + (",\"repeat\":"@ + (enc_repeat(t.repeat) + ("}"@))))))))))))))))))))))))))) + rest));
    lemma_sp_bool_enc(s, p1, t.important, ((",\"completed\":"@ + (enc_bool(t.completed) + (",\"completed_at\":"@ + (enc_opt_int(t.completed_at) + (",\"created_at\":"@ + (enc_int(t.created_at as int) + (",\"updated_at\":"@ + (enc_int(t.updated_at as int) + ((",\"sort_order\":"@ + (enc_int(t.sort_order as int) + (",\"quadrant\":"@ + (enc_int(t.quadrant as int) + (",\"notes\":"@ + (enc_opt_string(t.notes) + (",\"steps\":["@ + (enc_step_items(t.steps) + ("],\"tags\":["@ + (enc_tag_items(t.tags) + (("],\"sample_tag\":"@ + (enc_opt_string(t.sample_tag) + (",\"reminder\":"@ + (enc_reminder(t.reminder) + (",\"repeat\":"@ + (enc_repeat(t.repeat) + ("}"@))))))))))))))))))))))))))) + rest));
    let p2 = p1 + enc_bool(t.important).len();
    lemma_concat_assoc(",\"completed\":"@, enc_bool(t.completed) + (",\"completed_at\":"@ + (enc_opt_int(t.completed_at) + (",\"created_at\":"@ + (enc_int(t.created_at as int) + (",\"updated_at\":"@ + (enc_int(t.updated_at as int) + ((",\"sort_order\":"@ + (enc_int(t.sort_order as int) + (",\"quadrant\":"@ + (enc_int(t.quadrant as int) + (",\"notes\":"@ + (enc_opt_string(t.notes) + (",\"steps\":["@ + (enc_step_items(t.steps) + ("],\"tags\":["@ + (enc_tag_items(t.tags) + (("],\"sample_tag\":"@ + (enc_opt_string(t.sample_tag) + (",\"reminder\":"@ + (enc_reminder(t.reminder) + (",\"repeat\":"@ + (enc_repeat(t.repeat) + ("}"@))))))))))))))))))))))))), rest);
    lemma_chain(s, p2, ",\"completed\":"@, ((enc_bool(t.completed) + (",\"completed_at\":"@ + (enc_opt_int(t.completed_at) + (",\"created_at\":"@ + (enc_int(t.created_at as int) + (",\"updated_at\":"@ + (enc_int(t.updated_at as int) + ((",\"sort_order\":"@ + (enc_int(t.sort_order as int) + (",\"quadrant\":"@ + (enc_int(t.quadrant as int) + (",\"notes\":"@ + (enc_opt_string(t.notes) + (",\"steps\":["@ + (enc_step_items(t.steps) + ("],\"tags\":["@ + (enc_tag_items(t.tags) + (("],\"sample_tag\":"@ + (enc_opt_string(t.sample_tag) + (",\"reminder\":"@ + (enc_reminder(t.reminder) + (",\"repeat\":"@ + (enc_repeat(t.repeat) + ("}"@)))))))))))))))))))))))))) + rest));
    lemma_sp_lit(s, p2, ",\"completed\":"@, ((enc_bool(t.completed) + (",\"completed_at\":"@ + (enc_opt_int(t.completed_at) + (",\"created_at\":"@ + (enc_int(t.created_at as int) + (",\"updated_at\":"@ + (enc_int(t.updated_at as int) + ((",\"sort_order\":"@ + (enc_int(t.sort_order as int) + (",\"quadrant\":"@ + (enc_int(t.quadrant as int) + (",\"notes\":"@ + (enc_opt_string(t.notes) + (",\"steps\":["@ + (enc_step_items(t.steps) + ("],\"tags\":["@ + (enc_tag_items(t.tags) + (("],\"sample_tag\":"@ + (enc_opt_string(t.sample_tag) + (",\"reminder\":"@ + (enc_reminder(t.reminder) + (",\"repeat\":"@ + (enc_repeat(t.repeat) + ("}"@)))))))))))))))))))))))))) + rest));
    let p3 = p2 + ",\"completed\":"@.len();
    lemma_concat_assoc(enc_bool(t.completed), ",\"completed_at\":"@ + (enc_opt_int(t.completed_at) + (",\"created_at\":"@ + (enc_int(t.created_at as int) + (",\"updated_at\":"@ + (enc_int(t.updated_at as int) + ((",\"sort_order\":"@ + (enc_int(t.sort_order as int) + (",\"quadrant\":"@ + (enc_int(t.quadrant as int) + (",\"notes\":"@ + (enc_opt_string(t.notes) + (",\"steps\":["@ + (enc_step_items(t.steps) + ("],\"tags\":["@ + (enc_tag_items(t.tags) + (("],\"sample_tag\":"@ + (enc_opt_string(t.sample_tag) + (",\"reminder\":"@ + (enc_reminder(t.reminder) + (",\"repeat\":"@ + (enc_repeat(t.repeat) + ("}"@)))))))))))))))))))))))), rest);
    lemma_chain(s, p3, enc_bool(t.completed), ((",\"completed_at\":"@ + (enc_opt_int(t.completed_at) + (",\"created_at\":"@ + (enc_int(t.created_at as int) + (",\"updated_at\":"@ + (enc_int(t.updated_at as int) + ((",\"sort_order\":"@ + (enc_int(t.sort_order as int) + (",\"quadrant\":"@ + (enc_int(t.quadrant as int) + (",\"notes\":"@ + (enc_opt_string(t.notes) + (",\"steps\":["@ + (enc_step_items(t.steps) + ("],\"tags\":["@ + (enc_tag_items(t.tags) + (("],\"sample_tag\":"@ + (enc_opt_string(t.sample_tag) + (",\"reminder\":"@ + (enc_reminder(t.reminder) + (",\"repeat\":"@ + (enc_repeat(t.repeat) + ("}"@))))))))))))))))))))))))) + rest));
    lemma_sp_bool_enc(s, p3, t.completed, ((",\"completed_at\":"@ + (enc_opt_int(t.completed_at) + (",\"created_at\":"@ + (enc_int(t.created_at as int) + (",\"updated_at\":"@ + (enc_int(t.updated_at as int) + ((",\"sort_order\":"@ + (enc_int(t.sort_order as int) + (",\"quadrant\":"@ + (enc_int(t.quadrant as int) + (",\"notes\":"@ + (enc_opt_string(t.notes) + (",\"steps\":["@ + (enc_step_items(t.steps) + ("],\"tags\":["@ + (enc_tag_items(t.tags) + (("],\"sample_tag\":"@ + (enc_opt_string(t.sample_tag) + (",\"reminder\":"@ + (enc_reminder(t.reminder) + (",\"repeat\":"@ + (enc_repeat(t.repeat) + ("}"@))))))))))))))))))))))))) + rest));
    let p4 = p3 + enc_bool(t.completed).len();
    lemma_concat_assoc(",\"completed_at\":"@, enc_opt_int(t.completed_at) + (",\"created_at\":"@ + (enc_int(t.created_at as int) + (",\"updated_at\":"@ + (enc_int(t.updated_at as int) + ((",\"sort_order\":"@ + (enc_int(t.sort_order as int) + (",\"quadrant\":"@ + (enc_int(t.quadrant as int) + (",\"notes\":"@ + (enc_opt_string(t.notes) + (",\"steps\":["@ + (enc_step_items(t.steps) + ("],\"tags\":["@ + (enc_tag_items(t.tags) + (("],\"sample_tag\":"@ + (enc_opt_string(t.sample_tag) + (",\"reminder\":"@ + (enc_reminder(t.reminder) + (",\"repeat\":"@ + (enc_repeat(t.repeat) + ("}"@))))))))))))))))))))))), rest);
    lemma_chain(s, p4, ",\"completed_at\":"@, ((enc_opt_int(t.completed_at) + (",\"created_at\":"@ + (enc_int(t.created_at as int) + (",\"updated_at\":"@ + (enc_int(t.updated_at as int) + ((",\"sort_order\":"@ + (enc_int(t.sort_order as int) + (",\"quadrant\":"@ + (enc_int(t.quadrant as int) + (",\"notes\":"@ + (enc_opt_string(t.notes) + (",\"steps\":["@ + (enc_step_items(t.steps) + ("],\"tags\":["@ + (enc_tag_items(t.tags) + (("],\"sample_tag\":"@ + (enc_opt_string(t.sample_tag) + (",\"reminder\":"@ + (enc_reminder(t.reminder) + (",\"repeat\":"@ + (enc_repeat(t.repeat) + ("}"@)))))))))))))))))))))))) + rest));
    lemma_sp_lit(s, p4, ",\"completed_at\":"@, ((enc_opt_int(t.completed_at) + (",\"created_at\":"@ + (enc_int(t.created_at as int) + (",\"updated_at\":"@ + (enc_int(t.updated_at as int) + ((",\"sort_order\":"@ + (enc_int(t.sort_order as int) + (",\"quadrant\":"@ + (enc_int(t.quadrant as int) + (",\"notes\":"@ + (enc_opt_string(t.notes) + (",\"steps\":["@ + (enc_step_items(t.steps) + ("],\"tags\":["@ + (enc_tag_items(t.tags) + (("],\"sample_tag\":"@ + (enc_opt_string(t.sample_tag) + (",\"reminder\":"@ + (enc_reminder(t.reminder) + (",\"repeat\":"@ + (enc_repeat(t.repeat) + ("}"@)))))))))))))))))))))))) + rest));
    let p5 = p4 + ",\"completed_at\":"@.len();
    lemma_concat_assoc(enc_opt_int(t.completed_at), ",\"created_at\":"@ + (enc_int(t.created_at as int) + (",\"updated_at\":"@ + (enc_int(t.updated_at as int) + ((",\"sort_order\":"@ + (enc_int(t.sort_order as int) + (",\"quadrant\":"@ + (enc_int(t.quadrant as int) + (",\"notes\":"@ + (enc_opt_string(t.notes) + (",\"steps\":["@ + (enc_step_items(t.steps) + ("],\"tags\":["@ + (enc_tag_items(t.tags) + (("],\"sample_tag\":"@ + (enc_opt_string(t.sample_tag) + (",\"reminder\":"@ + (enc_reminder(t.reminder) + (",\"repeat\":"@ + (enc_repeat(t.repeat) + ("}"@)))))))))))))))))))))), rest);
    lemma_chain(s, p5, enc_opt_int(t.completed_at), ((",\"created_at\":"@ + (enc_int(t.created_at as int) + (",\"updated_at\":"@ + (enc_int(t.updated_at as int) + ((",\"sort_order\":"@ + (enc_int(t.sort_order as int) + (",\"quadrant\":"@ + (enc_int(t.quadrant as int) + (",\"notes\":"@ + (enc_opt_string(t.notes) + (",\"steps\":["@ + (enc_step_items(t.steps) + ("],\"tags\":["@ + (enc_tag_items(t.tags) + (("],\"sample_tag\":"@ + (enc_opt_string(t.sample_tag) + (",\"reminder\":"@ + (enc_reminder(t.reminder) + (",\"repeat\":"@ + (enc_repeat(t.repeat) + ("}"@))))))))))))))))))))))) + rest));
    assert((",\"created_at\":"@ + (enc_int(t.created_at as int) + (",\"updated_at\":"@ + (enc_int(t.updated_at as int) + ((",\"sort_order\":"@ + (enc_int(t.sort_order as int) + (",\"quadrant\":"@ + (enc_int(t.quadrant as int) + (",\"notes\":"@ + (enc_opt_string(t.notes) + (",\"steps\":["@ + (enc_step_items(t.steps) + ("],\"tags\":["@ + (enc_tag_items(t.tags) + (("],\"sample_tag\":"@ + (enc_opt_string(t.sample_tag) + (",\"reminder\":"@ + (enc_reminder(t.reminder) + (",\"repeat\":"@ + (enc_repeat(t.repeat) + ("}"@)))))))))))))))))))))))[0] == ',');
    assert(((",\"created_at\":"@ + (enc_int(t.created_at as int) + (",\"updated_at\":"@ + (enc_int(t.updated_at as int) + ((",\"sort_order\":"@ + (enc_int(t.sort_order as int) + (",\"quadrant\":"@ + (enc_int(t.quadrant as int) + (",\"notes\":"@ + (enc_opt_string(t.notes) + (",\"steps\":["@ + (enc_step_items(t.steps) + ("],\"tags\":["@ + (enc_tag_items(t.tags) + (("],\"sample_tag\":"@ + (enc_opt_string(t.sample_tag) + (",\"reminder\":"@ + (enc_reminder(t.reminder) + (",\"repeat\":"@ + (enc_repeat(t.repeat) + ("}"@))))))))))))))))))))))) + rest)[0] == (",\"created_at\":"@ + (enc_int(t.created_at as int) + (",\"updated_at\":"@ + (enc_int(t.updated_at as int) + ((",\"sort_order\":"@ + (enc_int(t.sort_order as int) + (",\"quadrant\":"@ + (enc_int(t.quadrant as int) + (",\"notes\":"@ + (enc_opt_string(t.notes) + (",\"steps\":["@ + (enc_step_items(t.steps) + ("],\"tags\":["@ + (enc_tag_items(t.tags) + (("],\"sample_tag\":"@ + (enc_opt_string(t.sample_tag) + (",\"reminder\":"@ + (enc_reminder(t.reminder) + (",\"repeat\":"@ + (enc_repeat(t.repeat) + ("}"@)))))))))))))))))))))))[0]);
    assert(!spec_is_digit(((",\"created_at\":"@ + (enc_int(t.created_at as int) + (",\"updated_at\":"@ + (enc_int(t.updated_at as int) + ((",\"sort_order\":"@ + (enc_int(t.sort_order as int) + (",\"quadrant\":"@ + (enc_int(t.quadrant as int) + (",\"notes\":"@ + (enc_opt_string(t.notes) + (",\"steps\":["@ + (enc_step_items(t.steps) + ("],\"tags\":["@ + (enc_tag_items(t.tags) + (("],\"sample_tag\":"@ + (enc_opt_string(t.sample_tag) + (",\"reminder\":"@ + (enc_reminder(t.reminder) + (",\"repeat\":"@ + (enc_repeat(t.repeat) + ("}"@))))))))))))))))))))))) + rest)[0]));
    lemma_sp_opt_i64_enc(s, p5, t.completed_at, ((",\"created_at\":"@ + (enc_int(t.created_at as int) + (",\"updated_at\":"@ + (enc_int(t.updated_at as int) + ((",\"sort_order\":"@ + (enc_int(t.sort_order as int) + (",\"quadrant\":"@ + (enc_int(t.quadrant as int) + (",\"notes\":"@ + (enc_opt_string(t.notes) + (",\"steps\":["@ + (enc_step_items(t.steps) + ("],\"tags\":["@ + (enc_tag_items(t.tags) + (("],\"sample_tag\":"@ + (enc_opt_string(t.sample_tag) + (",\"reminder\":"@ + (enc_reminder(t.reminder) + (",\"repeat\":"@ + (enc_repeat(t.repeat) + ("}"@))))))))))))))))))))))) + rest));
    let p6 = p5 + enc_opt_int(t.completed_at).len();
    lemma_concat_assoc(",\"created_at\":"@, enc_int(t.created_at as int) + (",\"updated_at\":"@ + (enc_int(t.updated_at as int) + ((",\"sort_order\":"@ + (enc_int(t.sort_order as int) + (",\"quadrant\":"@ + (enc_int(t.quadrant as int) + (",\"notes\":"@ + (enc_opt_string(t.notes) + (",\"steps\":["@ + (enc_step_items(t.steps) + ("],\"tags\":["@ + (enc_tag_items(t.tags) + (("],\"sample_tag\":"@ + (enc_opt_string(t.sample_tag) + (",\"reminder\":"@ + (enc_reminder(t.reminder) + (",\"repeat\":"@ + (enc_repeat(t.repeat) + ("}"@))))))))))))))))))))), rest);
    lemma_chain(s, p6, ",\"created_at\":"@, ((enc_int(t.created_at as int) + (",\"updated_at\":"@ + (enc_int(t.updated_at as int) + ((",\"sort_order\":"@ + (enc_int(t.sort_order as int) + (",\"quadrant\":"@ + (enc_int(t.quadrant as int) + (",\"notes\":"@ + (enc_opt_string(t.notes) + (",\"steps\":["@ + (enc_step_items(t.steps) + ("],\"tags\":["@ + (enc_tag_items(t.tags) + (("],\"sample_tag\":"@ + (enc_opt_string(t.sample_tag) + (",\"reminder\":"@ + (enc_reminder(t.reminder) + (",\"repeat\":"@ + (enc_repeat(t.repeat) + ("}"@)))))))))))))))))))))) + rest));
    lemma_sp_lit(s, p6, ",\"created_at\":"@, ((enc_int(t.created_at as int) + (",\"updated_at\":"@ + (enc_int(t.updated_at as int) + ((",\"sort_order\":"@ + (enc_int(t.sort_order as int) + (",\"quadrant\":"@ + (enc_int(t.quadrant as int) + (",\"notes\":"@ + (enc_opt_string(t.notes) + (",\"steps\":["@ + (enc_step_items(t.steps) + ("],\"tags\":["@ + (enc_tag_items(t.tags) + (("],\"sample_tag\":"@ + (enc_opt_string(t.sample_tag) + (",\"reminder\":"@ + (enc_reminder(t.reminder) + (",\"repeat\":"@ + (enc_repeat(t.repeat) + ("}"@)))))))))))))))))))))) + rest));
    let p7 = p6 + ",\"created_at\":"@.len();
    lemma_concat_assoc(enc_int(t.created_at as int), ",\"updated_at\":"@ + (enc_int(t.updated_at as int) + ((",\"sort_order\":"@ + (enc_int(t.sort_order as int) + (",\"quadrant\":"@ + (enc_int(t.quadrant as int) + (",\"notes\":"@ + (enc_opt_string(t.notes) + (",\"steps\":["@ + (enc_step_items(t.steps) + ("],\"tags\":["@ + (enc_tag_items(t.tags) + (("],\"sample_tag\":"@ + (enc_opt_string(t.sample_tag) + (",\"reminder\":"@ + (enc_reminder(t.reminder) + (",\"repeat\":"@ + (enc_repeat(t.repeat) + ("}"@)))))))))))))))))))), rest);
    lemma_chain(s, p7, enc_int(t.created_at as int), ((",\"updated_at\":"@ + (enc_int(t.updated_at as int) + ((",\"sort_order\":"@ + (enc_int(t.sort_order as int) + (",\"quadrant\":"@ + (enc_int(t.quadrant as int) + (",\"notes\":"@ + (enc_opt_string(t.notes) + (",\"steps\":["@ + (enc_step_items(t.steps) + ("],\"tags\":["@ + (enc_tag_items(t.tags) + (("],\"sample_tag\":"@ + (enc_opt_string(t.sample_tag) + (",\"reminder\":"@ + (enc_reminder(t.reminder) + (",\"repeat\":"@ + (enc_repeat(t.repeat) + ("}"@))))))))))))))))))))) + rest));
    assert((",\"updated_at\":"@ + (enc_int(t.updated_at as int) + ((",\"sort_order\":"@ + (enc_int(t.sort_order as int) + (",\"quadrant\":"@ + (enc_int(t.quadrant as int) + (",\"notes\":"@ + (enc_opt_string(t.notes) + (",\"steps\":["@ + (enc_step_items(t.steps) + ("],\"tags\":["@ + (enc_tag_items(t.tags) + (("],\"sample_tag\":"@ + (enc_opt_string(t.sample_tag) + (",\"reminder\":"@ + (enc_reminder(t.reminder) + (",\"repeat\":"@ + (enc_repeat(t.repeat) + ("}"@)))))))))))))))))))))[0] == ',');
    assert(((",\"updated_at\":"@ + (enc_int(t.updated_at as int) + ((",\"sort_order\":"@ + (enc_int(t.sort_order as int) + (",\"quadrant\":"@ + (enc_int(t.quadrant as int) + (",\"notes\":"@ + (enc_opt_string(t.notes) + (",\"steps\":["@ + (enc_step_items(t.steps) + ("],\"tags\":["@ + (enc_tag_items(t.tags) + (("],\"sample_tag\":"@ + (enc_opt_string(t.sample_tag) + (",\"reminder\":"@ + (enc_reminder(t.reminder) + (",\"repeat\":"@ + (enc_repeat(t.repeat) + ("}"@))))))))))))))))))))) + rest)[0] == (",\"updated_at\":"@ + (enc_int(t.updated_at as int) + ((",\"sort_order\":"@ + (enc_int(t.sort_order as int) + (",\"quadrant\":"@ + (enc_int(t.quadrant as int) + (",\"notes\":"@ + (enc_opt_string(t.notes) + (",\"steps\":["@ + (enc_step_items(t.steps) + ("],\"tags\":["@ + (enc_tag_items(t.tags) + (("],\"sample_tag\":"@ + (enc_opt_string(t.sample_tag) + (",\"reminder\":"@ + (enc_reminder(t.reminder) + (",\"repeat\":"@ + (enc_repeat(t.repeat) + ("}"@)))))))))))))))))))))[0]);
    assert(!spec_is_digit(((",\"updated_at\":"@ + (enc_int(t.updated_at as int) + ((",\"sort_order\":"@ + (enc_int(t.sort_order as int) + (",\"quadrant\":"@ + (enc_int(t.quadrant as int) + (",\"notes\":"@ + (enc_opt_string(t.notes) + (",\"steps\":["@ + (enc_step_items(t.steps) + ("],\"tags\":["@ + (enc_tag_items(t.tags) + (("],\"sample_tag\":"@ + (enc_opt_string(t.sample_tag) + (",\"reminder\":"@ + (enc_reminder(t.reminder) + (",\"repeat\":"@ + (enc_repeat(t.repeat) + ("}"@))))))))))))))))))))) + rest)[0]));
    lemma_sp_i64_enc(s, p7, t.created_at, ((",\"updated_at\":"@ + (enc_int(t.updated_at as int) + ((",\"sort_order\":"@ + (enc_int(t.sort_order as int) + (",\"quadrant\":"@ + (enc_int(t.quadrant as int) + (",\"notes\":"@ + (enc_opt_string(t.notes) + (",\"steps\":["@ + (enc_step_items(t.steps) + ("],\"tags\":["@ + (enc_tag_items(t.tags) + (("],\"sample_tag\":"@ + (enc_opt_string(t.sample_tag) + (",\"reminder\":"@ + (enc_reminder(t.reminder) + (",\"repeat\":"@ + (enc_repeat(t.repeat) + ("}"@))))))))))))))))))))) + rest));
    let p8 = p7 + enc_int(t.created_at as int).len();
    lemma_concat_assoc(",\"updated_at\":"@, enc_int(t.updated_at as int) + ((",\"sort_order\":"@ + (enc_int(t.sort_order as int) + (",\"quadrant\":"@ + (enc_int(t.quadrant as int) + (",\"notes\":"@ + (enc_opt_string(t.notes) + (",\"steps\":["@ + (enc_step_items(t.steps) + ("],\"tags\":["@ + (enc_tag_items(t.tags) + (("],\"sample_tag\":"@ + (enc_opt_string(t.sample_tag) + (",\"reminder\":"@ + (enc_reminder(t.reminder) + (",\"repeat\":"@ + (enc_repeat(t.repeat) + ("}"@))))))))))))))))))), rest);
    lemma_chain(s, p8, ",\"updated_at\":"@, ((enc_int(t.updated_at as int) + ((",\"sort_order\":"@ + (enc_int(t.sort_order as int) + (",\"quadrant\":"@ + (enc_int(t.quadrant as int) + (",\"notes\":"@ + (enc_opt_string(t.notes) + (",\"steps\":["@ + (enc_step_items(t.steps) + ("],\"tags\":["@ + (enc_tag_items(t.tags) + (("],\"sample_tag\":"@ + (enc_opt_string(t.sample_tag) + (",\"reminder\":"@ + (enc_reminder(t.reminder) + (",\"repeat\":"@ + (enc_repeat(t.repeat) + ("}"@)))))))))))))))))))) + rest));
    lemma_sp_lit(s, p8, ",\"updated_at\":"@, ((enc_int(t.updated_at as int) + ((",\"sort_order\":"@ + (enc_int(t.sort_order as int) + (",\"quadrant\":"@ + (enc_int(t.quadrant as int) + (",\"notes\":"@ + (enc_opt_string(t.notes) + (",\"steps\":["@ + (enc_step_items(t.steps) + ("],\"tags\":["@ + (enc_tag_items(t.tags) + (("],\"sample_tag\":"@ + (enc_opt_string(t.sample_tag) + (",\"reminder\":"@ + (enc_reminder(t.reminder) + (",\"repeat\":"@ + (enc_repeat(t.repeat) + ("}"@)))))))))))))))))))) + rest));
    let p9 = p8 + ",\"updated_at\":"@.len();
    lemma_concat_assoc(enc_int(t.updated_at as int), (",\"sort_order\":"@ + (enc_int(t.sort_order as int) + (",\"quadrant\":"@ + (enc_int(t.quadrant as int) + (",\"notes\":"@ + (enc_opt_string(t.notes) + (",\"steps\":["@ + (enc_step_items(t.steps) + ("],\"tags\":["@ + (enc_tag_items(t.tags) + (("],\"sample_tag\":"@ + (enc_opt_string(t.sample_tag) + (",\"reminder\":"@ + (enc_reminder(t.reminder) + (",\"repeat\":"@ + (enc_repeat(t.repeat) + ("}"@)))))))))))))))))), rest);
    lemma_chain(s, p9, enc_int(t.updated_at as int), (((",\"sort_order\":"@ + (enc_int(t.sort_order as int) + (",\"quadrant\":"@ + (enc_int(t.quadrant as int) + (",\"notes\":"@ + (enc_opt_string(t.notes) + (",\"steps\":["@ + (enc_step_items(t.steps) + ("],\"tags\":["@ + (enc_tag_items(t.tags) + (("],\"sample_tag\":"@ + (enc_opt_string(t.sample_tag) + (",\"reminder\":"@ + (enc_reminder(t.reminder) + (",\"repeat\":"@ + (enc_repeat(t.repeat) + ("}"@))))))))))))))))))) + rest));
    assert(((",\"sort_order\":"@ + (enc_int(t.sort_order as int) + (",\"quadrant\":"@ + (enc_int(t.quadrant as int) + (",\"notes\":"@ + (enc_opt_string(t.notes) + (",\"steps\":["@ + (enc_step_items(t.steps) + ("],\"tags\":["@ + (enc_tag_items(t.tags) + (("],\"sample_tag\":"@ + (enc_opt_string(t.sample_tag) + (",\"reminder\":"@ + (enc_reminder(t.reminder) + (",\"repeat\":"@ + (enc_repeat(t.repeat) + ("}"@)))))))))))))))))))[0] == ',');
    assert((((",\"sort_order\":"@ + (enc_int(t.sort_order as int) + (",\"quadrant\":"@ + (enc_int(t.quadrant as int) + (",\"notes\":"@ + (enc_opt_string(t.notes) + (",\"steps\":["@ + (enc_step_items(t.steps) + ("],\"tags\":["@ + (enc_tag_items(t.tags) + (("],\"sample_tag\":"@ + (enc_opt_string(t.sample_tag) + (",\"reminder\":"@ + (enc_reminder(t.reminder) + (",\"repeat\":"@ + (enc_repeat(t.repeat) + ("}"@))))))))))))))))))) + rest)[0] == ((",\"sort_order\":"@ + (enc_int(t.sort_order as int) + (",\"quadrant\":"@ + (enc_int(t.quadrant as int) + (",\"notes\":"@ + (enc_opt_string(t.notes) + (",\"steps\":["@ + (enc_step_items(t.steps) + ("],\"tags\":["@ + (enc_tag_items(t.tags) + (("],\"sample_tag\":"@ + (enc_opt_string(t.sample_tag) + (",\"reminder\":"@ + (enc_reminder(t.reminder) + (",\"repeat\":"@ + (enc_repeat(t.repeat) + ("}"@)))))))))))))))))))[0]);
    assert(!spec_is_digit((((",\"sort_order\":"@ + (enc_int(t.sort_order as int) + (",\"quadrant\":"@ + (enc_int(t.quadrant as int) + (",\"notes\":"@ + (enc_opt_string(t.notes) + (",\"steps\":["@ + (enc_step_items(t.steps) + ("],\"tags\":["@ + (enc_tag_items(t.tags) + (("],\"sample_tag\":"@ + (enc_opt_string(t.sample_tag) + (",\"reminder\":"@ + (enc_reminder(t.reminder) + (",\"repeat\":"@ + (enc_repeat(t.repeat) + ("}"@))))))))))))))))))) + rest)[0]));
    lemma_sp_i64_enc(s, p9, t.updated_at, (((",\"sort_order\":"@ + (enc_int(t.sort_order as int) + (",\"quadrant\":"@ + (enc_int(t.quadrant as int) + (",\"notes\":"@ + (enc_opt_string(t.notes) + (",\"steps\":["@ + (enc_step_items(t.steps) + ("],\"tags\":["@ + (enc_tag_items(t.tags) + (("],\"sample_tag\":"@ + (enc_opt_string(t.sample_tag) + (",\"reminder\":"@ + (enc_reminder(t.reminder) + (",\"repeat\":"@ + (enc_repeat(t.repeat) + ("}"@))))))))))))))))))) + rest));
    let p10 = p9 + enc_int(t.updated_at as int).len();
    lemma_sp_task_tail2_enc(s, p10, t, rest);
}

#[verifier::rlimit(100)]
#[verifier::spinoff_prover]
pub proof fn lemma_sp_task_enc(s: Seq<char>, i: int, t: TaskView, rest: Seq<char>)
    requires
        0 <= i <= s.len(),
        s.skip(i) == enc_task(t) + rest,
    ensures
        sp_task(s, i) == Some((t, i + enc_task(t).len())),
{
    reveal(enc_task);
    let tail = (",\"important\":"@ + (enc_bool(t.important) + (",\"completed\":"@ + (enc_bool(t.completed) + (",\"completed_at\":"@ + (enc_opt_int(t.completed_at) + (",\"created_at\":"@ + (enc_int(t.created_at as int) + (",\"updated_at\":"@ + (enc_int(t.updated_at as int) + ((",\"sort_order\":"@ + (enc_int(t.sort_order as int) + (",\"quadrant\":"@ + (enc_int(t.quadrant as int) + (",\"notes\":"@ + (enc_opt_string(t.notes) + (",\"steps\":["@ + (enc_step_items(t.steps) + ("],\"tags\":["@ + (enc_tag_items(t.tags) + (("],\"sample_tag\":"@ + (enc_opt_string(t.sample_tag) + (",\"reminder\":"@ + (enc_reminder(t.reminder) + (",\"repeat\":"@ + (enc_repeat(t.repeat) + ("}"@)))))))))))))))))))))))))))));
    reveal_strlit(",\"due_at\":");
    reveal_strlit(",\"important\":");
    reveal_strlit(",\"project_id\":");
    reveal_strlit(",\"title\":");
    reveal_strlit("{\"id\":");
    let p0 = i;
    lemma_concat_assoc("{\"id\":"@, enc_string(t.id) + (",\"project_id\":"@ + (enc_string(t.project_id) + (",\"title\":"@ + (enc_string(t.title) + (",\"due_at\":"@ + (enc_int(t.due_at as int) + (tail))))))), rest);
    lemma_chain(s, p0, "{\"id\":"@, ((enc_string(t.id) + (",\"project_id\":"@ + (enc_string(t.project_id) + (",\"title\":"@ + (enc_string(t.title) + (",\"due_at\":"@ + (enc_int(t.due_at as int) + (tail)))))))) + rest));
    lemma_sp_lit(s, p0, "{\"id\":"@, ((enc_string(t.id) + (",\"project_id\":"@ + (enc_string(t.project_id) + (",\"title\":"@ + (enc_string(t.title) + (",\"due_at\":"@ + (enc_int(t.due_at as int) + (tail)))))))) + rest));
    let p1 = p0 + "{\"id\":"@.len();
    lemma_concat_assoc(enc_string(t.id), ",\"project_id\":"@ + (enc_string(t.project_id) + (",\"title\":"@ + (enc_string(t.title) + (",\"due_at\":"@ + (enc_int(t.due_at as int) + (tail)))))), rest);
    lemma_chain(s, p1, enc_string(t.id), ((",\"project_id\":"@ + (enc_string(t.project_id) + (",\"title\":"@ + (enc_string(t.title) + (",\"due_at\":"@ + (enc_int(t.due_at as int) + (tail))))))) + rest));
    lemma_sp_string_enc(s, p1, t.id, ((",\"project_id\":"@ + (enc_string(t.project_id) + (",\"title\":"@ + (enc_string(t.title) + (",\"due_at\":"@ + (enc_int(t.due_at as int) + (tail))))))) + rest));
    let p2 = p1 + enc_string(t.id).len();
    lemma_concat_assoc(",\"project_id\":"@, enc_string(t.project_id) + (",\"title\":"@ + (enc_string(t.title) + (",\"due_at\":"@ + (enc_int(t.due_at as int) + (tail))))), rest);
    lemma_chain(s, p2, ",\"project_id\":"@, ((enc_string(t.project_id) + (",\"title\":"@ + (enc_string(t.title) + (",\"due_at\":"@ + (enc_int(t.due_at as int) + (tail)))))) + rest));
    lemma_sp_lit(s, p2, ",\"project_id\":"@, ((enc_string(t.project_id) + (",\"title\":"@ + (enc_string(t.title) + (",\"due_at\":"@ + (enc_int(t.due_at as int) + (tail)))))) + rest));
    let p3 = p2 + ",\"project_id\":"@.len();
    lemma_concat_assoc(enc_string(t.project_id), ",\"title\":"@ + (enc_string(t.title) + (",\"due_at\":"@ + (enc_int(t.due_at as int) + (tail)))), rest);
    lemma_chain(s, p3, enc_string(t.project_id), ((",\"title\":"@ + (enc_string(t.title) + (",\"due_at\":"@ + (enc_int(t.due_at as int) + (tail))))) + rest));
    lemma_sp_string_enc(s, p3, t.project_id, ((",\"title\":"@ + (enc_string(t.title) + (",\"due_at\":"@ + (enc_int(t.due_at as int) + (tail))))) + rest));
    let p4 = p3 + enc_string(t.project_id).len();
    lemma_concat_assoc(",\"title\":"@, enc_string(t.title) + (",\"due_at\":"@ + (enc_int(t.due_at as int) + (tail))), rest);
    lemma_chain(s, p4, ",\"title\":"@, ((enc_string(t.title) + (",\"due_at\":"@ + (enc_int(t.due_at as int) + (tail)))) + rest));
    lemma_sp_lit(s, p4, ",\"title\":"@, ((enc_string(t.title) + (",\"due_at\":"@ + (enc_int(t.due_at as int) + (tail)))) + rest));
    let p5 = p4 + ",\"title\":"@.len();
    lemma_concat_assoc(enc_string(t.title), ",\"due_at\":"@ + (enc_int(t.due_at as int) + (tail)), rest);
    lemma_chain(s, p5, enc_string(t.title), ((",\"due_at\":"@ + (enc_int(t.due_at as int) + (tail))) + rest));
    lemma_sp_string_enc(s, p5, t.title, ((",\"due_at\":"@ + (enc_int(t.due_at as int) + (tail))) + rest));
    let p6 = p5 + enc_string(t.title).len();
    lemma_concat_assoc(",\"due_at\":"@, enc_int(t.due_at as int) + (tail), rest);
    lemma_chain(s, p6, ",\"due_at\":"@, ((enc_int(t.due_at as int) + (tail)) + rest));
    lemma_sp_lit(s, p6, ",\"due_at\":"@, ((enc_int(t.due_at as int) + (tail)) + rest));
    let p7 = p6 + ",\"due_at\":"@.len();
    lemma_concat_assoc(enc_int(t.due_at as int), tail, rest);
    lemma_chain(s, p7, enc_int(t.due_at as int), ((tail) + rest));
    assert((tail)[0] == ',');
    assert(((tail) + rest)[0] == (tail)[0]);
    assert(!spec_is_digit(((tail) + rest)[0]));
    lemma_sp_i64_enc(s, p7, t.due_at, ((tail) + rest));
    let p8 = p7 + enc_int(t.due_at as int).len();
    lemma_sp_task_tail1_enc(s, p8, t, rest);
}

#[verifier::rlimit(100)]
#[verifier::spinoff_prover]
pub proof fn lemma_sp_task_items_enc(s: Seq<char>, i: int, items: Seq<TaskView>, acc: Seq<TaskView>, rest: Seq<char>)
    requires
        0 <= i <= s.len(),
        items.len() >= 1,
        s.skip(i) == enc_task_items(items) + rest,
        rest.len() >= 1,
        rest[0] == ']',
    ensures
        sp_task_items(s, i, acc) == Some((acc + items, i + enc_task_items(items).len())),
    decreases items.len(),
{
    broadcast use vstd::seq_lib::lemma_seq_skip_index;
    broadcast use vstd::seq_lib::lemma_seq_skip_len;

    lemma_enc_task_first(items[0]);
    if items.len() == 1 {
        assert(enc_task_items(items) == enc_task(items[0]));
        lemma_chain(s, i, enc_task(items[0]), rest);
        lemma_sp_task_enc(s, i, items[0], rest);
        let j = i + enc_task(items[0]).len();
        assert(s[j] == rest[0]);
        assert(s[j] == ']');
        assert(acc + items =~= acc.push(items[0]));
    } else {
        let e0 = enc_task(items[0]);
        let t1 = (seq![','] + enc_task_items(items.skip(1))) + rest;
        assert(s.skip(i) =~= e0 + t1);
        lemma_chain(s, i, e0, t1);
        lemma_sp_task_enc(s, i, items[0], t1);
        let j = i + e0.len();
        assert(s[j] == t1[0]);
        assert(s[j] == ',');
        let t2 = enc_task_items(items.skip(1)) + rest;
        assert(t1 =~= seq![','] + t2);
        lemma_chain(s, j, seq![','], t2);
        lemma_sp_task_items_enc(s, j + 1, items.skip(1), acc.push(items[0]), rest);
        assert(acc.push(items[0]) + items.skip(1) =~= acc + items);
    }
}

#[verifier::rlimit(100)]
#[verifier::spinoff_prover]
pub proof fn lemma_sp_tasks_file_enc(s: Seq<char>, i: int, schema_version: u32, tasks: Seq<TaskView>, projects: Seq<ProjectView>, rest: Seq<char>)
    requires
        0 <= i <= s.len(),
        s.skip(i) == enc_tasks_file(schema_version, tasks, projects) + rest,
    ensures
        sp_tasks_file(s, i) == Some(((schema_version, tasks, projects), i + enc_tasks_file(schema_version, tasks, projects).len())),
{
    reveal_strlit(",\"tasks\":[");
    reveal_strlit("],\"projects\":[");
    reveal_strlit("]}");
    reveal_strlit("{\"id\":");
    reveal_strlit("{\"schema_version\":");
    let p0 = i;
    lemma_concat_assoc("{\"schema_version\":"@, enc_int(schema_version as int) + (",\"tasks\":["@ + (enc_task_items(tasks) + ("],\"projects\":["@ + (enc_project_items(projects) + ("]}"@))))), rest);
    lemma_chain(s, p0, "{\"schema_version\":"@, ((enc_int(schema_version as int) + (",\"tasks\":["@ + (enc_task_items(tasks) + ("],\"projects\":["@ + (enc_project_items(projects) + ("]}"@)))))) + rest));
    lemma_sp_lit(s, p0, "{\"schema_version\":"@, ((enc_int(schema_version as int) + (",\"tasks\":["@ + (enc_task_items(tasks) + ("],\"projects\":["@ + (enc_project_items(projects) + ("]}"@)))))) + rest));
    let p1 = p0 + "{\"schema_version\":"@.len();
    lemma_concat_assoc(enc_int(schema_version as int), ",\"tasks\":["@ + (enc_task_items(tasks) + ("],\"projects\":["@ + (enc_project_items(projects) + ("]}"@)))), rest);
    lemma_chain(s, p1, enc_int(schema_version as int), ((",\"tasks\":["@ + (enc_task_items(tasks) + ("],\"projects\":["@ + (enc_project_items(projects) + ("]}"@))))) + rest));
    assert((",\"tasks\":["@ + (enc_task_items(tasks) + ("],\"projects\":["@ + (enc_project_items(projects) + ("]}"@)))))[0] == ',');
    assert(((",\"tasks\":["@ + (enc_task_items(tasks) + ("],\"projects\":["@ + (enc_project_items(projects) + ("]}"@))))) + rest)[0] == (",\"tasks\":["@ + (enc_task_items(tasks) + ("],\"projects\":["@ + (enc_project_items(projects) + ("]}"@)))))[0]);
    assert(!spec_is_digit(((",\"tasks\":["@ + (enc_task_items(tasks) + ("],\"projects\":["@ + (enc_project_items(projects) + ("]}"@))))) + rest)[0]));
    lemma_i64_in_pow37(schema_version as int);
    lemma_sp_int_enc(s, p1, schema_version as int, ((",\"tasks\":["@ + (enc_task_items(tasks) + ("],\"projects\":["@ + (enc_project_items(projects) + ("]}"@))))) + rest));
    let p2 = p1 + enc_int(schema_version as int).len();
    lemma_concat_assoc(",\"tasks\":["@, enc_task_items(tasks) + ("],\"projects\":["@ + (enc_project_items(projects) + ("]}"@))), rest);
    lemma_chain(s, p2, ",\"tasks\":["@, ((enc_task_items(tasks) + ("],\"projects\":["@ + (enc_project_items(projects) + ("]}"@)))) + rest));
    lemma_sp_lit(s, p2, ",\"tasks\":["@, ((enc_task_items(tasks) + ("],\"projects\":["@ + (enc_project_items(projects) + ("]}"@)))) + rest));
    let p3 = p2 + ",\"tasks\":["@.len();
    lemma_concat_assoc(enc_task_items(tasks), "],\"projects\":["@ + (enc_project_items(projects) + ("]}"@)), rest);
    lemma_chain(s, p3, enc_task_items(tasks), (("],\"projects\":["@ + (enc_project_items(projects) + ("]}"@))) + rest));
    assert(("],\"projects\":["@ + (enc_project_items(projects) + ("]}"@)))[0] == ']');
    assert((("],\"projects\":["@ + (enc_project_items(projects) + ("]}"@))) + rest)[0] == ("],\"projects\":["@ + (enc_project_items(projects) + ("]}"@)))[0]);
    if tasks.len() == 0 {
        assert(enc_task_items(tasks) =~= Seq::<char>::empty());
        assert(s[p3] == (("],\"projects\":["@ + (enc_project_items(projects) + ("]}"@))) + rest)[0]);
        assert(s[p3] == ']');
    } else {
        assert(s[p3] == (enc_task_items(tasks) + (("],\"projects\":["@ + (enc_project_items(projects) + ("]}"@))) + rest))[0]);
        lemma_enc_task_first(tasks[0]);
        assert((enc_task_items(tasks))[0] == enc_task(tasks[0])[0]);
        assert(s[p3] != ']');
        lemma_sp_task_items_enc(s, p3, tasks, Seq::<TaskView>::empty(), (("],\"projects\":["@ + (enc_project_items(projects) + ("]}"@))) + rest));
        assert(Seq::<TaskView>::empty() + tasks =~= tasks);
    }
    let p4 = p3 + enc_task_items(tasks).len();
    lemma_concat_assoc("],\"projects\":["@, enc_project_items(projects) + ("]}"@), rest);
    lemma_chain(s, p4, "],\"projects\":["@, ((enc_project_items(projects) + ("]}"@)) + rest));
    lemma_sp_lit(s, p4, "],\"projects\":["@, ((enc_project_items(projects) + ("]}"@)) + rest));
    let p5 = p4 + "],\"projects\":["@.len();
    lemma_concat_assoc(enc_project_items(projects), "]}"@, rest);
    lemma_chain(s, p5, enc_project_items(projects), (("]}"@) + rest));
    assert(("]}"@)[0] == ']');
    assert((("]}"@) + rest)[0] == ("]}"@)[0]);
    if projects.len() == 0 {
        assert(enc_project_items(projects) =~= Seq::<char>::empty());
        assert(s[p5] == (("]}"@) + rest)[0]);
        assert(s[p5] == ']');
    } else {
        assert(s[p5] == (enc_project_items(projects) + (("]}"@) + rest))[0]);
        assert((enc_project_items(projects))[0] == enc_project(projects[0])[0]);
        assert(enc_project(projects[0])[0] == '{');
        assert(s[p5] != ']');
        lemma_sp_project_items_enc(s, p5, projects, Seq::<ProjectView>::empty(), (("]}"@) + rest));
        assert(Seq::<ProjectView>::empty() + projects =~= projects);
    }
    let p6 = p5 + enc_project_items(projects).len();
    lemma_chain(s, p6, "]}"@, rest);
    lemma_sp_lit(s, p6, "]}"@, rest);
    let p7 = p6 + "]}"@.len();
}

/// Parsing an encoded task document yields exactly the document back:
/// a saved document loads as byte-for-byte equivalent structured data.
pub proof fn lemma_parse_tasks_file_roundtrip(
    schema_version: u32,
    tasks: Seq<TaskView>,
    projects: Seq<ProjectView>,
)
    ensures
        ({
            let s = enc_tasks_file(schema_version, tasks, projects);
            sp_tasks_file(s, 0) == Some(((schema_version, tasks, projects), s.len() as int))
        }),
{
    let s = enc_tasks_file(schema_version, tasks, projects);
    assert(s.skip(0) =~= s + Seq::<char>::empty());
    lemma_sp_tasks_file_enc(s, 0, schema_version, tasks, projects, Seq::<char>::empty());
}

} // verus!
