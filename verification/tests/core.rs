use mustdo_core::models::{
    ok, err, BackupSchedule, CloseBehavior, MinimizeBehavior, Project, ReminderConfig,
    ReminderKind, RepeatRule, Settings, Task, TasksFile, UiBorder, UiRadius, UiShadow,
    UpdateBehavior,
};
use mustdo_core::repeat::{build_next_repeat_task, next_due_timestamp, next_due_timestamp_utc};
use mustdo_core::scheduler::collect_due_tasks;
use mustdo_core::state::AppState;

fn make_task(id: &str, created_at: i64, sort_order: i64, due_at: i64) -> Task {
    Task {
        id: id.to_string(),
        project_id: "inbox".to_string(),
        title: format!("task-{id}"),
        due_at,
        important: false,
        completed: false,
        completed_at: None,
        created_at,
        updated_at: created_at,
        sort_order,
        quadrant: 1,
        notes: None,
        steps: Vec::new(),
        tags: Vec::new(),
        sample_tag: None,
        reminder: ReminderConfig {
            kind: ReminderKind::Normal,
            ..ReminderConfig::default()
        },
        repeat: RepeatRule::NoRepeat,
    }
}

fn task_with_reminder(
    id: &str,
    due_at: i64,
    important: bool,
    completed: bool,
    reminder: ReminderConfig,
) -> Task {
    Task {
        id: id.to_string(),
        project_id: "inbox".to_string(),
        title: format!("task-{id}"),
        due_at,
        important,
        completed,
        completed_at: None,
        created_at: 1,
        updated_at: 1,
        sort_order: 1,
        quadrant: 1,
        notes: None,
        steps: Vec::new(),
        tags: Vec::new(),
        sample_tag: None,
        reminder,
        repeat: RepeatRule::NoRepeat,
    }
}

// ---------- command envelope ----------

#[test]
fn ok_and_err_helpers_construct_expected_shape() {
    let success = ok(41);
    assert!(success.ok);
    assert_eq!(success.data, Some(41));
    assert!(success.error.is_none());

    let failure: mustdo_core::models::CommandResult<i32> = err("boom");
    assert!(!failure.ok);
    assert!(failure.data.is_none());
    assert_eq!(failure.error.as_deref(), Some("boom"));
}

// ---------- model defaults ----------

#[test]
fn reminder_config_default_values() {
    let config = ReminderConfig::default();
    assert_eq!(config.kind, ReminderKind::NoReminder);
    assert_eq!(config.remind_at, None);
    assert_eq!(config.snoozed_until, None);
    assert!(!config.forced_dismissed);
    assert_eq!(config.last_fired_at, None);
    assert_eq!(config.repeat_fired_count, 0);
}

#[test]
fn task_non_default_reminder_and_repeat_are_not_none() {
    let task = Task {
        id: "t3".to_string(),
        project_id: "inbox".to_string(),
        title: "non-default".to_string(),
        due_at: 123,
        important: false,
        completed: false,
        completed_at: None,
        created_at: 10,
        updated_at: 10,
        sort_order: 0,
        quadrant: 1,
        notes: None,
        steps: Vec::new(),
        tags: Vec::new(),
        sample_tag: None,
        reminder: ReminderConfig {
            kind: ReminderKind::Normal,
            remind_at: Some(111),
            snoozed_until: None,
            forced_dismissed: false,
            last_fired_at: None,
            repeat_fired_count: 0,
        },
        repeat: RepeatRule::Daily {
            workday_only: false,
        },
    };

    assert_ne!(task.reminder.kind, ReminderKind::NoReminder);
    assert_ne!(task.repeat, RepeatRule::NoRepeat);
}

#[test]
fn settings_default_values() {
    let settings = Settings::default();
    assert_eq!(settings.shortcut, "CommandOrControl+Shift+T");
    assert_eq!(settings.theme, "retro");
    assert!(matches!(settings.ui_radius, UiRadius::Theme));
    assert!(matches!(settings.ui_border, UiBorder::Theme));
    assert!(matches!(settings.ui_shadow, UiShadow::Theme));
    assert_eq!(settings.language, "auto");
    assert!(!settings.ai_enabled);
    assert!(settings.deepseek_api_key.is_empty());
    assert_eq!(settings.ai_model, "deepseek-chat");
    assert!(matches!(settings.update_behavior, UpdateBehavior::NextRestart));
    assert!(settings.sound_enabled);
    assert!(matches!(settings.close_behavior, CloseBehavior::HideToTray));
    assert!(matches!(
        settings.minimize_behavior,
        MinimizeBehavior::HideToTray
    ));
    assert!(!settings.quick_always_on_top);
    assert!(settings.quick_blur_enabled);
    assert_eq!(settings.quick_tab, "todo");
    assert_eq!(settings.quick_sort, "default");
    assert_eq!(settings.forced_reminder_color, "#C94D37");
    assert!(matches!(settings.backup_schedule, BackupSchedule::Daily));
    assert_eq!(settings.last_backup_at, None);
    assert!(settings.today_focus_ids.is_empty());
    assert_eq!(settings.today_focus_date, None);
    assert_eq!(settings.today_prompted_date, None);
    assert_eq!(settings.reminder_repeat_interval_sec, 10 * 60);
    assert_eq!(settings.reminder_repeat_max_times, 0);
}

// ---------- recurrence calculator ----------

// 2024-01-01 10:00:00 UTC
const JAN1_1000: i64 = 1704103200;
// 2024-01-02 10:00:00 UTC
const JAN2_1000: i64 = 1704189600;
// 2024-01-03 10:00:00 UTC
const JAN3_1000: i64 = 1704276000;
// 2024-01-05 10:00:00 UTC (a Friday)
const JAN5_1000: i64 = 1704448800;
// 2024-01-08 10:00:00 UTC (the following Monday)
const JAN8_1000: i64 = 1704708000;
// 2024-01-31 09:00:00 UTC
const JAN31_0900: i64 = 1706691600;
// 2024-02-29 09:00:00 UTC
const FEB29_0900: i64 = 1709197200;
// 2024-12-15 09:00:00 UTC
const DEC15_0900: i64 = 1734253200;
// 2025-01-01 09:00:00 UTC
const JAN1_2025_0900: i64 = 1735722000;
// 2025-12-01 09:00:00 UTC
const DEC1_2025_0900: i64 = 1764579600;

#[test]
fn none_repeat_keeps_same_timestamp_in_utc() {
    let out = next_due_timestamp_utc(JAN1_1000, &RepeatRule::NoRepeat);
    assert_eq!(out, JAN1_1000);
}

#[test]
fn daily_repeat_advances_one_day() {
    let out = next_due_timestamp_utc(
        JAN1_1000,
        &RepeatRule::Daily {
            workday_only: false,
        },
    );
    assert_eq!(out, JAN2_1000);
}

#[test]
fn daily_workday_only_skips_weekend() {
    // 2024-01-05 is a Friday; the next workday is Monday 2024-01-08.
    let out = next_due_timestamp_utc(
        JAN5_1000,
        &RepeatRule::Daily { workday_only: true },
    );
    assert_eq!(out, JAN8_1000);
}

#[test]
fn weekly_repeat_handles_empty_and_specific_days() {
    let out_empty = next_due_timestamp_utc(JAN1_1000, &RepeatRule::Weekly { days: vec![] });
    assert_eq!(out_empty, JAN8_1000);

    // 2024-01-01 is a Monday; the next Wednesday (weekday 3) is 2024-01-03.
    let out_days = next_due_timestamp_utc(JAN1_1000, &RepeatRule::Weekly { days: vec![3] });
    assert_eq!(out_days, JAN3_1000);
}

#[test]
fn monthly_and_yearly_clamp_day_and_month() {
    // Monthly from Jan 31: next month is February, clamped to the leap day.
    let out = next_due_timestamp_utc(JAN31_0900, &RepeatRule::Monthly { day: 31 });
    assert_eq!(out, FEB29_0900);

    // Yearly with out-of-range month/day clamps to month 12, day 1.
    let out_year = next_due_timestamp_utc(JAN31_0900, &RepeatRule::Yearly { month: 13, day: 0 });
    assert_eq!(out_year, DEC1_2025_0900);
}

#[test]
fn monthly_repeat_rolls_over_year_from_december() {
    let out = next_due_timestamp_utc(DEC15_0900, &RepeatRule::Monthly { day: 1 });
    assert_eq!(out, JAN1_2025_0900);
}

#[test]
fn out_of_range_timestamp_falls_back_to_now() {
    let out = next_due_timestamp(i64::MAX, &RepeatRule::NoRepeat);
    let now = chrono::Utc::now().timestamp();
    assert!((now - out).abs() <= 10);
}

#[test]
fn build_next_repeat_task_resets_lifecycle_and_carries_reminder_offset() {
    let mut parent = make_task("a", 50, 1, 1000);
    parent.completed = true;
    parent.completed_at = Some(900);
    parent.reminder.snoozed_until = Some(700);
    parent.reminder.last_fired_at = Some(800);
    parent.reminder.repeat_fired_count = 3;
    parent.reminder.remind_at = Some(400);

    let next = build_next_repeat_task(&parent, 2000, 1500, 1500000);
    assert_eq!(next.id, "a-1500");
    assert!(!next.completed);
    assert_eq!(next.completed_at, None);
    assert_eq!(next.created_at, 1500);
    assert_eq!(next.updated_at, 1500);
    assert_eq!(next.sort_order, 1500000);
    assert_eq!(next.due_at, 2000);
    assert_eq!(next.reminder.last_fired_at, None);
    assert_eq!(next.reminder.snoozed_until, None);
    assert_eq!(next.reminder.repeat_fired_count, 0);
    // Offset was due_at - remind_at = 600; it carries over to the new cycle.
    assert_eq!(next.reminder.remind_at, Some(2000 - 600));
}

// ---------- reminder scheduler ----------

#[test]
fn collect_due_tasks_filters_and_sorts_correctly() {
    let now = 1000;

    let not_due_normal = task_with_reminder(
        "a",
        2000,
        false,
        false,
        ReminderConfig {
            kind: ReminderKind::Normal,
            ..ReminderConfig::default()
        },
    );
    let due_normal_important = task_with_reminder(
        "b",
        1500,
        true,
        false,
        ReminderConfig {
            kind: ReminderKind::Normal,
            ..ReminderConfig::default()
        },
    );
    let not_due_forced = task_with_reminder(
        "c",
        1100,
        false,
        false,
        ReminderConfig {
            kind: ReminderKind::Forced,
            ..ReminderConfig::default()
        },
    );
    let due_forced_by_snooze = task_with_reminder(
        "d",
        1100,
        false,
        false,
        ReminderConfig {
            kind: ReminderKind::Forced,
            snoozed_until: Some(900),
            ..ReminderConfig::default()
        },
    );
    let completed_task = task_with_reminder(
        "e",
        900,
        false,
        true,
        ReminderConfig {
            kind: ReminderKind::Normal,
            ..ReminderConfig::default()
        },
    );
    let none_reminder = task_with_reminder("f", 900, false, false, ReminderConfig::default());
    let forced_dismissed = task_with_reminder(
        "g",
        900,
        false,
        false,
        ReminderConfig {
            kind: ReminderKind::Forced,
            forced_dismissed: true,
            ..ReminderConfig::default()
        },
    );
    let already_fired = task_with_reminder(
        "h",
        1500,
        false,
        false,
        ReminderConfig {
            kind: ReminderKind::Normal,
            last_fired_at: Some(950),
            ..ReminderConfig::default()
        },
    );

    let settings = Settings::default();
    let tasks = vec![
        not_due_normal,
        due_normal_important,
        not_due_forced,
        due_forced_by_snooze,
        completed_task,
        none_reminder,
        forced_dismissed,
        already_fired,
    ];

    let due = collect_due_tasks(tasks, &settings, now);
    assert_eq!(due.len(), 2);
    assert_eq!(due[0].id, "b");
    assert_eq!(due[1].id, "d");
}

#[test]
fn collect_due_tasks_repeats_normal_reminders_when_interval_enabled() {
    let now = 1000;
    let repeating = task_with_reminder(
        "repeat",
        2000,
        false,
        false,
        ReminderConfig {
            kind: ReminderKind::Normal,
            last_fired_at: Some(700),
            repeat_fired_count: 1,
            ..ReminderConfig::default()
        },
    );
    let mut settings = Settings::default();
    settings.reminder_repeat_interval_sec = 300;
    settings.reminder_repeat_max_times = 0;

    let out = collect_due_tasks(vec![repeating], &settings, now);
    assert_eq!(out.len(), 1);
    assert_eq!(out[0].id, "repeat");
}

#[test]
fn collect_due_tasks_repeat_mode_respects_snooze_override_and_max_times() {
    let now = 1000;
    let snoozed = task_with_reminder(
        "snoozed",
        2000,
        false,
        false,
        ReminderConfig {
            kind: ReminderKind::Normal,
            last_fired_at: Some(700),
            snoozed_until: Some(1200),
            repeat_fired_count: 1,
            ..ReminderConfig::default()
        },
    );
    let maxed_out = task_with_reminder(
        "maxed",
        2000,
        false,
        false,
        ReminderConfig {
            kind: ReminderKind::Normal,
            last_fired_at: Some(700),
            repeat_fired_count: 2,
            ..ReminderConfig::default()
        },
    );
    let mut settings = Settings::default();
    settings.reminder_repeat_interval_sec = 300;
    settings.reminder_repeat_max_times = 2;

    let out = collect_due_tasks(vec![snoozed, maxed_out], &settings, now);
    assert!(out.is_empty());
}

#[test]
fn collect_due_tasks_repeat_mode_uses_last_fired_when_snooze_is_not_later() {
    let now = 1000;
    let repeating = task_with_reminder(
        "repeat-snooze-too-early",
        2000,
        false,
        false,
        ReminderConfig {
            kind: ReminderKind::Normal,
            last_fired_at: Some(700),
            snoozed_until: Some(600),
            repeat_fired_count: 1,
            ..ReminderConfig::default()
        },
    );
    let mut settings = Settings::default();
    settings.reminder_repeat_interval_sec = 300;
    settings.reminder_repeat_max_times = 0;

    let out = collect_due_tasks(vec![repeating], &settings, now);
    assert_eq!(out.len(), 1);
    assert_eq!(out[0].id, "repeat-snooze-too-early");
}

#[test]
fn collect_due_tasks_repeat_mode_falls_back_to_target_time_when_never_fired() {
    let now = 0;
    let repeating = task_with_reminder(
        "repeat-snooze-min",
        2000,
        false,
        false,
        ReminderConfig {
            kind: ReminderKind::Normal,
            last_fired_at: None,
            snoozed_until: Some(i64::MIN),
            repeat_fired_count: 0,
            ..ReminderConfig::default()
        },
    );
    let mut settings = Settings::default();
    settings.reminder_repeat_interval_sec = 300;
    settings.reminder_repeat_max_times = 0;

    let out = collect_due_tasks(vec![repeating], &settings, now);
    assert_eq!(out.len(), 1);
    assert_eq!(out[0].id, "repeat-snooze-min");
}

#[test]
fn collect_due_tasks_does_not_repeat_forced_reminders() {
    let now = 2000;
    let forced = task_with_reminder(
        "forced",
        1100,
        false,
        false,
        ReminderConfig {
            kind: ReminderKind::Forced,
            last_fired_at: Some(1200),
            repeat_fired_count: 99,
            ..ReminderConfig::default()
        },
    );
    let mut settings = Settings::default();
    settings.reminder_repeat_interval_sec = 300;
    settings.reminder_repeat_max_times = 0;

    let out = collect_due_tasks(vec![forced], &settings, now);
    assert!(out.is_empty());
}

#[test]
fn normal_reminder_fires_ten_minutes_before_due_time() {
    // due at T, now = T - 600: the default target is exactly due - 600.
    let t = 10_000;
    let task = task_with_reminder(
        "early",
        t,
        false,
        false,
        ReminderConfig {
            kind: ReminderKind::Normal,
            ..ReminderConfig::default()
        },
    );
    let mut settings = Settings::default();
    settings.reminder_repeat_interval_sec = 0;
    let out = collect_due_tasks(vec![task], &settings, t - 600);
    assert_eq!(out.len(), 1);
}

#[test]
fn dismissed_forced_reminder_stays_silent_in_the_past() {
    let task = task_with_reminder(
        "quiet",
        100,
        false,
        false,
        ReminderConfig {
            kind: ReminderKind::Forced,
            forced_dismissed: true,
            ..ReminderConfig::default()
        },
    );
    let out = collect_due_tasks(vec![task], &Settings::default(), 1_000_000);
    assert!(out.is_empty());
}

// ---------- task store ----------

#[test]
fn new_fills_sort_order_when_zero() {
    let tasks = vec![make_task("a", 10, 0, 100), make_task("b", 20, 777, 200)];
    let state = AppState::new(tasks, Vec::new(), Settings::default(), 1);
    let out = state.tasks();
    let a = out.iter().find(|t| t.id == "a").unwrap();
    let b = out.iter().find(|t| t.id == "b").unwrap();
    assert_eq!(a.sort_order, 10 * 1000);
    assert_eq!(b.sort_order, 777);
}

#[test]
fn shortcut_capture_flag_defaults_to_false_and_can_toggle() {
    let mut state = AppState::new(Vec::new(), Vec::new(), Settings::default(), 1);
    assert!(!state.is_shortcut_capture_active());
    state.set_shortcut_capture_active(true);
    assert!(state.is_shortcut_capture_active());
    state.set_shortcut_capture_active(false);
    assert!(!state.is_shortcut_capture_active());
}

#[test]
fn tasks_file_and_settings_file_include_schema_version() {
    let state = AppState::new(Vec::new(), Vec::new(), Settings::default(), 1);
    let tasks_file = state.tasks_file();
    assert_eq!(tasks_file.schema_version, 1);
    assert_eq!(tasks_file.tasks.len(), 0);
    assert!(tasks_file.projects.iter().any(|p| p.id == "inbox"));

    let settings_file = state.settings_file();
    assert_eq!(settings_file.schema_version, 1);
    assert_eq!(settings_file.settings.shortcut, Settings::default().shortcut);
}

#[test]
fn add_update_and_replace_tasks() {
    let mut state = AppState::new(Vec::new(), Vec::new(), Settings::default(), 1);
    state.add_task(make_task("a", 10, 0, 100));
    assert_eq!(state.tasks().len(), 1);

    let mut updated = make_task("a", 10, 0, 100);
    updated.title = "updated".to_string();
    state.update_task(updated);
    let out = state.tasks();
    assert_eq!(out[0].title, "updated");

    state.update_task(make_task("missing", 1, 0, 1));
    assert_eq!(state.tasks().len(), 1);

    state.replace_tasks(vec![make_task("x", 7, 0, 1)]);
    let out = state.tasks();
    assert_eq!(out.len(), 1);
    assert_eq!(out[0].id, "x");
    assert_eq!(out[0].sort_order, 7 * 1000);
}

#[test]
fn swap_sort_order_success_and_failure() {
    let t1 = make_task("a", 1, 100, 10);
    let t2 = make_task("b", 2, 200, 20);
    let mut state = AppState::new(vec![t1, t2], Vec::new(), Settings::default(), 1);

    assert!(state.swap_sort_order(&"a".to_string(), &"b".to_string(), 999));
    let out = state.tasks();
    let a = out.iter().find(|t| t.id == "a").unwrap();
    let b = out.iter().find(|t| t.id == "b").unwrap();
    assert_eq!(a.sort_order, 200);
    assert_eq!(b.sort_order, 100);
    assert_eq!(a.updated_at, 999);
    assert_eq!(b.updated_at, 999);

    assert!(!state.swap_sort_order(&"a".to_string(), &"missing".to_string(), 1));
}

#[test]
fn complete_remove_and_mark_reminder() {
    let mut task = make_task("a", 1, 1, 10);
    task.reminder.snoozed_until = Some(123);
    let mut state = AppState::new(vec![task], Vec::new(), Settings::default(), 1);

    let completed = state.complete_task(&"a".to_string(), 555).expect("task exists");
    assert!(completed.completed);
    assert!(completed.completed_at.is_some());
    assert_eq!(completed.completed_at, Some(completed.updated_at));
    assert_eq!(completed.reminder.snoozed_until, None);
    assert_eq!(completed.reminder.last_fired_at, completed.completed_at);

    assert!(state.complete_task(&"missing".to_string(), 555).is_none());

    state.mark_reminder_fired(&completed, 777);
    let refreshed = state.tasks().into_iter().find(|t| t.id == "a").unwrap();
    assert_eq!(refreshed.reminder.last_fired_at, Some(777));

    state.mark_reminder_fired(&make_task("missing", 1, 1, 1), 1);

    state.add_task(make_task("b", 1, 1, 1));
    state.add_task(make_task("c", 1, 1, 1));
    state.remove_task(&"b".to_string());
    assert!(state.tasks().iter().all(|t| t.id != "b"));
    state.remove_tasks(&vec!["a".to_string(), "c".to_string()]);
    assert!(state.tasks().is_empty());
}

#[test]
fn update_settings_replaces_previous_value() {
    let mut state = AppState::new(Vec::new(), Vec::new(), Settings::default(), 1);
    let mut next = Settings::default();
    next.theme = "dark".to_string();
    state.update_settings(next);
    assert_eq!(state.settings().theme, "dark");
}

#[test]
fn update_task_preserves_sample_tag_when_missing_in_update() {
    let mut task = make_task("sample", 1, 1, 10);
    task.sample_tag = Some("ai-novel-assistant-v1".to_string());
    let mut state = AppState::new(vec![task.clone()], Vec::new(), Settings::default(), 1);

    let mut edited = task.clone();
    edited.title = "edited".to_string();
    edited.sample_tag = None;
    state.update_task(edited);

    let updated = state.tasks().into_iter().find(|t| t.id == task.id).unwrap();
    assert_eq!(updated.sample_tag.as_deref(), Some("ai-novel-assistant-v1"));
}

#[test]
fn update_task_overwrites_sample_tag_when_present() {
    let mut task = make_task("sample2", 1, 1, 10);
    task.sample_tag = Some("old-tag".to_string());
    let mut state = AppState::new(vec![task.clone()], Vec::new(), Settings::default(), 1);

    let mut edited = task.clone();
    edited.sample_tag = Some("new-tag".to_string());
    state.update_task(edited);

    let updated = state.tasks().into_iter().find(|t| t.id == task.id).unwrap();
    assert_eq!(updated.sample_tag.as_deref(), Some("new-tag"));
}

#[test]
fn normalize_tasks_moves_invalid_or_blank_project_ids_into_inbox() {
    let mut task_missing = make_task("missing-project", 1, 0, 10);
    task_missing.project_id = "does-not-exist".to_string();
    let mut task_blank = make_task("blank-project", 1, 0, 10);
    task_blank.project_id = "   ".to_string();

    let state = AppState::new(
        vec![task_missing, task_blank],
        Vec::new(),
        Settings::default(),
        1,
    );
    let out = state.tasks();
    assert!(out.iter().all(|t| t.project_id == "inbox"));
}

#[test]
fn remove_project_is_noop_for_inbox() {
    let mut state = AppState::new(Vec::new(), Vec::new(), Settings::default(), 1);
    state.remove_project(&"inbox".to_string());
    assert!(state.projects().iter().any(|p| p.id == "inbox"));
}

#[test]
fn swap_project_sort_order_returns_false_when_ids_missing() {
    let mut state = AppState::new(Vec::new(), Vec::new(), Settings::default(), 1);
    assert!(!state.swap_project_sort_order(&"inbox".to_string(), &"missing".to_string(), 123));
    assert!(!state.swap_project_sort_order(&"missing".to_string(), &"inbox".to_string(), 123));
}

#[test]
fn mark_reminder_fired_clears_snoozed_until_when_due_or_past() {
    let mut task = make_task("a", 1, 1, 10);
    task.reminder.snoozed_until = Some(100);
    let mut state = AppState::new(vec![task.clone()], Vec::new(), Settings::default(), 1);

    state.mark_reminder_fired(&task, 100);
    let refreshed = state.tasks().into_iter().find(|t| t.id == "a").unwrap();
    assert_eq!(refreshed.reminder.snoozed_until, None);
}

#[test]
fn mark_reminder_fired_keeps_snoozed_until_when_in_future() {
    let mut task = make_task("a", 1, 1, 10);
    task.reminder.snoozed_until = Some(200);
    let mut state = AppState::new(vec![task.clone()], Vec::new(), Settings::default(), 1);

    state.mark_reminder_fired(&task, 100);
    let refreshed = state.tasks().into_iter().find(|t| t.id == "a").unwrap();
    assert_eq!(refreshed.reminder.snoozed_until, Some(200));
}

#[test]
fn update_project_is_noop_when_id_is_missing() {
    let mut state = AppState::new(Vec::new(), Vec::new(), Settings::default(), 1);
    let before = state.projects();

    state.update_project(Project {
        id: "missing".to_string(),
        name: "Missing".to_string(),
        pinned: false,
        sort_order: 1,
        created_at: 1,
        updated_at: 1,
        sample_tag: None,
    });

    let after = state.projects();
    assert_eq!(after.len(), before.len());
    assert!(after.iter().any(|p| p.id == "inbox"));
}
