use mustdo_core::models::{
    BackupEntry, Project, ReminderConfig, ReminderKind, RepeatRule, Step, Task, TasksFile,
};
use mustdo_core::models::{BackupSchedule, Settings};
use mustdo_core::storage::{
    csv_escape, retry_create_step, temp_attempt_name, CreateOutcome, RetryAction, Storage,
    StorageError, BACKUP_LIMIT, TEMP_ATTEMPT_LIMIT,
};

fn sample_task() -> Task {
    Task {
        id: "t-1".to_string(),
        project_id: "inbox".to_string(),
        title: "write \"notes\" \\ and\nmore".to_string(),
        due_at: -1234567890123,
        important: true,
        completed: false,
        completed_at: Some(77),
        created_at: 10,
        updated_at: 20,
        sort_order: 10000,
        quadrant: 3,
        notes: Some("line one\nline two\ttabbed".to_string()),
        steps: vec![
            Step {
                id: "s1".to_string(),
                title: "first".to_string(),
                completed: true,
                created_at: 5,
                completed_at: Some(6),
            },
            Step {
                id: "s2".to_string(),
                title: "second".to_string(),
                completed: false,
                created_at: 7,
                completed_at: None,
            },
        ],
        tags: vec!["home".to_string(), "α-umlaut-ß".to_string()],
        sample_tag: None,
        reminder: ReminderConfig {
            kind: ReminderKind::Forced,
            remind_at: Some(123),
            snoozed_until: None,
            forced_dismissed: false,
            last_fired_at: Some(-5),
            repeat_fired_count: 2,
        },
        repeat: RepeatRule::Weekly {
            days: vec![1, 3, 7],
        },
    }
}

fn sample_file() -> TasksFile {
    TasksFile {
        schema_version: 1,
        tasks: vec![sample_task()],
        projects: vec![Project {
            id: "inbox".to_string(),
            name: "Inbox".to_string(),
            pinned: true,
            sort_order: 0,
            created_at: 1,
            updated_at: 1,
            sample_tag: Some("x".to_string()),
        }],
    }
}

#[test]
fn save_and_load_tasks_and_settings_roundtrip() {
    let storage = Storage::new("root".to_string());
    let data = TasksFile {
        schema_version: 1,
        tasks: Vec::new(),
        projects: Vec::new(),
    };
    let text = storage.save_tasks(&data);
    let loaded = storage.load_tasks(&text).expect("round trip");
    assert_eq!(loaded.schema_version, 1);
    assert!(loaded.tasks.is_empty());
    assert!(loaded.projects.is_empty());
}

#[test]
fn three_records_roundtrip_byte_for_byte() {
    let storage = Storage::new("root".to_string());
    let data = sample_file();
    let text = storage.save_tasks(&data);
    let loaded = storage.load_tasks(&text).expect("round trip");
    // Re-encoding the loaded document gives the same text again.
    let text2 = storage.save_tasks(&loaded);
    assert_eq!(text, text2);

    assert_eq!(loaded.tasks.len(), 1);
    let t = &loaded.tasks[0];
    let orig = sample_task();
    assert_eq!(t.id, orig.id);
    assert_eq!(t.title, orig.title);
    assert_eq!(t.due_at, orig.due_at);
    assert_eq!(t.notes, orig.notes);
    assert_eq!(t.steps.len(), 2);
    assert_eq!(t.steps[1].title, "second");
    assert_eq!(t.tags, orig.tags);
    assert_eq!(t.reminder, orig.reminder);
    assert_eq!(t.repeat, orig.repeat);
    assert_eq!(loaded.projects[0].sample_tag.as_deref(), Some("x"));
}

#[test]
fn load_tasks_rejects_corrupt_text() {
    let storage = Storage::new("root".to_string());
    let garbage: Vec<char> = "not-json".chars().collect();
    let err = storage.load_tasks(&garbage).expect_err("corrupt text");
    assert!(matches!(err, StorageError::Format(_)));

    // A truncated document is rejected too.
    let data = sample_file();
    let mut text = storage.save_tasks(&data);
    text.pop();
    assert!(matches!(
        storage.load_tasks(&text),
        Err(StorageError::Format(_))
    ));
}

#[test]
fn restore_backup_rejects_invalid_filenames() {
    let storage = Storage::new("root".to_string());
    let text = storage.save_tasks(&sample_file());

    let err = storage
        .restore_backup(&"../data-test.json".to_string(), &text)
        .expect_err("should reject path traversal");
    assert!(matches!(err, StorageError::Io(_)));

    let err = storage
        .restore_backup(&"".to_string(), &text)
        .expect_err("should reject empty name");
    assert!(matches!(err, StorageError::Io(_)));

    let err = storage
        .restore_backup(&".".to_string(), &text)
        .expect_err("should reject dot name");
    assert!(matches!(err, StorageError::Io(_)));

    let restored = storage
        .restore_backup(&"data-2024-01-02.json".to_string(), &text)
        .expect("plain names are accepted");
    assert_eq!(restored.tasks.len(), 1);
}

#[test]
fn restore_from_path_reads_any_document_text() {
    let storage = Storage::new("root".to_string());
    let text = storage.save_tasks(&sample_file());
    let restored = storage.restore_from_path(&text).expect("valid document");
    assert_eq!(restored.schema_version, 1);
}

#[test]
fn create_backup_uses_date_names_and_suffixes() {
    let storage = Storage::new("root".to_string());
    let date = "2024-06-01".to_string();
    let first = storage
        .next_backup_name(&date, &Vec::new())
        .expect("free name");
    assert_eq!(first, "data-2024-06-01.json");

    let second = storage
        .next_backup_name(&date, &vec![first.clone()])
        .expect("free name");
    assert_eq!(second, "data-2024-06-01-2.json");

    let third = storage
        .next_backup_name(&date, &vec![first, second])
        .expect("free name");
    assert_eq!(third, "data-2024-06-01-3.json");
}

#[test]
fn backup_overflow_keeps_retention_bound() {
    let storage = Storage::new("root".to_string());
    assert_eq!(storage.backup_overflow(0), 0);
    assert_eq!(storage.backup_overflow(BACKUP_LIMIT), 0);
    assert_eq!(storage.backup_overflow(BACKUP_LIMIT + 2), 2);
    // After trimming the overflow, the count is back under the limit.
    let count = BACKUP_LIMIT + 7;
    assert!(count - storage.backup_overflow(count) <= BACKUP_LIMIT);
}

#[test]
fn auto_backup_fires_once_per_calendar_day() {
    let storage = Storage::new("root".to_string());
    let now = chrono::Utc::now().timestamp();

    let mut settings = Settings::default();
    settings.backup_schedule = BackupSchedule::Daily;

    // Never backed up: a backup is owed.
    settings.last_backup_at = None;
    assert!(storage.should_auto_backup(&settings, now));

    // Last backup two days ago: a new local calendar day has begun.
    settings.last_backup_at = Some(now - 2 * 86400);
    assert!(storage.should_auto_backup(&settings, now));

    // Backed up at this very instant: same day, nothing owed; stamping
    // `last_backup_at` therefore stops further backups today.
    settings.last_backup_at = Some(now);
    assert!(!storage.should_auto_backup(&settings, now));

    // Schedule off: never.
    settings.backup_schedule = BackupSchedule::Never;
    settings.last_backup_at = None;
    assert!(!storage.should_auto_backup(&settings, now));
}

#[test]
fn backup_entry_is_plain_data() {
    let e = BackupEntry {
        name: "data-2024-06-01.json".to_string(),
        modified_at: 7,
    };
    assert_eq!(e.name, "data-2024-06-01.json");
    assert_eq!(e.modified_at, 7);
}

#[test]
fn csv_escape_quotes_and_doubles_inner_quotes() {
    assert_eq!(csv_escape(&"plain".to_string()), "\"plain\"");
    assert_eq!(csv_escape(&"say \"hi\"".to_string()), "\"say \"\"hi\"\"\"");
    assert_eq!(csv_escape(&"".to_string()), "\"\"");
}

#[test]
fn next_backup_name_picks_the_first_free_slot() {
    let storage = Storage::new("root".to_string());
    let date = "2024-06-01".to_string();

    // A gap before the taken names is filled first.
    let existing = vec!["data-2024-06-01-2.json".to_string()];
    assert_eq!(
        storage.next_backup_name(&date, &existing).expect("free name"),
        "data-2024-06-01.json"
    );

    let existing = vec![
        "data-2024-06-01.json".to_string(),
        "data-2024-06-01-3.json".to_string(),
    ];
    assert_eq!(
        storage.next_backup_name(&date, &existing).expect("free name"),
        "data-2024-06-01-2.json"
    );
}

#[test]
fn auto_backup_watches_week_and_month_boundaries() {
    let storage = Storage::new("root".to_string());
    let now = chrono::Utc::now().timestamp();
    let mut settings = Settings::default();

    // Weekly: nine days ago is always a different week; the same instant
    // never is.
    settings.backup_schedule = BackupSchedule::Weekly;
    settings.last_backup_at = Some(now - 9 * 86400);
    assert!(storage.should_auto_backup(&settings, now));
    settings.last_backup_at = Some(now);
    assert!(!storage.should_auto_backup(&settings, now));

    // Monthly: forty days ago is always a different month.
    settings.backup_schedule = BackupSchedule::Monthly;
    settings.last_backup_at = Some(now - 40 * 86400);
    assert!(storage.should_auto_backup(&settings, now));
    settings.last_backup_at = Some(now);
    assert!(!storage.should_auto_backup(&settings, now));
}

#[test]
fn temp_attempt_name_follows_the_retry_sequence() {
    let stem = "data".to_string();
    assert_eq!(temp_attempt_name(&stem, 4242, 0), "data.tmp");
    assert_eq!(temp_attempt_name(&stem, 4242, 1), "data.tmp.4242.1");
    assert_eq!(temp_attempt_name(&stem, 4242, 10), "data.tmp.4242.10");
}

#[test]
fn retry_create_step_bounds_the_retries() {
    assert!(matches!(
        retry_create_step(0, CreateOutcome::Created),
        RetryAction::Proceed
    ));
    assert!(matches!(
        retry_create_step(0, CreateOutcome::NameTaken),
        RetryAction::Retry
    ));
    assert!(matches!(
        retry_create_step(3, CreateOutcome::IsDirectory),
        RetryAction::Retry
    ));
    assert!(matches!(
        retry_create_step(9, CreateOutcome::NoPermission),
        RetryAction::Retry
    ));
    // The attempts are bounded; a non-retryable failure never retries.
    assert!(matches!(
        retry_create_step(TEMP_ATTEMPT_LIMIT, CreateOutcome::NameTaken),
        RetryAction::GiveUp
    ));
    assert!(matches!(
        retry_create_step(0, CreateOutcome::OtherFailure),
        RetryAction::GiveUp
    ));
}

#[test]
fn select_evictions_returns_the_overflow_oldest() {
    let storage = Storage::new("root".to_string());
    let mut entries = Vec::new();
    // Seven backups, newest first in the listing order.
    for i in 0..(BACKUP_LIMIT as i64 + 2) {
        entries.push(BackupEntry {
            name: format!("data-2024-06-0{}.json", i + 1),
            modified_at: 1000 - i,
        });
    }
    let evicted = storage.select_evictions(entries);
    // Two must leave, and they are the two oldest by modification time.
    assert_eq!(
        evicted,
        vec![
            "data-2024-06-07.json".to_string(),
            "data-2024-06-06.json".to_string(),
        ]
    );

    // At or under the limit nothing leaves.
    let few = vec![BackupEntry {
        name: "data-2024-06-01.json".to_string(),
        modified_at: 5,
    }];
    assert!(storage.select_evictions(few).is_empty());
}
