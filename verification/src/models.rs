//! Data model: tasks, projects, reminder and repeat configuration, settings,
//! and the persisted document shells, together with their mathematical views.

use vstd::prelude::*;

verus! {

pub type Timestamp = i64;

/// How a reminder presents itself: not at all, as a soft notice, or as a
/// blocking overlay that must be dismissed.
#[derive(Clone, Copy, Debug, PartialEq, Eq, Structural)]
pub enum ReminderKind {
    NoReminder,
    Normal,
    Forced,
}

/// Recurrence pattern governing a task's next due date after completion.
#[derive(Debug, PartialEq)]
pub enum RepeatRule {
    NoRepeat,
    Daily { workday_only: bool },
    Weekly { days: Vec<u8> },
    Monthly { day: u8 },
    Yearly { month: u8, day: u8 },
}

/// Mathematical view of a `RepeatRule`: the weekly day set becomes a sequence.
#[verifier::ext_equal]
pub enum RepeatRuleView {
    NoRepeat,
    Daily { workday_only: bool },
    Weekly { days: Seq<u8> },
    Monthly { day: u8 },
    Yearly { month: u8, day: u8 },
}

impl DeepView for RepeatRule {
    type V = RepeatRuleView;

    open spec fn deep_view(&self) -> RepeatRuleView {
        match self {
            RepeatRule::NoRepeat => RepeatRuleView::NoRepeat,
            RepeatRule::Daily { workday_only } => RepeatRuleView::Daily {
                workday_only: *workday_only,
            },
            RepeatRule::Weekly { days } => RepeatRuleView::Weekly { days: days.deep_view() },
            RepeatRule::Monthly { day } => RepeatRuleView::Monthly { day: *day },
            RepeatRule::Yearly { month, day } => RepeatRuleView::Yearly {
                month: *month,
                day: *day,
            },
        }
    }
}

impl Clone for RepeatRule {
    fn clone(&self) -> (res: Self)
        ensures
            res.deep_view() == self.deep_view(),
    {
        match self {
            RepeatRule::NoRepeat => RepeatRule::NoRepeat,
            RepeatRule::Daily { workday_only } => RepeatRule::Daily {
                workday_only: *workday_only,
            },
            RepeatRule::Weekly { days } => {
                let copy = days.clone();
                proof {
                    assert(copy.deep_view() =~= days.deep_view());
                }
                RepeatRule::Weekly { days: copy }
            },
            RepeatRule::Monthly { day } => RepeatRule::Monthly { day: *day },
            RepeatRule::Yearly { month, day } => RepeatRule::Yearly {
                month: *month,
                day: *day,
            },
        }
    }
}

/// Per-task reminder state. All fields are plain scalars, so the struct is
/// `Copy` and stands for itself in specifications.
#[derive(Clone, Copy, Debug, PartialEq, Eq, Structural)]
pub struct ReminderConfig {
    pub kind: ReminderKind,
    pub remind_at: Option<Timestamp>,
    pub snoozed_until: Option<Timestamp>,
    pub forced_dismissed: bool,
    pub last_fired_at: Option<Timestamp>,
    pub repeat_fired_count: i64,
}

impl Default for ReminderConfig {
    fn default() -> (res: Self)
        ensures
            res == (ReminderConfig {
                kind: ReminderKind::NoReminder,
                remind_at: None,
                snoozed_until: None,
                forced_dismissed: false,
                last_fired_at: None,
                repeat_fired_count: 0,
            }),
    {
        ReminderConfig {
            kind: ReminderKind::NoReminder,
            remind_at: None,
            snoozed_until: None,
            forced_dismissed: false,
            last_fired_at: None,
            repeat_fired_count: 0,
        }
    }
}

/// An ordered sub-step of a task.
#[derive(Debug)]
pub struct Step {
    pub id: String,
    pub title: String,
    pub completed: bool,
    pub created_at: Timestamp,
    pub completed_at: Option<Timestamp>,
}

#[verifier::ext_equal]
pub struct StepView {
    pub id: Seq<char>,
    pub title: Seq<char>,
    pub completed: bool,
    pub created_at: Timestamp,
    pub completed_at: Option<Timestamp>,
}

impl DeepView for Step {
    type V = StepView;

    open spec fn deep_view(&self) -> StepView {
        StepView {
            id: self.id@,
            title: self.title@,
            completed: self.completed,
            created_at: self.created_at,
            completed_at: self.completed_at,
        }
    }
}

impl Clone for Step {
    fn clone(&self) -> (res: Self)
        ensures
            res.deep_view() == self.deep_view(),
    {
        Step {
            id: self.id.clone(),
            title: self.title.clone(),
            completed: self.completed,
            created_at: self.created_at,
            completed_at: self.completed_at,
        }
    }
}

/// A project grouping tasks; the built-in "inbox" project always exists.
#[derive(Debug)]
pub struct Project {
    pub id: String,
    pub name: String,
    pub pinned: bool,
    pub sort_order: Timestamp,
    pub created_at: Timestamp,
    pub updated_at: Timestamp,
    pub sample_tag: Option<String>,
}

#[verifier::ext_equal]
pub struct ProjectView {
    pub id: Seq<char>,
    pub name: Seq<char>,
    pub pinned: bool,
    pub sort_order: Timestamp,
    pub created_at: Timestamp,
    pub updated_at: Timestamp,
    pub sample_tag: Option<Seq<char>>,
}

impl DeepView for Project {
    type V = ProjectView;

    open spec fn deep_view(&self) -> ProjectView {
        ProjectView {
            id: self.id@,
            name: self.name@,
            pinned: self.pinned,
            sort_order: self.sort_order,
            created_at: self.created_at,
            updated_at: self.updated_at,
            sample_tag: self.sample_tag.deep_view(),
        }
    }
}

impl Clone for Project {
    fn clone(&self) -> (res: Self)
        ensures
            res.deep_view() == self.deep_view(),
    {
        Project {
            id: self.id.clone(),
            name: self.name.clone(),
            pinned: self.pinned,
            sort_order: self.sort_order,
            created_at: self.created_at,
            updated_at: self.updated_at,
            sample_tag: self.sample_tag.clone(),
        }
    }
}

/// A single task.
#[derive(Debug)]
pub struct Task {
    pub id: String,
    pub project_id: String,
    pub title: String,
    pub due_at: Timestamp,
    pub important: bool,
    pub completed: bool,
    pub completed_at: Option<Timestamp>,
    pub created_at: Timestamp,
    pub updated_at: Timestamp,
    pub sort_order: Timestamp,
    pub quadrant: u8,
    pub notes: Option<String>,
    pub steps: Vec<Step>,
    pub tags: Vec<String>,
    pub sample_tag: Option<String>,
    pub reminder: ReminderConfig,
    pub repeat: RepeatRule,
}

#[verifier::ext_equal]
pub struct TaskView {
    pub id: Seq<char>,
    pub project_id: Seq<char>,
    pub title: Seq<char>,
    pub due_at: Timestamp,
    pub important: bool,
    pub completed: bool,
    pub completed_at: Option<Timestamp>,
    pub created_at: Timestamp,
    pub updated_at: Timestamp,
    pub sort_order: Timestamp,
    pub quadrant: u8,
    pub notes: Option<Seq<char>>,
    pub steps: Seq<StepView>,
    pub tags: Seq<Seq<char>>,
    pub sample_tag: Option<Seq<char>>,
    pub reminder: ReminderConfig,
    pub repeat: RepeatRuleView,
}

impl DeepView for Task {
    type V = TaskView;

    open spec fn deep_view(&self) -> TaskView {
        TaskView {
            id: self.id@,
            project_id: self.project_id@,
            title: self.title@,
            due_at: self.due_at,
            important: self.important,
            completed: self.completed,
            completed_at: self.completed_at,
            created_at: self.created_at,
            updated_at: self.updated_at,
            sort_order: self.sort_order,
            quadrant: self.quadrant,
            notes: self.notes.deep_view(),
            steps: self.steps.deep_view(),
            tags: self.tags.deep_view(),
            sample_tag: self.sample_tag.deep_view(),
            reminder: self.reminder,
            repeat: self.repeat.deep_view(),
        }
    }
}

impl Clone for Task {
    fn clone(&self) -> (res: Self)
        ensures
            res.deep_view() == self.deep_view(),
    {
        let steps = clone_steps(&self.steps);
        let tags = clone_strings(&self.tags);
        Task {
            id: self.id.clone(),
            project_id: self.project_id.clone(),
            title: self.title.clone(),
            due_at: self.due_at,
            important: self.important,
            completed: self.completed,
            completed_at: self.completed_at,
            created_at: self.created_at,
            updated_at: self.updated_at,
            sort_order: self.sort_order,
            quadrant: self.quadrant,
            notes: self.notes.clone(),
            steps,
            tags,
            sample_tag: self.sample_tag.clone(),
            reminder: self.reminder,
            repeat: self.repeat.clone(),
        }
    }
}

fn clone_steps(steps: &Vec<Step>) -> (res: Vec<Step>)
    ensures
        res.deep_view() == steps.deep_view(),
{
    let mut out: Vec<Step> = Vec::new();
    let mut i: usize = 0;
    while i < steps.len()
        invariant
            0 <= i <= steps.len(),
            out.len() == i,
            forall|j: int| 0 <= j < i ==> out.deep_view()[j] == steps.deep_view()[j],
        decreases steps.len() - i,
    {
        let ghost prev = out.deep_view();
        out.push(steps[i].clone());
        i = i + 1;
        proof {
            assert(forall|j: int|
                0 <= j < i - 1 ==> out.deep_view()[j] == prev[j] && prev[j]
                    == steps.deep_view()[j]);
            assert(out.deep_view()[i - 1] == steps.deep_view()[i - 1]);
        }
    }
    proof {
        assert(out.deep_view() =~= steps.deep_view());
    }
    out
}

pub(crate) fn clone_strings(strings: &Vec<String>) -> (res: Vec<String>)
    ensures
        res.deep_view() == strings.deep_view(),
{
    let mut out: Vec<String> = Vec::new();
    let mut i: usize = 0;
    while i < strings.len()
        invariant
            0 <= i <= strings.len(),
            out.len() == i,
            forall|j: int| 0 <= j < i ==> out.deep_view()[j] == strings.deep_view()[j],
        decreases strings.len() - i,
    {
        let ghost prev = out.deep_view();
        out.push(strings[i].clone());
        i = i + 1;
        proof {
            assert(forall|j: int|
                0 <= j < i - 1 ==> out.deep_view()[j] == prev[j] && prev[j]
                    == strings.deep_view()[j]);
            assert(out.deep_view()[i - 1] == strings.deep_view()[i - 1]);
        }
    }
    proof {
        assert(out.deep_view() =~= strings.deep_view());
    }
    out
}

pub(crate) fn clone_tasks(tasks: &Vec<Task>) -> (res: Vec<Task>)
    ensures
        res.deep_view() == tasks.deep_view(),
{
    let mut out: Vec<Task> = Vec::new();
    let mut i: usize = 0;
    while i < tasks.len()
        invariant
            0 <= i <= tasks.len(),
            out.len() == i,
            forall|j: int| 0 <= j < i ==> out.deep_view()[j] == tasks.deep_view()[j],
        decreases tasks.len() - i,
    {
        let ghost prev = out.deep_view();
        out.push(tasks[i].clone());
        i = i + 1;
        proof {
            assert(forall|j: int|
                0 <= j < i - 1 ==> out.deep_view()[j] == prev[j] && prev[j]
                    == tasks.deep_view()[j]);
            assert(out.deep_view()[i - 1] == tasks.deep_view()[i - 1]);
        }
    }
    proof {
        assert(out.deep_view() =~= tasks.deep_view());
    }
    out
}

pub(crate) fn clone_projects(projects: &Vec<Project>) -> (res: Vec<Project>)
    ensures
        res.deep_view() == projects.deep_view(),
{
    let mut out: Vec<Project> = Vec::new();
    let mut i: usize = 0;
    while i < projects.len()
        invariant
            0 <= i <= projects.len(),
            out.len() == i,
            forall|j: int| 0 <= j < i ==> out.deep_view()[j] == projects.deep_view()[j],
        decreases projects.len() - i,
    {
        let ghost prev = out.deep_view();
        out.push(projects[i].clone());
        i = i + 1;
        proof {
            assert(forall|j: int|
                0 <= j < i - 1 ==> out.deep_view()[j] == prev[j] && prev[j]
                    == projects.deep_view()[j]);
            assert(out.deep_view()[i - 1] == projects.deep_view()[i - 1]);
        }
    }
    proof {
        assert(out.deep_view() =~= projects.deep_view());
    }
    out
}

/// Filtering a one-element sequence keeps or drops that element.
pub(crate) proof fn lemma_filter_singleton<A>(x: A, pred: spec_fn(A) -> bool)
    ensures
        seq![x].filter(pred) == if pred(x) {
            seq![x]
        } else {
            Seq::<A>::empty()
        },
{
    reveal_with_fuel(Seq::filter, 2);
    assert(seq![x].drop_last() =~= Seq::<A>::empty());
    if pred(x) {
        assert(seq![x].filter(pred) =~= seq![x]);
    } else {
        assert(seq![x].filter(pred) =~= Seq::<A>::empty());
    }
}

/// What the application does when the main window is closed.
#[derive(Clone, Copy, Debug, PartialEq, Eq, Structural)]
pub enum CloseBehavior {
    HideToTray,
    Exit,
}

/// What the application does when the main window is minimized.
#[derive(Clone, Copy, Debug, PartialEq, Eq, Structural)]
pub enum MinimizeBehavior {
    HideToTray,
    Minimize,
}

impl Default for MinimizeBehavior {
    fn default() -> (res: Self)
        ensures
            res == MinimizeBehavior::HideToTray,
    {
        MinimizeBehavior::HideToTray
    }
}

/// How application updates are applied.
#[derive(Clone, Copy, Debug, PartialEq, Eq, Structural)]
pub enum UpdateBehavior {
    Auto,
    NextRestart,
    Disabled,
}

impl Default for UpdateBehavior {
    fn default() -> (res: Self)
        ensures
            res == UpdateBehavior::NextRestart,
    {
        UpdateBehavior::NextRestart
    }
}

/// Corner-radius styling choice.
#[derive(Clone, Copy, Debug, PartialEq, Eq, Structural)]
pub enum UiRadius {
    Theme,
    Sharp,
    Round,
}

impl Default for UiRadius {
    fn default() -> (res: Self)
        ensures
            res == UiRadius::Theme,
    {
        UiRadius::Theme
    }
}

/// Border styling choice.
#[derive(Clone, Copy, Debug, PartialEq, Eq, Structural)]
pub enum UiBorder {
    Theme,
    Thin,
    Thick,
}

impl Default for UiBorder {
    fn default() -> (res: Self)
        ensures
            res == UiBorder::Theme,
    {
        UiBorder::Theme
    }
}

/// Shadow styling choice.
#[derive(Clone, Copy, Debug, PartialEq, Eq, Structural)]
pub enum UiShadow {
    Theme,
    NoShadow,
    Soft,
    Strong,
}

impl Default for UiShadow {
    fn default() -> (res: Self)
        ensures
            res == UiShadow::Theme,
    {
        UiShadow::Theme
    }
}

/// Cadence of automatic backups, compared on calendar boundaries.
#[derive(Clone, Copy, Debug, PartialEq, Eq, Structural)]
pub enum BackupSchedule {
    Never,
    Daily,
    Weekly,
    Monthly,
}

impl Default for BackupSchedule {
    fn default() -> (res: Self)
        ensures
            res == BackupSchedule::Daily,
    {
        BackupSchedule::Daily
    }
}

/// Application settings. Window geometry is a floating-point concern of the
/// shell around this library and is not modelled here.
#[derive(Debug)]
pub struct Settings {
    pub shortcut: String,
    pub theme: String,
    pub ui_radius: UiRadius,
    pub ui_border: UiBorder,
    pub ui_shadow: UiShadow,
    pub language: String,
    pub ai_enabled: bool,
    pub deepseek_api_key: String,
    pub ai_model: String,
    pub ai_prompt: String,
    pub update_behavior: UpdateBehavior,
    pub sound_enabled: bool,
    pub close_behavior: CloseBehavior,
    pub minimize_behavior: MinimizeBehavior,
    pub quick_always_on_top: bool,
    pub quick_blur_enabled: bool,
    pub quick_tab: String,
    pub quick_sort: String,
    pub forced_reminder_color: String,
    pub backup_schedule: BackupSchedule,
    pub last_backup_at: Option<Timestamp>,
    pub today_focus_ids: Vec<String>,
    pub today_focus_date: Option<String>,
    pub today_prompted_date: Option<String>,
    pub reminder_repeat_interval_sec: i64,
    pub reminder_repeat_max_times: i64,
}

#[verifier::ext_equal]
pub struct SettingsView {
    pub shortcut: Seq<char>,
    pub theme: Seq<char>,
    pub ui_radius: UiRadius,
    pub ui_border: UiBorder,
    pub ui_shadow: UiShadow,
    pub language: Seq<char>,
    pub ai_enabled: bool,
    pub deepseek_api_key: Seq<char>,
    pub ai_model: Seq<char>,
    pub ai_prompt: Seq<char>,
    pub update_behavior: UpdateBehavior,
    pub sound_enabled: bool,
    pub close_behavior: CloseBehavior,
    pub minimize_behavior: MinimizeBehavior,
    pub quick_always_on_top: bool,
    pub quick_blur_enabled: bool,
    pub quick_tab: Seq<char>,
    pub quick_sort: Seq<char>,
    pub forced_reminder_color: Seq<char>,
    pub backup_schedule: BackupSchedule,
    pub last_backup_at: Option<Timestamp>,
    pub today_focus_ids: Seq<Seq<char>>,
    pub today_focus_date: Option<Seq<char>>,
    pub today_prompted_date: Option<Seq<char>>,
    pub reminder_repeat_interval_sec: i64,
    pub reminder_repeat_max_times: i64,
}

impl DeepView for Settings {
    type V = SettingsView;

    open spec fn deep_view(&self) -> SettingsView {
        SettingsView {
            shortcut: self.shortcut@,
            theme: self.theme@,
            ui_radius: self.ui_radius,
            ui_border: self.ui_border,
            ui_shadow: self.ui_shadow,
            language: self.language@,
            ai_enabled: self.ai_enabled,
            deepseek_api_key: self.deepseek_api_key@,
            ai_model: self.ai_model@,
            ai_prompt: self.ai_prompt@,
            update_behavior: self.update_behavior,
            sound_enabled: self.sound_enabled,
            close_behavior: self.close_behavior,
            minimize_behavior: self.minimize_behavior,
            quick_always_on_top: self.quick_always_on_top,
            quick_blur_enabled: self.quick_blur_enabled,
            quick_tab: self.quick_tab@,
            quick_sort: self.quick_sort@,
            forced_reminder_color: self.forced_reminder_color@,
            backup_schedule: self.backup_schedule,
            last_backup_at: self.last_backup_at,
            today_focus_ids: self.today_focus_ids.deep_view(),
            today_focus_date: self.today_focus_date.deep_view(),
            today_prompted_date: self.today_prompted_date.deep_view(),
            reminder_repeat_interval_sec: self.reminder_repeat_interval_sec,
            reminder_repeat_max_times: self.reminder_repeat_max_times,
        }
    }
}

impl Clone for Settings {
    fn clone(&self) -> (res: Self)
        ensures
            res.deep_view() == self.deep_view(),
    {
        Settings {
            shortcut: self.shortcut.clone(),
            theme: self.theme.clone(),
            ui_radius: self.ui_radius,
            ui_border: self.ui_border,
            ui_shadow: self.ui_shadow,
            language: self.language.clone(),
            ai_enabled: self.ai_enabled,
            deepseek_api_key: self.deepseek_api_key.clone(),
            ai_model: self.ai_model.clone(),
            ai_prompt: self.ai_prompt.clone(),
            update_behavior: self.update_behavior,
            sound_enabled: self.sound_enabled,
            close_behavior: self.close_behavior,
            minimize_behavior: self.minimize_behavior,
            quick_always_on_top: self.quick_always_on_top,
            quick_blur_enabled: self.quick_blur_enabled,
            quick_tab: self.quick_tab.clone(),
            quick_sort: self.quick_sort.clone(),
            forced_reminder_color: self.forced_reminder_color.clone(),
            backup_schedule: self.backup_schedule,
            last_backup_at: self.last_backup_at,
            today_focus_ids: clone_strings(&self.today_focus_ids),
            today_focus_date: self.today_focus_date.clone(),
            today_prompted_date: self.today_prompted_date.clone(),
            reminder_repeat_interval_sec: self.reminder_repeat_interval_sec,
            reminder_repeat_max_times: self.reminder_repeat_max_times,
        }
    }
}

impl Default for Settings {
    fn default() -> (res: Self)
        ensures
            res.shortcut@ == "CommandOrControl+Shift+T"@,
            res.theme@ == "retro"@,
            res.ui_radius == UiRadius::Theme,
            res.ui_border == UiBorder::Theme,
            res.ui_shadow == UiShadow::Theme,
            res.language@ == "auto"@,
            !res.ai_enabled,
            res.deepseek_api_key@ == Seq::<char>::empty(),
            res.ai_model@ == "deepseek-chat"@,
            res.update_behavior == UpdateBehavior::NextRestart,
            res.sound_enabled,
            res.close_behavior == CloseBehavior::HideToTray,
            res.minimize_behavior == MinimizeBehavior::HideToTray,
            !res.quick_always_on_top,
            res.quick_blur_enabled,
            res.quick_tab@ == "todo"@,
            res.quick_sort@ == "default"@,
            res.forced_reminder_color@ == "#C94D37"@,
            res.backup_schedule == BackupSchedule::Daily,
            res.last_backup_at is None,
            res.today_focus_ids.deep_view() == Seq::<Seq<char>>::empty(),
            res.today_focus_date is None,
            res.today_prompted_date is None,
            res.reminder_repeat_interval_sec == 600,
            res.reminder_repeat_max_times == 0,
    {
        let res = Settings {
            shortcut: "CommandOrControl+Shift+T".to_owned(),
            theme: "retro".to_owned(),
            ui_radius: UiRadius::Theme,
            ui_border: UiBorder::Theme,
            ui_shadow: UiShadow::Theme,
            language: "auto".to_owned(),
            ai_enabled: false,
            deepseek_api_key: String::new(),
            ai_model: "deepseek-chat".to_owned(),
            ai_prompt: String::new(),
            update_behavior: UpdateBehavior::NextRestart,
            sound_enabled: true,
            close_behavior: CloseBehavior::HideToTray,
            minimize_behavior: MinimizeBehavior::HideToTray,
            quick_always_on_top: false,
            quick_blur_enabled: true,
            quick_tab: "todo".to_owned(),
            quick_sort: "default".to_owned(),
            forced_reminder_color: "#C94D37".to_owned(),
            backup_schedule: BackupSchedule::Daily,
            last_backup_at: None,
            today_focus_ids: Vec::new(),
            today_focus_date: None,
            today_prompted_date: None,
            reminder_repeat_interval_sec: 600,
            reminder_repeat_max_times: 0,
        };
        proof {
            assert(res.today_focus_ids.deep_view() =~= Seq::<Seq<char>>::empty());
        }
        res
    }
}

/// The persisted task document: tasks and projects under a schema version.
#[derive(Clone, Debug)]
pub struct TasksFile {
    pub schema_version: u32,
    pub tasks: Vec<Task>,
    pub projects: Vec<Project>,
}

/// The persisted settings document.
#[derive(Clone, Debug)]
pub struct SettingsFile {
    pub schema_version: u32,
    pub settings: Settings,
}

/// Plain success/data/error envelope handed back to the command surface.
#[derive(Clone, Debug)]
pub struct CommandResult<T> {
    pub ok: bool,
    pub data: Option<T>,
    pub error: Option<String>,
}

/// Successful envelope carrying `data`.
pub fn ok<T>(data: T) -> (res: CommandResult<T>)
    ensures
        res.ok,
        res.data == Some(data),
        res.error is None,
{
    CommandResult { ok: true, data: Some(data), error: None }
}

/// Failed envelope carrying `message`.
pub fn err<T>(message: &str) -> (res: CommandResult<T>)
    ensures
        !res.ok,
        res.data is None,
        res.error matches Some(m) && m@ == message@,
{
    CommandResult { ok: false, data: None, error: Some(message.to_owned()) }
}

/// One entry of the backup directory listing.
#[derive(Clone, Debug)]
pub struct BackupEntry {
    pub name: String,
    pub modified_at: i64,
}

} // verus!
