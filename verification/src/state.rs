//! The task store: single owner of the task, project and settings
//! collections, with the normalization invariants applied at every
//! structural mutation. The interactive shell wraps one value of `AppState`
//! in its own lock; every operation here is a plain, verified mutation.

use vstd::prelude::*;

use crate::models::{
    clone_projects, clone_strings, clone_tasks, lemma_filter_singleton, Project, ProjectView,
    ReminderConfig, Settings, SettingsFile, Task, TaskView, TasksFile,
};
use vstd::string::StrSliceExecFns;

verus! {

/// The schema version stamped into persisted documents.
pub const SCHEMA_VERSION: u32 = 1;

/// Whitespace as the blank-check sees it.
pub open spec fn spec_is_ws(c: char) -> bool {
    c == ' ' || c == '\t' || c == '\n' || c == '\r' || c == '\u{c}'
}

/// A string that trims to nothing: every character is whitespace.
pub open spec fn spec_is_blank(s: Seq<char>) -> bool {
    forall|i: int| 0 <= i < s.len() ==> spec_is_ws(#[trigger] s[i])
}

/// The project list knows the id.
pub open spec fn spec_known_project(ps: Seq<ProjectView>, id: Seq<char>) -> bool {
    exists|j: int| 0 <= j < ps.len() && (#[trigger] ps[j].id) == id
}

/// The built-in project every task can fall back to.
pub open spec fn spec_has_inbox(ps: Seq<ProjectView>) -> bool {
    spec_known_project(ps, "inbox"@)
}

/// `created_at * 1000`, saturated into the timestamp range: the default
/// manual sort position of an item created at that time.
pub open spec fn spec_scaled_sort(created_at: i64) -> i64 {
    if created_at > 9223372036854775 {
        i64::MAX
    } else if created_at < -9223372036854775 {
        i64::MIN
    } else {
        (created_at * 1000) as i64
    }
}

/// A project after normalization: a zero sort position defaults by creation
/// time.
pub open spec fn spec_norm_project(p: ProjectView) -> ProjectView {
    if p.sort_order == 0 {
        ProjectView { sort_order: spec_scaled_sort(p.created_at), ..p }
    } else {
        p
    }
}

/// A task after normalization against `ps`: a zero sort position defaults by
/// creation time, and a blank or unknown project reference is rewritten to
/// the inbox.
pub open spec fn spec_norm_task(t: TaskView, ps: Seq<ProjectView>) -> TaskView {
    let so = if t.sort_order == 0 {
        spec_scaled_sort(t.created_at)
    } else {
        t.sort_order
    };
    let pid = if spec_is_blank(t.project_id) || !spec_known_project(ps, t.project_id) {
        "inbox"@
    } else {
        t.project_id
    };
    TaskView { sort_order: so, project_id: pid, ..t }
}

/// The inbox project as first created, at `now`.
pub open spec fn spec_inbox_project(now: i64) -> ProjectView {
    ProjectView {
        id: "inbox"@,
        name: "Inbox"@,
        pinned: true,
        sort_order: 0,
        created_at: now,
        updated_at: now,
        sample_tag: None,
    }
}

/// The project list with the inbox appended when it was missing.
pub open spec fn spec_with_inbox(ps: Seq<ProjectView>, now: i64) -> Seq<ProjectView> {
    if spec_has_inbox(ps) {
        ps
    } else {
        ps.push(spec_inbox_project(now))
    }
}

/// True iff every character of `s` is whitespace (or `s` is empty).
fn is_blank(s: &String) -> (r: bool)
    ensures
        r == spec_is_blank(s@),
{
    let n = s.as_str().unicode_len();
    let mut i: usize = 0;
    while i < n
        invariant
            0 <= i <= n,
            n == s@.len(),
            forall|j: int| 0 <= j < i ==> spec_is_ws(#[trigger] s@[j]),
        decreases n - i,
    {
        let c = s.as_str().get_char(i);
        if !(c == ' ' || c == '\t' || c == '\n' || c == '\r' || c == '\u{c}') {
            return false;
        }
        i = i + 1;
    }
    true
}

/// A fresh `String` reading "inbox".
fn inbox_id() -> (r: String)
    ensures
        r@ == "inbox"@,
{
    "inbox".to_owned()
}

/// True iff some project in the list carries the id.
fn knows_project(projects: &Vec<Project>, id: &String) -> (r: bool)
    ensures
        r == spec_known_project(projects.deep_view(), id@),
{
    let mut i: usize = 0;
    while i < projects.len()
        invariant
            0 <= i <= projects.len(),
            forall|j: int| 0 <= j < i ==> (#[trigger] projects.deep_view()[j].id) != id@,
        decreases projects.len() - i,
    {
        if projects[i].id == *id {
            proof {
                assert(projects.deep_view()[i as int].id == id@);
            }
            return true;
        }
        i = i + 1;
    }
    false
}

/// `created_at * 1000`, saturated.
fn scaled_sort(created_at: i64) -> (r: i64)
    ensures
        r == spec_scaled_sort(created_at),
{
    if created_at > 9223372036854775 {
        i64::MAX
    } else if created_at < -9223372036854775 {
        i64::MIN
    } else {
        created_at * 1000
    }
}

/// Append the inbox project when no project carries its id.
fn ensure_inbox_project(projects: &mut Vec<Project>, now: i64)
    ensures
        final(projects).deep_view() == spec_with_inbox(old(projects).deep_view(), now),
{
    let inbox = inbox_id();
    if knows_project(projects, &inbox) {
        return;
    }
    let ghost prev = projects.deep_view();
    projects.push(
        Project {
            id: inbox,
            name: "Inbox".to_owned(),
            pinned: true,
            sort_order: 0,
            created_at: now,
            updated_at: now,
            sample_tag: None,
        },
    );
    proof {
        assert(projects.deep_view() =~= prev.push(spec_inbox_project(now)));
    }
}

/// Default every zero project sort position by creation time.
fn normalize_projects(projects: &mut Vec<Project>)
    ensures
        final(projects).deep_view() == old(projects).deep_view().map_values(
            |p: ProjectView| spec_norm_project(p),
        ),
{
    let ghost orig = projects.deep_view();
    let mut i: usize = 0;
    while i < projects.len()
        invariant
            0 <= i <= projects.len(),
            projects.deep_view().len() == orig.len(),
            projects.len() == orig.len(),
            forall|j: int| 0 <= j < i ==> projects.deep_view()[j] == spec_norm_project(orig[j]),
            forall|j: int| i <= j < orig.len() ==> projects.deep_view()[j] == orig[j],
        decreases projects.len() - i,
    {
        let ghost pre = projects.deep_view();
        if projects[i].sort_order == 0 {
            let so = scaled_sort(projects[i].created_at);
            projects[i].sort_order = so;
        }
        i = i + 1;
        proof {
            assert forall|j: int|
                0 <= j < i implies projects.deep_view()[j] == spec_norm_project(orig[j]) by {
                assert(projects.deep_view()[j] == projects@[j].deep_view());
                if j < i - 1 {
                    assert(projects@[j].deep_view() == pre[j]);
                }
            }
            assert forall|j: int|
                i <= j < orig.len() implies projects.deep_view()[j] == orig[j] by {
                assert(projects.deep_view()[j] == projects@[j].deep_view());
                assert(projects@[j].deep_view() == pre[j]);
            }
        }
    }
    proof {
        assert(projects.deep_view() =~= orig.map_values(|p: ProjectView| spec_norm_project(p)));
    }
}

/// Default zero task sort positions and rewrite blank or unknown project
/// references to the inbox.
fn normalize_tasks(tasks: &mut Vec<Task>, projects: &Vec<Project>)
    ensures
        final(tasks).deep_view() == old(tasks).deep_view().map_values(
            |t: TaskView| spec_norm_task(t, projects.deep_view()),
        ),
{
    let ghost orig = tasks.deep_view();
    let mut i: usize = 0;
    while i < tasks.len()
        invariant
            0 <= i <= tasks.len(),
            tasks.deep_view().len() == orig.len(),
            tasks.len() == orig.len(),
            forall|j: int|
                0 <= j < i ==> tasks.deep_view()[j] == spec_norm_task(
                    orig[j],
                    projects.deep_view(),
                ),
            forall|j: int| i <= j < orig.len() ==> tasks.deep_view()[j] == orig[j],
        decreases tasks.len() - i,
    {
        let ghost pre = tasks.deep_view();
        if tasks[i].sort_order == 0 {
            let so = scaled_sort(tasks[i].created_at);
            tasks[i].sort_order = so;
        }
        let blank = is_blank(&tasks[i].project_id);
        let known = knows_project(projects, &tasks[i].project_id);
        if blank || !known {
            tasks[i].project_id = inbox_id();
        }
        i = i + 1;
        proof {
            assert forall|j: int|
                0 <= j < i implies tasks.deep_view()[j] == spec_norm_task(
                    orig[j],
                    projects.deep_view(),
                ) by {
                assert(tasks.deep_view()[j] == tasks@[j].deep_view());
                if j < i - 1 {
                    assert(tasks@[j].deep_view() == pre[j]);
                }
            }
            assert forall|j: int|
                i <= j < orig.len() implies tasks.deep_view()[j] == orig[j] by {
                assert(tasks.deep_view()[j] == tasks@[j].deep_view());
                assert(tasks@[j].deep_view() == pre[j]);
            }
        }
    }
    proof {
        assert(tasks.deep_view() =~= orig.map_values(
            |t: TaskView| spec_norm_task(t, projects.deep_view()),
        ));
    }
}

/// An owned, consistent copy of everything the store holds.
#[derive(Clone, Debug)]
pub struct AppStateSnapshot {
    pub tasks: Vec<Task>,
    pub projects: Vec<Project>,
    pub settings: Settings,
}

/// The in-memory task store.
pub struct AppState {
    pub tasks: Vec<Task>,
    pub projects: Vec<Project>,
    pub settings: Settings,
    /// While the user is recording a shortcut, the global handler is ignored.
    pub shortcut_capture_active: bool,
}

impl AppState {
    /// The store's structural invariant: the inbox exists and every task
    /// references a known project.
    pub open spec fn wf(self) -> bool {
        &&& spec_has_inbox(self.projects.deep_view())
        &&& forall|i: int|
            0 <= i < self.tasks.deep_view().len() ==> spec_known_project(
                self.projects.deep_view(),
                (#[trigger] self.tasks.deep_view()[i]).project_id,
            )
    }

    /// Build a store from loaded collections, creating the inbox at `now`
    /// when missing and normalizing every project and task.
    pub fn new(tasks: Vec<Task>, projects: Vec<Project>, settings: Settings, now: i64) -> (s:
        AppState)
        ensures
            s.projects.deep_view() == spec_with_inbox(projects.deep_view(), now).map_values(
                |p: ProjectView| spec_norm_project(p),
            ),
            s.tasks.deep_view() == tasks.deep_view().map_values(
                |t: TaskView| spec_norm_task(t, s.projects.deep_view()),
            ),
            s.settings == settings,
            !s.shortcut_capture_active,
            s.wf(),
    {
        let ghost orig_tasks = tasks.deep_view();
        let ghost orig_projects = projects.deep_view();
        let mut tasks = tasks;
        let mut projects = projects;
        ensure_inbox_project(&mut projects, now);
        normalize_projects(&mut projects);
        normalize_tasks(&mut tasks, &projects);
        let s = AppState { tasks, projects, settings, shortcut_capture_active: false };
        proof {
            lemma_with_inbox_norm_has_inbox(orig_projects, now, s.projects.deep_view());
            lemma_normalized_tasks_known(orig_tasks, s.tasks.deep_view(), s.projects.deep_view());
        }
        s
    }

    pub fn is_shortcut_capture_active(&self) -> (r: bool)
        ensures
            r == self.shortcut_capture_active,
    {
        self.shortcut_capture_active
    }

    pub fn set_shortcut_capture_active(&mut self, active: bool)
        ensures
            *final(self) == (AppState { shortcut_capture_active: active, ..*old(self) }),
    {
        self.shortcut_capture_active = active;
    }

    /// A deep copy of the task list.
    pub fn tasks(&self) -> (r: Vec<Task>)
        ensures
            r.deep_view() == self.tasks.deep_view(),
    {
        clone_tasks(&self.tasks)
    }

    /// A deep copy of the project list.
    pub fn projects(&self) -> (r: Vec<Project>)
        ensures
            r.deep_view() == self.projects.deep_view(),
    {
        clone_projects(&self.projects)
    }

    /// A deep copy of the settings.
    pub fn settings(&self) -> (r: Settings)
        ensures
            r.deep_view() == self.settings.deep_view(),
    {
        self.settings.clone()
    }

    /// A consistent deep copy of everything at once.
    pub fn snapshot(&self) -> (r: AppStateSnapshot)
        ensures
            r.tasks.deep_view() == self.tasks.deep_view(),
            r.projects.deep_view() == self.projects.deep_view(),
            r.settings.deep_view() == self.settings.deep_view(),
    {
        AppStateSnapshot {
            tasks: clone_tasks(&self.tasks),
            projects: clone_projects(&self.projects),
            settings: self.settings.clone(),
        }
    }

    /// The persisted task document for the current state.
    pub fn tasks_file(&self) -> (r: TasksFile)
        ensures
            r.schema_version == SCHEMA_VERSION,
            r.tasks.deep_view() == self.tasks.deep_view(),
            r.projects.deep_view() == self.projects.deep_view(),
    {
        TasksFile {
            schema_version: SCHEMA_VERSION,
            tasks: clone_tasks(&self.tasks),
            projects: clone_projects(&self.projects),
        }
    }

    /// The persisted settings document for the current state.
    pub fn settings_file(&self) -> (r: SettingsFile)
        ensures
            r.schema_version == SCHEMA_VERSION,
            r.settings.deep_view() == self.settings.deep_view(),
    {
        SettingsFile { schema_version: SCHEMA_VERSION, settings: self.settings.clone() }
    }

    /// Append a task as given; callers normalize first where needed.
    pub fn add_task(&mut self, task: Task)
        ensures
            final(self).tasks.deep_view() == old(self).tasks.deep_view().push(task.deep_view()),
            final(self).projects == old(self).projects,
            final(self).settings == old(self).settings,
            old(self).wf() && spec_known_project(
                old(self).projects.deep_view(),
                task.deep_view().project_id,
            ) ==> final(self).wf(),
    {
        let ghost prev = self.tasks.deep_view();
        self.tasks.push(task);
        proof {
            assert(self.tasks.deep_view() =~= prev.push(task.deep_view()));
        }
    }

    /// Append a project as given.
    pub fn add_project(&mut self, project: Project)
        ensures
            final(self).projects.deep_view() == old(self).projects.deep_view().push(
                project.deep_view(),
            ),
            final(self).tasks == old(self).tasks,
            final(self).settings == old(self).settings,
            old(self).wf() ==> final(self).wf(),
    {
        let ghost prev = self.projects.deep_view();
        self.projects.push(project);
        proof {
            assert(self.projects.deep_view() =~= prev.push(project.deep_view()));
            if old(self).wf() {
                lemma_known_project_grows(prev, project.deep_view(), old(self).tasks.deep_view());
            }
        }
    }

    /// Replace the task list wholesale; the new tasks are normalized against
    /// the current projects.
    pub fn replace_tasks(&mut self, tasks: Vec<Task>)
        ensures
            final(self).tasks.deep_view() == tasks.deep_view().map_values(
                |t: TaskView| spec_norm_task(t, old(self).projects.deep_view()),
            ),
            final(self).projects == old(self).projects,
            final(self).settings == old(self).settings,
            old(self).wf() ==> final(self).wf(),
    {
        let ghost orig_tasks = tasks.deep_view();
        let mut next = tasks;
        normalize_tasks(&mut next, &self.projects);
        self.tasks = next;
        proof {
            if old(self).wf() {
                lemma_normalized_tasks_known(
                    orig_tasks,
                    self.tasks.deep_view(),
                    self.projects.deep_view(),
                );
            }
        }
    }

    /// Replace the project list wholesale: the inbox is re-created at `now`
    /// when missing, projects are normalized, and every task referencing a
    /// now-missing project moves to the inbox.
    pub fn replace_projects(&mut self, projects: Vec<Project>, now: i64)
        ensures
            final(self).projects.deep_view() == spec_with_inbox(
                projects.deep_view(),
                now,
            ).map_values(|p: ProjectView| spec_norm_project(p)),
            final(self).tasks.deep_view() == old(self).tasks.deep_view().map_values(
                |t: TaskView| spec_norm_task(t, final(self).projects.deep_view()),
            ),
            final(self).settings == old(self).settings,
            final(self).wf(),
    {
        let ghost orig_projects = projects.deep_view();
        let mut next = projects;
        ensure_inbox_project(&mut next, now);
        normalize_projects(&mut next);
        self.projects = next;
        let ghost orig_tasks = self.tasks.deep_view();
        normalize_tasks(&mut self.tasks, &self.projects);
        proof {
            lemma_with_inbox_norm_has_inbox(orig_projects, now, self.projects.deep_view());
            lemma_normalized_tasks_known(
                orig_tasks,
                self.tasks.deep_view(),
                self.projects.deep_view(),
            );
        }
    }

    /// Replace the first task carrying the incoming task's id, keeping the
    /// stored sample tag when the incoming one is absent; a no-op when the
    /// id is unknown.
    pub fn update_task(&mut self, task: Task)
        ensures
            final(self).projects == old(self).projects,
            final(self).settings == old(self).settings,
            final(self).shortcut_capture_active == old(self).shortcut_capture_active,
            spec_no_task_match(old(self).tasks.deep_view(), task.deep_view().id) ==> final(self).tasks == old(self).tasks,
            forall|i: int|
                spec_first_task_match(old(self).tasks.deep_view(), task.deep_view().id, i)
                    ==> final(self).tasks.deep_view() == old(self).tasks.deep_view().update(
                    i,
                    spec_merged_task(task.deep_view(), old(self).tasks.deep_view()[i]),
                ),
            old(self).wf() && spec_known_project(
                old(self).projects.deep_view(),
                task.deep_view().project_id,
            ) ==> final(self).wf(),
    {
        let found = find_first_task(&self.tasks, &task.id);
        match found {
            None => {},
            Some(i) => {
                let ghost prev = self.tasks.deep_view();
                let mut next = task;
                if next.sample_tag.is_none() {
                    next.sample_tag = self.tasks[i].sample_tag.clone();
                }
                self.tasks[i] = next;
                proof {
                    assert(self.tasks.deep_view() =~= prev.update(
                        i as int,
                        spec_merged_task(task.deep_view(), prev[i as int]),
                    ));
                }
            },
        }
    }

    /// Replace the first project carrying the incoming project's id; a no-op
    /// when the id is unknown.
    pub fn update_project(&mut self, project: Project)
        ensures
            final(self).tasks == old(self).tasks,
            final(self).settings == old(self).settings,
            final(self).shortcut_capture_active == old(self).shortcut_capture_active,
            spec_no_project_match(old(self).projects.deep_view(), project.deep_view().id)
                ==> final(self).projects == old(self).projects,
            forall|i: int|
                spec_first_project_match(old(self).projects.deep_view(), project.deep_view().id, i)
                    ==> final(self).projects.deep_view() == old(self).projects.deep_view().update(i, project.deep_view()),
            old(self).wf() ==> final(self).wf(),
    {
        let found = find_first_project(&self.projects, &project.id);
        match found {
            None => {},
            Some(i) => {
                let ghost prev = self.projects.deep_view();
                let ghost pv = project.deep_view();
                self.projects[i] = project;
                proof {
                    assert(self.projects.deep_view() =~= prev.update(i as int, pv));
                    if old(self).wf() {
                        lemma_update_same_id_keeps_known(
                            prev,
                            i as int,
                            pv,
                            old(self).tasks.deep_view(),
                        );
                    }
                }
            },
        }
    }

    /// Remove every project carrying the id (never the inbox) and move the
    /// tasks that referenced it into the inbox.
    pub fn remove_project(&mut self, project_id: &String)
        ensures
            final(self).settings == old(self).settings,
            final(self).shortcut_capture_active == old(self).shortcut_capture_active,
            project_id@ == "inbox"@ ==> final(self).tasks == old(self).tasks && final(self).projects == old(self).projects,
            project_id@ != "inbox"@ ==> final(self).projects.deep_view() == old(self).projects.deep_view().filter(|p: ProjectView| p.id != project_id@) && final(self).tasks.deep_view() == old(self).tasks.deep_view().map_values(
                |t: TaskView| spec_norm_task(t, final(self).projects.deep_view()),
            ),
            old(self).wf() ==> final(self).wf(),
    {
        let inbox = inbox_id();
        if *project_id == inbox {
            return;
        }
        let ghost prev = self.projects.deep_view();
        let ghost pred = |p: ProjectView| p.id != project_id@;
        let mut taken: Vec<Project> = Vec::new();
        core::mem::swap(&mut self.projects, &mut taken);
        let mut rest = taken;
        let ghost mut done = Seq::<ProjectView>::empty();
        proof {
            assert(done + rest.deep_view() =~= prev);
            assert(self.projects.deep_view() =~= done.filter(pred));
        }
        while rest.len() > 0
            invariant
                done + rest.deep_view() == prev,
                self.projects.deep_view() == done.filter(pred),
                pred == (|p: ProjectView| p.id != project_id@),
                self.tasks == old(self).tasks,
                self.settings == old(self).settings,
                self.shortcut_capture_active == old(self).shortcut_capture_active,
            decreases rest.len(),
        {
            let ghost old_done = done;
            let ghost old_rest = rest.deep_view();
            let p = rest.remove(0);
            proof {
                done = old_done.push(p.deep_view());
                assert(old_rest =~= seq![p.deep_view()] + rest.deep_view());
                assert(done =~= old_done + seq![p.deep_view()]);
                assert(done + rest.deep_view() =~= prev);
                Seq::filter_distributes_over_add(old_done, seq![p.deep_view()], pred);
                lemma_filter_singleton(p.deep_view(), pred);
            }
            if !(p.id == *project_id) {
                let ghost kept = self.projects.deep_view();
                self.projects.push(p);
                proof {
                    assert(self.projects.deep_view() =~= kept.push(done.last()));
                    assert(self.projects.deep_view() =~= done.filter(pred));
                }
            } else {
                proof {
                    assert(self.projects.deep_view() =~= done.filter(pred));
                }
            }
        }
        proof {
            assert(done =~= prev);
        }
        let ghost orig_tasks = self.tasks.deep_view();
        normalize_tasks(&mut self.tasks, &self.projects);
        proof {
            if old(self).wf() {
                lemma_filter_keeps_inbox(prev, project_id@);
                lemma_normalized_tasks_known(
                    orig_tasks,
                    self.tasks.deep_view(),
                    self.projects.deep_view(),
                );
            }
        }
    }

    /// Remove every task carrying the id.
    pub fn remove_task(&mut self, task_id: &String)
        ensures
            final(self).projects == old(self).projects,
            final(self).settings == old(self).settings,
            final(self).shortcut_capture_active == old(self).shortcut_capture_active,
            final(self).tasks.deep_view() == old(self).tasks.deep_view().filter(
                |t: TaskView| t.id != task_id@,
            ),
            old(self).wf() ==> final(self).wf(),
    {
        let ghost prev = self.tasks.deep_view();
        let ghost pred = |t: TaskView| t.id != task_id@;
        let mut taken: Vec<Task> = Vec::new();
        core::mem::swap(&mut self.tasks, &mut taken);
        let mut rest = taken;
        let ghost mut done = Seq::<TaskView>::empty();
        proof {
            assert(done + rest.deep_view() =~= prev);
            assert(self.tasks.deep_view() =~= done.filter(pred));
        }
        while rest.len() > 0
            invariant
                done + rest.deep_view() == prev,
                self.tasks.deep_view() == done.filter(pred),
                pred == (|t: TaskView| t.id != task_id@),
                self.projects == old(self).projects,
                self.settings == old(self).settings,
                self.shortcut_capture_active == old(self).shortcut_capture_active,
            decreases rest.len(),
        {
            let ghost old_done = done;
            let ghost old_rest = rest.deep_view();
            let t = rest.remove(0);
            proof {
                done = old_done.push(t.deep_view());
                assert(old_rest =~= seq![t.deep_view()] + rest.deep_view());
                assert(done =~= old_done + seq![t.deep_view()]);
                assert(done + rest.deep_view() =~= prev);
                Seq::filter_distributes_over_add(old_done, seq![t.deep_view()], pred);
                lemma_filter_singleton(t.deep_view(), pred);
            }
            if !(t.id == *task_id) {
                let ghost kept = self.tasks.deep_view();
                self.tasks.push(t);
                proof {
                    assert(self.tasks.deep_view() =~= kept.push(done.last()));
                    assert(self.tasks.deep_view() =~= done.filter(pred));
                }
            } else {
                proof {
                    assert(self.tasks.deep_view() =~= done.filter(pred));
                }
            }
        }
        proof {
            assert(done =~= prev);
            if old(self).wf() {
                lemma_filter_subset_known(prev, pred, old(self).projects.deep_view());
            }
        }
    }

    /// Remove every task whose id appears in `task_ids`.
    pub fn remove_tasks(&mut self, task_ids: &Vec<String>)
        ensures
            final(self).projects == old(self).projects,
            final(self).settings == old(self).settings,
            final(self).shortcut_capture_active == old(self).shortcut_capture_active,
            final(self).tasks.deep_view() == old(self).tasks.deep_view().filter(
                |t: TaskView| !task_ids.deep_view().contains(t.id),
            ),
            old(self).wf() ==> final(self).wf(),
    {
        let ghost prev = self.tasks.deep_view();
        let ghost pred = |t: TaskView| !task_ids.deep_view().contains(t.id);
        let mut taken: Vec<Task> = Vec::new();
        core::mem::swap(&mut self.tasks, &mut taken);
        let mut rest = taken;
        let ghost mut done = Seq::<TaskView>::empty();
        proof {
            assert(done + rest.deep_view() =~= prev);
            assert(self.tasks.deep_view() =~= done.filter(pred));
        }
        while rest.len() > 0
            invariant
                done + rest.deep_view() == prev,
                self.tasks.deep_view() == done.filter(pred),
                pred == (|t: TaskView| !task_ids.deep_view().contains(t.id)),
                self.projects == old(self).projects,
                self.settings == old(self).settings,
                self.shortcut_capture_active == old(self).shortcut_capture_active,
            decreases rest.len(),
        {
            let ghost old_done = done;
            let ghost old_rest = rest.deep_view();
            let t = rest.remove(0);
            proof {
                done = old_done.push(t.deep_view());
                assert(old_rest =~= seq![t.deep_view()] + rest.deep_view());
                assert(done =~= old_done + seq![t.deep_view()]);
                assert(done + rest.deep_view() =~= prev);
                Seq::filter_distributes_over_add(old_done, seq![t.deep_view()], pred);
                lemma_filter_singleton(t.deep_view(), pred);
            }
            if !id_in_list(task_ids, &t.id) {
                let ghost kept = self.tasks.deep_view();
                self.tasks.push(t);
                proof {
                    assert(self.tasks.deep_view() =~= kept.push(done.last()));
                    assert(self.tasks.deep_view() =~= done.filter(pred));
                }
            } else {
                proof {
                    assert(self.tasks.deep_view() =~= done.filter(pred));
                }
            }
        }
        proof {
            assert(done =~= prev);
            if old(self).wf() {
                lemma_filter_subset_known(prev, pred, old(self).projects.deep_view());
            }
        }
    }

    /// Exchange the manual sort positions of the first tasks carrying the
    /// two ids and stamp both as updated; false (and no change) when either
    /// id is missing or the ids are the same.
    pub fn swap_sort_order(&mut self, first_id: &String, second_id: &String, updated_at: i64) -> (r:
        bool)
        ensures
            final(self).projects == old(self).projects,
            final(self).settings == old(self).settings,
            final(self).shortcut_capture_active == old(self).shortcut_capture_active,
            first_id@ == second_id@ ==> !r,
            first_id@ != second_id@ ==> r == (!spec_no_task_match(
                old(self).tasks.deep_view(),
                first_id@,
            ) && !spec_no_task_match(old(self).tasks.deep_view(), second_id@)),
            !r ==> final(self).tasks == old(self).tasks,
            forall|i: int, j: int|
                first_id@ != second_id@ && spec_first_task_match(
                    old(self).tasks.deep_view(),
                    first_id@,
                    i,
                ) && spec_first_task_match(old(self).tasks.deep_view(), second_id@, j) ==> final(self).tasks.deep_view() == spec_swapped_tasks(
                    old(self).tasks.deep_view(),
                    i,
                    j,
                    updated_at,
                ),
            old(self).wf() ==> final(self).wf(),
    {
        let fi = find_first_task(&self.tasks, first_id);
        let si = find_first_task(&self.tasks, second_id);
        if *first_id == *second_id {
            return false;
        }
        let (i, j): (usize, usize) = match (fi, si) {
            (Some(i), Some(j)) => (i, j),
            _ => {
                return false;
            },
        };
        let ghost prev = self.tasks.deep_view();
        let a_so = self.tasks[i].sort_order;
        let b_so = self.tasks[j].sort_order;
        self.tasks[i].sort_order = b_so;
        self.tasks[j].sort_order = a_so;
        self.tasks[i].updated_at = updated_at;
        self.tasks[j].updated_at = updated_at;
        proof {
            assert(self.tasks.deep_view() =~= spec_swapped_tasks(
                prev,
                i as int,
                j as int,
                updated_at,
            ));
            if old(self).wf() {
                lemma_swap_keeps_known(
                    prev,
                    self.tasks.deep_view(),
                    old(self).projects.deep_view(),
                );
            }
        }
        true
    }

    /// As `swap_sort_order`, for projects.
    pub fn swap_project_sort_order(
        &mut self,
        first_id: &String,
        second_id: &String,
        updated_at: i64,
    ) -> (r: bool)
        ensures
            final(self).tasks == old(self).tasks,
            final(self).settings == old(self).settings,
            final(self).shortcut_capture_active == old(self).shortcut_capture_active,
            first_id@ == second_id@ ==> !r,
            first_id@ != second_id@ ==> r == (!spec_no_project_match(
                old(self).projects.deep_view(),
                first_id@,
            ) && !spec_no_project_match(old(self).projects.deep_view(), second_id@)),
            !r ==> final(self).projects == old(self).projects,
            forall|i: int, j: int|
                first_id@ != second_id@ && spec_first_project_match(
                    old(self).projects.deep_view(),
                    first_id@,
                    i,
                ) && spec_first_project_match(old(self).projects.deep_view(), second_id@, j)
                    ==> final(self).projects.deep_view() == spec_swapped_projects(
                    old(self).projects.deep_view(),
                    i,
                    j,
                    updated_at,
                ),
            old(self).wf() ==> final(self).wf(),
    {
        let fi = find_first_project(&self.projects, first_id);
        let si = find_first_project(&self.projects, second_id);
        if *first_id == *second_id {
            return false;
        }
        let (i, j): (usize, usize) = match (fi, si) {
            (Some(i), Some(j)) => (i, j),
            _ => {
                return false;
            },
        };
        let ghost prev = self.projects.deep_view();
        let a_so = self.projects[i].sort_order;
        let b_so = self.projects[j].sort_order;
        self.projects[i].sort_order = b_so;
        self.projects[j].sort_order = a_so;
        self.projects[i].updated_at = updated_at;
        self.projects[j].updated_at = updated_at;
        proof {
            assert(self.projects.deep_view() =~= spec_swapped_projects(
                prev,
                i as int,
                j as int,
                updated_at,
            ));
            if old(self).wf() {
                lemma_swap_projects_keeps_known(
                    prev,
                    self.projects.deep_view(),
                    old(self).tasks.deep_view(),
                );
            }
        }
        true
    }

    /// Mark the first task carrying the id as completed at `now`, clearing
    /// any snooze and stamping the firing time; returns the finalized task,
    /// or nothing when the id is unknown.
    pub fn complete_task(&mut self, task_id: &String, now: i64) -> (r: Option<Task>)
        ensures
            final(self).projects == old(self).projects,
            final(self).settings == old(self).settings,
            final(self).shortcut_capture_active == old(self).shortcut_capture_active,
            spec_no_task_match(old(self).tasks.deep_view(), task_id@) ==> r is None && final(self).tasks == old(self).tasks,
            forall|i: int|
                spec_first_task_match(old(self).tasks.deep_view(), task_id@, i) ==> final(self).tasks.deep_view() == old(self).tasks.deep_view().update(
                    i,
                    spec_completed_task(old(self).tasks.deep_view()[i], now),
                ) && (r matches Some(t) && t.deep_view() == spec_completed_task(
                    old(self).tasks.deep_view()[i],
                    now,
                )),
            old(self).wf() ==> final(self).wf(),
    {
        let found = find_first_task(&self.tasks, task_id);
        match found {
            None => None,
            Some(i) => {
                let ghost prev = self.tasks.deep_view();
                self.tasks[i].completed = true;
                self.tasks[i].completed_at = Some(now);
                self.tasks[i].updated_at = now;
                self.tasks[i].reminder.snoozed_until = None;
                self.tasks[i].reminder.last_fired_at = Some(now);
                let out = self.tasks[i].clone();
                proof {
                    assert(self.tasks.deep_view() =~= prev.update(
                        i as int,
                        spec_completed_task(prev[i as int], now),
                    ));
                    if old(self).wf() {
                        lemma_swap_keeps_known(
                            prev,
                            self.tasks.deep_view(),
                            old(self).projects.deep_view(),
                        );
                    }
                }
                Some(out)
            },
        }
    }

    /// Record that a reminder fired for the task at `at`: stamp the firing
    /// time, count it, and consume a snooze that `at` has reached.
    pub fn mark_reminder_fired(&mut self, task: &Task, at: i64)
        ensures
            final(self).projects == old(self).projects,
            final(self).settings == old(self).settings,
            final(self).shortcut_capture_active == old(self).shortcut_capture_active,
            spec_no_task_match(old(self).tasks.deep_view(), task.deep_view().id) ==> final(self).tasks == old(self).tasks,
            forall|i: int|
                spec_first_task_match(old(self).tasks.deep_view(), task.deep_view().id, i)
                    ==> final(self).tasks.deep_view() == old(self).tasks.deep_view().update(
                    i,
                    (TaskView {
                        reminder: spec_fired_reminder(old(self).tasks.deep_view()[i].reminder, at),
                        ..old(self).tasks.deep_view()[i]
                    }),
                ),
            old(self).wf() ==> final(self).wf(),
    {
        let found = find_first_task(&self.tasks, &task.id);
        match found {
            None => {},
            Some(i) => {
                let ghost prev = self.tasks.deep_view();
                self.tasks[i].reminder.last_fired_at = Some(at);
                let base: i64 = if self.tasks[i].reminder.repeat_fired_count > 0 {
                    self.tasks[i].reminder.repeat_fired_count
                } else {
                    0
                };
                let count: i64 = if base > i64::MAX - 1 {
                    i64::MAX
                } else {
                    base + 1
                };
                self.tasks[i].reminder.repeat_fired_count = count;
                match self.tasks[i].reminder.snoozed_until {
                    Some(s) => {
                        if s <= at {
                            self.tasks[i].reminder.snoozed_until = None;
                        }
                    },
                    None => {},
                }
                proof {
                    assert(self.tasks.deep_view() =~= prev.update(
                        i as int,
                        (TaskView {
                            reminder: spec_fired_reminder(prev[i as int].reminder, at),
                            ..prev[i as int]
                        }),
                    ));
                    if old(self).wf() {
                        lemma_swap_keeps_known(
                            prev,
                            self.tasks.deep_view(),
                            old(self).projects.deep_view(),
                        );
                    }
                }
            },
        }
    }

    /// Replace the settings wholesale.
    pub fn update_settings(&mut self, settings: Settings)
        ensures
            final(self).settings == settings,
            final(self).tasks == old(self).tasks,
            final(self).projects == old(self).projects,
            old(self).wf() ==> final(self).wf(),
    {
        self.settings = settings;
    }
}

/// No task in the list carries the id.
pub open spec fn spec_no_task_match(ts: Seq<TaskView>, id: Seq<char>) -> bool {
    forall|j: int| 0 <= j < ts.len() ==> (#[trigger] ts[j]).id != id
}

/// `i` is the first position in the list whose task carries the id.
pub open spec fn spec_first_task_match(ts: Seq<TaskView>, id: Seq<char>, i: int) -> bool {
    &&& 0 <= i < ts.len()
    &&& ts[i].id == id
    &&& forall|j: int| 0 <= j < i ==> (#[trigger] ts[j]).id != id
}

/// No project in the list carries the id.
pub open spec fn spec_no_project_match(ps: Seq<ProjectView>, id: Seq<char>) -> bool {
    forall|j: int| 0 <= j < ps.len() ==> (#[trigger] ps[j]).id != id
}

/// `i` is the first position in the list whose project carries the id.
pub open spec fn spec_first_project_match(ps: Seq<ProjectView>, id: Seq<char>, i: int) -> bool {
    &&& 0 <= i < ps.len()
    &&& ps[i].id == id
    &&& forall|j: int| 0 <= j < i ==> (#[trigger] ps[j]).id != id
}

/// The stored task after an update: the incoming task, keeping the stored
/// sample tag when the incoming one is absent.
pub open spec fn spec_merged_task(incoming: TaskView, existing: TaskView) -> TaskView {
    if incoming.sample_tag is None {
        TaskView { sample_tag: existing.sample_tag, ..incoming }
    } else {
        incoming
    }
}

/// A task as `complete_task` finalizes it at `now`.
pub open spec fn spec_completed_task(t: TaskView, now: i64) -> TaskView {
    TaskView {
        completed: true,
        completed_at: Some(now),
        updated_at: now,
        reminder: ReminderConfig {
            snoozed_until: None,
            last_fired_at: Some(now),
            ..t.reminder
        },
        ..t
    }
}

/// Reminder state after a firing at `at`: the firing is stamped and counted
/// (never below zero, saturating), and a snooze that `at` has reached is
/// consumed.
pub open spec fn spec_fired_reminder(rc: ReminderConfig, at: i64) -> ReminderConfig {
    let base = if rc.repeat_fired_count > 0 {
        rc.repeat_fired_count
    } else {
        0
    };
    let count = if base > i64::MAX - 1 {
        i64::MAX
    } else {
        (base + 1) as i64
    };
    ReminderConfig {
        last_fired_at: Some(at),
        repeat_fired_count: count,
        snoozed_until: match rc.snoozed_until {
            Some(s) => if s <= at {
                None
            } else {
                Some(s)
            },
            None => None,
        },
        ..rc
    }
}

/// The task list with positions `i` and `j` having exchanged their manual
/// sort positions, both stamped as updated.
pub open spec fn spec_swapped_tasks(ts: Seq<TaskView>, i: int, j: int, at: i64) -> Seq<TaskView> {
    ts.update(i, TaskView { sort_order: ts[j].sort_order, updated_at: at, ..ts[i] }).update(
        j,
        TaskView { sort_order: ts[i].sort_order, updated_at: at, ..ts[j] },
    )
}

/// As `spec_swapped_tasks`, for projects.
pub open spec fn spec_swapped_projects(ps: Seq<ProjectView>, i: int, j: int, at: i64) -> Seq<
    ProjectView,
> {
    ps.update(i, ProjectView { sort_order: ps[j].sort_order, updated_at: at, ..ps[i] }).update(
        j,
        ProjectView { sort_order: ps[i].sort_order, updated_at: at, ..ps[j] },
    )
}

/// Index of the first task carrying the id, when any does.
fn find_first_task(tasks: &Vec<Task>, id: &String) -> (r: Option<usize>)
    ensures
        r is None ==> spec_no_task_match(tasks.deep_view(), id@),
        r matches Some(i) ==> spec_first_task_match(tasks.deep_view(), id@, i as int),
{
    let mut i: usize = 0;
    while i < tasks.len()
        invariant
            0 <= i <= tasks.len(),
            forall|j: int| 0 <= j < i ==> (#[trigger] tasks.deep_view()[j]).id != id@,
        decreases tasks.len() - i,
    {
        if tasks[i].id == *id {
            proof {
                assert(tasks.deep_view()[i as int].id == id@);
            }
            return Some(i);
        }
        i = i + 1;
    }
    None
}

/// Index of the first project carrying the id, when any does.
fn find_first_project(projects: &Vec<Project>, id: &String) -> (r: Option<usize>)
    ensures
        r is None ==> spec_no_project_match(projects.deep_view(), id@),
        r matches Some(i) ==> spec_first_project_match(projects.deep_view(), id@, i as int),
{
    let mut i: usize = 0;
    while i < projects.len()
        invariant
            0 <= i <= projects.len(),
            forall|j: int| 0 <= j < i ==> (#[trigger] projects.deep_view()[j]).id != id@,
        decreases projects.len() - i,
    {
        if projects[i].id == *id {
            proof {
                assert(projects.deep_view()[i as int].id == id@);
            }
            return Some(i);
        }
        i = i + 1;
    }
    None
}

/// True iff `id` appears in the id list.
fn id_in_list(ids: &Vec<String>, id: &String) -> (r: bool)
    ensures
        r == ids.deep_view().contains(id@),
{
    let mut i: usize = 0;
    while i < ids.len()
        invariant
            0 <= i <= ids.len(),
            forall|j: int| 0 <= j < i ==> (#[trigger] ids.deep_view()[j]) != id@,
        decreases ids.len() - i,
    {
        if ids[i] == *id {
            proof {
                assert(ids.deep_view()[i as int] == id@);
            }
            return true;
        }
        i = i + 1;
    }
    proof {
        if ids.deep_view().contains(id@) {
            let k = choose|k: int| 0 <= k < ids.deep_view().len() && ids.deep_view()[k] == id@;
            assert(false);
        }
    }
    false
}

/// Every element of a filtered sequence is an element of the original.
proof fn lemma_filter_elements<A>(s: Seq<A>, pred: spec_fn(A) -> bool)
    ensures
        forall|i: int| 0 <= i < s.filter(pred).len() ==> s.contains(#[trigger] s.filter(pred)[i]),
    decreases s.len(),
{
    reveal(Seq::filter);
    if s.len() > 0 {
        lemma_filter_elements(s.drop_last(), pred);
        let f = s.filter(pred);
        let fd = s.drop_last().filter(pred);
        assert forall|i: int| 0 <= i < f.len() implies s.contains(#[trigger] f[i]) by {
            if i < fd.len() {
                assert(fd[i] == f[i]);
                assert(s.drop_last().contains(fd[i]));
                let k = choose|k: int|
                    0 <= k < s.drop_last().len() && s.drop_last()[k] == fd[i];
                assert(s[k] == f[i]);
            } else {
                assert(f[i] == s.last());
                assert(s[s.len() - 1] == s.last());
            }
        }
    }
}

/// Removing projects other than the inbox keeps the inbox.
proof fn lemma_filter_keeps_inbox(ps: Seq<ProjectView>, removed: Seq<char>)
    requires
        spec_has_inbox(ps),
        removed != "inbox"@,
    ensures
        spec_has_inbox(ps.filter(|p: ProjectView| p.id != removed)),
{
    let pred = |p: ProjectView| p.id != removed;
    let j = choose|j: int| 0 <= j < ps.len() && (#[trigger] ps[j].id) == "inbox"@;
    ps.lemma_filter_contains(pred, j);
    let f = ps.filter(pred);
    let k = choose|k: int| 0 <= k < f.len() && f[k] == ps[j];
    assert(f[k].id == "inbox"@);
}

/// A sublist of tasks that all referenced known projects still does.
proof fn lemma_filter_subset_known(
    ts: Seq<TaskView>,
    pred: spec_fn(TaskView) -> bool,
    ps: Seq<ProjectView>,
)
    requires
        forall|i: int|
            0 <= i < ts.len() ==> spec_known_project(ps, (#[trigger] ts[i]).project_id),
    ensures
        forall|i: int|
            0 <= i < ts.filter(pred).len() ==> spec_known_project(
                ps,
                (#[trigger] ts.filter(pred)[i]).project_id,
            ),
{
    lemma_filter_elements(ts, pred);
    let f = ts.filter(pred);
    assert forall|i: int|
        0 <= i < f.len() implies spec_known_project(ps, (#[trigger] f[i]).project_id) by {
        assert(ts.contains(f[i]));
        let k = choose|k: int| 0 <= k < ts.len() && ts[k] == f[i];
        assert(spec_known_project(ps, ts[k].project_id));
    }
}

/// An elementwise change that keeps every task's project reference keeps
/// every reference known.
proof fn lemma_swap_keeps_known(prev: Seq<TaskView>, cur: Seq<TaskView>, ps: Seq<ProjectView>)
    requires
        cur.len() == prev.len(),
        forall|i: int| 0 <= i < cur.len() ==> (#[trigger] cur[i]).project_id == prev[i].project_id,
        forall|i: int|
            0 <= i < prev.len() ==> spec_known_project(ps, (#[trigger] prev[i]).project_id),
    ensures
        forall|i: int|
            0 <= i < cur.len() ==> spec_known_project(ps, (#[trigger] cur[i]).project_id),
{
}

/// An elementwise change that keeps every project's id keeps the inbox and
/// every task reference known.
proof fn lemma_swap_projects_keeps_known(
    prev: Seq<ProjectView>,
    cur: Seq<ProjectView>,
    ts: Seq<TaskView>,
)
    requires
        cur.len() == prev.len(),
        forall|i: int| 0 <= i < cur.len() ==> (#[trigger] cur[i]).id == prev[i].id,
        spec_has_inbox(prev),
        forall|i: int|
            0 <= i < ts.len() ==> spec_known_project(prev, (#[trigger] ts[i]).project_id),
    ensures
        spec_has_inbox(cur),
        forall|i: int|
            0 <= i < ts.len() ==> spec_known_project(cur, (#[trigger] ts[i]).project_id),
{
    let j = choose|j: int| 0 <= j < prev.len() && (#[trigger] prev[j].id) == "inbox"@;
    assert(cur[j].id == "inbox"@);
    assert forall|i: int|
        0 <= i < ts.len() implies spec_known_project(cur, (#[trigger] ts[i]).project_id) by {
        let k = choose|k: int| 0 <= k < prev.len() && (#[trigger] prev[k].id) == ts[i].project_id;
        assert(cur[k].id == ts[i].project_id);
    }
}

/// Replacing a project by one with the same id keeps the inbox and every
/// task reference known.
proof fn lemma_update_same_id_keeps_known(
    ps: Seq<ProjectView>,
    i: int,
    pv: ProjectView,
    ts: Seq<TaskView>,
)
    requires
        0 <= i < ps.len(),
        pv.id == ps[i].id,
        spec_has_inbox(ps),
        forall|k: int|
            0 <= k < ts.len() ==> spec_known_project(ps, (#[trigger] ts[k]).project_id),
    ensures
        spec_has_inbox(ps.update(i, pv)),
        forall|k: int|
            0 <= k < ts.len() ==> spec_known_project(ps.update(i, pv), (#[trigger] ts[k]).project_id),
{
    lemma_swap_projects_keeps_known(ps, ps.update(i, pv), ts);
}

/// Normalized tasks always reference a known project, provided the project
/// list holds the inbox.
proof fn lemma_normalized_tasks_known(orig: Seq<TaskView>, ts: Seq<TaskView>, ps: Seq<ProjectView>)
    requires
        spec_has_inbox(ps),
        ts == orig.map_values(|t: TaskView| spec_norm_task(t, ps)),
    ensures
        forall|i: int|
            0 <= i < ts.len() ==> spec_known_project(ps, (#[trigger] ts[i]).project_id),
{
    assert forall|i: int|
        0 <= i < ts.len() implies spec_known_project(ps, (#[trigger] ts[i]).project_id) by {
        assert(ts[i] == spec_norm_task(orig[i], ps));
    }
}

/// After appending the inbox (when missing) and normalizing, the inbox is
/// known.
proof fn lemma_with_inbox_norm_has_inbox(qs: Seq<ProjectView>, now: i64, ps: Seq<ProjectView>)
    requires
        ps == spec_with_inbox(qs, now).map_values(|p: ProjectView| spec_norm_project(p)),
    ensures
        spec_has_inbox(ps),
{
    let withq = spec_with_inbox(qs, now);
    if spec_has_inbox(qs) {
        let j = choose|j: int| 0 <= j < qs.len() && (#[trigger] qs[j].id) == "inbox"@;
        assert(withq[j].id == "inbox"@);
        assert(ps[j] == spec_norm_project(withq[j]));
        assert(ps[j].id == "inbox"@);
    } else {
        let j = withq.len() - 1;
        assert(withq[j] == spec_inbox_project(now));
        assert(ps[j] == spec_norm_project(withq[j]));
        assert(ps[j].id == "inbox"@);
    }
}

/// Growing the project list keeps every known reference known.
proof fn lemma_known_project_grows(ps: Seq<ProjectView>, p: ProjectView, ts: Seq<TaskView>)
    requires
        spec_has_inbox(ps),
        forall|i: int|
            0 <= i < ts.len() ==> spec_known_project(ps, (#[trigger] ts[i]).project_id),
    ensures
        spec_has_inbox(ps.push(p)),
        forall|i: int|
            0 <= i < ts.len() ==> spec_known_project(ps.push(p), (#[trigger] ts[i]).project_id),
{
    let j = choose|j: int| 0 <= j < ps.len() && (#[trigger] ps[j].id) == "inbox"@;
    assert(ps.push(p)[j].id == "inbox"@);
    assert forall|i: int|
        0 <= i < ts.len() implies spec_known_project(ps.push(p), (#[trigger] ts[i]).project_id) by {
        let k = choose|k: int| 0 <= k < ps.len() && (#[trigger] ps[k].id) == ts[i].project_id;
        assert(ps.push(p)[k].id == ts[i].project_id);
    }
}

} // verus!
