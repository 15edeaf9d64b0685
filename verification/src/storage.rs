use vstd::prelude::*;

use crate::casing::str_eq;
use crate::error::TmError;
use crate::error::TmResult;
use crate::task::Task;
use crate::task::TaskView;

verus! {

/// A project as mathematics: its name and the views of its tasks, in order.
#[verifier::ext_equal]
pub struct ProjectView {
    pub name: Seq<char>,
    pub tasks: Seq<TaskView>,
}

/// One project's tasks, in insertion order.
#[derive(Debug)]
pub struct ProjectTasks {
    pub name: String,
    pub tasks: Vec<Task>,
}

impl View for ProjectTasks {
    type V = ProjectView;

    open spec fn view(&self) -> ProjectView {
        ProjectView { name: self.name@, tasks: self.tasks@.map_values(|t: Task| t@) }
    }
}

/// Tasks grouped by project name, in the order the projects first appeared.
#[derive(Debug)]
pub struct TaskStorage {
    pub projects: Vec<ProjectTasks>,
}

impl View for TaskStorage {
    type V = Seq<ProjectView>;

    open spec fn view(&self) -> Seq<ProjectView> {
        self.projects@.map_values(|p: ProjectTasks| p@)
    }
}

/// The storage invariant: project names are distinct, no project is empty,
/// and within a project the task titles are distinct.
pub open spec fn storage_wf(ps: Seq<ProjectView>) -> bool {
    &&& forall|i: int, j: int|
        0 <= i < j < ps.len() ==> (#[trigger] ps[i].name) != (#[trigger] ps[j].name)
    &&& forall|i: int| 0 <= i < ps.len() ==> (#[trigger] ps[i].tasks).len() > 0
    &&& forall|i: int, a: int, b: int|
        0 <= i < ps.len() && 0 <= a < b < ps[i].tasks.len() ==> (#[trigger] ps[i].tasks[a]).title
            != (#[trigger] ps[i].tasks[b]).title
}

/// Whether some project of this name is stored.
pub open spec fn has_project(ps: Seq<ProjectView>, name: Seq<char>) -> bool {
    exists|i: int| 0 <= i < ps.len() && (#[trigger] ps[i]).name == name
}

/// The index of the project of this name.
pub open spec fn project_at(ps: Seq<ProjectView>, name: Seq<char>) -> int {
    choose|i: int| 0 <= i < ps.len() && (#[trigger] ps[i]).name == name
}

/// Whether some task of this title is in the sequence.
pub open spec fn has_title(ts: Seq<TaskView>, title: Seq<char>) -> bool {
    exists|a: int| 0 <= a < ts.len() && (#[trigger] ts[a]).title == title
}

/// The index of the task of this title.
pub open spec fn title_at(ts: Seq<TaskView>, title: Seq<char>) -> int {
    choose|a: int| 0 <= a < ts.len() && (#[trigger] ts[a]).title == title
}

/// The tasks contributed by one project under a filter: all of them, tagged
/// with the project name, or none when the filter names another project.
pub open spec fn tagged_tasks(p: ProjectView, filter: Option<Seq<char>>) -> Seq<
    (Seq<char>, TaskView),
> {
    match filter {
        Some(f) if p.name != f => Seq::<(Seq<char>, TaskView)>::empty(),
        _ => p.tasks.map_values(|t: TaskView| (p.name, t)),
    }
}

/// The listing of all projects from index `i` on, under a filter.
pub open spec fn list_from(ps: Seq<ProjectView>, i: int, filter: Option<Seq<char>>) -> Seq<
    (Seq<char>, TaskView),
>
    decreases ps.len() - i,
{
    if i < 0 || i >= ps.len() {
        Seq::<(Seq<char>, TaskView)>::empty()
    } else {
        tagged_tasks(ps[i], filter) + list_from(ps, i + 1, filter)
    }
}

/// What `list_tasks` returns, as pairs of project name and task view.
pub open spec fn list_spec(ps: Seq<ProjectView>, filter: Option<Seq<char>>) -> Seq<
    (Seq<char>, TaskView),
> {
    list_from(ps, 0, filter)
}

/// The view of an optional borrowed string.
pub open spec fn opt_str_view(o: Option<&str>) -> Option<Seq<char>> {
    match o {
        Some(s) => Some(s@),
        None => None,
    }
}

impl TaskStorage {
    /// Fresh storage: no projects, no tasks.
    pub fn new() -> (s: TaskStorage)
        ensures
            s@ == Seq::<ProjectView>::empty(),
            storage_wf(s@),
    {
        let s = TaskStorage { projects: Vec::new() };
        proof {
            assert(s@ =~= Seq::<ProjectView>::empty());
        }
        s
    }

    /// The index of the stored project of this name, if any.
    fn find_project(&self, project: &str) -> (r: Option<usize>)
        ensures
            match r {
                Some(i) => i < self@.len() && self@[i as int].name == project@,
                None => !has_project(self@, project@),
            },
    {
        let n = self.projects.len();
        let mut i: usize = 0;
        while i < n
            invariant
                n == self.projects.len(),
                i <= n,
                forall|k: int| 0 <= k < i ==> (#[trigger] self@[k]).name != project@,
            decreases n - i,
        {
            if str_eq(self.projects[i].name.as_str(), project) {
                return Some(i);
            }
            i += 1;
        }
        None
    }

    /// Add `task` to `project`, creating the project on first use. Fails
    /// with `DuplicateTask`, and changes nothing, exactly when the project
    /// already holds a task of the same title.
    pub fn add_task(&mut self, project: String, task: Task) -> (r: TmResult<()>)
        requires
            storage_wf(old(self)@),
        ensures
            storage_wf(final(self)@),
            ({
                let ps = old(self)@;
                if has_project(ps, project@) {
                    let i = project_at(ps, project@);
                    if has_title(ps[i].tasks, task@.title) {
                        &&& final(self)@ == ps
                        &&& r matches Err(TmError::DuplicateTask { project: p, title: t })
                            && p@ == project@ && t@ == task@.title
                    } else {
                        &&& final(self)@ == ps.update(
                            i,
                            ProjectView { name: ps[i].name, tasks: ps[i].tasks.push(task@) },
                        )
                        &&& r is Ok
                    }
                } else {
                    &&& final(self)@ == ps.push(
                        ProjectView { name: project@, tasks: seq![task@] },
                    )
                    &&& r is Ok
                }
            }),
    {
        let found = self.find_project(project.as_str());
        match found {
            Some(i) => {
                let ghost ps = self@;
                proof {
                    assert(has_project(ps, project@));
                    assert(ps[project_at(ps, project@)].name == project@);
                    assert(project_at(ps, project@) == i as int);
                }
                let nt = self.projects[i].tasks.len();
                let mut a: usize = 0;
                while a < nt
                    invariant
                        storage_wf(ps),
                        self@ == ps,
                        ps == old(self)@,
                        i < self.projects.len(),
                        has_project(ps, project@),
                        project_at(ps, project@) == i as int,
                        ps[i as int].name == project@,
                        nt == self.projects[i as int].tasks.len(),
                        a <= nt,
                        forall|k: int|
                            0 <= k < a ==> (#[trigger] ps[i as int].tasks[k]).title != task@.title,
                    decreases nt - a,
                {
                    if str_eq(self.projects[i].tasks[a].title.as_str(), task.title.as_str()) {
                        proof {
                            assert(ps[i as int].tasks[a as int] == self.projects@[i as int].tasks@[a as int]@);
                            assert(ps[i as int].tasks[a as int].title == task@.title);
                            assert(has_title(ps[i as int].tasks, task@.title));
                        }
                        return Err(TmError::DuplicateTask { project, title: task.title });
                    }
                    a += 1;
                }
                proof {
                    assert(!has_title(ps[i as int].tasks, task@.title));
                }
                let mut p = self.projects.remove(i);
                p.tasks.push(task);
                self.projects.insert(i, p);
                proof {
                    assert(self@ =~~= ps.update(
                        i as int,
                        ProjectView {
                            name: ps[i as int].name,
                            tasks: ps[i as int].tasks.push(task@),
                        },
                    ));
                    assert(ps[i as int].tasks.push(task@).len() > 0);
                    assert(storage_wf(self@)) by {
                        let ns = self@;
                        assert forall|x: int, a1: int, b1: int|
                            0 <= x < ns.len() && 0 <= a1 < b1 < ns[x].tasks.len() implies (
                        #[trigger] ns[x].tasks[a1]).title != (#[trigger] ns[x].tasks[b1]).title by {
                            if x == i as int {
                                assert(ns[x].tasks[a1] == ps[x].tasks[a1]);
                            }
                        }
                    }
                }
                Ok(())
            },
            None => {
                let ghost ps = self@;
                let mut tasks: Vec<Task> = Vec::new();
                tasks.push(task);
                let p = ProjectTasks { name: project, tasks };
                self.projects.push(p);
                proof {
                    assert(p@.tasks =~= seq![task@]);
                    assert(self@ =~= ps.push(ProjectView { name: p@.name, tasks: p@.tasks }));
                    assert(storage_wf(self@)) by {
                        let ns = self@;
                        assert forall|x: int, y: int|
                            0 <= x < y < ns.len() implies (#[trigger] ns[x].name) != (
                        #[trigger] ns[y].name) by {
                            if y == ns.len() - 1 {
                                assert(!has_project(ps, ns[y].name));
                            }
                        }
                    }
                }
                Ok(())
            },
        }
    }

    /// The index of the task of this title within one project, if any.
    fn find_title(tasks: &Vec<Task>, title: &str) -> (r: Option<usize>)
        ensures
            ({
                let ts = tasks@.map_values(|t: Task| t@);
                match r {
                    Some(a) => a < ts.len() && ts[a as int].title == title@,
                    None => !has_title(ts, title@),
                }
            }),
    {
        let n = tasks.len();
        let mut a: usize = 0;
        while a < n
            invariant
                n == tasks.len(),
                a <= n,
                forall|k: int| 0 <= k < a ==> (#[trigger] tasks@[k])@.title != title@,
            decreases n - a,
        {
            if str_eq(tasks[a].title.as_str(), title) {
                return Some(a);
            }
            a += 1;
        }
        proof {
            let ts = tasks@.map_values(|t: Task| t@);
            assert forall|k: int| 0 <= k < ts.len() implies (#[trigger] ts[k]).title != title@ by {
                assert(ts[k] == tasks@[k]@);
            }
        }
        None
    }

    /// Remove the task of this title from this project and return it. The
    /// project disappears with its last task. Fails with `ProjectNotFound`
    /// when the project is absent and with `TaskNotFound` when the title is,
    /// changing nothing either way.
    pub fn remove_task(&mut self, project: &str, title: &str) -> (r: TmResult<Task>)
        requires
            storage_wf(old(self)@),
        ensures
            storage_wf(final(self)@),
            ({
                let ps = old(self)@;
                if !has_project(ps, project@) {
                    &&& final(self)@ == ps
                    &&& r matches Err(TmError::ProjectNotFound { project: p }) && p@ == project@
                } else {
                    let i = project_at(ps, project@);
                    if !has_title(ps[i].tasks, title@) {
                        &&& final(self)@ == ps
                        &&& r matches Err(TmError::TaskNotFound { project: p, title: t })
                            && p@ == project@ && t@ == title@
                    } else {
                        let a = title_at(ps[i].tasks, title@);
                        &&& r matches Ok(t) && t@ == ps[i].tasks[a]
                        &&& final(self)@ == (if ps[i].tasks.len() == 1 {
                            ps.remove(i)
                        } else {
                            ps.update(
                                i,
                                ProjectView { name: ps[i].name, tasks: ps[i].tasks.remove(a) },
                            )
                        })
                    }
                }
            }),
    {
        let found = self.find_project(project);
        let i = match found {
            None => {
                return Err(TmError::ProjectNotFound { project: project.to_owned() });
            },
            Some(i) => i,
        };
        let ghost ps = self@;
        proof {
            assert(has_project(ps, project@));
            assert(ps[project_at(ps, project@)].name == project@);
            assert(project_at(ps, project@) == i as int);
        }
        let found_t = Self::find_title(&self.projects[i].tasks, title);
        let a = match found_t {
            None => {
                return Err(TmError::TaskNotFound {
                    project: project.to_owned(),
                    title: title.to_owned(),
                });
            },
            Some(a) => a,
        };
        proof {
            assert(has_title(ps[i as int].tasks, title@));
            assert(ps[i as int].tasks[title_at(ps[i as int].tasks, title@)].title == title@);
            assert(title_at(ps[i as int].tasks, title@) == a as int);
        }
        let mut p = self.projects.remove(i);
        let t = p.tasks.remove(a);
        if p.tasks.len() == 0 {
            proof {
                assert(ps[i as int].tasks.len() == 1);
                assert(self@ =~= ps.remove(i as int));
                assert(storage_wf(self@));
            }
            Ok(t)
        } else {
            self.projects.insert(i, p);
            proof {
                assert(p@.tasks =~= ps[i as int].tasks.remove(a as int));
                assert(self@ =~= ps.update(
                    i as int,
                    ProjectView { name: ps[i as int].name, tasks: ps[i as int].tasks.remove(a as int) },
                ));
                assert(storage_wf(self@)) by {
                    let ns = self@;
                    let ots = ps[i as int].tasks;
                    assert forall|x: int, a1: int, b1: int|
                        0 <= x < ns.len() && 0 <= a1 < b1 < ns[x].tasks.len() implies (
                    #[trigger] ns[x].tasks[a1]).title != (#[trigger] ns[x].tasks[b1]).title by {
                        if x == i as int {
                            assert(ns[x].tasks[a1] == (if a1 < a as int {
                                ots[a1]
                            } else {
                                ots[a1 + 1]
                            }));
                            assert(ns[x].tasks[b1] == (if b1 < a as int {
                                ots[b1]
                            } else {
                                ots[b1 + 1]
                            }));
                        }
                    }
                }
            }
            Ok(t)
        }
    }

    /// Borrow the task of this title in this project. Fails with
    /// `TaskNotFound` when the project or the title is absent.
    pub fn get_task(&self, project: &str, title: &str) -> (r: TmResult<&Task>)
        requires
            storage_wf(self@),
        ensures
            ({
                let ps = self@;
                if has_project(ps, project@) && has_title(
                    ps[project_at(ps, project@)].tasks,
                    title@,
                ) {
                    r matches Ok(t) && t@ == ps[project_at(ps, project@)].tasks[title_at(
                        ps[project_at(ps, project@)].tasks,
                        title@,
                    )]
                } else {
                    r matches Err(TmError::TaskNotFound { project: p, title: t }) && p@ == project@
                        && t@ == title@
                }
            }),
    {
        let found = self.find_project(project);
        if let Some(i) = found {
            proof {
                assert(has_project(self@, project@));
                assert(self@[project_at(self@, project@)].name == project@);
                assert(project_at(self@, project@) == i as int);
            }
            let found_t = Self::find_title(&self.projects[i].tasks, title);
            if let Some(a) = found_t {
                proof {
                    let ts = self@[i as int].tasks;
                    assert(ts =~= self.projects@[i as int].tasks@.map_values(|t: Task| t@));
                    assert(ts[a as int] == self.projects@[i as int].tasks@[a as int]@);
                    assert(has_title(ts, title@));
                    assert(ts[title_at(ts, title@)].title == title@);
                    assert(title_at(ts, title@) == a as int);
                }
                return Ok(&self.projects[i].tasks[a]);
            } else {
                proof {
                    let ts = self@[i as int].tasks;
                    assert(ts =~= self.projects@[i as int].tasks@.map_values(|t: Task| t@));
                    assert(!has_title(ts, title@));
                }
            }
        }
        Err(TmError::TaskNotFound { project: project.to_owned(), title: title.to_owned() })
    }

    /// Every stored task, tagged with its project name, in storage order;
    /// with a filter, only the named project's tasks.
    pub fn list_tasks(&self, project_filter: Option<&str>) -> (r: Vec<(String, Task)>)
        ensures
            r@.map_values(|pr: (String, Task)| (pr.0@, pr.1@)) == list_spec(
                self@,
                opt_str_view(project_filter),
            ),
    {
        let ghost fv = opt_str_view(project_filter);
        let mut result: Vec<(String, Task)> = Vec::new();
        let n = self.projects.len();
        let mut i: usize = 0;
        proof {
            assert(result@.map_values(|pr: (String, Task)| (pr.0@, pr.1@)) + list_from(
                self@,
                0,
                fv,
            ) =~= list_spec(self@, fv));
        }
        while i < n
            invariant
                n == self.projects.len(),
                i <= n,
                fv == opt_str_view(project_filter),
                result@.map_values(|pr: (String, Task)| (pr.0@, pr.1@)) + list_from(
                    self@,
                    i as int,
                    fv,
                ) == list_spec(self@, fv),
            decreases n - i,
        {
            let keep = match project_filter {
                None => true,
                Some(f) => str_eq(self.projects[i].name.as_str(), f),
            };
            if keep {
                let name = &self.projects[i].name;
                let nt = self.projects[i].tasks.len();
                let mut a: usize = 0;
                while a < nt
                    invariant
                        n == self.projects.len(),
                        i < n,
                        nt == self.projects[i as int].tasks.len(),
                        a <= nt,
                        name@ == self@[i as int].name,
                        tagged_tasks(self@[i as int], fv) == self@[i as int].tasks.map_values(
                            |t: TaskView| (self@[i as int].name, t),
                        ),
                        result@.map_values(|pr: (String, Task)| (pr.0@, pr.1@)) + tagged_tasks(
                            self@[i as int],
                            fv,
                        ).skip(a as int) + list_from(self@, i as int + 1, fv) == list_spec(
                            self@,
                            fv,
                        ),
                    decreases nt - a,
                {
                    let ghost prev = result@;
                    let pair = (name.clone(), self.projects[i].tasks[a].clone());
                    result.push(pair);
                    proof {
                        let m = |pr: (String, Task)| (pr.0@, pr.1@);
                        let c = tagged_tasks(self@[i as int], fv);
                        assert(c[a as int] == (self@[i as int].name, self@[i as int].tasks[a as int]));
                        assert(result@.map_values(m) =~= prev.map_values(m).push(m(pair)));
                        assert(c.skip(a as int) =~= seq![c[a as int]] + c.skip(a as int + 1));
                        assert(result@.map_values(m) + c.skip(a as int + 1) + list_from(
                            self@,
                            i as int + 1,
                            fv,
                        ) =~= list_spec(self@, fv));
                    }
                    a += 1;
                }
                proof {
                    assert(tagged_tasks(self@[i as int], fv).skip(nt as int) =~= Seq::<(
                        Seq<char>,
                        TaskView,
                    )>::empty());
                    assert(result@.map_values(|pr: (String, Task)| (pr.0@, pr.1@)) + list_from(
                        self@,
                        i as int + 1,
                        fv,
                    ) =~= list_spec(self@, fv));
                }
            } else {
                proof {
                    assert(tagged_tasks(self@[i as int], fv) =~= Seq::<(Seq<char>, TaskView)>::empty());
                    assert(result@.map_values(|pr: (String, Task)| (pr.0@, pr.1@)) + list_from(
                        self@,
                        i as int + 1,
                        fv,
                    ) =~= list_spec(self@, fv));
                }
            }
            i += 1;
        }
        proof {
            assert(result@.map_values(|pr: (String, Task)| (pr.0@, pr.1@)) =~= list_spec(
                self@,
                fv,
            ));
        }
        result
    }
}

} // verus!
