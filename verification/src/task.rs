use vstd::prelude::*;

verus! {

/// A `Task` as mathematics: every string as its character sequence.
#[verifier::ext_equal]
pub struct TaskView {
    pub title: Seq<char>,
    pub description: Option<Seq<char>>,
    pub worktree_path: Seq<char>,
    pub reference: Option<Seq<char>>,
    pub remote_url: Option<Seq<char>>,
    pub api_url: Option<Seq<char>>,
}

/// A lightweight task tied to a git worktree. The title identifies the task
/// within its project; the worktree path points at the working directory.
#[derive(Debug)]
pub struct Task {
    pub title: String,
    pub description: Option<String>,
    pub worktree_path: String,
    pub reference: Option<String>,
    pub remote_url: Option<String>,
    pub api_url: Option<String>,
}

impl View for Task {
    type V = TaskView;

    open spec fn view(&self) -> TaskView {
        TaskView {
            title: self.title@,
            description: self.description.deep_view(),
            worktree_path: self.worktree_path@,
            reference: self.reference.deep_view(),
            remote_url: self.remote_url.deep_view(),
            api_url: self.api_url.deep_view(),
        }
    }
}

impl Clone for Task {
    /// A clone carries the same view as the task it was cloned from.
    fn clone(&self) -> (res: Self)
        ensures
            res@ == self@,
    {
        Task {
            title: self.title.clone(),
            description: self.description.clone(),
            worktree_path: self.worktree_path.clone(),
            reference: self.reference.clone(),
            remote_url: self.remote_url.clone(),
            api_url: self.api_url.clone(),
        }
    }
}

impl Task {
    /// A fresh task: only the required fields are set, every optional field
    /// is absent.
    pub fn new(title: String, worktree_path: String) -> (t: Task)
        ensures
            t@.title == title@,
            t@.worktree_path == worktree_path@,
            t@.description is None,
            t@.reference is None,
            t@.remote_url is None,
            t@.api_url is None,
    {
        Task {
            title,
            description: None,
            worktree_path,
            reference: None,
            remote_url: None,
            api_url: None,
        }
    }

    /// The same task with the description set; nothing else moves.
    pub fn with_description(self, desc: String) -> (t: Task)
        ensures
            t@ == (TaskView { description: Some(desc@), ..self@ }),
    {
        Task { description: Some(desc), ..self }
    }

    /// The same task with the reference set; nothing else moves.
    pub fn with_reference(self, reference: String) -> (t: Task)
        ensures
            t@ == (TaskView { reference: Some(reference@), ..self@ }),
    {
        Task { reference: Some(reference), ..self }
    }

    /// The same task with the remote URL set; nothing else moves.
    pub fn with_remote_url(self, url: String) -> (t: Task)
        ensures
            t@ == (TaskView { remote_url: Some(url@), ..self@ }),
    {
        Task { remote_url: Some(url), ..self }
    }

    /// The same task with the API URL set; nothing else moves.
    pub fn with_api_url(self, url: String) -> (t: Task)
        ensures
            t@ == (TaskView { api_url: Some(url@), ..self@ }),
    {
        Task { api_url: Some(url), ..self }
    }
}

} // verus!
