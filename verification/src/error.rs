use vstd::prelude::*;

verus! {

/// The errors this library reports. Each variant carries the context a
/// caller needs to render a message or to match programmatically.
#[derive(Debug)]
pub enum TmError {
    /// A task with this title already exists in the project.
    DuplicateTask { project: String, title: String },
    /// No project of this name is stored.
    ProjectNotFound { project: String },
    /// The project holds no task of this title.
    TaskNotFound { project: String, title: String },
    /// The supplied path does not exist on the filesystem.
    WorktreePathNotFound { path: String },
    /// The path exists but cannot be opened as a git repository.
    InvalidWorktree { path: String },
    /// Branch creation or worktree registration failed; the reason carries
    /// the underlying cause.
    WorktreeCreationFailed { path: String, reason: String },
    /// A step of the removal sequence failed; the reason carries the cause.
    WorktreeRemovalFailed { path: String, reason: String },
    /// Removal was blocked because the worktree has uncommitted changes.
    WorktreeHasChanges { path: String },
    /// The path could not be opened as the main git repository.
    GitRepoNotFound { path: String },
    /// The main repository path has no existing parent directory.
    InvalidMainRepoPath { path: String },
    /// The target creation path is already occupied.
    WorktreeAlreadyExists { path: String },
    /// A user-supplied field was rejected before any work was done.
    InvalidInput { field: String, reason: String },
    /// A git operation failed for a reason outside this library's taxonomy.
    Git { message: String },
}

/// The result type of this library's fallible operations.
pub type TmResult<T> = Result<T, TmError>;

} // verus!
