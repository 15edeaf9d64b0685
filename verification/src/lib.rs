pub mod casing;
pub mod cli;
pub mod error;
pub mod git;
pub mod paths;
pub mod storage;
pub mod task;

pub use casing::lemma_kebab_idempotent;
pub use casing::lemma_sep_norm_idempotent;
pub use casing::lemma_snake_idempotent;
pub use casing::normalize_separators;
pub use casing::str_eq;
pub use casing::to_snake_case;
pub use casing::to_kebab_case;
pub use cli::Cli;
pub use cli::Commands;
pub use cli::Level;
pub use cli::OutputFormat;
pub use cli::validate_inputs;
pub use error::TmError;
pub use error::TmResult;
pub use git::RemovalPlan;
pub use git::WorktreeInfo;
pub use git::branch_of_head;
pub use git::branch_of_head_error;
pub use git::compute_worktree_path;
pub use git::create_worktree;
pub use git::generate_branch_name;
pub use git::get_repo_root;
pub use git::lemma_branch_name_parts;
pub use git::get_worktree_info;
pub use git::has_uncommitted_changes;
pub use git::removal_gate;
pub use git::repo_root_outcome;
pub use git::remove_worktree_prepare;
pub use git::remove_worktree_prune;
pub use git::validate_outcome;
pub use git::validate_worktree;
pub use paths::parent_of;
pub use paths::file_name_of;
pub use paths::join_path;
pub use storage::ProjectTasks;
pub use storage::TaskStorage;
pub use task::Task;
pub use task::TaskView;
