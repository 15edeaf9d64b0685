use vstd::prelude::*;

use crate::casing::kebab_spec;
use crate::casing::push_char;
use crate::casing::snake_spec;
use crate::casing::to_kebab_case;
use crate::casing::to_snake_case;
use crate::error::TmError;
use crate::error::TmResult;
use crate::paths::file_name_of;
use crate::paths::file_name_spec;
use crate::paths::join_path;
use crate::paths::join_spec;
use crate::paths::parent_of;
use crate::paths::parent_spec;

verus! {

#[verifier::external_type_specification]
#[verifier::external_body]
pub struct ExGitError(git2::Error);

#[verifier::external_type_specification]
#[verifier::external_body]
pub struct ExRepository(git2::Repository);

#[verifier::external_type_specification]
#[verifier::external_body]
pub struct ExReference<'repo>(git2::Reference<'repo>);

#[verifier::external_type_specification]
#[verifier::external_body]
pub struct ExCommit<'repo>(git2::Commit<'repo>);

#[verifier::external_type_specification]
#[verifier::external_body]
pub struct ExWorktree(git2::Worktree);

/// Relies on `std::path::Path::exists`: whether the path exists on disk.
#[verifier::external_body]
fn path_exists(path: &str) -> bool {
    std::path::Path::new(path).exists()
}

/// Relies on `git2::Repository::open`: opens the repository at the path,
/// worktrees included, and fails when none is there.
#[verifier::external_body]
fn repo_open(path: &str) -> Result<git2::Repository, git2::Error> {
    git2::Repository::open(path)
}

/// Relies on `git2::Repository::statuses` with default options (staged,
/// unstaged and untracked entries) and `git2::Statuses::is_empty`: whether
/// the status set holds at least one entry.
#[verifier::external_body]
fn repo_statuses_nonempty(repo: &git2::Repository) -> Result<bool, git2::Error> {
    repo.statuses(None).map(|s| !s.is_empty())
}

/// Relies on `git2::Repository::head`: the reference `HEAD` points at.
#[verifier::external_body]
fn repo_head<'r>(repo: &'r git2::Repository) -> Result<git2::Reference<'r>, git2::Error> {
    repo.head()
}

/// Relies on `git2::Repository::find_reference`: looks a reference up by
/// its full name.
#[verifier::external_body]
fn repo_find_reference<'r>(repo: &'r git2::Repository, name: &str) -> Result<
    git2::Reference<'r>,
    git2::Error,
> {
    repo.find_reference(name)
}

/// Relies on `git2::Reference::peel_to_commit`: the commit the reference
/// resolves to.
#[verifier::external_body]
fn reference_peel_to_commit<'r>(r: &git2::Reference<'r>) -> Result<
    git2::Commit<'r>,
    git2::Error,
> {
    r.peel_to_commit()
}

/// Relies on `git2::Repository::branch`: creates a branch of this name at
/// the target commit, failing when one exists already; the branch is handed
/// back as its underlying reference (`git2::Branch::into_reference`).
#[verifier::external_body]
fn repo_create_branch<'r>(
    repo: &'r git2::Repository,
    name: &str,
    target: &git2::Commit<'_>,
) -> Result<git2::Reference<'r>, git2::Error> {
    repo.branch(name, target, false).map(|b| b.into_reference())
}

/// Relies on `git2::Repository::worktree` with `git2::WorktreeAddOptions`
/// pointing `HEAD` at the given reference: registers a worktree under the
/// name and checks it out at the path.
#[verifier::external_body]
fn repo_worktree_add<'r>(
    repo: &'r git2::Repository,
    name: &str,
    path: &str,
    reference: &'r git2::Reference<'r>,
) -> Result<(), git2::Error> {
    let mut opts = git2::WorktreeAddOptions::new();
    opts.reference(Some(reference));
    repo.worktree(name, std::path::Path::new(path), Some(&opts)).map(|_| ())
}

/// Relies on `git2::Reference::shorthand`: the human-readable short name of
/// the reference.
#[verifier::external_body]
fn reference_shorthand(r: &git2::Reference<'_>) -> Result<String, git2::Error> {
    r.shorthand().map(|s| s.to_owned())
}

/// Relies on `git2::Repository::path`: the path of the repository's git
/// directory, as a string.
#[verifier::external_body]
fn repo_gitdir(repo: &git2::Repository) -> String {
    repo.path().to_string_lossy().into_owned()
}

/// Relies on `git2::Repository::worktrees`: the names of all worktrees
/// registered against the repository, as owned strings.
#[verifier::external_body]
fn repo_worktree_names(repo: &git2::Repository) -> Result<Vec<String>, git2::Error> {
    repo.worktrees().map(
        |arr| arr.iter().flatten().flatten().map(|s| s.to_owned()).collect(),
    )
}

/// Relies on `git2::Repository::find_worktree`: opens a registered worktree
/// by its name.
#[verifier::external_body]
fn repo_find_worktree(repo: &git2::Repository, name: &str) -> Result<
    git2::Worktree,
    git2::Error,
> {
    repo.find_worktree(name)
}

/// Relies on `git2::Worktree::prune` with default options: removes the
/// worktree's administrative metadata only when the worktree is no longer
/// valid (its working directory is gone) and not locked, and fails
/// otherwise.
#[verifier::external_body]
fn worktree_prune_stale(wt: &git2::Worktree) -> Result<(), git2::Error> {
    wt.prune(None)
}

/// Relies on `git2::Reference::is_branch`: whether the reference is a local
/// branch.
#[verifier::external_body]
fn reference_is_branch(r: &git2::Reference<'_>) -> bool {
    r.is_branch()
}

/// Relies on `git2::Error::code`: whether the error says `HEAD` points at a
/// branch without commits (`git2::ErrorCode::UnbornBranch`).
#[verifier::external_body]
fn git_error_is_unborn(e: &git2::Error) -> bool {
    matches!(e.code(), git2::ErrorCode::UnbornBranch)
}

/// Relies on `git2::Error::message`: the error's message text, owned.
#[verifier::external_body]
fn git_error_message(e: &git2::Error) -> String {
    e.message().to_owned()
}

/// A read-only snapshot of one worktree, constructed on demand.
#[derive(Debug)]
pub struct WorktreeInfo {
    /// The worktree's working directory.
    pub path: String,
    /// The short name of the checked-out branch, or `None` in a detached or
    /// unborn state.
    pub branch: Option<String>,
    /// Whether the status set of the worktree is non-empty.
    pub has_uncommitted_changes: bool,
}

impl WorktreeInfo {
    /// A snapshot assembled from the probed parts, each kept exactly.
    pub fn new(path: String, branch: Option<String>, has_uncommitted_changes: bool) -> (info:
        WorktreeInfo)
        ensures
            info.path == path,
            info.branch == branch,
            info.has_uncommitted_changes == has_uncommitted_changes,
    {
        WorktreeInfo { path, branch, has_uncommitted_changes }
    }
}

/// The classification behind `validate_worktree`, on the two probe results:
/// a missing path is `WorktreePathNotFound`, a path that does not open as a
/// repository is `InvalidWorktree`, everything else is fine.
pub fn validate_outcome(exists: bool, opens: bool, path: &str) -> (r: TmResult<()>)
    ensures
        r is Ok <==> exists && opens,
        r matches Err(e) ==> (if !exists {
            e matches TmError::WorktreePathNotFound { path: p } && p@ == path@
        } else {
            e matches TmError::InvalidWorktree { path: p } && p@ == path@
        }),
{
    if !exists {
        Err(TmError::WorktreePathNotFound { path: path.to_owned() })
    } else if !opens {
        Err(TmError::InvalidWorktree { path: path.to_owned() })
    } else {
        Ok(())
    }
}

/// Validate that a path is a usable git worktree: the path must exist and
/// open as a repository. No side effects.
pub fn validate_worktree(path: &str) -> (r: TmResult<()>)
    ensures
        r matches Err(e) ==> ((e matches TmError::WorktreePathNotFound { path: p } && p@
            == path@) || (e matches TmError::InvalidWorktree { path: p } && p@ == path@)),
{
    if !path_exists(path) {
        return validate_outcome(false, false, path);
    }
    let opens = repo_open(path).is_ok();
    validate_outcome(true, opens, path)
}

/// Whether the worktree at the path has staged, unstaged or untracked
/// entries. Any git failure is propagated as a `Git` error.
pub fn has_uncommitted_changes(path: &str) -> (r: TmResult<bool>)
    ensures
        r matches Err(e) ==> e is Git,
{
    let repo = match repo_open(path) {
        Ok(repo) => repo,
        Err(e) => {
            return Err(TmError::Git { message: git_error_message(&e) });
        },
    };
    match repo_statuses_nonempty(&repo) {
        Ok(b) => Ok(b),
        Err(e) => Err(TmError::Git { message: git_error_message(&e) }),
    }
}

/// What `generate_branch_name` returns: the level, the identifier and the
/// kebab-cased name, as `level/id-name`.
pub open spec fn branch_name_spec(level: Seq<char>, id: Seq<char>, name: Seq<char>) -> Seq<
    char,
> {
    level + seq!['/'] + id + seq!['-'] + kebab_spec(name)
}

/// Law: the branch name embeds the level and the identifier verbatim —
/// only the name is cased. It reads `level`, `/`, `id`, `-`, then the
/// kebab-cased name.
pub proof fn lemma_branch_name_parts(level: Seq<char>, id: Seq<char>, name: Seq<char>)
    ensures
        ({
            let b = branch_name_spec(level, id, name);
            let k = kebab_spec(name);
            &&& b.len() == level.len() + 1 + id.len() + 1 + k.len()
            &&& b.subrange(0, level.len() as int) == level
            &&& b[level.len() as int] == '/'
            &&& b.subrange(level.len() as int + 1, level.len() as int + 1 + id.len() as int)
                == id
            &&& b[level.len() as int + 1 + id.len() as int] == '-'
            &&& b.subrange(level.len() as int + id.len() as int + 2, b.len() as int) == k
        }),
{
    let b = branch_name_spec(level, id, name);
    let k = kebab_spec(name);
    assert(b.subrange(0, level.len() as int) =~= level);
    assert(b.subrange(level.len() as int + 1, level.len() as int + 1 + id.len() as int) =~= id);
    assert(b.subrange(level.len() as int + id.len() as int + 2, b.len() as int) =~= k);
}

/// The branch name for a task: `level/id-name`, the name in kebab-case.
/// Pure: the same inputs always give the same string, and the casing
/// touches only the name.
pub fn generate_branch_name(level: &str, id: &str, name: &str) -> (r: String)
    ensures
        r@ == branch_name_spec(level@, id@, name@),
{
    let name_kebab = to_kebab_case(name);
    let mut r = level.to_owned();
    push_char(&mut r, '/');
    r.append(id);
    push_char(&mut r, '-');
    r.append(name_kebab.as_str());
    proof {
        assert(r@ =~= branch_name_spec(level@, id@, name@));
    }
    r
}

/// The classification behind `get_repo_root`, on the parent and its
/// existence probe: the root is the parent exactly when there is one and it
/// exists on disk; otherwise the main repository path is rejected.
pub fn repo_root_outcome(parent: Option<String>, exists: bool, main_repo_path: &str) -> (r:
    TmResult<String>)
    ensures
        r is Ok <==> (parent is Some && exists),
        r matches Ok(p) ==> parent == Some(p),
        r matches Err(e) ==> (e matches TmError::InvalidMainRepoPath { path: q } && q@
            == main_repo_path@),
{
    match parent {
        Some(p) => {
            if exists {
                Ok(p)
            } else {
                Err(TmError::InvalidMainRepoPath { path: main_repo_path.to_owned() })
            }
        },
        None => Err(TmError::InvalidMainRepoPath { path: main_repo_path.to_owned() }),
    }
}

/// The repository root: the parent directory of the main repository path.
/// Fails with `InvalidMainRepoPath` when there is no parent or it does not
/// exist on disk.
pub fn get_repo_root(main_repo_path: &str) -> (r: TmResult<String>)
    ensures
        r matches Ok(p) ==> parent_spec(main_repo_path@) == Some(p@),
        parent_spec(main_repo_path@) is None ==> r is Err,
        r matches Err(e) ==> e matches TmError::InvalidMainRepoPath { path: q } && q@
            == main_repo_path@,
{
    let parent = parent_of(main_repo_path);
    let exists = match &parent {
        Some(p) => path_exists(p.as_str()),
        None => false,
    };
    repo_root_outcome(parent, exists, main_repo_path)
}

/// What `compute_worktree_path` returns under a given repository root:
/// `root/level/id-name`, the name in snake_case.
pub open spec fn worktree_path_spec(
    root: Seq<char>,
    level: Seq<char>,
    id: Seq<char>,
    name: Seq<char>,
) -> Seq<char> {
    join_spec(join_spec(root, level), id + seq!['-'] + snake_spec(name))
}

/// The worktree path for a task: a sibling of the main repository, laid out
/// as `root/level/id-name` with the name in snake_case. Fails exactly as
/// `get_repo_root` does.
pub fn compute_worktree_path(main_repo_path: &str, level: &str, id: &str, name: &str) -> (r:
    TmResult<String>)
    ensures
        r matches Ok(p) ==> (parent_spec(main_repo_path@) matches Some(root) && p@
            == worktree_path_spec(root, level@, id@, name@)),
        parent_spec(main_repo_path@) is None ==> r is Err,
        r matches Err(e) ==> e matches TmError::InvalidMainRepoPath { path: q } && q@
            == main_repo_path@,
{
    let root = match get_repo_root(main_repo_path) {
        Ok(root) => root,
        Err(e) => {
            return Err(e);
        },
    };
    let name_snake = to_snake_case(name);
    let mut last = id.to_owned();
    push_char(&mut last, '-');
    last.append(name_snake.as_str());
    proof {
        assert(last@ =~= id@ + seq!['-'] + snake_spec(name@));
    }
    let first = join_path(root.as_str(), level);
    Ok(join_path(first.as_str(), last.as_str()))
}

/// Create a branch-backed worktree: open the main repository, resolve the
/// base (a named branch, or `HEAD`), create the branch, and register a
/// worktree at the path under the path's final component as its internal
/// name. Succeeds only when the path has such a component; the branch may
/// be left behind when registration fails afterwards.
pub fn create_worktree(
    main_repo_path: &str,
    worktree_path: &str,
    branch_name: &str,
    base_branch: Option<&str>,
) -> (r: TmResult<()>)
    ensures
        r is Ok ==> file_name_spec(worktree_path@) is Some,
        r matches Err(e) ==> ((e matches TmError::GitRepoNotFound { path: p } && p@
            == main_repo_path@) || e is Git || (e matches TmError::WorktreeCreationFailed {
            path: p,
            ..
        } && p@ == worktree_path@)),
{
    let repo = match repo_open(main_repo_path) {
        Ok(repo) => repo,
        Err(_) => {
            return Err(TmError::GitRepoNotFound { path: main_repo_path.to_owned() });
        },
    };
    let base_ref = match base_branch {
        Some(base) => {
            let mut refname = ("refs/heads/").to_owned();
            refname.append(base);
            match repo_find_reference(&repo, refname.as_str()) {
                Ok(base_ref) => base_ref,
                Err(e) => {
                    return Err(TmError::Git { message: git_error_message(&e) });
                },
            }
        },
        None => {
            match repo_head(&repo) {
                Ok(head) => head,
                Err(e) => {
                    return Err(TmError::Git { message: git_error_message(&e) });
                },
            }
        },
    };
    let base_commit = match reference_peel_to_commit(&base_ref) {
        Ok(c) => c,
        Err(e) => {
            return Err(TmError::Git { message: git_error_message(&e) });
        },
    };
    let branch_ref = match repo_create_branch(&repo, branch_name, &base_commit) {
        Ok(branch_ref) => branch_ref,
        Err(e) => {
            let mut reason = ("Failed to create branch: ").to_owned();
            reason.append(git_error_message(&e).as_str());
            return Err(
                TmError::WorktreeCreationFailed { path: worktree_path.to_owned(), reason },
            );
        },
    };
    let worktree_name = match file_name_of(worktree_path) {
        Some(n) => n,
        None => {
            return Err(
                TmError::WorktreeCreationFailed {
                    path: worktree_path.to_owned(),
                    reason: ("Invalid worktree path").to_owned(),
                },
            );
        },
    };
    match repo_worktree_add(&repo, worktree_name.as_str(), worktree_path, &branch_ref) {
        Ok(()) => Ok(()),
        Err(e) => Err(
            TmError::WorktreeCreationFailed {
                path: worktree_path.to_owned(),
                reason: git_error_message(&e),
            },
        ),
    }
}

/// The parent of the parent of the parent of a path, when all three exist.
pub open spec fn third_parent_spec(p: Seq<char>) -> Option<Seq<char>> {
    match parent_spec(p) {
        None => None,
        Some(p1) => match parent_spec(p1) {
            None => None,
            Some(p2) => parent_spec(p2),
        },
    }
}

/// Everything removal needs before anything is deleted: the working
/// directory to remove, the git directory it was resolved from, and the
/// main repository it is registered against.
#[derive(Debug)]
pub struct RemovalPlan {
    /// The worktree's working directory, as handed in.
    pub worktree_path: String,
    /// The worktree's git directory, `<main>/.git/worktrees/<name>`.
    pub gitdir: String,
    /// The main repository's root, three parents above the git directory.
    pub main_repo_path: String,
}

/// The safety gate of worktree removal, on the reported status: removal
/// may proceed exactly when it is forced or the worktree has no uncommitted
/// changes; otherwise it is refused with `WorktreeHasChanges` for the path.
pub fn removal_gate(changed: bool, force: bool, path: &str) -> (r: TmResult<()>)
    ensures
        r is Ok <==> (force || !changed),
        r matches Err(e) ==> (e matches TmError::WorktreeHasChanges { path: p } && p@ == path@),
{
    if force || !changed {
        Ok(())
    } else {
        Err(TmError::WorktreeHasChanges { path: path.to_owned() })
    }
}

/// The safety gate and path resolution of worktree removal; nothing on
/// disk is touched. Unless `force` is set, a worktree with uncommitted
/// changes is refused with `WorktreeHasChanges`. Otherwise the worktree is
/// opened and the main repository's root is resolved three parents above
/// the worktree's git directory.
pub fn remove_worktree_prepare(path: &str, force: bool) -> (r: TmResult<RemovalPlan>)
    ensures
        r matches Ok(plan) ==> (plan.worktree_path@ == path@ && third_parent_spec(plan.gitdir@)
            == Some(plan.main_repo_path@)),
        r matches Err(e) ==> ((e matches TmError::WorktreeHasChanges { path: p } && p@ == path@
            && !force) || e is Git || (e matches TmError::WorktreeRemovalFailed { path: p, .. }
            && p@ == path@)),
{
    if !force {
        let changed = match has_uncommitted_changes(path) {
            Ok(b) => b,
            Err(e) => {
                return Err(e);
            },
        };
        match removal_gate(changed, force, path) {
            Ok(()) => {},
            Err(e) => {
                return Err(e);
            },
        }
    }
    let repo = match repo_open(path) {
        Ok(repo) => repo,
        Err(e) => {
            return Err(TmError::Git { message: git_error_message(&e) });
        },
    };
    let gitdir = repo_gitdir(&repo);
    let p1 = match parent_of(gitdir.as_str()) {
        Some(p1) => p1,
        None => {
            return Err(
                TmError::WorktreeRemovalFailed {
                    path: path.to_owned(),
                    reason: ("Could not determine main repository path").to_owned(),
                },
            );
        },
    };
    let p2 = match parent_of(p1.as_str()) {
        Some(p2) => p2,
        None => {
            return Err(
                TmError::WorktreeRemovalFailed {
                    path: path.to_owned(),
                    reason: ("Could not determine main repository path").to_owned(),
                },
            );
        },
    };
    let main_repo_path = match parent_of(p2.as_str()) {
        Some(p3) => p3,
        None => {
            return Err(
                TmError::WorktreeRemovalFailed {
                    path: path.to_owned(),
                    reason: ("Could not determine main repository path").to_owned(),
                },
            );
        },
    };
    Ok(RemovalPlan { worktree_path: path.to_owned(), gitdir, main_repo_path })
}

/// The best-effort prune pass after a worktree's directory is gone: open
/// the main repository, enumerate its worktrees and prune each one that can
/// be opened, swallowing individual failures. Only a failure to open the
/// repository or to enumerate is surfaced, against the removed worktree's
/// path.
pub fn remove_worktree_prune(main_repo_path: &str, worktree_path: &str) -> (r: TmResult<()>)
    ensures
        r matches Err(e) ==> (e matches TmError::WorktreeRemovalFailed { path: p, .. } && p@
            == worktree_path@),
{
    let main_repo = match repo_open(main_repo_path) {
        Ok(repo) => repo,
        Err(e) => {
            let mut reason = ("Failed to open main repository: ").to_owned();
            reason.append(git_error_message(&e).as_str());
            return Err(
                TmError::WorktreeRemovalFailed { path: worktree_path.to_owned(), reason },
            );
        },
    };
    let names = match repo_worktree_names(&main_repo) {
        Ok(names) => names,
        Err(e) => {
            let mut reason = ("Failed to list worktrees: ").to_owned();
            reason.append(git_error_message(&e).as_str());
            return Err(
                TmError::WorktreeRemovalFailed { path: worktree_path.to_owned(), reason },
            );
        },
    };
    let n = names.len();
    let mut i: usize = 0;
    while i < n
        invariant
            n == names.len(),
            i <= n,
        decreases n - i,
    {
        match repo_find_worktree(&main_repo, names[i].as_str()) {
            Ok(wt) => {
                let _ = worktree_prune_stale(&wt);
            },
            Err(_) => {},
        }
        i += 1;
    }
    Ok(())
}

/// The branch field of a snapshot when `HEAD` resolved: the reference's
/// short name exactly when `HEAD` is on a branch; a detached `HEAD` has
/// none.
pub fn branch_of_head(on_branch: bool, name: String) -> (r: Option<String>)
    ensures
        r == (if on_branch {
            Some(name)
        } else {
            None::<String>
        }),
{
    if on_branch {
        Some(name)
    } else {
        None
    }
}

/// The branch field of a snapshot when `HEAD` did not resolve: an unborn
/// branch has no commit and so no current branch; any other failure is
/// surfaced as a `Git` error carrying the message.
pub fn branch_of_head_error(unborn: bool, message: String) -> (r: TmResult<Option<String>>)
    ensures
        r is Ok <==> unborn,
        r matches Ok(b) ==> b is None,
        r matches Err(e) ==> (e matches TmError::Git { message: m } && m == message),
{
    if unborn {
        Ok(None)
    } else {
        Err(TmError::Git { message })
    }
}

/// A snapshot of the worktree at the path: its checked-out branch's short
/// name (`None` when `HEAD` is detached or points at an unborn branch) and
/// whether it has uncommitted changes, assembled exactly from those probes.
pub fn get_worktree_info(path: &str) -> (r: TmResult<WorktreeInfo>)
    ensures
        r matches Ok(info) ==> info.path@ == path@,
        r matches Err(e) ==> e is Git,
{
    let repo = match repo_open(path) {
        Ok(repo) => repo,
        Err(e) => {
            return Err(TmError::Git { message: git_error_message(&e) });
        },
    };
    let branch = match repo_head(&repo) {
        Ok(head) => {
            let on_branch = reference_is_branch(&head);
            let name = match reference_shorthand(&head) {
                Ok(name) => name,
                Err(e) => {
                    return Err(TmError::Git { message: git_error_message(&e) });
                },
            };
            branch_of_head(on_branch, name)
        },
        Err(e) => {
            match branch_of_head_error(git_error_is_unborn(&e), git_error_message(&e)) {
                Ok(b) => b,
                Err(err) => {
                    return Err(err);
                },
            }
        },
    };
    let has_changes = match has_uncommitted_changes(path) {
        Ok(b) => b,
        Err(e) => {
            return Err(e);
        },
    };
    Ok(WorktreeInfo::new(path.to_owned(), branch, has_changes))
}

} // verus!
