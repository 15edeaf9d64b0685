use tm::file_name_of;
use tm::join_path;
use tm::parent_of;

#[test]
fn parent_of_ordinary_paths() {
    assert_eq!(parent_of("/home/user/projects/app/main").as_deref(), Some("/home/user/projects/app"));
    assert_eq!(parent_of("/a"), Some("/".to_string()));
    assert_eq!(parent_of("a/b"), Some("a".to_string()));
    assert_eq!(parent_of("plain"), Some(String::new()));
}

#[test]
fn parent_of_root_and_empty() {
    assert_eq!(parent_of("/"), None);
    assert_eq!(parent_of(""), None);
    assert_eq!(parent_of("///"), None);
}

#[test]
fn parent_of_ignores_trailing_slashes() {
    assert_eq!(parent_of("/a/b/").as_deref(), Some("/a"));
    assert_eq!(parent_of("/a/b///").as_deref(), Some("/a"));
}

#[test]
fn file_name_of_ordinary_paths() {
    assert_eq!(file_name_of("/a/b/c").as_deref(), Some("c"));
    assert_eq!(file_name_of("c").as_deref(), Some("c"));
    assert_eq!(file_name_of("/a/b/").as_deref(), Some("b"));
}

#[test]
fn file_name_of_root_and_empty() {
    assert_eq!(file_name_of("/"), None);
    assert_eq!(file_name_of(""), None);
}

#[test]
fn file_name_of_dot_components() {
    assert_eq!(file_name_of("."), None);
    assert_eq!(file_name_of(".."), None);
    assert_eq!(file_name_of("/a/."), None);
    assert_eq!(file_name_of("/a/.."), None);
    assert_eq!(file_name_of("a/../"), None);
    // Dot-prefixed names and longer runs of dots are ordinary names.
    assert_eq!(file_name_of("/a/.hidden").as_deref(), Some(".hidden"));
    assert_eq!(file_name_of("/a/...").as_deref(), Some("..."));
}

#[test]
fn join_path_inserts_one_slash() {
    assert_eq!(join_path("/a", "b"), "/a/b");
    assert_eq!(join_path("/a/", "b"), "/a/b");
    assert_eq!(join_path("", "b"), "b");
    assert_eq!(join_path("/", "b"), "/b");
}

#[test]
fn worktree_path_layout() {
    // The parent of "/main" is the root, which exists on any Unix system.
    let p = tm::compute_worktree_path("/main", "feature", "JIRA-1", "x").unwrap();
    assert_eq!(p, "/feature/JIRA-1-x");
}

#[test]
fn worktree_path_snake_cases_only_the_name() {
    let p = tm::compute_worktree_path("/main", "feature", "JIRA-123", "Auth System").unwrap();
    assert_eq!(p, "/feature/JIRA-123-auth_system");
}

#[test]
fn repo_root_requires_existing_parent() {
    // A bare relative component has the empty parent, which never exists.
    match tm::get_repo_root("orphan") {
        Err(tm::TmError::InvalidMainRepoPath { path }) => assert_eq!(path, "orphan"),
        other => panic!("expected InvalidMainRepoPath, got {:?}", other),
    }
    match tm::get_repo_root("/") {
        Err(tm::TmError::InvalidMainRepoPath { path }) => assert_eq!(path, "/"),
        _ => panic!("expected InvalidMainRepoPath"),
    }
}

#[test]
fn repo_root_of_existing_parent() {
    assert_eq!(tm::get_repo_root("/main").unwrap(), "/");
}

#[test]
fn repo_root_outcome_needs_both_a_parent_and_its_existence() {
    assert_eq!(
        tm::repo_root_outcome(Some("/a".to_string()), true, "/a/main").unwrap(),
        "/a"
    );
    match tm::repo_root_outcome(Some("/a".to_string()), false, "/a/main") {
        Err(tm::TmError::InvalidMainRepoPath { path }) => assert_eq!(path, "/a/main"),
        other => panic!("expected InvalidMainRepoPath, got {:?}", other),
    }
    match tm::repo_root_outcome(None, false, "main") {
        Err(tm::TmError::InvalidMainRepoPath { path }) => assert_eq!(path, "main"),
        other => panic!("expected InvalidMainRepoPath, got {:?}", other),
    }
}
