use tm::Task;
use tm::TaskStorage;
use tm::TmError;

fn task(title: &str) -> Task {
    Task::new(title.to_string(), format!("/wt/{}", title))
}

#[test]
fn new_storage_is_empty() {
    let s = TaskStorage::new();
    assert!(s.list_tasks(None).is_empty());
}

#[test]
fn add_and_get_task() {
    let mut s = TaskStorage::new();
    s.add_task("proj".to_string(), task("a")).unwrap();
    let t = s.get_task("proj", "a").unwrap();
    assert_eq!(t.title, "a");
    assert_eq!(t.worktree_path, "/wt/a");
}

#[test]
fn duplicate_title_is_rejected() {
    let mut s = TaskStorage::new();
    s.add_task("proj".to_string(), task("a")).unwrap();
    match s.add_task("proj".to_string(), task("a")) {
        Err(TmError::DuplicateTask { project, title }) => {
            assert_eq!(project, "proj");
            assert_eq!(title, "a");
        }
        other => panic!("expected DuplicateTask, got {:?}", other),
    }
    // The same title in another project is fine.
    s.add_task("other".to_string(), task("a")).unwrap();
    assert_eq!(s.list_tasks(None).len(), 2);
}

#[test]
fn remove_task_returns_it_and_drops_empty_projects() {
    let mut s = TaskStorage::new();
    s.add_task("proj".to_string(), task("a")).unwrap();
    s.add_task("proj".to_string(), task("b")).unwrap();
    let t = s.remove_task("proj", "a").unwrap();
    assert_eq!(t.title, "a");
    assert_eq!(s.list_tasks(None).len(), 1);
    let t = s.remove_task("proj", "b").unwrap();
    assert_eq!(t.title, "b");
    // The project vanished with its last task.
    match s.remove_task("proj", "b") {
        Err(TmError::ProjectNotFound { project }) => assert_eq!(project, "proj"),
        other => panic!("expected ProjectNotFound, got {:?}", other),
    }
}

#[test]
fn remove_missing_title_reports_task_not_found() {
    let mut s = TaskStorage::new();
    s.add_task("proj".to_string(), task("a")).unwrap();
    match s.remove_task("proj", "zzz") {
        Err(TmError::TaskNotFound { project, title }) => {
            assert_eq!(project, "proj");
            assert_eq!(title, "zzz");
        }
        other => panic!("expected TaskNotFound, got {:?}", other),
    }
    // Nothing was lost.
    assert_eq!(s.list_tasks(None).len(), 1);
}

#[test]
fn get_missing_task_reports_task_not_found() {
    let s = TaskStorage::new();
    match s.get_task("nope", "a") {
        Err(TmError::TaskNotFound { project, title }) => {
            assert_eq!(project, "nope");
            assert_eq!(title, "a");
        }
        other => panic!("expected TaskNotFound, got {:?}", other),
    }
}

#[test]
fn list_tasks_filters_by_project() {
    let mut s = TaskStorage::new();
    s.add_task("p1".to_string(), task("a")).unwrap();
    s.add_task("p2".to_string(), task("b")).unwrap();
    s.add_task("p1".to_string(), task("c")).unwrap();
    let all = s.list_tasks(None);
    assert_eq!(all.len(), 3);
    let p1: Vec<_> = s.list_tasks(Some("p1"));
    assert_eq!(p1.len(), 2);
    assert_eq!(p1[0].0, "p1");
    assert_eq!(p1[0].1.title, "a");
    assert_eq!(p1[1].1.title, "c");
    assert!(s.list_tasks(Some("p3")).is_empty());
}

#[test]
fn task_builder_sets_optional_fields() {
    let t = Task::new("t".to_string(), "/wt".to_string())
        .with_description("d".to_string())
        .with_reference("JIRA-1".to_string())
        .with_remote_url("https://example.com/r".to_string())
        .with_api_url("https://example.com/a".to_string());
    assert_eq!(t.title, "t");
    assert_eq!(t.worktree_path, "/wt");
    assert_eq!(t.description.as_deref(), Some("d"));
    assert_eq!(t.reference.as_deref(), Some("JIRA-1"));
    assert_eq!(t.remote_url.as_deref(), Some("https://example.com/r"));
    assert_eq!(t.api_url.as_deref(), Some("https://example.com/a"));
}

#[test]
fn new_task_has_no_optional_fields() {
    let t = Task::new("t".to_string(), "/wt".to_string());
    assert!(t.description.is_none());
    assert!(t.reference.is_none());
    assert!(t.remote_url.is_none());
    assert!(t.api_url.is_none());
}
