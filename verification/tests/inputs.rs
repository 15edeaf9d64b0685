use tm::Level;
use tm::TmError;
use tm::validate_inputs;

#[test]
fn level_names_are_lowercase() {
    assert_eq!(Level::Feature.as_str(), "feature");
    assert_eq!(Level::Fix.as_str(), "fix");
    assert_eq!(Level::Chore.as_str(), "chore");
    assert_eq!(Level::Docs.as_str(), "docs");
    assert_eq!(Level::Refactor.as_str(), "refactor");
    assert_eq!(Level::Test.as_str(), "test");
    assert_eq!(Level::Perf.as_str(), "perf");
    assert_eq!(Level::Style.as_str(), "style");
    assert_eq!(Level::Ci.as_str(), "ci");
}

#[test]
fn good_inputs_pass() {
    assert!(validate_inputs("JIRA-1", "auth system").is_ok());
}

#[test]
fn name_without_word_characters_is_rejected() {
    match validate_inputs("JIRA-1", " -_- ") {
        Err(TmError::InvalidInput { field, .. }) => assert_eq!(field, "name"),
        other => panic!("expected InvalidInput, got {:?}", other),
    }
}

#[test]
fn blank_id_is_rejected() {
    match validate_inputs("   ", "auth") {
        Err(TmError::InvalidInput { field, .. }) => assert_eq!(field, "id"),
        other => panic!("expected InvalidInput, got {:?}", other),
    }
    match validate_inputs("", "auth") {
        Err(TmError::InvalidInput { field, .. }) => assert_eq!(field, "id"),
        other => panic!("expected InvalidInput, got {:?}", other),
    }
    // Unicode whitespace counts as blank too, as `str::trim` would see it.
    match validate_inputs("\u{a0}\u{2003}", "auth") {
        Err(TmError::InvalidInput { field, .. }) => assert_eq!(field, "id"),
        other => panic!("expected InvalidInput, got {:?}", other),
    }
}

#[test]
fn empty_name_is_reported_before_blank_id() {
    match validate_inputs("", "") {
        Err(TmError::InvalidInput { field, .. }) => assert_eq!(field, "name"),
        other => panic!("expected InvalidInput, got {:?}", other),
    }
}
