use tm::generate_branch_name;
use tm::to_kebab_case;
use tm::to_snake_case;

#[test]
fn test_to_snake_case() {
    assert_eq!(to_snake_case("Auth System"), "auth_system");
    assert_eq!(to_snake_case("API-Gateway"), "api_gateway");
    assert_eq!(to_snake_case("simple"), "simple");
    assert_eq!(to_snake_case("Multi  Space"), "multi_space");
    assert_eq!(to_snake_case("Mixed-Case_Input"), "mixed_case_input");
    assert_eq!(to_snake_case("UPPERCASE"), "uppercase");
}

#[test]
fn test_to_kebab_case() {
    assert_eq!(to_kebab_case("Auth System"), "auth-system");
    assert_eq!(to_kebab_case("API_Gateway"), "api-gateway");
    assert_eq!(to_kebab_case("simple"), "simple");
    assert_eq!(to_kebab_case("Multi  Space"), "multi-space");
    assert_eq!(to_kebab_case("Mixed-Case_Input"), "mixed-case-input");
    assert_eq!(to_kebab_case("UPPERCASE"), "uppercase");
    assert_eq!(to_kebab_case("nem plonn"), "nem-plonn");
}

#[test]
fn test_generate_branch_name() {
    assert_eq!(
        generate_branch_name("feature", "JIRA-123", "auth"),
        "feature/JIRA-123-auth"
    );
    assert_eq!(
        generate_branch_name("fix", "BUG-456", "database"),
        "fix/BUG-456-database"
    );
    assert_eq!(
        generate_branch_name("chore", "TASK-1", "cleanup"),
        "chore/TASK-1-cleanup"
    );
    assert_eq!(
        generate_branch_name("feature", "83772", "nem plonn"),
        "feature/83772-nem-plonn"
    );
}

#[test]
fn snake_case_is_idempotent_on_samples() {
    let samples = [
        "Auth System",
        "API-Gateway",
        "  -- _ --  ",
        "",
        "a",
        "Mixed-Case_Input  with   Tail-",
    ];
    for s in samples {
        let once = to_snake_case(s);
        assert_eq!(to_snake_case(&once), once);
    }
}

#[test]
fn kebab_case_is_idempotent_on_samples() {
    let samples = [
        "Auth System",
        "API_Gateway",
        "  -- _ --  ",
        "",
        "a",
        "Mixed-Case_Input  with   Tail_",
    ];
    for s in samples {
        let once = to_kebab_case(s);
        assert_eq!(to_kebab_case(&once), once);
    }
}

#[test]
fn casing_degrades_to_empty_on_separators_only() {
    assert_eq!(to_snake_case(""), "");
    assert_eq!(to_snake_case(" -_- "), "");
    assert_eq!(to_kebab_case(""), "");
    assert_eq!(to_kebab_case(" -_- "), "");
}

#[test]
fn branch_name_scenario_from_spaced_name() {
    assert_eq!(
        generate_branch_name("feature", "JIRA-123", "auth system"),
        "feature/JIRA-123-auth-system"
    );
}

#[test]
fn branch_name_keeps_level_and_id_verbatim() {
    assert_eq!(
        generate_branch_name("FEATURE", "Jira-9", "Auth"),
        "FEATURE/Jira-9-auth"
    );
}

#[test]
fn casing_lowers_beyond_ascii() {
    assert_eq!(to_snake_case("Caf\u{e9} Au-Lait"), "caf\u{e9}_au_lait");
    assert_eq!(to_snake_case("\u{c9}T\u{c9} Chaud"), "\u{e9}t\u{e9}_chaud");
    assert_eq!(to_kebab_case("\u{c9}T\u{c9} Chaud"), "\u{e9}t\u{e9}-chaud");
}

#[test]
fn normalize_separators_collapses_and_trims() {
    assert_eq!(tm::normalize_separators("already_done", '_'), "already_done");
    assert_eq!(tm::normalize_separators("a -_ b", '-'), "a-b");
    assert_eq!(tm::normalize_separators("_x_", '_'), "x");
    assert_eq!(tm::normalize_separators("", '_'), "");
    // It does not lower characters; only the full casing functions do.
    assert_eq!(tm::normalize_separators("Mixed Case", '_'), "Mixed_Case");
}

#[test]
fn str_eq_compares_by_characters() {
    assert!(tm::str_eq("abc", "abc"));
    assert!(!tm::str_eq("abc", "abd"));
    assert!(!tm::str_eq("abc", "ab"));
    assert!(tm::str_eq("", ""));
}
