use gha_github_service_proof::catalog::{catalog, is_graphql_path, lookup, path_matches, strip_query};
use gha_github_service_proof::model::{Compatibility, PermissionKey, PermissionLevel};

#[test]
fn path_matches_template_with_placeholders() {
    assert!(path_matches("/repos/{owner}/{repo}/releases/{id}", "/repos/wildmason/mortar/releases/123"));
}

#[test]
fn path_matches_rejects_mismatched_segment_count() {
    assert!(!path_matches("/repos/{owner}/{repo}/releases", "/repos/wildmason/mortar/releases/123"));
}

#[test]
fn path_matches_rejects_mismatched_literal() {
    assert!(!path_matches("/repos/{owner}/{repo}/issues", "/repos/wildmason/mortar/releases"));
}

#[test]
fn lookup_returns_catalog_match_for_release_create() {
    let result = lookup("POST", "/repos/wildmason/mortar/releases").unwrap();
    assert_eq!(result.endpoint_id, "releases.create");
    assert_eq!(result.category, "releases");
    assert_eq!(result.required_permissions.len(), 1);
    assert_eq!(result.required_permissions[0].key, PermissionKey::Contents);
    assert_eq!(result.required_permissions[0].level, PermissionLevel::Write);
}

#[test]
fn lookup_returns_none_for_off_catalog() {
    assert!(lookup("POST", "/repos/wildmason/mortar/branches/main/protection").is_none());
}

#[test]
fn lookup_ignores_query_string() {
    let result = lookup("GET", "/repos/wildmason/mortar/issues?state=open").unwrap();
    assert_eq!(result.endpoint_id, "issues.list");
}

#[test]
fn graphql_path_detection() {
    assert!(is_graphql_path("/graphql"));
    assert!(is_graphql_path("/graphql?foo=bar"));
    assert!(!is_graphql_path("/repos/x/y"));
}

#[test]
fn strip_query_drops_everything_from_the_question_mark() {
    assert_eq!(strip_query("/a/b?c=d?e"), "/a/b");
    assert_eq!(strip_query("/a/b"), "/a/b");
    assert_eq!(strip_query(strip_query("/x?y")), strip_query("/x?y"));
}

#[test]
fn lookup_is_case_insensitive_on_the_method() {
    let lower = lookup("post", "/repos/o/r/releases").unwrap();
    assert_eq!(lower.endpoint_id, "releases.create");
}

#[test]
fn catalog_entries_are_never_unsupported_and_exact_iff_no_permissions() {
    let entries = catalog();
    assert_eq!(entries.len(), 69);
    for e in &entries {
        let m = e.to_match();
        assert!(!matches!(m.classification, Compatibility::Unsupported));
        assert_eq!(
            matches!(m.classification, Compatibility::Exact),
            m.required_permissions.is_empty()
        );
    }
}

#[test]
fn path_matches_ignores_surrounding_slashes() {
    assert!(path_matches("/rate_limit", "rate_limit/"));
    assert!(!path_matches("/repos/{owner}/{repo}", "/repos//mortar"));
}

#[test]
fn lookup_takes_the_first_entry_in_catalog_order() {
    let m = lookup("GET", "/repos/o/r/releases/latest").unwrap();
    assert_eq!(m.endpoint_id, "releases.get");
    let lower = lookup(" get ", "/repos/o/r/releases/latest").unwrap();
    assert_eq!(lower.endpoint_id, "releases.get");
}
