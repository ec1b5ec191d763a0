use gha_github_service_proof::call::{
    ClassifyOptions, classify, classify_upper, format_required, summary,
};
use gha_github_service_proof::model::{
    CheckStatus, Compatibility, PermissionKey, PermissionLevel, PermissionSet, RequiredPermission,
};

fn perms_with(key: PermissionKey, level: PermissionLevel) -> PermissionSet {
    let mut set = PermissionSet::default();
    set.insert(key.as_str().to_owned(), level);
    set
}

#[test]
fn classify_in_catalog_with_sufficient_permissions() {
    let report = classify(ClassifyOptions {
        method: "POST".to_owned(),
        path: "/repos/wildmason/mortar/releases".to_owned(),
        url: None,
        origin: Some("workflow ci.yml job release step 0".to_owned()),
        permissions: Some(perms_with(PermissionKey::Contents, PermissionLevel::Write)),
    });
    assert!(matches!(report.classification, Compatibility::Simulated));
    assert!(report.satisfied);
    assert!(report.missing_permissions.is_empty());
    assert!(report.catalog_match.is_some());
    assert!(report.checks.iter().any(|c| matches!(c.status, CheckStatus::Pass)));
}

#[test]
fn classify_in_catalog_with_missing_permissions_fails() {
    let report = classify(ClassifyOptions {
        method: "POST".to_owned(),
        path: "/repos/wildmason/mortar/releases".to_owned(),
        url: None,
        origin: None,
        permissions: Some(perms_with(PermissionKey::Contents, PermissionLevel::Read)),
    });
    assert!(matches!(report.classification, Compatibility::Simulated));
    assert!(!report.satisfied);
    assert_eq!(report.missing_permissions.len(), 1);
    assert!(report.checks.iter().any(|c| matches!(c.status, CheckStatus::Fail)));
}

#[test]
fn classify_off_catalog_returns_unsupported() {
    let report = classify(ClassifyOptions {
        method: "POST".to_owned(),
        path: "/repos/wildmason/mortar/branches/main/protection".to_owned(),
        url: None,
        origin: None,
        permissions: Some(perms_with(PermissionKey::Contents, PermissionLevel::Write)),
    });
    assert!(matches!(report.classification, Compatibility::Unsupported));
    assert!(report.catalog_match.is_none());
    assert_eq!(report.unsupported_reason.as_deref(), Some("rest.endpoint_not_in_catalog"));
}

#[test]
fn classify_graphql_returns_unsupported_with_specific_reason() {
    let report = classify(ClassifyOptions {
        method: "POST".to_owned(),
        path: "/graphql".to_owned(),
        url: None,
        origin: None,
        permissions: None,
    });
    assert!(matches!(report.classification, Compatibility::Unsupported));
    assert!(report.catalog_match.is_none());
    assert_eq!(
        report.unsupported_reason.as_deref(),
        Some("graphql.classification_not_implemented"),
    );
}

#[test]
fn classify_no_required_permissions_passes_without_permissions() {
    let report = classify(ClassifyOptions {
        method: "GET".to_owned(),
        path: "/rate_limit".to_owned(),
        url: None,
        origin: None,
        permissions: None,
    });
    assert!(matches!(report.classification, Compatibility::Exact));
    assert!(report.satisfied);
    assert!(report.checks.iter().any(|c| matches!(c.status, CheckStatus::Pass)));
}

#[test]
fn classify_in_catalog_without_permissions_warns() {
    let report = classify(ClassifyOptions {
        method: "POST".to_owned(),
        path: "/repos/wildmason/mortar/releases".to_owned(),
        url: None,
        origin: None,
        permissions: None,
    });
    assert!(matches!(report.classification, Compatibility::Simulated));
    assert!(!report.satisfied);
    assert!(report.checks.iter().any(|c| matches!(c.status, CheckStatus::Warn)));
}

#[test]
fn classify_normalizes_method_and_uses_it_as_location() {
    let report = classify(ClassifyOptions {
        method: "  post ".to_owned(),
        path: "/repos/wildmason/mortar/releases".to_owned(),
        url: None,
        origin: None,
        permissions: Some(perms_with(PermissionKey::Contents, PermissionLevel::Write)),
    });
    assert_eq!(report.method, "POST");
    assert!(report.checks.iter().all(|c| c.location.as_deref()
        == Some("POST /repos/wildmason/mortar/releases")));
}

#[test]
fn classify_graphql_fails_with_location_and_message() {
    let report = classify(ClassifyOptions {
        method: "POST".to_owned(),
        path: "/graphql?x=1".to_owned(),
        url: None,
        origin: Some("here".to_owned()),
        permissions: None,
    });
    assert_eq!(report.checks.len(), 1);
    assert_eq!(report.checks[0].id, "call.graphql_classification_not_implemented");
    assert!(matches!(report.checks[0].status, CheckStatus::Fail));
    assert_eq!(report.checks[0].location.as_deref(), Some("here"));
    assert!(!report.satisfied);
}

#[test]
fn summary_counts_each_status_of_a_call() {
    let report = classify(ClassifyOptions {
        method: "POST".to_owned(),
        path: "/repos/wildmason/mortar/releases".to_owned(),
        url: None,
        origin: None,
        permissions: Some(perms_with(PermissionKey::Contents, PermissionLevel::Read)),
    });
    let s = summary(&report);
    let failed = report.checks.iter().filter(|c| matches!(c.status, CheckStatus::Fail)).count();
    let passed = report.checks.iter().filter(|c| matches!(c.status, CheckStatus::Pass)).count();
    assert_eq!(s.failed, failed);
    assert_eq!(s.passed, passed);
    assert!(s.failed >= 1);
}

#[test]
fn format_required_lists_key_and_level() {
    let text = format_required(&[
        RequiredPermission { key: PermissionKey::Contents, level: PermissionLevel::Write },
        RequiredPermission { key: PermissionKey::IdToken, level: PermissionLevel::Write },
    ]);
    assert_eq!(text, "contents:write, id-token:write");
    assert_eq!(format_required(&[]), "(none)");
}

#[test]
fn classify_upper_uses_the_given_method_and_matches_classify() {
    let options = |method: &str| ClassifyOptions {
        method: method.to_owned(),
        path: "/repos/wildmason/mortar/releases".to_owned(),
        url: None,
        origin: None,
        permissions: Some(perms_with(PermissionKey::Contents, PermissionLevel::Write)),
    };
    let upper = classify_upper(options("ignored"), "POST".to_owned());
    assert_eq!(upper.method, "POST");
    assert_eq!(upper.catalog_match.as_ref().unwrap().endpoint_id, "releases.create");
    assert!(upper.satisfied);
    let plain = classify(options(" post "));
    assert_eq!(plain.method, "POST");
    assert_eq!(plain.catalog_match.as_ref().unwrap().endpoint_id, "releases.create");
    assert_eq!(plain.checks[0].id, upper.checks[0].id);
}
