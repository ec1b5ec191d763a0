use gha_github_service_proof::model::{
    CheckStatus, Compatibility, PermissionKey, PermissionLevel, PermissionSet, Timestamp,
};
use gha_github_service_proof::oidc::{
    IssueOptions, STUB_LOCAL_SIGNING_MODE, STUB_LOCAL_WARNING, claim_argument, issue, issue_at,
    verify_stub_local,
};
use gha_github_service_proof::value::JsonValue;

fn perms_with_id_token_write() -> PermissionSet {
    let mut set = PermissionSet::default();
    set.insert(PermissionKey::IdToken.as_str().to_owned(), PermissionLevel::Write);
    set
}

fn options(audience: &str, run_id: &str, permissions: Option<PermissionSet>) -> IssueOptions {
    IssueOptions {
        audience: audience.to_owned(),
        repository: "wildmason/mortar".to_owned(),
        git_ref: "refs/heads/main".to_owned(),
        sha: "deadbeef".to_owned(),
        workflow: "release.yml".to_owned(),
        job: "deploy".to_owned(),
        run_id: run_id.to_owned(),
        job_workflow_ref: None,
        permissions,
        now: None,
        ttl_seconds: None,
        extra_claims: Vec::new(),
    }
}

fn claim<'a>(claims: &'a [(String, JsonValue)], key: &str) -> Option<&'a JsonValue> {
    claims.iter().find(|(k, _)| k == key).map(|(_, v)| v)
}

#[test]
fn issue_with_id_token_write_passes() {
    let mut o = options("https://example.com", "1234567890", Some(perms_with_id_token_write()));
    o.now = Some(Timestamp { seconds: 1_700_000_000, nanos: 0 });
    o.ttl_seconds = Some(300);
    let report = issue(o).unwrap();

    assert_eq!(report.audience, "https://example.com");
    assert_eq!(report.signing_mode, STUB_LOCAL_SIGNING_MODE);
    assert!(matches!(report.compatibility, Compatibility::Simulated));
    assert_eq!(report.iat, 1_700_000_000);
    assert_eq!(report.exp, 1_700_000_300);
    assert!(matches!(claim(&report.claims, "sub"),
        Some(JsonValue::Text(s)) if s == "repo:wildmason/mortar:ref:refs/heads/main"));
    assert!(matches!(claim(&report.claims, "repository_owner"),
        Some(JsonValue::Text(s)) if s == "wildmason"));
    assert!(matches!(claim(&report.claims, "stub_local"), Some(JsonValue::Bool(true))));
    assert!(verify_stub_local(&report.token));
    assert!(report.checks.iter().any(|c| matches!(c.status, CheckStatus::Pass)
        && c.id == "oidc.id_token_granted"));
    assert!(report.checks.iter().any(|c| c.id == "oidc.stub_local"));
}

#[test]
fn issue_without_id_token_write_fails() {
    let mut set = PermissionSet::default();
    set.insert(PermissionKey::Contents.as_str().to_owned(), PermissionLevel::Write);
    let report = issue(options("https://example.com", "1", Some(set))).unwrap();
    assert!(report.checks.iter().any(|c| matches!(c.status, CheckStatus::Fail)
        && c.id == "oidc.id_token_not_granted"));
}

#[test]
fn issue_with_empty_audience_fails() {
    let report = issue(options("", "1", Some(perms_with_id_token_write()))).unwrap();
    assert!(report.checks.iter().any(|c| matches!(c.status, CheckStatus::Fail)
        && c.id == "oidc.audience_missing"));
}

#[test]
fn token_round_trips_through_local_verifier() {
    let mut o = options("aud", "1", Some(perms_with_id_token_write()));
    o.sha = "abc".to_owned();
    let report = issue(o).unwrap();
    assert!(verify_stub_local(&report.token));
    let mutated = format!("{}x", report.token);
    assert!(!verify_stub_local(&mutated));
}

#[test]
fn issued_token_has_the_fixed_header_and_sorted_claims() {
    let mut o = options("aud", "7", Some(perms_with_id_token_write()));
    o.now = Some(Timestamp { seconds: 10, nanos: 0 });
    o.ttl_seconds = Some(0);
    let report = issue_at(o, Timestamp { seconds: 10, nanos: 0 });
    assert_eq!(report.exp, 11);
    let parts: Vec<&str> = report.token.split('.').collect();
    assert_eq!(parts.len(), 3);
    assert_eq!(parts[0], "eyJhbGciOiJIUzI1NiIsInR5cCI6IkpXVCIsImtpZCI6InN0dWItbG9jYWwifQ");
    let keys: Vec<&str> = report.claims.iter().map(|(k, _)| k.as_str()).collect();
    let mut sorted = keys.clone();
    sorted.sort();
    assert_eq!(keys, sorted);
    assert_eq!(report.warning, STUB_LOCAL_WARNING);
    assert_eq!(
        report.job_workflow_ref,
        "wildmason/mortar/.github/workflows/release.yml"
    );
}

#[test]
fn extra_claims_add_names_but_keep_standard_ones() {
    let mut o = options("aud", "7", Some(perms_with_id_token_write()));
    o.extra_claims = vec![
        ("sub".to_owned(), JsonValue::Text("custom".to_owned())),
        ("stub_local".to_owned(), JsonValue::Bool(false)),
        ("iss".to_owned(), JsonValue::Text("https://token.actions.githubusercontent.com".to_owned())),
        ("zz".to_owned(), JsonValue::Number("5".to_owned())),
        ("zz".to_owned(), JsonValue::Number("6".to_owned())),
    ];
    let report = issue(o).unwrap();
    assert!(matches!(claim(&report.claims, "sub"),
        Some(JsonValue::Text(s)) if s == "repo:wildmason/mortar:ref:refs/heads/main"));
    assert!(matches!(claim(&report.claims, "stub_local"), Some(JsonValue::Bool(true))));
    assert!(matches!(claim(&report.claims, "iss"),
        Some(JsonValue::Text(s)) if s == "stub-local://gha-github-service-proof"));
    assert!(matches!(claim(&report.claims, "zz"), Some(JsonValue::Number(n)) if n == "6"));
    assert_eq!(report.claims.iter().filter(|(k, _)| k == "stub_local").count(), 1);
    assert!(verify_stub_local(&report.token));
}

#[test]
fn tampered_tokens_fail_to_verify() {
    let report = issue(options("aud", "3", Some(perms_with_id_token_write()))).unwrap();
    assert!(verify_stub_local(&report.token));
    assert!(!verify_stub_local(&format!("{}A", report.token)));
    assert!(!verify_stub_local(&format!("{}.", report.token)));
    assert!(!verify_stub_local(&report.token[..report.token.len() - 1]));
    assert!(!verify_stub_local("a.b"));
}

#[test]
fn issue_refuses_an_expiry_past_i64() {
    let mut o = options("aud", "7", None);
    o.now = Some(Timestamp { seconds: i64::MAX - 10, nanos: 0 });
    o.ttl_seconds = Some(100);
    assert!(issue(o).is_none());
}

#[test]
fn repository_without_slash_warns_and_has_no_owner_claim() {
    let mut o = options("aud", "7", None);
    o.repository = "mortar".to_owned();
    let report = issue(o).unwrap();
    assert!(report.checks.iter().any(|c| c.id == "oidc.repository_format"
        && matches!(c.status, CheckStatus::Warn)));
    assert!(report.checks.iter().any(|c| c.id == "oidc.id_token_unverified"));
    assert!(claim(&report.claims, "repository_owner").is_none());
}

#[test]
fn verifier_rejects_malformed_tokens() {
    assert!(!verify_stub_local(""));
    assert!(!verify_stub_local("a.b"));
    assert!(!verify_stub_local("a.b.c.d"));
    assert!(!verify_stub_local("a.b.!!"));
}

#[test]
fn claim_argument_splits_at_first_equals_and_trims() {
    assert_eq!(
        claim_argument(" environment = \"prod\" "),
        Some(("environment".to_owned(), "\"prod\"".to_owned()))
    );
    assert_eq!(
        claim_argument("expr=a=b"),
        Some(("expr".to_owned(), "a=b".to_owned()))
    );
    assert_eq!(claim_argument("no-equals-sign"), None);
    assert_eq!(claim_argument("=1"), Some((String::new(), "1".to_owned())));
}
