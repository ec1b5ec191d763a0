use gha_github_service_proof::gh_log::{
    BundleError, BundleTool, GhLogBundle, GhLogCall, ReplayOptions, check_bundle, find_header, replay,
};
use gha_github_service_proof::model::{
    CheckStatus, PermissionKey, PermissionLevel, PermissionSet,
};

fn perms_with(key: PermissionKey, level: PermissionLevel) -> PermissionSet {
    let mut set = PermissionSet::default();
    set.insert(key.as_str().to_owned(), level);
    set
}

fn sample_bundle(authorization: &str) -> GhLogBundle {
    let headers = vec![
        ("accept".to_owned(), "application/vnd.github+json".to_owned()),
        ("authorization".to_owned(), authorization.to_owned()),
    ];
    GhLogBundle {
        schema_version: 1,
        tool: BundleTool { name: "ci-forge".to_owned(), version: "0.1.0".to_owned() },
        captured_at: None,
        calls: vec![GhLogCall {
            id: "call-1".to_owned(),
            timestamp: None,
            source: "gh".to_owned(),
            method: "POST".to_owned(),
            url: Some("https://api.github.com/repos/wildmason/mortar/releases".to_owned()),
            path: "/repos/wildmason/mortar/releases".to_owned(),
            request_headers: headers,
            request_body_excerpt: Some("{}".to_owned()),
            status: Some(201),
            response_body_excerpt: Some("{\"id\":123}".to_owned()),
            exit_code: Some(0),
        }],
    }
}

/// A bundle from its JSON text, field by field as a bundle file holds it.
fn bundle_from_json(raw: &str) -> GhLogBundle {
    let v: serde_json::Value = serde_json::from_str(raw).unwrap();
    let text = |x: &serde_json::Value| x.as_str().unwrap().to_owned();
    GhLogBundle {
        schema_version: v["schema_version"].as_u64().unwrap() as u32,
        tool: BundleTool { name: text(&v["tool"]["name"]), version: text(&v["tool"]["version"]) },
        captured_at: None,
        calls: Vec::new(),
    }
}

#[test]
fn redacted_capture_classifies_call_and_keeps_redaction_enforced() {
    let report = replay(ReplayOptions {
        bundle: sample_bundle("<redacted>"),
        permissions: Some(perms_with(PermissionKey::Contents, PermissionLevel::Write)),
        unsafe_full_payloads: false,
    });
    assert_eq!(report.call_count, 1);
    assert!(report.redaction_enforced);
    let call = &report.calls[0];
    assert!(call.satisfied);
    assert!(call.catalog_match.is_some());
}

#[test]
fn unredacted_authorization_fails_when_safe_mode() {
    let report = replay(ReplayOptions {
        bundle: sample_bundle("Bearer ghp_real_secret_value"),
        permissions: Some(perms_with(PermissionKey::Contents, PermissionLevel::Write)),
        unsafe_full_payloads: false,
    });
    assert!(!report.redaction_enforced);
    assert!(report.checks.iter().any(|c| c.id == "gh_log.authorization_not_redacted"
        && matches!(c.status, CheckStatus::Fail)));
}

#[test]
fn unsafe_mode_permits_unredacted_authorization_but_warns() {
    let report = replay(ReplayOptions {
        bundle: sample_bundle("Bearer ghp_real_secret_value"),
        permissions: Some(perms_with(PermissionKey::Contents, PermissionLevel::Write)),
        unsafe_full_payloads: true,
    });
    assert!(!report.redaction_enforced);
    assert!(report.checks.iter().any(|c| c.id == "gh_log.unsafe_full_payloads"
        && matches!(c.status, CheckStatus::Warn)));
    assert!(!report.checks.iter().any(|c| c.id == "gh_log.authorization_not_redacted"));
}

#[test]
fn schema_version_mismatch_is_rejected() {
    let raw = r#"{"schema_version":99,"tool":{"name":"x","version":"y"},"calls":[]}"#;
    let err = check_bundle(bundle_from_json(raw)).err().unwrap();
    assert!(err.message().contains("schema_version"));
}

#[test]
fn empty_call_list_warns() {
    let bundle = GhLogBundle {
        schema_version: 1,
        tool: BundleTool { name: "ci-forge".to_owned(), version: "0.1.0".to_owned() },
        captured_at: None,
        calls: Vec::new(),
    };
    let report = replay(ReplayOptions { bundle, permissions: None, unsafe_full_payloads: false });
    assert!(report.checks.iter().any(|c| c.id == "gh_log.no_calls"));
}

#[test]
fn unredacted_message_counts_header_bytes_and_points_at_the_call() {
    let report = replay(ReplayOptions {
        bundle: sample_bundle("Bearer é"),
        permissions: None,
        unsafe_full_payloads: false,
    });
    let check = report
        .checks
        .iter()
        .find(|c| c.id == "gh_log.authorization_not_redacted")
        .unwrap();
    assert!(check.message.ends_with("(header bytes were 9 chars)"));
    assert_eq!(check.location.as_deref(), Some("call call-1 (gh)"));
}

#[test]
fn missing_authorization_header_warns() {
    let mut bundle = sample_bundle("<redacted>");
    bundle.calls[0].request_headers.retain(|(k, _)| k != "authorization");
    let report = replay(ReplayOptions { bundle, permissions: None, unsafe_full_payloads: false });
    assert!(report.redaction_enforced);
    assert!(report.checks.iter().any(|c| c.id == "gh_log.authorization_absent"
        && matches!(c.status, CheckStatus::Warn)
        && c.message == "call call-1 has no authorization header; assume unauthenticated or redacted upstream"));
}

#[test]
fn upstream_error_status_adds_a_warning_to_the_call() {
    let mut bundle = sample_bundle("<redacted>");
    bundle.calls[0].status = Some(404);
    let report = replay(ReplayOptions {
        bundle,
        permissions: Some(perms_with(PermissionKey::Contents, PermissionLevel::Write)),
        unsafe_full_payloads: false,
    });
    let call = &report.calls[0];
    let last = call.checks.last().unwrap();
    assert_eq!(last.id, "gh_log.upstream_error");
    assert_eq!(
        last.message,
        "captured response status is 404; ci-forge classification reflects request shape, not response failure"
    );
    assert_eq!(report.summary.warnings, 1);
}

#[test]
fn find_header_ignores_ascii_case() {
    let headers = vec![("Authorization".to_owned(), "x".to_owned())];
    assert_eq!(find_header(&headers, "authorization"), Some("x"));
    assert_eq!(find_header(&headers, "accept"), None);
}

#[test]
fn check_bundle_rejects_blank_tool_fields() {
    let mut bundle = sample_bundle("<redacted>");
    bundle.tool.name = "  ".to_owned();
    assert!(matches!(check_bundle(bundle).err(), Some(BundleError::EmptyToolName)));
    let mut bundle = sample_bundle("<redacted>");
    bundle.tool.version = "".to_owned();
    let err = check_bundle(bundle).err().unwrap();
    assert_eq!(err.message(), "gh-log tool.version must be non-empty");
    let err = BundleError::UnsupportedSchema { found: 99 };
    assert_eq!(
        err.message(),
        "gh-log schema_version 99 is not supported by gha-github-service-proof v1 (expected 1)"
    );
    assert!(check_bundle(sample_bundle("<redacted>")).is_ok());
}

#[test]
fn replay_summary_adds_up_each_call_and_the_bundle_checks() {
    let mut bundle = sample_bundle("Bearer ghp_real_secret_value");
    let mut second = sample_bundle("<redacted>").calls.pop().unwrap();
    second.id = "call-2".to_owned();
    second.status = Some(500);
    bundle.calls.push(second);
    let report = replay(ReplayOptions { bundle, permissions: None, unsafe_full_payloads: false });
    let count = |checks: &[gha_github_service_proof::model::Check], status: CheckStatus| {
        checks.iter().filter(|c| c.status == status).count()
    };
    for status in [CheckStatus::Pass, CheckStatus::Warn, CheckStatus::Fail, CheckStatus::Skip] {
        let expected: usize = report.calls.iter().map(|c| count(&c.checks, status)).sum::<usize>()
            + count(&report.checks, status);
        let got = match status {
            CheckStatus::Pass => report.summary.passed,
            CheckStatus::Warn => report.summary.warnings,
            CheckStatus::Fail => report.summary.failed,
            CheckStatus::Skip => report.summary.skipped,
        };
        assert_eq!(got, expected);
    }
    assert_eq!(report.summary.failed, 1);
    assert_eq!(report.summary.warnings, 3);
}
