use gha_github_service_proof::engine::{
    CallOptions, OidcOptions, PermissionsCommandError, classify_call, classify_call_at,
    enrich_call_with_location, issue_oidc, permissions_receipt_at, receipt_fails, replay_gh_log_at,
    workflows_receipt_at,
};
use gha_github_service_proof::gh_log::{BundleTool, GhLogBundle, GhLogCall, ReplayOptions, check_bundle};
use gha_github_service_proof::model::{
    Compatibility, PermissionKey, PermissionLevel, PermissionSource, ReceiptSummary, Timestamp,
};
use gha_github_service_proof::oidc::verify_stub_local;
use gha_github_service_proof::permissions::parse_json_permissions;
use gha_github_service_proof::value::{JsonValue, YamlValue};
use gha_github_service_proof::workflow::scan_workflow_document;
use gha_github_service_proof::{TOOL_NAME, TOOL_VERSION};

fn yaml_value(v: serde_yaml::Value) -> YamlValue {
    match v {
        serde_yaml::Value::Null => YamlValue::Null,
        serde_yaml::Value::Bool(b) => YamlValue::Bool(b),
        serde_yaml::Value::Number(n) => YamlValue::Number(n.to_string()),
        serde_yaml::Value::String(s) => YamlValue::Text(s),
        serde_yaml::Value::Sequence(items) => {
            YamlValue::Sequence(items.into_iter().map(yaml_value).collect())
        }
        serde_yaml::Value::Mapping(m) => YamlValue::Mapping(
            m.into_iter().map(|(k, v)| (yaml_value(k), yaml_value(v))).collect(),
        ),
        serde_yaml::Value::Tagged(t) => {
            let t = *t;
            YamlValue::Tagged(t.tag.to_string(), Box::new(yaml_value(t.value)))
        }
    }
}

fn yaml(text: &str) -> YamlValue {
    yaml_value(serde_yaml::from_str(text).unwrap())
}

fn json_value(v: serde_json::Value) -> JsonValue {
    match v {
        serde_json::Value::Null => JsonValue::Null,
        serde_json::Value::Bool(b) => JsonValue::Bool(b),
        serde_json::Value::Number(n) => JsonValue::Number(n.to_string()),
        serde_json::Value::String(s) => JsonValue::Text(s),
        serde_json::Value::Array(items) => {
            JsonValue::Array(items.into_iter().map(json_value).collect())
        }
        serde_json::Value::Object(m) => {
            JsonValue::Object(m.into_iter().map(|(k, v)| (k, json_value(v))).collect())
        }
    }
}

fn call_options(method: &str, path: &str, permissions: Option<&str>) -> CallOptions {
    CallOptions {
        method: method.to_owned(),
        path: path.to_owned(),
        url: None,
        permissions: permissions.map(|p| {
            parse_json_permissions(&json_value(serde_json::from_str(p).unwrap())).ok().unwrap()
        }),
        origin: None,
    }
}

const AT: Timestamp = Timestamp { seconds: 1_700_000_000, nanos: 0 };

#[test]
fn call_command_classifies_release_create_as_simulated_with_write() {
    let receipt = classify_call(&call_options(
        "POST",
        "/repos/wildmason/mortar/releases",
        Some(r#"{"contents":"write"}"#),
    ));
    let call = &receipt.calls[0];
    assert_eq!(call.classification, Compatibility::Simulated);
    assert_eq!(call.catalog_match.as_ref().unwrap().endpoint_id, "releases.create");
    assert!(call.satisfied);
}

#[test]
fn call_command_flags_off_catalog_as_unsupported() {
    let receipt = classify_call(&call_options(
        "POST",
        "/repos/wildmason/mortar/branches/main/protection",
        Some(r#"{"contents":"write"}"#),
    ));
    let call = &receipt.calls[0];
    assert_eq!(call.classification, Compatibility::Unsupported);
    assert_eq!(call.unsupported_reason.as_deref(), Some("rest.endpoint_not_in_catalog"));
}

#[test]
fn call_command_flags_graphql_as_unsupported() {
    let receipt = classify_call(&call_options("POST", "/graphql", None));
    let call = &receipt.calls[0];
    assert_eq!(call.classification, Compatibility::Unsupported);
    assert_eq!(call.unsupported_reason.as_deref(), Some("graphql.classification_not_implemented"));
    assert!(receipt.summary.failed > 0);
}

#[test]
fn oidc_command_issues_stub_jwt_with_id_token_write() {
    let permissions =
        parse_json_permissions(&json_value(serde_json::from_str(r#"{"id-token":"write"}"#).unwrap()))
            .ok()
            .unwrap();
    let receipt = issue_oidc(&OidcOptions {
        audience: "sts.amazonaws.com".to_owned(),
        repository: "wildmason/mortar".to_owned(),
        git_ref: "refs/heads/main".to_owned(),
        sha: "deadbeef".to_owned(),
        workflow: "release.yml".to_owned(),
        job: "deploy".to_owned(),
        run_id: "1234567890".to_owned(),
        job_workflow_ref: None,
        permissions: Some(permissions),
        ttl_seconds: None,
        extra_claims: Vec::new(),
    })
    .unwrap();
    let oidc = receipt.oidc.as_ref().unwrap();
    assert_eq!(oidc.audience, "sts.amazonaws.com");
    assert_eq!(oidc.signing_mode, "stub-local");
    assert_eq!(oidc.compatibility, Compatibility::Simulated);
    let claim = |key: &str| oidc.claims.iter().find(|(k, _)| k == key).map(|(_, v)| v);
    assert!(matches!(claim("aud"), Some(JsonValue::Text(s)) if s == "sts.amazonaws.com"));
    assert!(matches!(claim("sub"),
        Some(JsonValue::Text(s)) if s == "repo:wildmason/mortar:ref:refs/heads/main"));
    assert!(matches!(claim("stub_local"), Some(JsonValue::Bool(true))));
    assert!(oidc.token.contains('.'));
    assert_eq!(oidc.exp - oidc.iat, 300);
    assert!(verify_stub_local(&oidc.token));
    assert_eq!(receipt.mode, "oidc");
}

#[test]
fn call_accepts_metadata_read_in_permissions_silently() {
    let receipt = classify_call(&call_options(
        "POST",
        "/repos/wildmason/mortar/releases",
        Some(r#"{"contents":"write","metadata":"read"}"#),
    ));
    let call = &receipt.calls[0];
    assert_eq!(call.classification, Compatibility::Simulated);
    assert!(call.satisfied);
    let granted = call.permissions.as_ref().unwrap();
    assert_eq!(granted.get("contents"), Some(PermissionLevel::Write));
    assert_eq!(granted.get("metadata"), Some(PermissionLevel::Read));
    assert!(granted.unknown_keys.iter().all(|k| k != "metadata"));
}

#[test]
fn call_receipt_counts_the_call_checks() {
    let receipt = classify_call_at(&call_options("GET", "/rate_limit", None), AT);
    assert_eq!(receipt.mode, "call");
    assert_eq!(receipt.tool.name, TOOL_NAME);
    assert_eq!(receipt.tool.version, TOOL_VERSION);
    assert_eq!(receipt.checked_at, AT);
    assert_eq!(receipt.calls[0].classification, Compatibility::Exact);
    assert_eq!(receipt.summary.passed, receipt.calls[0].checks.len());
}

#[test]
fn permissions_command_resolves_job_block_over_workflow() {
    let root = yaml(
        "permissions:\n  contents: write\njobs:\n  build:\n    permissions:\n      contents: read\n      id-token: write\n",
    );
    let receipt = permissions_receipt_at(&root, Some("build"), AT).ok().unwrap();
    let resolution = receipt.permissions.as_ref().unwrap();
    assert_eq!(resolution.effective.get("contents"), Some(PermissionLevel::Read));
    assert_eq!(resolution.effective.get("id-token"), Some(PermissionLevel::Write));
    assert_eq!(resolution.source, PermissionSource::JobBlock);
}

#[test]
fn permissions_command_errors_name_what_is_missing() {
    let err = permissions_receipt_at(&yaml("- 1\n"), None, AT).err().unwrap();
    assert!(matches!(err, PermissionsCommandError::RootNotMapping));
    let err = permissions_receipt_at(&yaml("name: x\n"), Some("build"), AT).err().unwrap();
    assert_eq!(err.message(), "workflow has no `jobs:` mapping");
    let err = permissions_receipt_at(&yaml("jobs:\n  a: {}\n"), Some("build"), AT).err().unwrap();
    assert_eq!(err.message(), "job 'build' not found in workflow");
    let receipt = permissions_receipt_at(&yaml("name: x\n"), None, AT).ok().unwrap();
    assert_eq!(receipt.permissions.as_ref().unwrap().source, PermissionSource::DefaultRestricted);
    assert_eq!(receipt.summary.warnings, 1);
}

#[test]
fn workflow_receipt_adds_up_workflow_summaries() {
    let a = scan_workflow_document("a.yml".to_owned(), &yaml("name: x\n"));
    let b = scan_workflow_document("b.yml".to_owned(), &yaml("- 1\n"));
    let receipt = workflows_receipt_at(vec![a, b], AT);
    assert_eq!(receipt.mode, "check-workflow");
    assert_eq!(receipt.summary.warnings, 1);
    assert_eq!(receipt.summary.failed, 1);
    assert_eq!(receipt.workflows.len(), 2);
}

#[test]
fn gh_log_receipt_carries_the_replay_summary() {
    let bundle = GhLogBundle {
        schema_version: 1,
        tool: BundleTool { name: "ci-forge".to_owned(), version: "0.1.0".to_owned() },
        captured_at: None,
        calls: Vec::new(),
    };
    let receipt = replay_gh_log_at(
        ReplayOptions { bundle, permissions: None, unsafe_full_payloads: true },
        AT,
    );
    assert_eq!(receipt.mode, "gh-log");
    assert_eq!(receipt.summary.warnings, 2);
    assert_eq!(receipt.gh_log.as_ref().unwrap().call_count, 0);
}

#[test]
fn enrich_call_with_location_fills_only_a_missing_origin() {
    let mut receipt = classify_call_at(&call_options("GET", "/rate_limit", None), AT);
    let mut call = receipt.calls.pop().unwrap();
    enrich_call_with_location(&mut call, "first".to_owned());
    assert_eq!(call.origin.as_deref(), Some("first"));
    enrich_call_with_location(&mut call, "second".to_owned());
    assert_eq!(call.origin.as_deref(), Some("first"));
}

#[test]
fn receipt_fails_on_failures_and_on_strict_warnings() {
    let clean = ReceiptSummary { passed: 3, warnings: 0, failed: 0, skipped: 1 };
    let warned = ReceiptSummary { passed: 3, warnings: 2, failed: 0, skipped: 0 };
    let failed = ReceiptSummary { passed: 0, warnings: 0, failed: 1, skipped: 0 };
    assert!(!receipt_fails(&clean, false));
    assert!(!receipt_fails(&clean, true));
    assert!(!receipt_fails(&warned, false));
    assert!(receipt_fails(&warned, true));
    assert!(receipt_fails(&failed, false));
    assert!(receipt_fails(&failed, true));
}

const RELEASE_WITH_WRITE: &str = "
name: Release
on: push
permissions:
  contents: write
jobs:
  publish:
    runs-on: ubuntu-latest
    steps:
      - name: Create release
        run: gh release create v1.0 ./binary.zip
";

const RELEASE_WITH_READ: &str = "
name: Release
on: push
permissions:
  contents: read
jobs:
  publish:
    runs-on: ubuntu-latest
    steps:
      - run: gh release create v1.0
";

const METADATA_KEY: &str = "
name: ci
on: push
permissions:
  contents: read
  metadata: read
jobs:
  build:
    runs-on: ubuntu-latest
    steps:
      - run: echo hi
";

fn workflow_receipt(body: &str) -> gha_github_service_proof::model::GithubServiceReceipt {
    let report = scan_workflow_document(".github/workflows/ci.yml".to_owned(), &yaml(body));
    workflows_receipt_at(vec![report], AT)
}

#[test]
fn check_workflow_detects_gh_release_with_sufficient_permissions() {
    let receipt = workflow_receipt(RELEASE_WITH_WRITE);
    assert_eq!(receipt.mode, "check-workflow");
    assert_eq!(receipt.workflows[0].jobs[0].job_id, "publish");
    let detections = &receipt.workflows[0].jobs[0].steps[0].detections;
    assert_eq!(detections.len(), 2);
    assert_eq!(detections[0].classification, Compatibility::Simulated);
    assert!(detections[0].satisfied);
    assert_eq!(receipt.summary.failed, 0);
    assert!(!receipt_fails(&receipt.summary, false));
}

#[test]
fn check_workflow_fails_when_release_needs_write_but_block_grants_read() {
    let receipt = workflow_receipt(RELEASE_WITH_READ);
    assert!(receipt.summary.failed > 0, "expected failed > 0, got {:?}", receipt.summary);
    assert!(receipt_fails(&receipt.summary, false));
}

#[test]
fn check_workflow_flags_metadata_key_as_not_configurable() {
    let receipt = workflow_receipt(METADATA_KEY);
    let ids: Vec<&str> = receipt.workflows[0].checks.iter().map(|c| c.id.as_str()).collect();
    assert!(
        ids.contains(&"permissions.metadata_not_configurable"),
        "expected permissions.metadata_not_configurable in workflow checks, got: {ids:?}"
    );
    assert!(!ids.contains(&"permissions.unknown_key"), "got: {ids:?}");
    assert!(receipt_fails(&receipt.summary, false));
}

#[test]
fn oidc_command_fails_without_id_token_write_under_strict() {
    let permissions =
        parse_json_permissions(&json_value(serde_json::from_str(r#"{"contents":"write"}"#).unwrap()))
            .ok()
            .unwrap();
    let receipt = issue_oidc(&OidcOptions {
        audience: "sts.amazonaws.com".to_owned(),
        repository: "wildmason/oss".to_owned(),
        git_ref: "refs/heads/main".to_owned(),
        sha: "0000000000000000000000000000000000000000".to_owned(),
        workflow: "release.yml".to_owned(),
        job: "deploy".to_owned(),
        run_id: "1".to_owned(),
        job_workflow_ref: None,
        permissions: Some(permissions),
        ttl_seconds: None,
        extra_claims: Vec::new(),
    })
    .unwrap();
    assert!(receipt_fails(&receipt.summary, true));
    assert!(receipt_fails(&receipt.summary, false));
}

#[test]
fn call_rejects_metadata_write_in_permissions() {
    let err = parse_json_permissions(&json_value(
        serde_json::from_str(r#"{"metadata":"write"}"#).unwrap(),
    ))
    .err()
    .unwrap();
    let message = err.message();
    assert!(message.contains("metadata"), "expected metadata error, got: {message}");
}

fn logged_call(method: &str, path: &str, authorization: &str) -> GhLogCall {
    GhLogCall {
        id: "call-1".to_owned(),
        timestamp: None,
        source: "gh".to_owned(),
        method: method.to_owned(),
        url: None,
        path: path.to_owned(),
        request_headers: vec![("authorization".to_owned(), authorization.to_owned())],
        request_body_excerpt: None,
        status: None,
        response_body_excerpt: None,
        exit_code: None,
    }
}

fn bundle_of(calls: Vec<GhLogCall>) -> GhLogBundle {
    GhLogBundle {
        schema_version: 1,
        tool: BundleTool { name: "ci-forge".to_owned(), version: "0.1.0".to_owned() },
        captured_at: None,
        calls,
    }
}

fn granted(json: &str) -> Option<gha_github_service_proof::model::PermissionSet> {
    Some(parse_json_permissions(&json_value(serde_json::from_str(json).unwrap())).ok().unwrap())
}

#[test]
fn gh_log_command_replays_redacted_bundle() {
    let mut call = logged_call("POST", "/repos/wildmason/mortar/releases", "<redacted>");
    call.url = Some("https://api.github.com/repos/wildmason/mortar/releases".to_owned());
    call.request_headers.insert(0, ("accept".to_owned(), "application/vnd.github+json".to_owned()));
    call.request_body_excerpt = Some("{}".to_owned());
    call.status = Some(201);
    call.exit_code = Some(0);
    let bundle = check_bundle(bundle_of(vec![call])).ok().unwrap();
    let receipt = replay_gh_log_at(
        ReplayOptions {
            bundle,
            permissions: granted(r#"{"contents":"write"}"#),
            unsafe_full_payloads: false,
        },
        AT,
    );
    let log = receipt.gh_log.as_ref().unwrap();
    assert_eq!(log.call_count, 1);
    assert!(log.redaction_enforced);
    assert_eq!(log.calls[0].catalog_match.as_ref().unwrap().endpoint_id, "releases.create");
    assert!(!receipt_fails(&receipt.summary, false));
}

#[test]
fn gh_log_fails_on_unredacted_authorization() {
    let call = logged_call("GET", "/repos/wildmason/mortar/releases", "Bearer ghp_real_secret");
    let bundle = check_bundle(bundle_of(vec![call])).ok().unwrap();
    let receipt = replay_gh_log_at(
        ReplayOptions { bundle, permissions: None, unsafe_full_payloads: false },
        AT,
    );
    assert!(receipt_fails(&receipt.summary, false));
}

#[test]
fn gh_log_accepts_metadata_read_in_permissions() {
    let call = logged_call("GET", "/repos/wildmason/mortar", "<redacted>");
    let bundle = check_bundle(bundle_of(vec![call])).ok().unwrap();
    let receipt = replay_gh_log_at(
        ReplayOptions {
            bundle,
            permissions: granted(r#"{"contents":"read","metadata":"read"}"#),
            unsafe_full_payloads: false,
        },
        AT,
    );
    let log = receipt.gh_log.as_ref().unwrap();
    assert_eq!(log.call_count, 1);
    assert_eq!(log.calls[0].catalog_match.as_ref().unwrap().endpoint_id, "repos.get");
    assert!(log.calls[0].satisfied);
}
