use gha_github_service_proof::model::CheckStatus;
use gha_github_service_proof::value::YamlValue;
use gha_github_service_proof::workflow::{
    detect_from_action, detect_from_run, extract_github_path, normalize_api_path,
    scan_workflow_document,
};

fn yaml_value(v: serde_yaml::Value) -> YamlValue {
    match v {
        serde_yaml::Value::Null => YamlValue::Null,
        serde_yaml::Value::Bool(b) => YamlValue::Bool(b),
        serde_yaml::Value::Number(n) => YamlValue::Number(n.to_string()),
        serde_yaml::Value::String(s) => YamlValue::Text(s),
        serde_yaml::Value::Sequence(items) => {
            YamlValue::Sequence(items.into_iter().map(yaml_value).collect())
        }
        serde_yaml::Value::Mapping(m) => YamlValue::Mapping(
            m.into_iter().map(|(k, v)| (yaml_value(k), yaml_value(v))).collect(),
        ),
        serde_yaml::Value::Tagged(t) => {
            let t = *t;
            YamlValue::Tagged(t.tag.to_string(), Box::new(yaml_value(t.value)))
        }
    }
}

fn yaml(text: &str) -> YamlValue {
    yaml_value(serde_yaml::from_str(text).unwrap())
}

#[test]
fn detects_softprops_release_action_with_two_calls() {
    let detections = detect_from_action("softprops/action-gh-release@v2", "step 0");
    assert_eq!(detections.len(), 2);
    assert_eq!(detections[0].path, "/repos/{owner}/{repo}/releases");
    assert_eq!(detections[1].path, "/repos/{owner}/{repo}/releases/{id}/assets");
}

#[test]
fn detects_gh_release_create_run_block() {
    let detections = detect_from_run("gh release create v1.0 ./binary.zip\n", "step 1");
    assert_eq!(detections.len(), 2);
    assert_eq!(detections[0].method, "POST");
    assert_eq!(detections[1].path, "/repos/{owner}/{repo}/releases/{id}/assets");
}

#[test]
fn detects_gh_api_post_path_explicitly() {
    let detections =
        detect_from_run("gh api repos/wildmason/mortar/releases --method POST\n", "step 2");
    assert_eq!(detections.len(), 1);
    assert_eq!(detections[0].method, "POST");
    assert_eq!(detections[0].path, "/repos/wildmason/mortar/releases");
}

#[test]
fn detects_curl_github_api_url() {
    let detections = detect_from_run(
        "curl -X POST -H 'Authorization: Bearer $TOKEN' https://api.github.com/repos/o/r/issues -d '{}'",
        "step 3",
    );
    assert_eq!(detections.len(), 1);
    assert_eq!(detections[0].method, "POST");
    assert_eq!(detections[0].path, "/repos/o/r/issues");
}

#[test]
fn ignores_curl_to_non_github_host() {
    let detections =
        detect_from_run("curl -X POST https://hooks.slack.com/services/x/y/z -d '{}'", "step 4");
    assert!(detections.is_empty());
}

#[test]
fn scan_workflow_detects_gh_release_with_resolved_permissions() {
    let value = yaml(
        r#"
name: Release
on: push
permissions:
  contents: write
jobs:
  publish:
    runs-on: ubuntu-latest
    steps:
      - name: Create release
        run: gh release create v1.0 ./binary.zip
"#,
    );
    let report = scan_workflow_document(".github/workflows/release.yml".to_owned(), &value);
    assert_eq!(report.jobs.len(), 1);
    let job = &report.jobs[0];
    assert_eq!(job.steps.len(), 1);
    let step = &job.steps[0];
    assert_eq!(step.detections.len(), 2);
    assert!(step.detections.iter().all(|d| d.satisfied));
}

#[test]
fn scan_workflow_flags_missing_permissions_for_release() {
    let value = yaml(
        r#"
name: Release
on: push
permissions:
  contents: read
jobs:
  publish:
    runs-on: ubuntu-latest
    steps:
      - run: gh release create v1.0
"#,
    );
    let report = scan_workflow_document(".github/workflows/release.yml".to_owned(), &value);
    let step = &report.jobs[0].steps[0];
    assert!(step.detections.iter().any(|d| !d.satisfied));
    assert!(step.checks.iter().any(|c| c.id.contains("permissions_insufficient")));
}

#[test]
fn scan_workflow_rejects_a_non_mapping_root() {
    let report = scan_workflow_document("w.yml".to_owned(), &yaml("- a\n- b\n"));
    assert_eq!(report.checks.len(), 1);
    assert_eq!(report.checks[0].id, "workflow.invalid_root");
    assert_eq!(report.summary.failed, 1);
    assert!(report.jobs.is_empty());
}

#[test]
fn scan_workflow_warns_without_jobs() {
    let report = scan_workflow_document("w.yml".to_owned(), &yaml("name: x\n"));
    assert!(report.checks.iter().any(|c| c.id == "workflow.no_jobs"
        && matches!(c.status, CheckStatus::Warn)));
    assert_eq!(report.summary.warnings, 1);
}

#[test]
fn scan_workflow_summary_counts_every_check() {
    let value = yaml(
        r#"
permissions:
  contents: read
jobs:
  publish:
    steps:
      - run: gh release create v1.0
  other: 3
"#,
    );
    let report = scan_workflow_document("w.yml".to_owned(), &value);
    let mut failed = 0;
    let mut warned = 0;
    let mut passed = 0;
    for job in &report.jobs {
        failed += job.summary.failed;
        warned += job.summary.warnings;
        passed += job.summary.passed;
    }
    for c in &report.checks {
        match c.status {
            CheckStatus::Fail => failed += 1,
            CheckStatus::Warn => warned += 1,
            CheckStatus::Pass => passed += 1,
            CheckStatus::Skip => {}
        }
    }
    assert!(report.checks.iter().any(|c| c.id == "workflow.job_not_mapping"));
    assert_eq!(report.summary.failed, failed);
    assert_eq!(report.summary.warnings, warned);
    assert_eq!(report.summary.passed, passed);
}

#[test]
fn normalize_api_path_adds_one_leading_slash() {
    assert_eq!(normalize_api_path("repos/o/r"), "/repos/o/r");
    assert_eq!(normalize_api_path("/repos/o/r"), "/repos/o/r");
}

#[test]
fn extract_github_path_keeps_only_api_hosts() {
    assert_eq!(
        extract_github_path("https://api.github.com/repos/o/r/issues").as_deref(),
        Some("/repos/o/r/issues")
    );
    assert_eq!(extract_github_path("https://example.com/repos/o/r"), None);
}
