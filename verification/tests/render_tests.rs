use gha_github_service_proof::engine::{CallOptions, classify_call_at, permissions_receipt_at};
use gha_github_service_proof::model::Timestamp;
use gha_github_service_proof::render::{render_markdown, render_text};
use gha_github_service_proof::value::YamlValue;

const AT: Timestamp = Timestamp { seconds: 1_431_648_000, nanos: 0 };

fn call(method: &str, path: &str) -> CallOptions {
    CallOptions {
        method: method.to_owned(),
        path: path.to_owned(),
        url: None,
        permissions: None,
        origin: None,
    }
}

#[test]
fn text_rendering_of_a_call_receipt() {
    let receipt = classify_call_at(&call("GET", "/rate_limit"), AT);
    let text = render_text(&receipt);
    let first = text.lines().next().unwrap();
    assert_eq!(first, "gha-github-service-proof 1.0.1 (call)");
    assert!(text.contains("\nsummary: 1 passed, 0 warned, 0 failed, 0 skipped\n"));
    assert!(text.contains("\ncalls:\n  GET /rate_limit -> exact\n    catalog: "));
    assert!(text.contains("    [PASS] pass  "));
}

#[test]
fn markdown_rendering_of_a_call_receipt() {
    let receipt = classify_call_at(&call("POST", "/graphql"), AT);
    let md = render_markdown(&receipt);
    assert!(md.starts_with("# gha-github-service-proof Receipt\n\n- Tool: `gha-github-service-proof` `1.0.1`\n"));
    assert!(md.contains("- Checked at: `2015-05-15 00:00:00 UTC`\n"));
    assert!(md.contains("- Summary: **0 passed**, **0 warned**, **1 failed**, **0 skipped**\n\n"));
    assert!(md.contains("| `POST` | `/graphql` | `unsupported` | `false` | `graphql.classification_not_implemented` |\n"));
}

#[test]
fn markdown_escapes_pipes_and_line_feeds() {
    let receipt = classify_call_at(&call("GET", "/a|b"), AT);
    let md = render_markdown(&receipt);
    assert!(md.contains("| `GET` | `/a\\|b` |"));
}

#[test]
fn text_rendering_lists_permissions_in_key_order() {
    let root = YamlValue::Mapping(vec![(
        YamlValue::Text("permissions".to_owned()),
        YamlValue::Mapping(vec![
            (YamlValue::Text("pull-requests".to_owned()), YamlValue::Text("write".to_owned())),
            (YamlValue::Text("contents".to_owned()), YamlValue::Text("read".to_owned())),
        ]),
    )]);
    let receipt = permissions_receipt_at(&root, None, AT).ok().unwrap();
    let text = render_text(&receipt);
    assert!(text.contains(
        "\npermissions (Workflow from WorkflowBlock):\n  contents: read\n  pull-requests: write\n"
    ));
    let md = render_markdown(&receipt);
    assert!(md.contains("## Permissions\n\n- Source: `WorkflowBlock`\n- Effective scopes:\n  - `contents`: `read`\n  - `pull-requests`: `write`\n\n"));
}
