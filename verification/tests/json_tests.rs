use gha_github_service_proof::engine::{CallOptions, classify_call};
use gha_github_service_proof::json::{insert_entry, write_json};
use gha_github_service_proof::text::key_less_exec;
use gha_github_service_proof::value::JsonValue;

fn json_value(v: serde_json::Value) -> JsonValue {
    match v {
        serde_json::Value::Null => JsonValue::Null,
        serde_json::Value::Bool(b) => JsonValue::Bool(b),
        serde_json::Value::Number(n) => JsonValue::Number(n.to_string()),
        serde_json::Value::String(s) => JsonValue::Text(s),
        serde_json::Value::Array(items) => {
            JsonValue::Array(items.into_iter().map(json_value).collect())
        }
        serde_json::Value::Object(m) => {
            JsonValue::Object(m.into_iter().map(|(k, v)| (k, json_value(v))).collect())
        }
    }
}

fn written(v: &JsonValue) -> String {
    let mut out = String::new();
    write_json(&mut out, v);
    out
}

#[test]
fn compact_json_matches_serde_json_output() {
    for text in [
        r#"{"b":[1,2.5,-3],"a":{"y":null,"x":true},"c":"q\"u\\o\nte\u0001\u001f\u007f é"}"#,
        r#"[]"#,
        r#"{}"#,
        r#""\b\f\r\t""#,
        r#"[{"k":[[],{}]}]"#,
    ] {
        let parsed: serde_json::Value = serde_json::from_str(text).unwrap();
        let expected = serde_json::to_string(&parsed).unwrap();
        assert_eq!(written(&json_value(parsed)), expected);
    }
}

#[test]
fn escapes_control_characters_with_lowercase_hex() {
    let v = JsonValue::Text("\u{1b}x".to_owned());
    assert_eq!(written(&v), "\"\\u001bx\"");
}

#[test]
fn object_entries_stay_in_key_order_and_replace_in_place() {
    let mut entries: Vec<(String, JsonValue)> = Vec::new();
    for key in ["sub", "aud", "iss", "aud", "é", "Z"] {
        insert_entry(&mut entries, key.to_owned(), JsonValue::Text(key.to_owned()));
    }
    let keys: Vec<&str> = entries.iter().map(|(k, _)| k.as_str()).collect();
    assert_eq!(keys, vec!["Z", "aud", "iss", "sub", "é"]);
}

#[test]
fn key_order_is_the_byte_order_of_strings() {
    let words = ["", "a", "ab", "b", "é", "z", "Zz", "\u{10000}", "\u{ffff}"];
    for a in words {
        for b in words {
            assert_eq!(key_less_exec(a, b), a < b, "{a:?} < {b:?}");
        }
    }
}

#[test]
fn receipts_are_stamped_with_the_current_time() {
    let receipt = classify_call(&CallOptions {
        method: "GET".to_owned(),
        path: "/rate_limit".to_owned(),
        url: None,
        permissions: None,
        origin: None,
    });
    assert!(receipt.checked_at.seconds > 1_600_000_000);
    assert!(receipt.checked_at.is_valid());
}
