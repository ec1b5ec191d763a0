use gha_github_service_proof::model::{
    CheckStatus, PermissionKey, PermissionLevel, PermissionScope, PermissionSet, PermissionSource,
    RequiredPermission,
};
use gha_github_service_proof::permissions::{
    default_restricted, effective_map, missing, parse_json_permissions, parse_yaml_block, resolve,
    satisfies,
};
use gha_github_service_proof::value::{JsonValue, YamlValue};

fn yaml_value(v: serde_yaml::Value) -> YamlValue {
    match v {
        serde_yaml::Value::Null => YamlValue::Null,
        serde_yaml::Value::Bool(b) => YamlValue::Bool(b),
        serde_yaml::Value::Number(n) => YamlValue::Number(n.to_string()),
        serde_yaml::Value::String(s) => YamlValue::Text(s),
        serde_yaml::Value::Sequence(items) => {
            YamlValue::Sequence(items.into_iter().map(yaml_value).collect())
        }
        serde_yaml::Value::Mapping(m) => YamlValue::Mapping(
            m.into_iter().map(|(k, v)| (yaml_value(k), yaml_value(v))).collect(),
        ),
        serde_yaml::Value::Tagged(t) => {
            let t = *t;
            YamlValue::Tagged(t.tag.to_string(), Box::new(yaml_value(t.value)))
        }
    }
}

fn yaml(text: &str) -> YamlValue {
    yaml_value(serde_yaml::from_str(text).unwrap())
}

fn json_value(v: serde_json::Value) -> JsonValue {
    match v {
        serde_json::Value::Null => JsonValue::Null,
        serde_json::Value::Bool(b) => JsonValue::Bool(b),
        serde_json::Value::Number(n) => JsonValue::Number(n.to_string()),
        serde_json::Value::String(s) => JsonValue::Text(s),
        serde_json::Value::Array(items) => {
            JsonValue::Array(items.into_iter().map(json_value).collect())
        }
        serde_json::Value::Object(m) => {
            JsonValue::Object(m.into_iter().map(|(k, v)| (k, json_value(v))).collect())
        }
    }
}

fn json(text: &str) -> JsonValue {
    json_value(serde_json::from_str(text).unwrap())
}

#[test]
fn parse_yaml_mapping_block() {
    let value = yaml("contents: write\nissues: read\n");
    let (set, checks) = parse_yaml_block(Some(&value));
    let set = set.unwrap();
    assert_eq!(set.level(PermissionKey::Contents), PermissionLevel::Write);
    assert_eq!(set.level(PermissionKey::Issues), PermissionLevel::Read);
    assert_eq!(set.level(PermissionKey::PullRequests), PermissionLevel::NoAccess);
    assert!(checks.iter().all(|c| !matches!(c.status, CheckStatus::Fail)));
}

#[test]
fn parse_yaml_read_all_shortcut() {
    let value = yaml("read-all");
    let (set, _) = parse_yaml_block(Some(&value));
    let set = set.unwrap();
    assert_eq!(set.level(PermissionKey::Contents), PermissionLevel::Read);
    assert_eq!(set.level(PermissionKey::Issues), PermissionLevel::Read);
    assert_eq!(set.level(PermissionKey::IdToken), PermissionLevel::NoAccess);
    assert_eq!(set.shorthand.as_deref(), Some("read-all"));
}

#[test]
fn parse_yaml_unknown_key_warns_but_keeps_value() {
    let value = yaml("bogus: write\n");
    let (set, checks) = parse_yaml_block(Some(&value));
    let set = set.unwrap();
    assert!(set.unknown_keys.iter().any(|k| k == "bogus"));
    assert!(checks.iter().any(|c| c.id == "permissions.unknown_key"));
}

#[test]
fn parse_yaml_invalid_level_fails() {
    let value = yaml("contents: full\n");
    let (_, checks) = parse_yaml_block(Some(&value));
    assert!(checks.iter().any(|c| c.id == "permissions.unknown_level"));
}

#[test]
fn satisfies_when_level_matches() {
    let mut set = PermissionSet::default();
    set.insert("contents".to_owned(), PermissionLevel::Write);
    let required = vec![RequiredPermission { key: PermissionKey::Contents, level: PermissionLevel::Write }];
    assert!(satisfies(&set, &required));
    assert!(missing(&set, &required).is_empty());
}

#[test]
fn missing_when_below_required_level() {
    let mut set = PermissionSet::default();
    set.insert("contents".to_owned(), PermissionLevel::Read);
    let required = vec![RequiredPermission { key: PermissionKey::Contents, level: PermissionLevel::Write }];
    assert_eq!(missing(&set, &required).len(), 1);
    assert!(!satisfies(&set, &required));
}

#[test]
fn resolve_prefers_job_over_workflow() {
    let mut wf = PermissionSet::default();
    wf.insert("contents".to_owned(), PermissionLevel::Write);
    let mut job = PermissionSet::default();
    job.insert("contents".to_owned(), PermissionLevel::Read);
    let resolution = resolve(Some(wf), Some(job), PermissionScope::Job);
    assert!(matches!(resolution.source, PermissionSource::JobBlock));
    assert_eq!(resolution.effective.level(PermissionKey::Contents), PermissionLevel::Read);
}

#[test]
fn resolve_default_restricted_emits_warning() {
    let resolution = resolve(None, None, PermissionScope::Job);
    assert!(matches!(resolution.source, PermissionSource::DefaultRestricted));
    assert!(resolution.checks.iter().any(|c| c.id == "permissions.default_restricted"));
}

#[test]
fn parse_json_permissions_object() {
    let set = parse_json_permissions(&json(r#"{"contents":"write","issues":"read"}"#)).unwrap();
    assert_eq!(set.level(PermissionKey::Contents), PermissionLevel::Write);
    assert_eq!(set.level(PermissionKey::Issues), PermissionLevel::Read);
}

#[test]
fn parse_json_permissions_shorthand() {
    let set = parse_json_permissions(&json(r#""write-all""#)).unwrap();
    assert_eq!(set.level(PermissionKey::Contents), PermissionLevel::Write);
    assert_eq!(set.level(PermissionKey::IdToken), PermissionLevel::NoAccess);
}

#[test]
fn parse_json_permissions_metadata_read_is_accepted_silently() {
    let set = parse_json_permissions(&json(r#"{"contents":"read","metadata":"read"}"#)).unwrap();
    assert_eq!(set.get("metadata"), Some(PermissionLevel::Read));
    assert!(set.unknown_keys.iter().all(|k| k != "metadata"));
}

#[test]
fn parse_json_permissions_metadata_write_is_rejected() {
    let err = parse_json_permissions(&json(r#"{"metadata":"write"}"#)).err().unwrap();
    let message = err.message();
    assert!(
        message.contains("metadata") && message.contains("read"),
        "expected explicit metadata read-only error, got: {message}"
    );
}

#[test]
fn parse_json_permissions_metadata_none_is_rejected() {
    let err = parse_json_permissions(&json(r#"{"metadata":"none"}"#)).err().unwrap();
    let message = err.message();
    assert!(
        message.contains("metadata") && message.contains("implicit"),
        "expected explicit metadata-cannot-be-revoked error, got: {message}"
    );
}

#[test]
fn parse_yaml_block_flags_metadata_as_not_configurable() {
    let value = yaml("metadata: read\n");
    let (set, checks) = parse_yaml_block(Some(&value));
    let set = set.unwrap();
    assert!(set.unknown_keys.iter().any(|k| k == "metadata"));
    assert!(checks.iter().any(|c| c.id == "permissions.metadata_not_configurable"
        && matches!(c.status, CheckStatus::Fail)));
    assert!(checks.iter().all(|c| c.id != "permissions.unknown_key"));
}

#[test]
fn parse_json_permissions_reports_each_refusal() {
    let bad_shorthand = parse_json_permissions(&json(r#""read-most""#)).err().unwrap();
    assert_eq!(
        bad_shorthand.message(),
        "permissions scalar must be 'read-all' or 'write-all', got 'read-most'"
    );
    let bad_level = parse_json_permissions(&json(r#"{"contents":"full"}"#)).err().unwrap();
    assert_eq!(
        bad_level.message(),
        "permission 'contents': level 'full' is not one of none|read|write"
    );
    let non_string = parse_json_permissions(&json(r#"{"contents":1}"#)).err().unwrap();
    assert_eq!(non_string.message(), "permission 'contents' must map to a string level");
    let shape = parse_json_permissions(&json("[1]")).err().unwrap();
    assert_eq!(
        shape.message(),
        "permissions must be null, a string shorthand, or an object mapping"
    );
}

#[test]
fn shorthand_never_grants_id_token() {
    for text in ["read-all", "write-all"] {
        let (set, _) = parse_yaml_block(Some(&yaml(text)));
        assert_eq!(set.unwrap().level(PermissionKey::IdToken), PermissionLevel::NoAccess);
    }
}

#[test]
fn default_restricted_grants_only_contents_read() {
    let set = default_restricted();
    assert_eq!(set.level(PermissionKey::Contents), PermissionLevel::Read);
    assert_eq!(set.level(PermissionKey::Issues), PermissionLevel::NoAccess);
    assert_eq!(effective_map(&set), vec![("contents".to_owned(), PermissionLevel::Read)]);
}

#[test]
fn permission_entries_stay_in_key_order() {
    let value = yaml("pull-requests: write\ncontents: read\nactions: read\n");
    let (set, _) = parse_yaml_block(Some(&value));
    let set = set.unwrap();
    let keys: Vec<&str> = set.entries.iter().map(|(k, _)| k.as_str()).collect();
    let mut sorted = keys.clone();
    sorted.sort();
    assert_eq!(keys, sorted);
    assert_eq!(set.level(PermissionKey::PullRequests), PermissionLevel::Write);
}

#[test]
fn json_and_shorthand_sets_keep_key_order() {
    for raw in [r#"{"pull-requests":"write","contents":"read","actions":"read"}"#, r#""write-all""#] {
        let set = parse_json_permissions(&json_value(serde_json::from_str(raw).unwrap())).ok().unwrap();
        let keys: Vec<&str> = set.entries.iter().map(|(k, _)| k.as_str()).collect();
        let mut sorted = keys.clone();
        sorted.sort();
        sorted.dedup();
        assert_eq!(keys, sorted);
    }
}
