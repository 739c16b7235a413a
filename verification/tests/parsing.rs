use mountos_desktop::check::parse_check_bytes;
use mountos_desktop::instances::{
    list_active_targets, parse_instances, parse_instances_value, read_instance_config_extras,
};
use mountos_desktop::json::{Json, JsonNumber};
use mountos_desktop::scrub::{scrub_json, scrub_output, scrub_secrets};

fn to_json(v: &serde_json::Value) -> Json {
    match v {
        serde_json::Value::Null => Json::Null,
        serde_json::Value::Bool(b) => Json::Bool(*b),
        serde_json::Value::Number(n) => Json::Number(JsonNumber { unsigned: n.as_u64(), text: n.to_string() }),
        serde_json::Value::String(s) => Json::String(s.clone()),
        serde_json::Value::Array(items) => Json::Array(items.iter().map(to_json).collect()),
        serde_json::Value::Object(map) => {
            Json::Object(map.iter().map(|(k, v)| (k.clone(), to_json(v))).collect())
        }
    }
}

fn parse(text: &str) -> Json {
    to_json(&serde_json::from_str::<serde_json::Value>(text).expect("test JSON parses"))
}

#[test]
fn parses_backend_check_records() {
    let payload = r#"[
      {"feature":"NFS","supported":true,"checks":[{"name":"mount_nfs","ok":true}]},
      {"feature":"FSKit","supported":false,"capable":true,"checks":[{"name":"Extension","ok":false,"error":"not enabled"}]}
    ]"#;
    let (ok, issues) = parse_check_bytes(Ok(parse(payload)), b"");
    assert!(ok);
    assert_eq!(issues.len(), 1);
    assert_eq!(issues[0].title, "FSKit requires setup");
    assert!(issues[0].detail.as_deref().is_some_and(|detail| detail.contains("not enabled")));
}

#[test]
fn unreadable_check_output_is_an_issue() {
    let (ok, issues) = parse_check_bytes(Err("expected value at line 1 column 1".to_string()), b"");
    assert!(!ok);
    assert_eq!(issues.len(), 1);
    assert_eq!(issues[0].severity, "error");
}

#[test]
fn preserves_list_types_and_marks_orphans_lost() {
    let value = parse(
        r#"[{
            "name": "Team",
            "mountPath": "/Volumes/Team",
            "fsName": "mountos",
            "volumeId": 42,
            "versionInode": "9007199254740993",
            "orphaned": true
        }]"#,
    );
    let instances = parse_instances_value(&value);
    assert_eq!(instances[0].volume_id, Some(42));
    assert_eq!(instances[0].version_inode.as_deref(), Some("9007199254740993"));
    assert_eq!(instances[0].health, "lost");
}

#[test]
fn parses_gateway_only_entries_with_endpoint_target() {
    let value = parse(
        r#"[{
            "kind": "gateway",
            "name": "Vol-object",
            "volumeIdentifier": "019d19b9-dae5-7000-ac89-60c07d76c408",
            "gatewayEndpoints": {
                "s3": { "url": "http://127.0.0.1:18280", "region": "mountos" }
            },
            "pid": 339
        }]"#,
    );
    let instances = parse_instances_value(&value);
    assert_eq!(instances[0].kind.as_deref(), Some("gateway"));
    assert!(instances[0].mount_path.is_empty());
    assert_eq!(instances[0].key, "019d19b9-dae5-7000-ac89-60c07d76c408");
    let endpoints = instances[0].gateway_endpoints.as_ref().expect("endpoints");
    assert_eq!(endpoints.len(), 1);
    assert_eq!(endpoints[0].protocol, "s3");
    assert_eq!(endpoints[0].url, "http://127.0.0.1:18280");
}

#[test]
fn list_documents_may_wrap_the_array_under_mounts() {
    let value = parse(r#"{"mounts":[{"mountPath":"/a"},{"name":"x"},{"mountPath":"/b"}]}"#);
    let instances = parse_instances_value(&value);
    assert_eq!(instances.len(), 3);
    assert_eq!(instances[1].name, "x");
    assert_eq!(instances[0].name, "mountOS volume");
    assert_eq!(instances[0].health, "healthy");
    let targets = list_active_targets(true, b"", Ok(value)).unwrap();
    assert_eq!(targets, vec!["/a".to_string(), "/b".to_string()]);
}

#[test]
fn failed_list_runs_report_stderr() {
    let r = parse_instances(false, b"  boom \n", Ok(Json::Null));
    assert_eq!(r.err().unwrap().message(), "mountos list failed: boom");
    let r = list_active_targets(true, b"", Err("bad json".to_string()));
    assert_eq!(r.err().unwrap().message(), "json error: bad json");
}

#[test]
fn reads_config_extras() {
    let config = parse(r#"{"mountTime":"2026-01-01T00:00:00Z","volumeType":"iceberg","isTemporaryFork":true}"#);
    let extras = read_instance_config_extras(Some(&config));
    assert_eq!(extras.mount_time.as_deref(), Some("2026-01-01T00:00:00Z"));
    assert_eq!(extras.volume_kind.as_deref(), Some("iceberg"));
    assert_eq!(extras.temporary_fork, Some(true));
    let none = read_instance_config_extras(None);
    assert!(none.mount_time.is_none() && none.volume_kind.is_none() && none.temporary_fork.is_none());
}

#[test]
fn scrubs_key_value_bearer_and_raw_secret_patterns() {
    let input = "secret: hunter2\nauthorization=abc\nBearer token-value\nABCDEFGHIJKLMNOPQRSTUVWXYZ1234567890abcd";
    let scrubbed = scrub_secrets(input);
    assert!(!scrubbed.contains("hunter2"));
    assert!(!scrubbed.contains("abc\n"));
    assert!(!scrubbed.contains("token-value"));
    assert!(!scrubbed.contains("ABCDEFGHIJKLMNOPQRSTUVWXYZ1234567890abcd"));
}

#[test]
fn scrubbing_keeps_ordinary_text() {
    assert_eq!(scrub_secrets("mounted /Volumes/Team in 3s"), "mounted /Volumes/Team in 3s");
}

#[test]
fn scrubs_secret_keys_inside_json() {
    let mut v = parse(r#"{"secretAccessKey":"s3cr3t","nested":[{"password":"p"}],"name":"team"}"#);
    scrub_json(&mut v);
    let text = format!("{:?}", v.as_object().map(|o| o.len()));
    assert_eq!(text, "Some(3)");
    let secret = v.str_at("secretAccessKey").unwrap().to_string();
    assert_eq!(secret, "[REDACTED]");
    assert_eq!(v.str_at("name"), Some("team"));
}

#[test]
fn unparsed_output_is_kept_as_scrubbed_text() {
    let j = scrub_output(Err("not json".to_string()), b"password=hunter2");
    match j {
        Json::String(s) => assert!(!s.contains("hunter2")),
        _ => panic!("expected text"),
    }
}
