use pumpkinpi::json::{JsonNumber, JsonValue};
use pumpkinpi::node_config::{
    config_path, hub_ws_url, legacy_config_path, legacy_store_path, node_key_path, projects_path,
    require_protocol_version, sessions_path,
};
use pumpkinpi::node_host::{
    parse_passwd_entries, passwd_entry_for_uid, passwd_entry_for_user, project_owner_user, resolve_execution_identity,
    ExecutionIdentity, PasswdEntry,
};
use pumpkinpi::node_records::{default_project_status, default_session_status, default_true, ProjectStatus, SessionStatus};
use pumpkinpi::pi_session::{
    ensure_internal_pi_id, extension_method, extension_method_expects_response, extension_request_id, push_bounded,
    runtime_lane, session_status_for_pi_event, validate_pi_command, Lane, PiSession, RECENT_EVENT_CAPACITY,
};
use pumpkinpi::redaction::{is_sensitive, redact_sensitive_value};

fn s(t: &str) -> JsonValue {
    JsonValue::Str(t.to_string())
}

fn n(v: u64) -> JsonValue {
    JsonValue::Number(JsonNumber::Unsigned(v))
}

fn obj(pairs: Vec<(&str, JsonValue)>) -> JsonValue {
    JsonValue::Object(pairs.into_iter().map(|(k, v)| (k.to_string(), v)).collect())
}

fn same(a: &JsonValue, b: &JsonValue) -> bool {
    match (a, b) {
        (JsonValue::Null, JsonValue::Null) => true,
        (JsonValue::Bool(x), JsonValue::Bool(y)) => x == y,
        (JsonValue::Number(JsonNumber::Unsigned(x)), JsonValue::Number(JsonNumber::Unsigned(y))) => x == y,
        (JsonValue::Number(JsonNumber::Signed(x)), JsonValue::Number(JsonNumber::Signed(y))) => x == y,
        (JsonValue::Number(JsonNumber::Decimal(x)), JsonValue::Number(JsonNumber::Decimal(y))) => x == y,
        (JsonValue::Str(x), JsonValue::Str(y)) => x == y,
        (JsonValue::Array(xs), JsonValue::Array(ys)) => xs.len() == ys.len() && xs.iter().zip(ys).all(|(x, y)| same(x, y)),
        (JsonValue::Object(xs), JsonValue::Object(ys)) => {
            xs.len() == ys.len() && xs.iter().zip(ys).all(|((k, x), (l, y))| k == l && same(x, y))
        },
        _ => false,
    }
}

const PASSWD: &str = "root:x:0:0:root:/root:/bin/bash\nalice:x:1000:1000::/home/alice:/bin/sh\n# comment\nbob:x:notanumber:1:/home/bob\nshort:x:5\ncarol:x:1001:100:Carol:/home/carol:/bin/zsh\n";

#[test]
fn passwd_lines_with_numeric_ids_describe_users() {
    let entries = parse_passwd_entries(PASSWD);
    let seen: Vec<(&str, u32, u32)> = entries.iter().map(|e| (e.name.as_str(), e.uid, e.gid)).collect();
    assert_eq!(seen, vec![("root", 0, 0), ("alice", 1000, 1000), ("carol", 1001, 100)]);
}

#[test]
fn users_are_found_by_name_and_identifier() {
    let entries = parse_passwd_entries(PASSWD);
    assert_eq!(passwd_entry_for_user(&entries, "alice").map(|e| e.uid), Some(1000));
    assert_eq!(passwd_entry_for_user(&entries, "dave").map(|e| e.uid), None);
    assert_eq!(passwd_entry_for_uid(&entries, 0).map(|e| e.name), Some("root".to_string()));
    assert_eq!(project_owner_user(&entries, 1001), Some("carol".to_string()));
    assert_eq!(project_owner_user(&entries, 42), None);
}

#[test]
fn execution_identity_is_root_or_an_existing_user() {
    let entries = parse_passwd_entries(PASSWD);
    assert!(matches!(resolve_execution_identity(&entries, Some("alice"), true), Ok(ExecutionIdentity::Root)));
    match resolve_execution_identity(&entries, Some("alice"), false) {
        Ok(ExecutionIdentity::User(u)) => assert_eq!((u.name.as_str(), u.uid, u.gid), ("alice", 1000, 1000)),
        other => panic!("unexpected identity {other:?}"),
    }
    assert_eq!(
        resolve_execution_identity(&entries, None, false).map(|i| i.label()),
        Err("non-root Pi sessions require run_as_user".to_string())
    );
    assert_eq!(
        resolve_execution_identity(&entries, Some("dave"), false).map(|i| i.label()),
        Err("run_as_user \"dave\" not found".to_string())
    );
}

#[test]
fn identity_labels() {
    assert_eq!(ExecutionIdentity::Root.label(), "root");
    let user = ExecutionIdentity::User(PasswdEntry { name: "alice".into(), uid: 1000, gid: 1000 });
    assert_eq!(user.label(), "alice:1000");
}

#[test]
fn node_files_live_in_the_data_directory() {
    assert_eq!(config_path("/var/lib/pumpkinpi"), "/var/lib/pumpkinpi/config.toml");
    assert_eq!(config_path("/var/lib/pumpkinpi/"), "/var/lib/pumpkinpi/config.toml");
    assert_eq!(legacy_config_path("/d"), "/d/config.json");
    assert_eq!(node_key_path("/d"), "/d/node.key");
    assert_eq!(projects_path("/d"), "/d/projects.json");
    assert_eq!(sessions_path("/d"), "/d/sessions.json");
    assert_eq!(legacy_store_path("/d"), "/d/store.json");
}

#[test]
fn node_endpoint_on_the_hub() {
    assert_eq!(hub_ws_url("https://hub.example.com/"), "wss://hub.example.com/ws/node");
    assert_eq!(hub_ws_url("http://localhost:8080"), "ws://localhost:8080/ws/node");
    assert_eq!(hub_ws_url("wss://hub//"), "wss://hub/ws/node");
}

#[test]
fn messages_must_carry_the_protocol_version() {
    assert_eq!(require_protocol_version(&obj(vec![("protocol_version", n(3))])), Ok(()));
    assert_eq!(require_protocol_version(&obj(vec![])), Err("protocol_version is required".to_string()));
    assert_eq!(
        require_protocol_version(&obj(vec![("protocol_version", n(2))])),
        Err("unsupported protocol_version 2; expected 3".to_string())
    );
    assert_eq!(
        require_protocol_version(&obj(vec![("protocol_version", s("3"))])),
        Err("protocol_version is required".to_string())
    );
}

#[test]
fn record_defaults() {
    assert_eq!(default_project_status(), ProjectStatus::Active);
    assert_eq!(default_session_status(), SessionStatus::Idle);
    assert!(default_true());
}

#[test]
fn sensitive_member_names() {
    for k in ["api_key", "token", "setup_key", "provider_env", "authorization", "message", "command", "stdout", "stderr", "cwd", "path", "args", "client_secret", "MySecretValue", "SECRET"] {
        assert!(is_sensitive(k), "{k}");
    }
    for k in ["name", "status", "secre", "Token", "paths"] {
        assert!(!is_sensitive(k), "{k}");
    }
}

fn document() -> JsonValue {
    obj(vec![
        ("name", s("session")),
        ("api_key", s("sk-live")),
        ("nested", obj(vec![("ClientSecret", s("hidden")), ("count", n(2))])),
        ("items", JsonValue::Array(vec![obj(vec![("token", s("t")), ("ok", JsonValue::Bool(true))]), s("plain")])),
    ])
}

#[test]
fn redaction_hides_sensitive_values_at_any_depth() {
    let redacted = redact_sensitive_value(document());
    let expected = obj(vec![
        ("name", s("session")),
        ("api_key", s("<redacted>")),
        ("nested", obj(vec![("ClientSecret", s("<redacted>")), ("count", n(2))])),
        ("items", JsonValue::Array(vec![obj(vec![("token", s("<redacted>")), ("ok", JsonValue::Bool(true))]), s("plain")])),
    ]);
    assert!(same(&redacted, &expected), "{redacted:?}");
}

#[test]
fn redacting_twice_changes_nothing_more() {
    let once = redact_sensitive_value(document());
    let twice = redact_sensitive_value(redact_sensitive_value(document()));
    assert!(same(&once, &twice));
}

#[test]
fn pi_commands_are_admitted_by_policy() {
    assert_eq!(validate_pi_command(&obj(vec![("type", s("prompt"))])), Ok(()));
    assert_eq!(
        validate_pi_command(&obj(vec![("type", s("fork"))])),
        Err("Pi command \"fork\" is denied until PumpkinPi can update session bindings atomically".to_string())
    );
    assert_eq!(
        validate_pi_command(&obj(vec![("type", s("frobnicate"))])),
        Err("unknown Pi command type: frobnicate".to_string())
    );
    assert_eq!(validate_pi_command(&obj(vec![])), Err("command.type is required".to_string()));
}

#[test]
fn lanes_for_commands() {
    assert_eq!(runtime_lane(&obj(vec![("type", s("extension_ui_response"))])), Lane::Unblock);
    for t in ["abort", "abort_bash", "abort_retry", "clear_queue"] {
        assert_eq!(runtime_lane(&obj(vec![("type", s(t))])), Lane::Cancellation);
    }
    assert_eq!(runtime_lane(&obj(vec![("type", s("prompt"))])), Lane::Normal);
    assert_eq!(runtime_lane(&obj(vec![])), Lane::Normal);
}

#[test]
fn pi_events_announce_session_status() {
    assert_eq!(session_status_for_pi_event(&obj(vec![("type", s("agent_start"))])), Some(SessionStatus::Running));
    assert_eq!(session_status_for_pi_event(&obj(vec![("type", s("turn_start"))])), Some(SessionStatus::Running));
    assert_eq!(session_status_for_pi_event(&obj(vec![("type", s("agent_settled"))])), Some(SessionStatus::Idle));
    assert_eq!(session_status_for_pi_event(&obj(vec![("type", s("message_update"))])), None);
}

#[test]
fn extension_requests_are_identified() {
    let v = obj(vec![("id", s("c")), ("requestId", s("b")), ("request_id", s("a"))]);
    assert_eq!(extension_request_id(&v), Some("a".to_string()));
    assert_eq!(extension_request_id(&obj(vec![("id", s("c")), ("requestId", s("b"))])), Some("b".to_string()));
    assert_eq!(extension_request_id(&obj(vec![("id", n(4))])), None);
    let nested = obj(vec![("extensionUiRequest", obj(vec![("method", s("confirm"))]))]);
    assert_eq!(extension_method(&nested), Some("confirm".to_string()));
    assert!(extension_method_expects_response("confirm"));
    assert!(extension_method_expects_response("editor"));
    assert!(!extension_method_expects_response("notify"));
}

#[test]
fn bounded_logs_drop_the_oldest_entry() {
    let mut buf: Vec<u32> = Vec::new();
    for i in 1..=5 {
        push_bounded(&mut buf, i, 3);
    }
    assert_eq!(buf, vec![3, 4, 5]);
    let mut session = PiSession::new();
    for i in 0..300u64 {
        session.remember_recent_event(obj(vec![("seq", n(i))]));
    }
    assert_eq!(session.recent_events.len(), RECENT_EVENT_CAPACITY);
    assert!(same(&session.recent_events[0], &obj(vec![("seq", n(44))])));
}

#[test]
fn commands_are_tagged_with_their_origin() {
    let mut command = obj(vec![("type", s("prompt")), ("id", s("abc"))]);
    let tag = ensure_internal_pi_id(&mut command, Some("client-1"));
    assert_eq!(tag, "client-1:abc");
    assert_eq!(command.get_str("id"), Some("client-1:abc"));
    assert_eq!(command.get_str("type"), Some("prompt"));

    let mut bare = obj(vec![("type", s("get_state"))]);
    let tag = ensure_internal_pi_id(&mut bare, None);
    assert!(tag.starts_with("node:req_"));
    assert_eq!(tag.len(), "node:req_".len() + 32);
}

#[test]
fn prepared_commands_route_responses_back() {
    let mut session = PiSession::new();
    let prepared = session.prepare_command(obj(vec![("type", s("prompt")), ("id", s("7"))]), Some("client-9".into()), s("7"));
    assert_eq!(prepared.get_str("id"), Some("client-9:7"));
    assert_eq!(session.current_origin_client_id.as_deref(), Some("client-9"));
    let route = session.response_routes.iter().find(|r| r.internal_id == "client-9:7").expect("route");
    assert_eq!(route.target_client_id.as_deref(), Some("client-9"));
    assert!(same(&route.external_id, &s("7")));
}
