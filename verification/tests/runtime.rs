use pumpkinpi::json::{JsonNumber, JsonValue};
use pumpkinpi::node_config::{default_node_data_dir, signing_key_bytes, store_source, StoreSource};
use pumpkinpi::node_host::{parse_passwd_entries, ExecutionIdentity, PasswdEntry};
use pumpkinpi::node_link::{
    auth_message, challenge_nonce, command_reply, enroll_url, enrollment_result, heartbeat_message, hello_message,
    inventory_changed, is_authenticated, node_command, version_error_reply, NodeCommand,
};
use pumpkinpi::node_local::{
    address_local_request, local_auth_reply, local_detach_reply, local_node_list_reply, local_request_kind,
    local_status_reply, local_watch_request, LocalRequestKind, LocalRoutes,
};
use pumpkinpi::node_records::{SessionRecord, SessionStatus};
use pumpkinpi::node_runtime::{
    finish_runtime, graceful_stop_commands, lifecycle_event, log_record, pi_arguments, prepare_runtime, runtime_failed,
    spawn_audit_event, RuntimePhase,
};
use pumpkinpi::node_store::NodeStore;

fn s(t: &str) -> JsonValue {
    JsonValue::Str(t.to_string())
}

fn n(v: u64) -> JsonValue {
    JsonValue::Number(JsonNumber::Unsigned(v))
}

fn obj(pairs: Vec<(&str, JsonValue)>) -> JsonValue {
    JsonValue::Object(pairs.into_iter().map(|(k, v)| (k.to_string(), v)).collect())
}

fn same(a: &JsonValue, b: &JsonValue) -> bool {
    match (a, b) {
        (JsonValue::Null, JsonValue::Null) => true,
        (JsonValue::Bool(x), JsonValue::Bool(y)) => x == y,
        (JsonValue::Number(JsonNumber::Unsigned(x)), JsonValue::Number(JsonNumber::Unsigned(y))) => x == y,
        (JsonValue::Number(JsonNumber::Signed(x)), JsonValue::Number(JsonNumber::Signed(y))) => x == y,
        (JsonValue::Number(JsonNumber::Decimal(x)), JsonValue::Number(JsonNumber::Decimal(y))) => x == y,
        (JsonValue::Str(x), JsonValue::Str(y)) => x == y,
        (JsonValue::Array(xs), JsonValue::Array(ys)) => xs.len() == ys.len() && xs.iter().zip(ys).all(|(x, y)| same(x, y)),
        (JsonValue::Object(xs), JsonValue::Object(ys)) => {
            xs.len() == ys.len() && xs.iter().zip(ys).all(|((k, x), (l, y))| k == l && same(x, y))
        },
        _ => false,
    }
}

fn session(id: &str, status: SessionStatus) -> SessionRecord {
    SessionRecord {
        session_id: id.into(),
        node_id: "node".into(),
        project_id: "p1".into(),
        name: "main".into(),
        cwd: "/work".into(),
        status,
        run_as_user: Some("alice".into()),
        run_as_root: false,
        provider: None,
        model: None,
        pi_session_id: None,
        pi_session_file: None,
        pi_leaf_id: None,
        pi_session_name: None,
        created_at: 1,
        updated_at: 1,
        last_active_at: None,
        crash: None,
    }
}

fn store_with(id: &str, status: SessionStatus) -> NodeStore {
    let mut store = NodeStore::new();
    store.sessions.push(session(id, status));
    store
}

const PASSWD: &str = "root:x:0:0::/root:/bin/sh\nalice:x:1000:1000::/home/alice:/bin/sh\n";

#[test]
fn a_running_session_is_left_alone() {
    let mut store = store_with("s1", SessionStatus::Idle);
    let entries = parse_passwd_entries(PASSWD);
    let r = prepare_runtime(&mut store, "s1", true, Some(0), 5, Some("/gone"), false, &entries, None, false, 9);
    assert!(matches!(r, Ok(None)));
    assert_eq!(store.sessions[0].status, SessionStatus::Idle);
}

#[test]
fn processes_beyond_the_limit_are_refused() {
    let mut store = store_with("s1", SessionStatus::Idle);
    let entries = parse_passwd_entries(PASSWD);
    let r = prepare_runtime(&mut store, "s1", false, Some(2), 2, None, true, &entries, Some("alice"), false, 9);
    assert_eq!(r.map(|i| i.map(|i| i.label())), Err("max concurrent sessions exceeded (2)".to_string()));
}

#[test]
fn a_missing_session_file_marks_the_session_missing() {
    let mut store = store_with("s1", SessionStatus::Idle);
    let entries = parse_passwd_entries(PASSWD);
    let r = prepare_runtime(&mut store, "s1", false, None, 0, Some("/gone/file.jsonl"), false, &entries, Some("alice"), false, 9);
    assert_eq!(r.map(|i| i.map(|i| i.label())), Err("Pi session file is missing: /gone/file.jsonl".to_string()));
    assert_eq!(store.sessions[0].status, SessionStatus::Missing);
    assert_eq!(store.sessions[0].updated_at, 9);
}

#[test]
fn a_startable_session_runs_as_its_user() {
    let mut store = store_with("s1", SessionStatus::Idle);
    let entries = parse_passwd_entries(PASSWD);
    let r = prepare_runtime(&mut store, "s1", false, Some(3), 2, Some("/f"), true, &entries, Some("alice"), false, 9);
    assert_eq!(r.map(|i| i.map(|i| i.label())), Ok(Some("alice:1000".to_string())));
    let r = prepare_runtime(&mut store, "s1", false, None, 0, None, false, &entries, Some("bob"), false, 9);
    assert_eq!(r.map(|i| i.map(|i| i.label())), Err("run_as_user \"bob\" not found".to_string()));
}

#[test]
fn pi_runs_in_rpc_mode_with_its_selection() {
    assert_eq!(pi_arguments("main", None, None), vec!["--mode", "rpc", "--name", "main"]);
    assert_eq!(
        pi_arguments("main", Some("anthropic"), Some("opus")),
        vec!["--mode", "rpc", "--name", "main", "--provider", "anthropic", "--model", "opus"]
    );
    assert_eq!(pi_arguments("x", None, Some("m")), vec!["--mode", "rpc", "--name", "x", "--model", "m"]);
}

#[test]
fn lifecycle_events_name_their_session() {
    let e = lifecycle_event(RuntimePhase::Crashed, "node", "p1", "s1", Some("boom"));
    let expected = obj(vec![
        ("protocol_version", n(3)),
        ("type", s("session.crashed")),
        ("node_id", s("node")),
        ("project_id", s("p1")),
        ("session_id", s("s1")),
        ("error", s("boom")),
    ]);
    assert!(same(&e, &expected), "{e:?}");
    let started = lifecycle_event(RuntimePhase::Starting, "node", "p1", "s1", None);
    assert_eq!(started.get_str("type"), Some("session.starting"));
    assert!(started.get("error").is_none());
}

#[test]
fn spawn_records_are_redacted_when_logged() {
    let identity = ExecutionIdentity::User(PasswdEntry { name: "alice".into(), uid: 1000, gid: 1000 });
    let event = spawn_audit_event("node", "p1", "s1", "/home/alice/work", &identity, Some("anthropic"), None);
    assert_eq!(event.get_str("execution_identity"), Some("alice:1000"));
    assert!(matches!(event.get("model"), Some(JsonValue::Null)));
    let line = log_record(event, 77);
    assert_eq!(line.get_str("cwd"), Some("<redacted>"));
    assert_eq!(line.get_str("event"), Some("pi.spawn"));
    assert_eq!(line.get_u64("at"), Some(77));
}

#[test]
fn log_records_replace_an_existing_time() {
    let line = log_record(obj(vec![("at", n(1)), ("token", s("t"))]), 5);
    let expected = obj(vec![("at", n(5)), ("token", s("<redacted>"))]);
    assert!(same(&line, &expected), "{line:?}");
}

#[test]
fn a_process_that_stops_or_exits_cleanly_has_stopped() {
    let mut store = store_with("s1", SessionStatus::Running);
    assert_eq!(finish_runtime(&mut store, "s1", true, false, Some(1), None, vec![], 20), RuntimePhase::Stopped);
    assert_eq!(store.sessions[0].status, SessionStatus::Stopped);
    let mut store = store_with("s1", SessionStatus::Running);
    assert_eq!(finish_runtime(&mut store, "s1", false, true, Some(0), None, vec![], 20), RuntimePhase::Stopped);
    assert!(store.sessions[0].crash.is_none());
}

#[test]
fn any_other_end_is_a_crash() {
    let mut store = store_with("s1", SessionStatus::Running);
    let phase = finish_runtime(&mut store, "s1", false, false, None, Some(9), vec!["panic".to_string()], 30);
    assert_eq!(phase, RuntimePhase::Crashed);
    let s = &store.sessions[0];
    assert_eq!(s.status, SessionStatus::Crashed);
    let crash = s.crash.as_ref().unwrap();
    assert_eq!((crash.exit_status, crash.signal, crash.crashed_at), (None, Some(9), 30));
    assert_eq!(crash.stderr_tail, vec!["panic".to_string()]);

    let mut store = store_with("s2", SessionStatus::Running);
    runtime_failed(&mut store, "s2", "spawn failed", 31);
    let crash = store.sessions[0].crash.as_ref().unwrap();
    assert_eq!(crash.stderr_tail, vec!["spawn failed".to_string()]);
    assert_eq!(crash.exit_status, None);
}

#[test]
fn stopping_asks_pi_to_clear_its_queue_then_abort() {
    let cmds = graceful_stop_commands();
    assert_eq!(cmds.len(), 2);
    assert!(same(&cmds[0], &obj(vec![("type", s("clear_queue"))])));
    assert!(same(&cmds[1], &obj(vec![("type", s("abort"))])));
}

#[test]
fn node_handshake_messages() {
    let hello = hello_message("node-1", "0.3.0");
    assert!(same(
        &hello,
        &obj(vec![("protocol_version", n(3)), ("type", s("node.hello")), ("node_id", s("node-1")), ("version", s("0.3.0"))])
    ));
    let challenge = obj(vec![("type", s("node.challenge")), ("nonce", s("abc"))]);
    assert_eq!(challenge_nonce(&challenge), Ok("abc".to_string()));
    assert_eq!(challenge_nonce(&obj(vec![("type", s("other"))])), Err("expected node.challenge".to_string()));
    assert_eq!(
        challenge_nonce(&obj(vec![("type", s("node.challenge"))])),
        Err("node.challenge nonce is required".to_string())
    );
    let auth = auth_message("node-1", &[3u8; 32], "abc");
    assert_eq!(auth.get_str("type"), Some("node.auth"));
    assert_eq!(auth.get_str("signature").map(|t| t.len()), Some(88));
    assert!(is_authenticated(&obj(vec![("type", s("node.authenticated"))])));
    assert!(!is_authenticated(&obj(vec![("type", s("error"))])));
    let beat = heartbeat_message("node-1");
    assert!(same(&beat, &obj(vec![("type", s("node.heartbeat")), ("node_id", s("node-1"))])));
    assert!(inventory_changed(&obj(vec![("inventory_changed", JsonValue::Bool(true))])));
    assert!(!inventory_changed(&obj(vec![("inventory_changed", s("true"))])));
}

#[test]
fn node_commands_and_replies() {
    assert_eq!(node_command("session.send"), Ok(NodeCommand::SessionSend));
    assert_eq!(node_command("project.add"), Ok(NodeCommand::ProjectAdd));
    assert_eq!(node_command("shell.exec"), Err("unknown command type: shell.exec".to_string()));
    let request = obj(vec![("id", s("r1")), ("type", s("project.list"))]);
    let reply = command_reply(&request, Ok(obj(vec![("type", s("project.list.result"))])));
    assert!(same(&reply, &obj(vec![("type", s("project.list.result")), ("protocol_version", n(3)), ("id", s("r1"))])));
    let failed = command_reply(&obj(vec![]), Err("project not found".to_string()));
    assert!(same(
        &failed,
        &obj(vec![("protocol_version", n(3)), ("id", JsonValue::Null), ("type", s("error")), ("error", s("project not found"))])
    ));
    let refused = version_error_reply("protocol_version is required");
    assert_eq!(refused.get_str("error"), Some("protocol_version is required"));
    assert!(refused.get("id").is_none());
}

#[test]
fn enrollment_answers() {
    assert_eq!(enroll_url("https://hub.example//"), "https://hub.example/api/nodes/enroll");
    assert_eq!(
        enrollment_result("node.enrolled", Some("n1".into()), None, None, "https://hub"),
        Ok(("n1".to_string(), "https://hub".to_string()))
    );
    assert_eq!(
        enrollment_result("node.enrolled", Some("n1".into()), Some("wss://other".into()), None, "https://hub"),
        Ok(("n1".to_string(), "wss://other".to_string()))
    );
    assert_eq!(
        enrollment_result("node.enrolled", None, None, None, "h"),
        Err("hub did not return node_id".to_string())
    );
    assert_eq!(enrollment_result("error", None, None, Some("bad key".into()), "h"), Err("bad key".to_string()));
    assert_eq!(enrollment_result("error", None, None, None, "h"), Err("enrollment failed".to_string()));
}

#[test]
fn node_key_files() {
    assert!(signing_key_bytes("AAAAAAAAAAAAAAAAAAAAAAAAAAAAAAAAAAAAAAAAAAA=\n").is_ok());
    assert_eq!(signing_key_bytes("AAAA"), Err("node.key must contain 32 bytes, got 3".to_string()));
    assert_eq!(signing_key_bytes("not base64!"), Err("invalid node.key base64".to_string()));
}

#[test]
fn node_state_locations() {
    assert_eq!(default_node_data_dir(Some("/srv/pp"), Some("/home/a")), "/srv/pp");
    assert_eq!(default_node_data_dir(None, Some("/home/a")), "/home/a/.pumpkinpi-node");
    assert_eq!(default_node_data_dir(None, None), ".pumpkinpi-node");
    assert_eq!(store_source(true, false, true), StoreSource::Split);
    assert_eq!(store_source(false, false, true), StoreSource::Legacy);
    assert_eq!(store_source(false, false, false), StoreSource::Empty);
}

#[test]
fn local_clients_receive_the_sessions_they_watch() {
    let mut routes = LocalRoutes::new();
    routes.attach("c1", "p1", "s1");
    routes.attach("c2", "p1", "s1");
    routes.attach("c1", "p1", "s1");
    routes.attach("c1", "p1", "s2");
    assert_eq!(routes.watches.len(), 3);
    let event = obj(vec![("project_id", s("p1")), ("session_id", s("s1"))]);
    assert_eq!(routes.recipients(&event), vec!["c1".to_string(), "c2".to_string()]);
    assert!(routes.recipients(&obj(vec![("project_id", s("p1"))])).is_empty());
    routes.detach("c1", "p1", "s1");
    assert_eq!(routes.recipients(&event), vec!["c2".to_string()]);
    routes.forget_client("c2");
    assert!(routes.recipients(&event).is_empty());
    assert_eq!(routes.watches.len(), 1);
}

#[test]
fn local_requests_are_answered_by_the_node() {
    assert_eq!(local_request_kind(&obj(vec![("type", s("client.auth"))])), LocalRequestKind::Auth);
    assert_eq!(local_request_kind(&obj(vec![("type", s("session.subscribe"))])), LocalRequestKind::Attach);
    assert_eq!(local_request_kind(&obj(vec![("type", s("session.send"))])), LocalRequestKind::Command);
    assert_eq!(local_auth_reply().get_str("user_id"), Some("local"));
    let request = obj(vec![("id", n(4)), ("type", s("hub.status"))]);
    let status = local_status_reply(&request, "0.3.0");
    assert_eq!(status.get_u64("id"), Some(4));
    assert_eq!(status.get_bool("local_only"), Some(true));
    let list = local_node_list_reply(&request, "local-node");
    match list.get("nodes") {
        Some(JsonValue::Array(nodes)) => {
            assert_eq!(nodes.len(), 1);
            assert_eq!(nodes[0].get_str("status"), Some("online"));
            assert_eq!(nodes[0].get_str("node_id"), Some("local-node"));
        },
        other => panic!("unexpected nodes {other:?}"),
    }
    assert_eq!(local_detach_reply(&request).get_str("type"), Some("session.detach.result"));

    let mut addressed = obj(vec![("type", s("session.list"))]);
    address_local_request(&mut addressed, "local-node");
    assert_eq!(addressed.get_str("node_id"), Some("local-node"));
    let mut named = obj(vec![("node_id", s("other"))]);
    address_local_request(&mut named, "local-node");
    assert_eq!(named.get_str("node_id"), Some("other"));

    let mut routes = LocalRoutes::new();
    local_watch_request(&mut routes, "c1", &obj(vec![("type", s("session.attach")), ("project_id", s("p")), ("session_id", s("s"))]));
    assert_eq!(routes.watches.len(), 1);
    local_watch_request(&mut routes, "c1", &obj(vec![("type", s("session.detach")), ("project_id", s("p"))]));
    assert_eq!(routes.watches.len(), 1);
    local_watch_request(&mut routes, "c1", &obj(vec![("type", s("session.detach")), ("project_id", s("p")), ("session_id", s("s"))]));
    assert!(routes.watches.is_empty());
}

fn node_project(id: &str) -> pumpkinpi::node_records::ProjectRecord {
    pumpkinpi::node_records::ProjectRecord {
        project_id: id.into(),
        node_id: "node".into(),
        name: "work".into(),
        cwd: "/work".into(),
        default_pi_args: vec![],
        default_provider: None,
        default_model: None,
        run_as_user: None,
        allow_root_sessions: false,
        status: pumpkinpi::node_records::ProjectStatus::Active,
        trusted: true,
        created_at: 1,
        updated_at: 1,
    }
}

#[test]
fn sessions_per_project_stay_within_the_limit() {
    let mut store = NodeStore::new();
    store.projects.push(node_project("p1"));
    let request = obj(vec![("project_id", s("p1"))]);
    let entries = parse_passwd_entries(PASSWD);
    let first = pumpkinpi::node_sessions::create_session(&mut store, "node", &request, &vec![], Some(1), &entries, 5);
    assert!(first.is_ok());
    assert_eq!(store.sessions.len(), 1);
    let second = pumpkinpi::node_sessions::create_session(&mut store, "node", &request, &vec![], Some(1), &entries, 6);
    assert_eq!(second.unwrap_err(), "max sessions per project exceeded (1)");
    assert_eq!(store.sessions.len(), 1);
}
