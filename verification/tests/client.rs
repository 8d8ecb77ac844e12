use pumpkinpi::client_config::{config_path, default_hub, format_timestamp, login, logout, resolve_hub, resolve_token, ClientConfig};
use pumpkinpi::client_order::{is_active, merge_snapshot, order_snapshot_collections};
use pumpkinpi::client_state::{
    initialize_project, initials, ordered_chat_entries, AppStore, ChatLogEntry, ConnectionKind, InteractionView,
    PendingMessage,
};
use pumpkinpi::ids::{IntentChatId, OperationId, ProjectId, RequestId, SourceOfIntentId, SpokeId, TimelineItemId};
use pumpkinpi::json::JsonValue;
use pumpkinpi::messages::{ClientCommand, ClientEvent, ClientPayload};
use pumpkinpi::records::{
    IntentChatRecord, OperationRecord, ProjectKey, ProjectRecord, ProjectSnapshot, SourceOfIntentMetadata, SpokeRecord,
    TimelineItem,
};
use pumpkinpi::status::{
    InitializationStatus, IntentStatus, OperationStatus, ProjectStatus, RealizationStatus, SourceStatus, SpokeStatus,
    TimelineKind, Visibility,
};

const FIXED_INSTANT: u64 = 1_704_164_645; // 2024-01-02 03:04:05 UTC

fn timeline(id: &str, cursor: u64, created_at: u64) -> TimelineItem {
    TimelineItem {
        timeline_item_id: TimelineItemId(id.into()),
        spoke_id: SpokeId("spoke".into()),
        project_id: ProjectId("project".into()),
        intent_chat_id: IntentChatId("chat".into()),
        operation_id: None,
        session_id: None,
        run_id: None,
        source_of_intent_revision: Some(1),
        kind: TimelineKind::Progress,
        visibility: Visibility::Primary,
        status: None,
        summary: None,
        content: Some(id.into()),
        cursor,
        created_at,
        updated_at: created_at,
        completed_at: None,
    }
}

fn operation(id: &str, updated_at: u64) -> OperationRecord {
    OperationRecord {
        operation_id: OperationId(id.into()),
        request_id: None,
        spoke_id: SpokeId("spoke".into()),
        project_id: ProjectId("project".into()),
        intent_chat_id: IntentChatId("chat".into()),
        source_of_intent_revision: Some(1),
        kind: "test".into(),
        status: OperationStatus::Running,
        error: None,
        created_at: 1,
        updated_at,
        completed_at: None,
    }
}

fn project() -> ProjectRecord {
    ProjectRecord {
        project_id: ProjectId("project".into()),
        spoke_id: SpokeId("spoke".into()),
        name: "project".into(),
        cwd: "/tmp/project".into(),
        source_of_intent_id: SourceOfIntentId("source".into()),
        intent_chat_id: IntentChatId("chat".into()),
        initialization_status: InitializationStatus::Ready,
        default_provider: None,
        default_model: None,
        run_as_user: None,
        allow_root_sessions: false,
        status: ProjectStatus::Active,
        trusted: true,
        realization_status: RealizationStatus::Inactive,
        created_at: 1,
        updated_at: 1,
    }
}

fn snapshot() -> ProjectSnapshot {
    ProjectSnapshot {
        project: project(),
        source: SourceOfIntentMetadata {
            source_of_intent_id: SourceOfIntentId("source".into()),
            spoke_id: SpokeId("spoke".into()),
            project_id: ProjectId("project".into()),
            format: "markdown.v1".into(),
            revision: 1,
            content_hash: "hash".into(),
            authoritative_bundle_hash: None,
            authoritative_document_count: 0,
            status: SourceStatus::Active,
            created_at: 1,
            updated_at: 1,
        },
        chat: IntentChatRecord {
            intent_chat_id: IntentChatId("chat".into()),
            spoke_id: SpokeId("spoke".into()),
            project_id: ProjectId("project".into()),
            source_of_intent_revision: 1,
            status: IntentStatus::Ready,
            next_cursor: 1,
            created_at: 1,
            updated_at: 1,
            last_active_at: 1,
        },
        timeline: vec![],
        operations: vec![],
        reviews: vec![],
        gap_before: None,
    }
}

fn key() -> ProjectKey {
    ProjectKey { spoke_id: SpokeId("spoke".into()), project_id: ProjectId("project".into()) }
}

fn event(created_at: u64, payload: ClientPayload) -> ClientEvent {
    ClientEvent { protocol_version: 3, id: None, created_at, payload }
}

#[test]
fn timestamp_format_includes_positive_utc_offset() {
    assert_eq!(format_timestamp(FIXED_INSTANT, 5 * 60 * 60 + 30 * 60), "2024-01-02 08:34:05 +05:30");
}

#[test]
fn timestamp_format_includes_negative_utc_offset() {
    assert_eq!(format_timestamp(FIXED_INSTANT, -(7 * 60 * 60)), "2024-01-01 20:04:05 -07:00");
}

#[test]
fn timestamp_past_signed_range_shows_the_epoch() {
    assert_eq!(format_timestamp(u64::MAX, 0), "1970-01-01 00:00:00 +00:00");
}

#[test]
fn snapshot_logs_sort_by_authoritative_timestamp_then_stable_id() {
    let mut snapshot = snapshot();
    snapshot.timeline = vec![timeline("item_z", 4, 20), timeline("item_b", 3, 10), timeline("item_a", 3, 10)];
    snapshot.operations = vec![operation("operation_z", 20), operation("operation_b", 10), operation("operation_a", 10)];

    order_snapshot_collections(&mut snapshot);

    assert_eq!(
        snapshot.timeline.iter().map(|item| item.timeline_item_id.0.as_str()).collect::<Vec<_>>(),
        ["item_a", "item_b", "item_z"]
    );
    assert_eq!(
        snapshot.operations.iter().map(|operation| operation.operation_id.0.as_str()).collect::<Vec<_>>(),
        ["operation_a", "operation_b", "operation_z"]
    );
}

#[test]
fn view_sorts_interactions_and_diagnostics_independent_of_map_or_arrival_order() {
    let mut store = AppStore::new("ws://hub".into(), false);
    for (operation_id, request_id, created_at) in
        [("operation_z", "request_z", 20), ("operation_a", "request_b", 10), ("operation_a", "request_a", 10)]
    {
        store.apply_interaction(InteractionView {
            spoke_id: SpokeId("spoke".into()),
            project_id: ProjectId("project".into()),
            operation_id: OperationId(operation_id.into()),
            request_id: request_id.into(),
            method: "confirm".into(),
            payload: JsonValue::Null,
            created_at,
        });
    }
    store.diagnostic_at(20, "later".into());
    store.diagnostic_at(10, "same-z".into());
    store.diagnostic_at(10, "same-a".into());

    let view = store.view();

    assert_eq!(
        view.interactions.iter().map(|interaction| interaction.request_id.as_str()).collect::<Vec<_>>(),
        ["request_a", "request_b", "request_z"]
    );
    assert_eq!(
        view.diagnostics.iter().map(|diagnostic| diagnostic.message.as_str()).collect::<Vec<_>>(),
        ["same-a", "same-z", "later"]
    );
}

#[test]
fn intent_log_merges_pending_messages_into_timestamp_order() {
    let mut snapshot = snapshot();
    snapshot.timeline = vec![timeline("item_later", 2, 20), timeline("item_first", 1, 10)];
    let key = key();
    let pending = vec![PendingMessage {
        spoke_id: key.spoke_id.clone(),
        project_id: key.project_id.clone(),
        local_id: "pending_middle".into(),
        message: "middle".into(),
        created_at: 15,
    }];

    let entries = ordered_chat_entries(&snapshot, &pending, &key);
    let labels = entries
        .iter()
        .map(|entry| match entry {
            ChatLogEntry::Timeline(item) => item.timeline_item_id.0.as_str(),
            ChatLogEntry::Pending(message) => message.local_id.as_str(),
        })
        .collect::<Vec<_>>();

    assert_eq!(labels, ["item_first", "pending_middle", "item_later"]);
}

#[test]
fn chat_log_puts_timeline_before_pending_at_the_same_time_and_skips_other_projects() {
    let mut snapshot = snapshot();
    snapshot.timeline = vec![timeline("item", 1, 10)];
    let key = key();
    let pending = vec![
        PendingMessage {
            spoke_id: key.spoke_id.clone(),
            project_id: key.project_id.clone(),
            local_id: "b".into(),
            message: "same time".into(),
            created_at: 10,
        },
        PendingMessage {
            spoke_id: key.spoke_id.clone(),
            project_id: ProjectId("other".into()),
            local_id: "a".into(),
            message: "elsewhere".into(),
            created_at: 1,
        },
    ];
    let entries = ordered_chat_entries(&snapshot, &pending, &key);
    assert_eq!(entries.len(), 2);
    assert!(matches!(&entries[0], ChatLogEntry::Timeline(_)));
    assert!(matches!(&entries[1], ChatLogEntry::Pending(p) if p.local_id == "b"));
}

#[test]
fn diagnostics_are_bounded_and_only_the_latest_hundred_are_shown() {
    let mut store = AppStore::new("ws://hub".into(), false);
    for i in 0..501u64 {
        store.diagnostic_at(i, format!("d{i}"));
    }
    assert_eq!(store.diagnostics.len(), 401);
    assert_eq!(store.diagnostics[0].message, "d100");
    assert_eq!(store.next_diagnostic_sequence, 501);
    let view = store.view();
    assert_eq!(view.diagnostics.len(), 100);
    assert_eq!(view.diagnostics[0].message, "d401");
    assert_eq!(view.diagnostics[99].message, "d500");
}

#[test]
fn merging_a_snapshot_keeps_known_timeline_items_once() {
    let mut held = snapshot();
    held.timeline = vec![timeline("a", 1, 10)];
    let mut newer = snapshot();
    newer.timeline = vec![timeline("b", 2, 5), timeline("a", 1, 10)];
    newer.operations = vec![operation("op", 3)];
    newer.gap_before = Some(4);
    merge_snapshot(&mut held, &newer);
    assert_eq!(held.timeline.iter().map(|t| t.timeline_item_id.0.as_str()).collect::<Vec<_>>(), ["b", "a"]);
    assert_eq!(held.operations.len(), 1);
    assert_eq!(held.gap_before, Some(4));
}

#[test]
fn applying_events_updates_the_store_and_reports_errors() {
    let mut store = AppStore::new("ws://hub".into(), true);
    let snap = snapshot();
    assert!(store.apply(event(1, ClientPayload::ProjectSnapshot { snapshot: Box::new(snap) })).is_none());
    assert_eq!(store.projects.len(), 1);
    assert_eq!(store.selected, Some(key()));
    store.apply(event(2, ClientPayload::Timeline { item: timeline("t1", 1, 2) }));
    store.apply(event(3, ClientPayload::Timeline { item: timeline("t1", 1, 2) }));
    assert_eq!(store.snapshots[0].timeline.len(), 1);
    store.apply(event(4, ClientPayload::Operation { operation: operation("op", 4) }));
    store.apply(event(5, ClientPayload::Accepted { operation: operation("op", 5) }));
    assert_eq!(store.snapshots[0].operations.len(), 1);
    assert_eq!(store.snapshots[0].operations[0].updated_at, 5);
    store.apply(event(6, ClientPayload::Error { code: "offline".into(), message: "Spoke is offline".into() }));
    assert_eq!(store.diagnostics.last().unwrap().message, "offline: Spoke is offline");
    assert_eq!(store.connection.kind, ConnectionKind::Degraded);
    assert_eq!(store.connection.label, "Attention required");
    store.apply(event(7, ClientPayload::Projection {
        spoke_id: SpokeId("spoke".into()),
        project_id: ProjectId("project".into()),
        revision: 3,
        content: "text".into(),
    }));
    assert_eq!(store.diagnostics.last().unwrap().message, "Intent projection r3: text");
    store.apply(event(8, ClientPayload::ReplayGap {
        spoke_id: SpokeId("spoke".into()),
        project_id: ProjectId("project".into()),
        requested: 1,
        available: 9,
    }));
    assert_eq!(store.diagnostics.last().unwrap().message, "Timeline replay gap: requested 1, earliest available 9");
    let mut removed = project();
    removed.status = ProjectStatus::Removed;
    store.apply(event(9, ClientPayload::ProjectUpdated { project: removed }));
    assert!(store.projects.is_empty());
    assert!(store.snapshots.is_empty());
    assert_eq!(store.selected, None);
}

#[test]
fn a_waiting_local_project_opens_on_the_first_online_spoke() {
    let mut store = AppStore::new("ws://hub".into(), true);
    store.pending_local_project =
        Some(pumpkinpi::client_state::LocalProjectRequest { cwd: "/work".into(), name: Some("work".into()) });
    let spoke = |id: &str, status| SpokeRecord {
        spoke_id: SpokeId(id.into()),
        name: id.into(),
        hostname: String::new(),
        version: String::new(),
        status,
        created_at: 0,
        enrolled_at: None,
        last_seen_at: None,
    };
    let follow_up = store.apply(event(1, ClientPayload::SpokeList {
        spokes: vec![spoke("c", SpokeStatus::Online), spoke("a", SpokeStatus::Offline), spoke("b", SpokeStatus::Online)],
    }));
    match follow_up {
        Some(ClientCommand::ProjectInitialize { spoke_id, cwd, name }) => {
            assert_eq!(spoke_id.0, "b");
            assert_eq!(cwd, "/work");
            assert_eq!(name.as_deref(), Some("work"));
        }
        other => panic!("unexpected follow-up: {other:?}"),
    }
    assert!(store.pending_local_project.is_none());
}

#[test]
fn sending_and_answering_make_the_right_commands() {
    let mut store = AppStore::new("ws://hub".into(), true);
    assert!(store.send_intent(key(), "   ".into(), 5).is_none());
    store.apply(event(1, ClientPayload::ProjectSnapshot { snapshot: Box::new(snapshot()) }));
    match store.send_intent(key(), "Make it so".into(), 5) {
        Some(ClientCommand::IntentSend { message, expected_revision, .. }) => {
            assert_eq!(message, "Make it so");
            assert_eq!(expected_revision, Some(1));
        }
        other => panic!("unexpected command: {other:?}"),
    }
    assert_eq!(store.pending_messages.len(), 1);
    store.apply(event(2, ClientPayload::Timeline { item: timeline("t9", 9, 2) }));
    assert!(store.pending_messages.is_empty());
    match store.select_project(key()) {
        ClientCommand::IntentSubscribe { cursor, .. } => assert_eq!(cursor, Some(9)),
        other => panic!("unexpected command: {other:?}"),
    }
    let interaction = InteractionView {
        spoke_id: SpokeId("spoke".into()),
        project_id: ProjectId("project".into()),
        operation_id: OperationId("op".into()),
        request_id: "r".into(),
        method: "confirm".into(),
        payload: JsonValue::Null,
        created_at: 1,
    };
    store.apply_interaction(interaction.copy());
    let answer = store.answer(&interaction, JsonValue::Bool(true));
    assert!(matches!(answer, ClientCommand::IntentAnswer { ref request_id, .. } if request_id == "r"));
    assert!(store.interactions.is_empty());
}

#[test]
fn initializing_a_project_needs_a_path() {
    assert_eq!(initialize_project(SpokeId("s".into()), "  ".into(), "x".into()).unwrap_err(), "A project path is required");
    match initialize_project(SpokeId("s".into()), "/p".into(), " ".into()) {
        Ok(ClientCommand::ProjectInitialize { name, .. }) => assert_eq!(name, None),
        other => panic!("unexpected: {other:?}"),
    }
}

#[test]
fn initials_take_the_first_letters_of_two_words() {
    assert_eq!(initials("pumpkin pi project"), "PP");
    assert_eq!(initials("--my_app"), "MA");
    assert_eq!(initials("x"), "X");
    assert_eq!(initials("  "), "");
}

#[test]
fn active_operations_are_the_unfinished_ones() {
    assert!(is_active(&OperationStatus::Queued));
    assert!(is_active(&OperationStatus::Blocked));
    assert!(!is_active(&OperationStatus::Completed));
}

#[test]
fn connection_classes_name_each_state() {
    assert_eq!(ConnectionKind::Degraded.class(), "degraded");
    assert_eq!(ConnectionKind::Connected.class(), "connected");
}

#[test]
fn client_configuration_resolves_hub_and_token_in_order() {
    assert_eq!(default_hub(), "ws://127.0.0.1:8080/ws/client");
    let saved = || Ok(ClientConfig { hub: "ws://saved".into(), token: Some("t".into()) });
    assert_eq!(resolve_hub(Some("ws://cli"), Some("ws://env"), saved()).unwrap(), "ws://cli");
    assert_eq!(resolve_hub(None, Some("ws://env"), saved()).unwrap(), "ws://env");
    assert_eq!(resolve_hub(None, None, saved()).unwrap(), "ws://saved");
    assert_eq!(resolve_token(None, saved()).unwrap().as_deref(), Some("t"));
    assert_eq!(resolve_token(Some("e"), saved()).unwrap().as_deref(), Some("e"));
    assert_eq!(config_path(None, Some("/xdg/"), Some("/home/u")).unwrap(), "/xdg/pumpkinpi/client.toml");
    assert_eq!(config_path(None, None, Some("/home/u")).unwrap(), "/home/u/.config/pumpkinpi/client.toml");
    assert_eq!(config_path(None, None, None).unwrap_err(), "HOME is required to locate client config");
    assert_eq!(login("ws://h".into(), " \t".into()).unwrap_err(), "token cannot be empty");
    let config = login("ws://h".into(), "tok".into()).unwrap();
    assert_eq!(config.token.as_deref(), Some("tok"));
    assert_eq!(logout(config).token, None);
}

#[test]
fn timeline_identifiers_stay_distinct_through_events() {
    let mut store = AppStore::new("ws://hub".into(), true);
    let mut first = snapshot();
    first.timeline = vec![timeline("a", 1, 10)];
    store.apply(event(1, ClientPayload::ProjectSnapshot { snapshot: Box::new(first) }));
    let mut newer = snapshot();
    newer.timeline = vec![timeline("b", 2, 20), timeline("a", 1, 10), timeline("b", 2, 20)];
    store.apply(event(2, ClientPayload::ProjectSnapshot { snapshot: Box::new(newer) }));
    store.apply(event(3, ClientPayload::Timeline { item: timeline("a", 1, 10) }));
    let ids: Vec<&str> = store.snapshots[0].timeline.iter().map(|t| t.timeline_item_id.0.as_str()).collect();
    assert_eq!(ids, ["a", "b"]);
}

#[test]
fn sidebar_filter_ignores_ascii_case_in_name_and_directory() {
    let p = project();
    let spoke = SpokeId("spoke".into());
    assert!(pumpkinpi::client_view::project_matches_filter(&p, &spoke, ""));
    assert!(pumpkinpi::client_view::project_matches_filter(&p, &spoke, "PROJ"));
    assert!(pumpkinpi::client_view::project_matches_filter(&p, &spoke, "/TMP/"));
    assert!(!pumpkinpi::client_view::project_matches_filter(&p, &spoke, "other"));
    assert!(!pumpkinpi::client_view::project_matches_filter(&p, &SpokeId("elsewhere".into()), ""));
}
