use pumpkinpi::client_link::{
    backoff_seconds, configuration_error_view, connecting_view, first_event, login_required_view, unavailable_view,
    AuthStep, Subscriptions,
};
use pumpkinpi::client_state::ConnectionKind;
use pumpkinpi::client_view::{
    chat_status, error_line, gap_notice, interaction_line, interaction_prompt, interaction_title, latest_review,
    operation_line, operation_status_class, setting_text, timeline_card, timeline_line, trust_label,
};
use pumpkinpi::crypto::hash;
use pumpkinpi::hub_links::{merge_admin_state, spoke_auth, spoke_hello, spoke_message, spoke_update_event, SpokeStep};
use pumpkinpi::hub_providers::master_key_bytes;
use pumpkinpi::hub_store::{create_spoke, default_hub_dir, issue_owner_token, rekey_spoke, HubStore};
use pumpkinpi::ids::{IntentChatId, ProjectId, RequestId, ReviewId, RunId, SpokeId, TimelineItemId};
use pumpkinpi::json::{JsonNumber, JsonValue};
use pumpkinpi::local_mode::{local_endpoints, local_plan, local_root, setup_key_from_output};
use pumpkinpi::messages::{ClientCommand, ClientEvent, ClientPayload, SpokeToHub};
use pumpkinpi::records::{ProjectRecord, ReviewRecord, TimelineItem};
use pumpkinpi::status::{
    InitializationStatus, IntentStatus, OperationStatus, ProjectStatus, RealizationStatus, ReviewVerdict, SpokeStatus,
    TimelineKind, Visibility,
};

const NOW: u64 = 1_700_000_000;

fn spoke_project(spoke: &str, id: &str) -> ProjectRecord {
    ProjectRecord {
        project_id: ProjectId(id.into()),
        spoke_id: SpokeId(spoke.into()),
        name: id.into(),
        cwd: format!("/work/{id}"),
        source_of_intent_id: pumpkinpi::ids::SourceOfIntentId("source".into()),
        intent_chat_id: IntentChatId("chat".into()),
        initialization_status: InitializationStatus::Ready,
        default_provider: None,
        default_model: None,
        run_as_user: None,
        allow_root_sessions: false,
        status: ProjectStatus::Active,
        trusted: true,
        realization_status: RealizationStatus::Inactive,
        created_at: 1,
        updated_at: 1,
    }
}

#[test]
fn spoke_connections_open_with_hello_then_auth() {
    let hello = SpokeToHub::Hello { protocol_version: 3, spoke_id: SpokeId("s1".into()), version: "0.3".into() };
    assert_eq!(spoke_hello(hello), Ok((SpokeId("s1".into()), "0.3".to_string())));
    let old = SpokeToHub::Hello { protocol_version: 2, spoke_id: SpokeId("s1".into()), version: "0.2".into() };
    assert_eq!(spoke_hello(old), Err("unsupported protocol 2; expected 3".to_string()));
    assert_eq!(spoke_hello(SpokeToHub::Heartbeat { protocol_version: 3 }), Err("first message must be hello".to_string()));

    let auth = SpokeToHub::Auth { protocol_version: 3, spoke_id: SpokeId("s1".into()), signature: "sig".into() };
    assert_eq!(spoke_auth(auth, &SpokeId("s1".into())), Ok("sig".to_string()));
    let other = SpokeToHub::Auth { protocol_version: 3, spoke_id: SpokeId("s2".into()), signature: "sig".into() };
    assert_eq!(spoke_auth(other, &SpokeId("s1".into())), Err("identity changed".to_string()));
    assert_eq!(
        spoke_auth(SpokeToHub::Heartbeat { protocol_version: 3 }, &SpokeId("s1".into())),
        Err("missing auth".to_string())
    );
}

#[test]
fn spoke_messages_update_the_hub() {
    let mut store = HubStore::new();
    let (id, _) = create_spoke(&mut store, "laptop".into(), NOW);
    let inventory = SpokeToHub::Inventory {
        protocol_version: 3,
        complete: true,
        revision: 1,
        projects: vec![spoke_project(&id.0, "b"), spoke_project(&id.0, "a"), spoke_project(&id.0, "b")],
    };
    assert!(matches!(spoke_message(&mut store, &id, inventory, NOW + 1), Ok(SpokeStep::Recorded)));
    let entry = store.spokes.iter().find(|s| s.record.spoke_id == id).unwrap();
    let ids: Vec<&str> = entry.projects.iter().map(|p| p.project_id.0.as_str()).collect();
    assert_eq!(ids, vec!["a", "b"]);
    assert_eq!(entry.record.last_seen_at, Some(NOW + 1));

    assert!(matches!(spoke_message(&mut store, &id, SpokeToHub::Heartbeat { protocol_version: 3 }, NOW + 2), Ok(SpokeStep::Seen)));
    assert_eq!(
        store.spokes.iter().find(|s| s.record.spoke_id == id).unwrap().record.last_seen_at,
        Some(NOW + 2)
    );
    assert!(spoke_message(&mut store, &id, SpokeToHub::Heartbeat { protocol_version: 1 }, NOW + 3).is_err());

    let event = ClientEvent {
        protocol_version: 3,
        id: Some(RequestId("r".into())),
        created_at: NOW,
        payload: ClientPayload::Authenticated,
    };
    let step = spoke_message(&mut store, &id, SpokeToHub::ClientEvent { protocol_version: 3, event: Box::new(event) }, NOW);
    assert!(matches!(step, Ok(SpokeStep::Deliver(ClientEvent { payload: ClientPayload::Authenticated, .. }))));
    let hello = SpokeToHub::Hello { protocol_version: 3, spoke_id: id.clone(), version: "x".into() };
    assert!(matches!(spoke_message(&mut store, &id, hello, NOW), Ok(SpokeStep::Ignored)));

    match spoke_update_event(&store, &id, NOW + 5) {
        Some(ClientEvent { id: None, created_at, payload: ClientPayload::SpokeUpdated { spoke }, .. }) => {
            assert_eq!(created_at, NOW + 5);
            assert_eq!(spoke.spoke_id, id);
        },
        other => panic!("unexpected {other:?}"),
    }
    assert!(spoke_update_event(&store, &SpokeId("nobody".into()), NOW).is_none());
}

#[test]
fn administrative_changes_on_disk_reach_the_live_hub() {
    let mut disk = HubStore::new();
    let (a, _) = create_spoke(&mut disk, "a".into(), NOW);
    let (b, _) = create_spoke(&mut disk, "b".into(), NOW);
    let mut live = HubStore::new();
    let (_, _) = create_spoke(&mut live, "other".into(), NOW);
    for s in &disk.spokes {
        live.spokes.push(pumpkinpi::hub_store::SpokeAuth {
            record: s.record.clone(),
            public_key: None,
            setup_key_hash: s.setup_key_hash.clone(),
            setup_expires_at: s.setup_expires_at,
            projects: vec![],
        });
    }
    live.spokes.sort_by(|x, y| x.record.spoke_id.0.cmp(&y.record.spoke_id.0));
    disk.set_spoke_status(&a, SpokeStatus::Revoked).unwrap();
    let new_key = rekey_spoke(&mut disk, &b, NOW + 60).unwrap();

    let cut = merge_admin_state(&mut live, &disk);
    assert_eq!(cut, vec![a.clone()]);
    let la = live.spokes.iter().find(|s| s.record.spoke_id == a).unwrap();
    assert_eq!(la.record.status, SpokeStatus::Revoked);
    let lb = live.spokes.iter().find(|s| s.record.spoke_id == b).unwrap();
    assert_eq!(lb.setup_key_hash, Some(hash(&new_key)));
    assert_eq!(lb.setup_expires_at, Some(NOW + 60 + 1800));
    assert_eq!(live.spokes.len(), 3);
    assert!(merge_admin_state(&mut live, &disk).is_empty());
}

#[test]
fn owner_tokens_and_setup_keys_are_stored_hashed() {
    let mut store = HubStore::new();
    let token = issue_owner_token(&mut store);
    assert!(token.starts_with("ppc_"));
    assert_eq!(store.owner_token_hash, Some(hash(&token)));
    assert_eq!(rekey_spoke(&mut store, &SpokeId("missing".into()), NOW), Err("spoke not found".to_string()));
    assert!(default_hub_dir(Some("/home/a")).ends_with("/home/a/.local/state/pumpkinpi-hub-v3"));
    assert_eq!(default_hub_dir(None), "./.local/state/pumpkinpi-hub-v3");
}

#[test]
fn master_keys_are_thirty_two_bytes() {
    assert!(master_key_bytes(" AAAAAAAAAAAAAAAAAAAAAAAAAAAAAAAAAAAAAAAAAAA= ").is_ok());
    assert_eq!(master_key_bytes("AAAA"), Err("invalid Hub master key".to_string()));
    assert!(master_key_bytes("%%%").is_err());
}

#[test]
fn connection_views_while_connecting() {
    let first = connecting_view(0);
    assert_eq!((first.kind, first.label.as_str(), first.attempt), (ConnectionKind::Connecting, "Connecting", 0));
    let again = connecting_view(3);
    assert_eq!((again.kind, again.label.as_str(), again.attempt), (ConnectionKind::Reconnecting, "Reconnecting · attempt 3", 3));
    let down = unavailable_view(2, "refused".into());
    assert_eq!((down.kind, down.label.as_str(), down.reason.as_deref()), (ConnectionKind::Degraded, "Hub unavailable", Some("refused")));
    assert_eq!(configuration_error_view(0, "bad".into()).label, "Configuration error");
    let login = login_required_view(1);
    assert_eq!(login.kind, ConnectionKind::Disconnected);
    assert_eq!(login.reason.as_deref(), Some("Enter your personal Hub URL and owner token."));
    assert_eq!((backoff_seconds(0), backoff_seconds(2), backoff_seconds(9)), (0, 2, 5));
}

fn item(spoke: &str, project: &str, cursor: u64) -> TimelineItem {
    TimelineItem {
        timeline_item_id: TimelineItemId(format!("i{cursor}")),
        spoke_id: SpokeId(spoke.into()),
        project_id: ProjectId(project.into()),
        intent_chat_id: IntentChatId("chat".into()),
        operation_id: None,
        session_id: None,
        run_id: None,
        source_of_intent_revision: Some(4),
        kind: TimelineKind::Outcome,
        visibility: Visibility::Primary,
        status: None,
        summary: Some("summary".into()),
        content: None,
        cursor,
        created_at: 10,
        updated_at: 10,
        completed_at: None,
    }
}

#[test]
fn reconnecting_resumes_each_followed_chat() {
    let mut subs = Subscriptions::new();
    subs.note_command(&ClientCommand::IntentSubscribe {
        spoke_id: SpokeId("s2".into()),
        project_id: ProjectId("p".into()),
        cursor: None,
    });
    subs.note_command(&ClientCommand::IntentSubscribe {
        spoke_id: SpokeId("s1".into()),
        project_id: ProjectId("p".into()),
        cursor: Some(4),
    });
    subs.note_command(&ClientCommand::HubStatus);
    subs.note_event(&ClientEvent { protocol_version: 3, id: None, created_at: 0, payload: ClientPayload::Timeline { item: item("s2", "p", 9) } });
    let cmds = subs.resume_commands();
    assert_eq!(cmds.len(), 4);
    assert!(matches!(cmds[0], ClientCommand::SpokeList));
    assert!(matches!(cmds[1], ClientCommand::ProjectList { spoke_id: None }));
    match (&cmds[2], &cmds[3]) {
        (
            ClientCommand::IntentSubscribe { spoke_id: a, cursor: ca, .. },
            ClientCommand::IntentSubscribe { spoke_id: b, cursor: cb, .. },
        ) => {
            assert_eq!((a.0.as_str(), *ca), ("s1", Some(4)));
            assert_eq!((b.0.as_str(), *cb), ("s2", Some(9)));
        },
        other => panic!("unexpected {other:?}"),
    }
}

#[test]
fn local_mode_locations() {
    assert_eq!(local_root(Some("/state"), Some("/home/a")), Ok("/state/pumpkinpi/local-v3".to_string()));
    assert_eq!(local_root(None, Some("/home/a")), Ok("/home/a/.local/state/pumpkinpi/local-v3".to_string()));
    assert_eq!(local_root(None, None), Err("HOME is required for local mode".to_string()));
    let (listen, http, ws) = local_endpoints();
    assert_eq!(listen, "127.0.0.1:43123");
    assert_eq!(http, "http://127.0.0.1:43123");
    assert_eq!(ws, "ws://127.0.0.1:43123/ws/client");
}

#[test]
fn setup_keys_are_read_from_the_hub_output() {
    assert_eq!(setup_key_from_output("spoke_id: spoke_1\nsetup_key:  pps_setup_abc \n"), Some("pps_setup_abc".to_string()));
    assert_eq!(setup_key_from_output("spoke_id: spoke_1\n"), None);
    assert_eq!(setup_key_from_output("x setup_key: no\r\nsetup_key:yes\r\n"), Some("yes".to_string()));
}

#[test]
fn timeline_items_as_shown() {
    let card = timeline_card(&item("s", "p", 3));
    assert_eq!((card.class, card.actor, card.icon), ("outcome", "PumpkinPi", "✓"));
    assert_eq!(card.text, "summary");
    assert_eq!(card.summary, None);
    assert_eq!(card.revision_tag.as_deref(), Some("intent r4"));
    assert_eq!(card.cursor_note, "Timeline cursor 3");
    let mut mine = item("s", "p", 1);
    mine.kind = TimelineKind::UserIntent;
    mine.content = Some("do it".into());
    mine.source_of_intent_revision = None;
    let card = timeline_card(&mine);
    assert_eq!((card.actor, card.icon, card.text.as_str()), ("You", "U", "do it"));
    assert_eq!(card.summary.as_deref(), Some("summary"));
    assert_eq!(card.revision_tag, None);
    mine.summary = None;
    mine.content = None;
    assert_eq!(timeline_card(&mine).text, "Update");
    assert_eq!(timeline_line(&mine, "T"), "\n[T] ");
}

#[test]
fn chat_and_operation_status() {
    assert_eq!(chat_status(RealizationStatus::Inactive, IntentStatus::WaitingForUser), "waitingforuser");
    assert_eq!(chat_status(RealizationStatus::Reviewing, IntentStatus::Ready), "reviewing");
    assert_eq!(operation_status_class(OperationStatus::Cancelled), "cancelled");
    assert_eq!(operation_line(OperationStatus::Running, "T"), "[T] [operation Running]");
    assert_eq!(error_line("offline", "T"), "[T] error: offline");
    assert_eq!(interaction_line("confirm", "Proceed?", "T"), "\n[T] [Action required · confirm] Proceed?");
    assert_eq!(interaction_title("select"), "Action required · select");
    assert_eq!(gap_notice(7), "Some earlier timeline detail is unavailable before cursor 7. The current project snapshot remains authoritative.");
    assert_eq!(setting_text(&None), "Not set");
    assert_eq!(setting_text(&Some("opus".into())), "opus");
    assert_eq!((trust_label(true), trust_label(false)), ("Trusted", "Untrusted"));
}

#[test]
fn interaction_prompts() {
    let obj = |pairs: Vec<(&str, JsonValue)>| JsonValue::Object(pairs.into_iter().map(|(k, v)| (k.to_string(), v)).collect());
    assert_eq!(interaction_prompt(&obj(vec![("message", JsonValue::Str("m".into())), ("prompt", JsonValue::Str("p".into()))])), Some("m".to_string()));
    assert_eq!(interaction_prompt(&obj(vec![("prompt", JsonValue::Str("p".into()))])), Some("p".to_string()));
    assert_eq!(interaction_prompt(&obj(vec![("message", JsonValue::Number(JsonNumber::Unsigned(1))), ("prompt", JsonValue::Str("p".into()))])), None);
}

fn review(id: &str, created_at: u64) -> ReviewRecord {
    ReviewRecord {
        review_id: ReviewId(id.into()),
        spoke_id: SpokeId("s".into()),
        project_id: ProjectId("p".into()),
        run_id: RunId("run".into()),
        source_of_intent_revision: 1,
        observed_content_hash: "h".into(),
        reviewed_scope: vec![],
        checks: vec![],
        findings: vec![],
        unreviewed_required_scope: vec![],
        verdict: ReviewVerdict::Approved,
        created_at,
    }
}

#[test]
fn the_latest_review_is_the_newest() {
    assert_eq!(latest_review(&vec![]), None);
    let reviews = vec![review("b", 5), review("c", 9), review("a", 9), review("z", 1)];
    assert_eq!(latest_review(&reviews), Some(1));
    let tied = vec![review("a", 9), review("a", 9)];
    assert_eq!(latest_review(&tied), Some(1));
}

#[test]
fn authenticating_resumes_followed_chats_and_resets_attempts() {
    let mut link = Subscriptions::new();
    link.note_command(&ClientCommand::IntentSubscribe {
        spoke_id: SpokeId("s".into()),
        project_id: ProjectId("p".into()),
        cursor: Some(4),
    });
    let ok = ClientEvent { protocol_version: 3, id: None, created_at: NOW, payload: ClientPayload::Authenticated };
    match first_event(&link, 3, Some(ok)) {
        AuthStep::Connected { view, attempt, commands } => {
            assert_eq!(view.kind, ConnectionKind::Connected);
            assert_eq!(view.label, "Connected");
            assert_eq!(attempt, 0);
            assert_eq!(commands.len(), 3);
            assert!(matches!(commands[0], ClientCommand::SpokeList));
            assert!(matches!(commands[1], ClientCommand::ProjectList { spoke_id: None }));
            assert!(matches!(commands[2], ClientCommand::IntentSubscribe { cursor: Some(4), .. }));
        },
        other => panic!("unexpected step {other:?}"),
    }
    let refused = ClientEvent {
        protocol_version: 3,
        id: None,
        created_at: NOW,
        payload: ClientPayload::Error { code: "authentication_failed".into(), message: "invalid owner credential".into() },
    };
    assert!(matches!(first_event(&link, 3, Some(refused)), AuthStep::Stop { .. }));
    assert!(matches!(first_event(&link, 3, None), AuthStep::Retry { attempt: 4 }));
}

#[test]
fn local_mode_takes_only_the_missing_steps() {
    let fresh = local_plan(false, false, false, false).unwrap();
    assert!(fresh.create_token && fresh.enroll_node && fresh.start_hub && fresh.start_node);
    let running = local_plan(true, true, true, true).unwrap();
    assert!(!running.create_token && !running.enroll_node && !running.start_hub && !running.start_node);
    assert_eq!(local_plan(false, true, true, false).unwrap_err(), "port 43123 is already in use and no local credentials exist");
    assert_eq!(
        local_plan(true, false, true, false).unwrap_err(),
        "local Hub is already running but local Spoke enrollment is incomplete"
    );
}
