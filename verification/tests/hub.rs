use base64::engine::general_purpose::STANDARD;
use base64::Engine;
use ed25519_dalek::{Signer, SigningKey};
use pumpkinpi::crypto::hash;
use pumpkinpi::hub_providers::{decrypt_provider, encrypt_provider, provider_env_name};
use pumpkinpi::hub_requests::{check_version, client_authorized, forward_or_answer, RouteOutcome};
use pumpkinpi::hub_routing::{deliver, HubRoutes};
use pumpkinpi::hub_store::{create_spoke, HubStore, SpokeAuth, SETUP_KEY_TTL};
use pumpkinpi::ids::{OperationId, ProjectId, RequestId, SpokeId};
use pumpkinpi::messages::{ClientCommand, ClientEvent, ClientPayload, ClientRequest, EnrollRequest, HubToSpoke};
use pumpkinpi::ids::{IntentChatId, SourceOfIntentId, TimelineItemId};
use pumpkinpi::records::{IntentChatRecord, ProjectKey, ProjectRecord, ProjectSnapshot, SourceOfIntentMetadata, TimelineItem};
use pumpkinpi::status::{
    InitializationStatus, IntentStatus, ProjectStatus, RealizationStatus, SourceStatus, TimelineKind, Visibility,
};
use pumpkinpi::status::SpokeStatus;

const NOW: u64 = 1_700_000_000;

fn spoke<'a>(store: &'a HubStore, id: &SpokeId) -> &'a SpokeAuth {
    store.spokes.iter().find(|s| s.record.spoke_id == *id).expect("spoke is stored")
}

fn enroll_request(setup_key: &str, signing: &SigningKey) -> EnrollRequest {
    EnrollRequest {
        setup_key: setup_key.to_string(),
        hostname: "framework".to_string(),
        version: "0.1.0".to_string(),
        public_key: STANDARD.encode(signing.verifying_key().to_bytes()),
    }
}

#[test]
fn provider_secrets_are_encrypted_and_never_present_in_public_record() {
    let key = [7u8; 32];
    let stored = encrypt_provider(&key, "anthropic".into(), "work".into(), "secret-value", NOW).unwrap();
    assert!(!stored.ciphertext.contains("secret-value"));
    assert_eq!(decrypt_provider(&key, &stored).unwrap(), "secret-value");
    let public = format!("{:?}", stored.account);
    assert!(!public.contains("secret-value"));
}

#[test]
fn setup_keys_are_hashed_and_one_spoke_scoped() {
    let mut store = HubStore::new();
    let (spoke_id, setup_key) = create_spoke(&mut store, "framework".into(), NOW);
    let record = spoke(&store, &spoke_id);
    assert_ne!(record.setup_key_hash.as_deref(), Some(setup_key.as_str()));
    assert_eq!(record.setup_key_hash.as_deref(), Some(hash(&setup_key).as_str()));
    assert!(record.setup_expires_at.unwrap() > NOW);
}

#[test]
fn decrypting_under_another_key_fails() {
    let stored = encrypt_provider(&[7u8; 32], "openai".into(), "work".into(), "sk-other", NOW).unwrap();
    assert_eq!(decrypt_provider(&[8u8; 32], &stored), Err("provider decryption failed".to_string()));
}

#[test]
fn created_spoke_has_prefixed_identifier_and_setup_key() {
    let mut store = HubStore::new();
    let (spoke_id, setup_key) = create_spoke(&mut store, "framework".into(), NOW);
    assert!(spoke_id.0.starts_with("spoke_"));
    assert_eq!(spoke_id.0.len(), 38);
    assert!(setup_key.starts_with("pps_setup_"));
    assert!(!setup_key["pps_setup_".len()..].contains(['+', '/', '=']));
    let record = spoke(&store, &spoke_id);
    assert_eq!(record.record.status, SpokeStatus::Offline);
    assert_eq!(record.setup_expires_at, Some(NOW + SETUP_KEY_TTL));
    assert_eq!(record.public_key, None);
}

#[test]
fn enrollment_consumes_the_setup_key() {
    let mut store = HubStore::new();
    let (spoke_id, setup_key) = create_spoke(&mut store, "framework".into(), NOW);
    let signing = SigningKey::from_bytes(&[9u8; 32]);
    let response = store.enroll(enroll_request(&setup_key, &signing), "wss://hub.example", NOW + 10);
    assert!(response.ok);
    assert_eq!(response.spoke_id, Some(SpokeId(spoke_id.0.clone())));
    assert_eq!(response.hub_url.as_deref(), Some("wss://hub.example"));
    let record = spoke(&store, &spoke_id);
    assert_eq!(record.setup_key_hash, None);
    assert_eq!(record.setup_expires_at, None);
    assert_eq!(record.record.enrolled_at, Some(NOW + 10));
    assert_eq!(record.record.hostname, "framework");

    let again = store.enroll(enroll_request(&setup_key, &signing), "wss://hub.example", NOW + 20);
    assert!(!again.ok);
    assert_eq!(again.error.as_deref(), Some("invalid or expired setup key"));
}

#[test]
fn expired_setup_key_is_refused() {
    let mut store = HubStore::new();
    let (_, setup_key) = create_spoke(&mut store, "framework".into(), NOW);
    let signing = SigningKey::from_bytes(&[9u8; 32]);
    let response = store.enroll(enroll_request(&setup_key, &signing), "wss://hub", NOW + SETUP_KEY_TTL + 1);
    assert!(!response.ok);
    assert_eq!(response.spoke_id, None);
    assert_eq!(response.error.as_deref(), Some("invalid or expired setup key"));
}

#[test]
fn enrolled_spoke_is_admitted_only_with_a_valid_signature() {
    let mut store = HubStore::new();
    let (spoke_id, setup_key) = create_spoke(&mut store, "framework".into(), NOW);
    let signing = SigningKey::from_bytes(&[9u8; 32]);

    let before = store.admit_spoke(&spoke_id, "nonce-1", "", "0.2.0".into(), NOW);
    assert_eq!(before, Err("spoke is not enrolled".to_string()));

    assert!(store.enroll(enroll_request(&setup_key, &signing), "wss://hub", NOW).ok);
    let wrong = STANDARD.encode(signing.sign(b"other-nonce").to_bytes());
    assert!(store.admit_spoke(&spoke_id, "nonce-1", &wrong, "0.2.0".into(), NOW + 1).is_err());
    assert_eq!(spoke(&store, &spoke_id).record.status, SpokeStatus::Offline);

    let right = STANDARD.encode(signing.sign(b"nonce-1").to_bytes());
    assert_eq!(store.admit_spoke(&spoke_id, "nonce-1", &right, "0.2.0".into(), NOW + 2), Ok(()));
    let record = spoke(&store, &spoke_id);
    assert_eq!(record.record.status, SpokeStatus::Online);
    assert_eq!(record.record.version, "0.2.0");
    assert_eq!(record.record.last_seen_at, Some(NOW + 2));

    let unknown = store.admit_spoke(&SpokeId("spoke_missing".into()), "nonce-1", &right, "0.2.0".into(), NOW);
    assert_eq!(unknown, Err("unknown spoke".to_string()));
}

#[test]
fn provider_environment_variables() {
    assert_eq!(provider_env_name("anthropic"), Ok("ANTHROPIC_API_KEY"));
    assert_eq!(provider_env_name("openai"), Ok("OPENAI_API_KEY"));
    assert_eq!(provider_env_name("gemini"), Ok("GOOGLE_API_KEY"));
    assert_eq!(provider_env_name("google"), Ok("GOOGLE_API_KEY"));
    assert_eq!(provider_env_name("xai"), Ok("XAI_API_KEY"));
    assert_eq!(provider_env_name("openrouter"), Ok("OPENROUTER_API_KEY"));
    assert_eq!(provider_env_name("mistral"), Err("unsupported provider mistral".to_string()));
}

#[test]
fn only_the_current_protocol_version_is_accepted() {
    assert_eq!(check_version(3), Ok(()));
    assert_eq!(check_version(2), Err("unsupported protocol 2; expected 3".to_string()));
}

#[test]
fn clients_need_the_owner_token() {
    let mut store = HubStore::new();
    assert!(!client_authorized(&store, 3, "token"));
    store.owner_token_hash = Some(hash("token"));
    assert!(client_authorized(&store, 3, "token"));
    assert!(!client_authorized(&store, 3, "other"));
    assert!(!client_authorized(&store, 2, "token"));
}

#[test]
fn hash_is_lowercase_hex_sha256() {
    assert_eq!(hash("abc"), "ba7816bf8f01cfea414140de5dae2223b00361a396177a9cb410ff61f20015ad");
}

fn key(spoke: &str, project: &str) -> ProjectKey {
    ProjectKey { spoke_id: SpokeId(spoke.into()), project_id: ProjectId(project.into()) }
}

#[test]
fn subscriptions_select_recipients() {
    let mut routes = HubRoutes::new();
    routes.subscribe("client-a", key("spoke", "p1"));
    routes.subscribe("client-b", key("spoke", "p1"));
    routes.subscribe("client-a", key("spoke", "p1"));
    routes.subscribe("client-c", key("spoke", "p2"));
    let mut got = routes.recipients(&SpokeId("spoke".into()), &ProjectId("p1".into()));
    got.sort();
    assert_eq!(got, vec!["client-a".to_string(), "client-b".to_string()]);
    routes.forget_client("client-a");
    assert_eq!(routes.recipients(&SpokeId("spoke".into()), &ProjectId("p1".into())), vec!["client-b".to_string()]);
}

fn cancel(id: &str, spoke: &str) -> ClientRequest {
    ClientRequest {
        protocol_version: 3,
        id: RequestId(id.into()),
        command: ClientCommand::IntentCancel {
            spoke_id: SpokeId(spoke.into()),
            project_id: ProjectId("p1".into()),
            operation_id: OperationId("op".into()),
        },
    }
}

#[test]
fn forwarded_request_is_answered_to_its_sender_only() {
    let mut store = HubStore::new();
    let mut routes = HubRoutes::new();
    routes.subscribe("watcher", key("spoke", "p1"));
    let connected = vec![SpokeId("spoke".into())];
    let outcome = forward_or_answer(&store, &mut routes, "sender", cancel("req-1", "spoke"), vec![], &connected, NOW);
    match outcome {
        Ok(RouteOutcome::Forward { spoke_id, message: HubToSpoke::Command { request, .. } }) => {
            assert_eq!(spoke_id, SpokeId("spoke".into()));
            assert_eq!(request.id, RequestId("req-1".into()));
        },
        other => panic!("unexpected outcome {other:?}"),
    }
    assert_eq!(routes.pending.len(), 1);

    let answer = ClientEvent {
        protocol_version: 3,
        id: Some(RequestId("req-1".into())),
        created_at: NOW,
        payload: ClientPayload::Error { code: "x".into(), message: "y".into() },
    };
    let delivery = deliver(&mut store, &mut routes, &SpokeId("spoke".into()), answer);
    assert_eq!(delivery.recipients, vec!["sender".to_string()]);
    assert!(routes.pending.is_empty());
}

#[test]
fn requests_to_offline_spokes_are_refused() {
    let store = HubStore::new();
    let mut routes = HubRoutes::new();
    let outcome = forward_or_answer(&store, &mut routes, "sender", cancel("req-2", "spoke"), vec![], &vec![], NOW);
    assert!(matches!(outcome, Err(ref m) if m == "spoke is offline"));
    let subscribe = ClientRequest {
        protocol_version: 3,
        id: RequestId("req-3".into()),
        command: ClientCommand::IntentSubscribe {
            spoke_id: SpokeId("spoke".into()),
            project_id: ProjectId("p1".into()),
            cursor: None,
        },
    };
    let outcome = forward_or_answer(&store, &mut routes, "sender", subscribe, vec![], &vec![], NOW);
    assert!(matches!(outcome, Err(ref m) if m == "spoke is offline and no cached Intent Chat is available"));
    assert!(routes.pending.is_empty());
}

fn hub_snapshot(timeline_ids: &[&str]) -> ProjectSnapshot {
    ProjectSnapshot {
        project: ProjectRecord {
            project_id: ProjectId("p1".into()),
            spoke_id: SpokeId("spoke".into()),
            name: "project".into(),
            cwd: "/tmp/project".into(),
            source_of_intent_id: SourceOfIntentId("source".into()),
            intent_chat_id: IntentChatId("chat".into()),
            initialization_status: InitializationStatus::Ready,
            default_provider: None,
            default_model: None,
            run_as_user: None,
            allow_root_sessions: false,
            status: ProjectStatus::Active,
            trusted: true,
            realization_status: RealizationStatus::Inactive,
            created_at: 1,
            updated_at: 1,
        },
        source: SourceOfIntentMetadata {
            source_of_intent_id: SourceOfIntentId("source".into()),
            spoke_id: SpokeId("spoke".into()),
            project_id: ProjectId("p1".into()),
            format: "markdown.v1".into(),
            revision: 1,
            content_hash: "hash".into(),
            authoritative_bundle_hash: None,
            authoritative_document_count: 0,
            status: SourceStatus::Active,
            created_at: 1,
            updated_at: 1,
        },
        chat: IntentChatRecord {
            intent_chat_id: IntentChatId("chat".into()),
            spoke_id: SpokeId("spoke".into()),
            project_id: ProjectId("p1".into()),
            source_of_intent_revision: 1,
            status: IntentStatus::Ready,
            next_cursor: 1,
            created_at: 1,
            updated_at: 1,
            last_active_at: 1,
        },
        timeline: timeline_ids
            .iter()
            .map(|id| TimelineItem {
                timeline_item_id: TimelineItemId((*id).into()),
                spoke_id: SpokeId("spoke".into()),
                project_id: ProjectId("p1".into()),
                intent_chat_id: IntentChatId("chat".into()),
                operation_id: None,
                session_id: None,
                run_id: None,
                source_of_intent_revision: Some(1),
                kind: TimelineKind::Progress,
                visibility: Visibility::Primary,
                status: None,
                summary: None,
                content: None,
                cursor: 1,
                created_at: 1,
                updated_at: 1,
                completed_at: None,
            })
            .collect(),
        operations: vec![],
        reviews: vec![],
        gap_before: None,
    }
}

#[test]
fn caching_keeps_one_snapshot_per_project() {
    let mut store = HubStore::new();
    let first = ClientEvent { protocol_version: 3, id: None, created_at: NOW, payload: ClientPayload::ProjectSnapshot { snapshot: Box::new(hub_snapshot(&["a"])) } };
    let second = ClientEvent { protocol_version: 3, id: None, created_at: NOW, payload: ClientPayload::ProjectSnapshot { snapshot: Box::new(hub_snapshot(&["a", "b"])) } };
    pumpkinpi::hub_cache::cache_event(&mut store, &first);
    pumpkinpi::hub_cache::cache_event(&mut store, &second);
    assert_eq!(store.snapshots.len(), 1);
    assert_eq!(store.snapshots[0].timeline.len(), 2);
}

#[test]
fn offline_subscription_is_answered_from_the_cache() {
    let mut store = HubStore::new();
    let cached = ClientEvent { protocol_version: 3, id: None, created_at: NOW, payload: ClientPayload::ProjectSnapshot { snapshot: Box::new(hub_snapshot(&["a"])) } };
    pumpkinpi::hub_cache::cache_event(&mut store, &cached);
    let mut routes = HubRoutes::new();
    let subscribe = ClientRequest {
        protocol_version: 3,
        id: RequestId("req-4".into()),
        command: ClientCommand::IntentSubscribe {
            spoke_id: SpokeId("spoke".into()),
            project_id: ProjectId("p1".into()),
            cursor: None,
        },
    };
    let outcome = pumpkinpi::hub_requests::route_spoke_request(&store, &mut routes, &[7u8; 32], "sender", subscribe, &vec![], NOW);
    match outcome {
        Ok(RouteOutcome::Reply(event)) => {
            assert_eq!(event.id, Some(RequestId("req-4".into())));
            assert!(matches!(event.payload, ClientPayload::ProjectSnapshot { ref snapshot } if snapshot.timeline.len() == 1));
        },
        other => panic!("unexpected outcome {other:?}"),
    }
    assert!(routes.pending.is_empty());
    assert_eq!(routes.subscriptions.len(), 1);
}

#[test]
fn setting_a_provider_stores_the_submitted_key_once() {
    let key = [7u8; 32];
    let mut store = HubStore::new();
    let set = |api_key: &str, id: &str| ClientRequest {
        protocol_version: 3,
        id: RequestId(id.into()),
        command: ClientCommand::ProviderSet { provider_id: "anthropic".into(), label: "work".into(), api_key: api_key.into() },
    };
    let first = pumpkinpi::hub_requests::answer_hub_request(&mut store, &key, &set("sk-first", "r1"), "0.1.0", NOW);
    assert!(matches!(first, Some(Ok(_))));
    let second = pumpkinpi::hub_requests::answer_hub_request(&mut store, &key, &set("sk-second", "r2"), "0.1.0", NOW + 1);
    assert!(matches!(second, Some(Ok(_))));
    assert_eq!(store.providers.len(), 1);
    assert_eq!(decrypt_provider(&key, &store.providers[0]).unwrap(), "sk-second");
    assert_eq!(store.providers[0].account.revoked_at, None);
}

#[test]
fn a_new_node_identity_answers_its_hubs_challenges() {
    let (secret, public_key, key_text) = pumpkinpi::node_config::new_node_identity();
    assert_eq!(STANDARD.decode(&key_text).unwrap(), secret.to_vec());
    assert_eq!(pumpkinpi::node_config::signing_key_bytes(&key_text), Ok(secret));
    let mut store = HubStore::new();
    let (spoke_id, setup_key) = create_spoke(&mut store, "framework".into(), NOW);
    let request = EnrollRequest {
        setup_key,
        hostname: "framework".to_string(),
        version: "0.1.0".to_string(),
        public_key,
    };
    assert!(store.enroll(request, "wss://hub", NOW).ok);
    let answer = pumpkinpi::node_config::sign_challenge(&secret, "nonce-7");
    assert_eq!(store.admit_spoke(&spoke_id, "nonce-7", &answer, "0.1.0".into(), NOW + 1), Ok(()));
}

#[test]
fn stored_nonces_must_be_twelve_bytes() {
    let key = [7u8; 32];
    let stored = encrypt_provider(&key, "openai".into(), "work".into(), "sk-one", NOW).unwrap();
    let mut bad = encrypt_provider(&key, "openai".into(), "home".into(), "sk-two", NOW).unwrap();
    assert!(pumpkinpi::hub_providers::providers_well_formed(&vec![stored]));
    let good = encrypt_provider(&key, "openai".into(), "work".into(), "sk-one", NOW).unwrap();
    bad.nonce = STANDARD.encode([1u8; 8]);
    assert!(!pumpkinpi::hub_providers::providers_well_formed(&vec![good, bad]));
}
