use pumpkinpi::ids::{ProjectId, RequestId, SpokeId};
use pumpkinpi::messages::{ClientCommand, ClientEvent, ClientPayload, ClientRequest};
use pumpkinpi::policy::{pi_command_policy, protocol_version, CommandPolicy, PROTOCOL_VERSION};
use pumpkinpi::proposals::{ReviewFindingProposal, ReviewRunResult};
use pumpkinpi::status::ReviewVerdict;

fn texts(items: &[&str]) -> Vec<String> {
    items.iter().map(|s| s.to_string()).collect()
}

#[test]
fn reviewer_cannot_approve_with_findings_or_unreviewed_scope() {
    let invalid = ReviewRunResult {
        source_coverage: vec![],
        reviewed_scope: texts(&["workspace"]),
        checks: vec![],
        findings: vec![ReviewFindingProposal {
            requirement: "typed core".into(),
            fault: "Value leaked".into(),
            evidence: texts(&["src/main.rs:1"]),
            suggested_next_objective: None,
        }],
        unreviewed_required_scope: vec![],
        verdict: ReviewVerdict::Approved,
    };
    assert!(invalid.validate().is_err());

    let valid = ReviewRunResult {
        source_coverage: vec![],
        reviewed_scope: texts(&["complete project"]),
        checks: texts(&["cargo test"]),
        findings: vec![],
        unreviewed_required_scope: vec![],
        verdict: ReviewVerdict::Approved,
    };
    assert_eq!(valid.validate(), Ok(()));
}

#[test]
fn approval_with_unreviewed_scope_is_refused() {
    let result = ReviewRunResult {
        source_coverage: vec![],
        reviewed_scope: texts(&["workspace"]),
        checks: vec![],
        findings: vec![],
        unreviewed_required_scope: texts(&["node"]),
        verdict: ReviewVerdict::Approved,
    };
    assert_eq!(result.validate(), Err("approval requires zero findings and no unreviewed required scope"));
}

#[test]
fn findings_verdict_needs_a_finding() {
    let result = ReviewRunResult {
        source_coverage: vec![],
        reviewed_scope: vec![],
        checks: vec![],
        findings: vec![],
        unreviewed_required_scope: vec![],
        verdict: ReviewVerdict::Findings,
    };
    assert_eq!(result.validate(), Err("findings verdict requires at least one finding"));
}

#[test]
fn protocol_version_is_three() {
    assert_eq!(protocol_version(), 3);
    assert_eq!(PROTOCOL_VERSION, 3);
}

#[test]
fn session_binding_commands_are_denied() {
    for t in ["new_session", "switch_session", "fork", "clone"] {
        assert_eq!(pi_command_policy(t), CommandPolicy::DeniedSessionBinding);
    }
}

#[test]
fn session_commands_are_allowed_and_others_unknown() {
    for t in ["prompt", "steer", "abort", "bash", "get_state", "extension_ui_response", "get_commands"] {
        assert_eq!(pi_command_policy(t), CommandPolicy::Allowed);
    }
    for t in ["", "Prompt", "delete_everything", "prompt "] {
        assert_eq!(pi_command_policy(t), CommandPolicy::Unknown);
    }
}

#[test]
fn commands_name_their_spoke_and_project() {
    let send = ClientCommand::IntentSend {
        spoke_id: SpokeId("spoke-1".into()),
        project_id: ProjectId("project-1".into()),
        message: "Make the tests pass".into(),
        expected_revision: Some(7),
    };
    assert_eq!(send.spoke_id(), Some(&SpokeId("spoke-1".into())));
    assert_eq!(send.project_id(), Some(ProjectId("project-1".into())));
    assert_eq!(ClientCommand::HubStatus.spoke_id(), None);
    assert_eq!(ClientCommand::ProjectList { spoke_id: None }.spoke_id(), None);
    let listed = ClientCommand::ProjectList { spoke_id: Some(SpokeId("s".into())) };
    assert_eq!(listed.spoke_id(), Some(&SpokeId("s".into())));
    assert_eq!(listed.project_id(), None);
    let request = ClientRequest { protocol_version: PROTOCOL_VERSION, id: RequestId("request-1".into()), command: send };
    assert!(matches!(request.command, ClientCommand::IntentSend { expected_revision: Some(7), .. }));
}

#[test]
fn events_name_the_project_they_concern() {
    let event = ClientEvent {
        protocol_version: PROTOCOL_VERSION,
        id: None,
        created_at: 0,
        payload: ClientPayload::Error { code: "offline".into(), message: "Spoke is offline".into() },
    };
    assert_eq!(event.payload.project_id(), None);
    let gap = ClientPayload::ReplayGap {
        spoke_id: SpokeId("s".into()),
        project_id: ProjectId("p".into()),
        requested: 1,
        available: 5,
    };
    assert_eq!(gap.project_id(), Some(ProjectId("p".into())));
}
