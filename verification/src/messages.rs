//! Requests, events and envelopes exchanged between clients, the hub and spokes.

use vstd::prelude::*;
use crate::ids::{SpokeId, ProjectId, OperationId, RequestId};
use crate::json::JsonValue;
use crate::records::{
    SpokeRecord, ProjectRecord, ProviderAccount, ProjectSnapshot, OperationRecord, TimelineItem,
};

verus! {

/// A typed command a client sends to the hub.
#[allow(inconsistent_fields)]
#[derive(Debug)]
pub enum ClientCommand {
    HubStatus,
    SpokeList,
    ProjectList { spoke_id: Option<SpokeId> },
    ProjectGet { spoke_id: SpokeId, project_id: ProjectId },
    ProjectInitialize { spoke_id: SpokeId, cwd: String, name: Option<String> },
    ProjectPathList { spoke_id: SpokeId, path: String },
    ProjectRemove { spoke_id: SpokeId, project_id: ProjectId },
    ProjectModelSet { spoke_id: SpokeId, project_id: ProjectId, provider: String, model: String },
    ProviderList,
    ProviderSet { provider_id: String, label: String, api_key: String },
    ProviderRevoke { provider_account_id: String },
    IntentSubscribe { spoke_id: SpokeId, project_id: ProjectId, cursor: Option<u64> },
    IntentSend {
        spoke_id: SpokeId,
        project_id: ProjectId,
        message: String,
        expected_revision: Option<u64>,
    },
    IntentCancel { spoke_id: SpokeId, project_id: ProjectId, operation_id: OperationId },
    IntentAnswer {
        spoke_id: SpokeId,
        project_id: ProjectId,
        operation_id: OperationId,
        request_id: String,
        response: JsonValue,
    },
    IntentGetProjection { spoke_id: SpokeId, project_id: ProjectId },
}

/// The spoke a command is routed to: every command addressed to a project or a spoke names one;
/// a project listing names one only when filtered.
pub open spec fn command_spoke(c: ClientCommand) -> Option<SpokeId> {
    match c {
        ClientCommand::ProjectList { spoke_id } => spoke_id,
        ClientCommand::ProjectGet { spoke_id, .. } => Some(spoke_id),
        ClientCommand::ProjectInitialize { spoke_id, .. } => Some(spoke_id),
        ClientCommand::ProjectPathList { spoke_id, .. } => Some(spoke_id),
        ClientCommand::ProjectRemove { spoke_id, .. } => Some(spoke_id),
        ClientCommand::ProjectModelSet { spoke_id, .. } => Some(spoke_id),
        ClientCommand::IntentSubscribe { spoke_id, .. } => Some(spoke_id),
        ClientCommand::IntentSend { spoke_id, .. } => Some(spoke_id),
        ClientCommand::IntentCancel { spoke_id, .. } => Some(spoke_id),
        ClientCommand::IntentAnswer { spoke_id, .. } => Some(spoke_id),
        ClientCommand::IntentGetProjection { spoke_id, .. } => Some(spoke_id),
        _ => None,
    }
}

/// The project a command is about, when it names one.
pub open spec fn command_project(c: ClientCommand) -> Option<ProjectId> {
    match c {
        ClientCommand::ProjectGet { project_id, .. } => Some(project_id),
        ClientCommand::ProjectRemove { project_id, .. } => Some(project_id),
        ClientCommand::ProjectModelSet { project_id, .. } => Some(project_id),
        ClientCommand::IntentSubscribe { project_id, .. } => Some(project_id),
        ClientCommand::IntentSend { project_id, .. } => Some(project_id),
        ClientCommand::IntentCancel { project_id, .. } => Some(project_id),
        ClientCommand::IntentAnswer { project_id, .. } => Some(project_id),
        ClientCommand::IntentGetProjection { project_id, .. } => Some(project_id),
        _ => None,
    }
}

/// A command that names a spoke is routed to that spoke, and one that names a project is about
/// that project; the hub's own commands (status, the spoke list, the provider credentials) go to
/// no spoke, and an unfiltered project listing goes to none either.
pub proof fn lemma_commands_go_where_they_name(c: ClientCommand)
    ensures
        c matches ClientCommand::ProjectGet { spoke_id, .. } ==> command_spoke(c) == Some(spoke_id),
        c matches ClientCommand::ProjectInitialize { spoke_id, .. } ==> command_spoke(c) == Some(spoke_id),
        c matches ClientCommand::ProjectPathList { spoke_id, .. } ==> command_spoke(c) == Some(spoke_id),
        c matches ClientCommand::ProjectRemove { spoke_id, .. } ==> command_spoke(c) == Some(spoke_id),
        c matches ClientCommand::ProjectModelSet { spoke_id, .. } ==> command_spoke(c) == Some(spoke_id),
        c matches ClientCommand::IntentSubscribe { spoke_id, .. } ==> command_spoke(c) == Some(spoke_id),
        c matches ClientCommand::IntentSend { spoke_id, .. } ==> command_spoke(c) == Some(spoke_id),
        c matches ClientCommand::IntentCancel { spoke_id, .. } ==> command_spoke(c) == Some(spoke_id),
        c matches ClientCommand::IntentAnswer { spoke_id, .. } ==> command_spoke(c) == Some(spoke_id),
        c matches ClientCommand::IntentGetProjection { spoke_id, .. } ==> command_spoke(c) == Some(spoke_id),
        c matches ClientCommand::ProjectList { spoke_id } ==> command_spoke(c) == spoke_id,
        c is HubStatus ==> command_spoke(c) is None && command_project(c) is None,
        c is SpokeList ==> command_spoke(c) is None && command_project(c) is None,
        c is ProviderList ==> command_spoke(c) is None && command_project(c) is None,
        c is ProviderSet ==> command_spoke(c) is None && command_project(c) is None,
        c is ProviderRevoke ==> command_spoke(c) is None && command_project(c) is None,
        c matches ClientCommand::ProjectGet { project_id, .. } ==> command_project(c) == Some(project_id),
        c matches ClientCommand::ProjectRemove { project_id, .. } ==> command_project(c) == Some(project_id),
        c matches ClientCommand::ProjectModelSet { project_id, .. } ==> command_project(c) == Some(project_id),
        c matches ClientCommand::IntentSubscribe { project_id, .. } ==> command_project(c) == Some(project_id),
        c matches ClientCommand::IntentSend { project_id, .. } ==> command_project(c) == Some(project_id),
        c matches ClientCommand::IntentCancel { project_id, .. } ==> command_project(c) == Some(project_id),
        c matches ClientCommand::IntentAnswer { project_id, .. } ==> command_project(c) == Some(project_id),
        c matches ClientCommand::IntentGetProjection { project_id, .. } ==> command_project(c) == Some(project_id),
        c is ProjectList ==> command_project(c) is None,
        c is ProjectInitialize ==> command_project(c) is None,
        c is ProjectPathList ==> command_project(c) is None,
{
}

pub open spec fn opt_ref_eq<T>(r: Option<&T>, v: Option<T>) -> bool {
    match r {
        Some(x) => v == Some(*x),
        None => v is None,
    }
}

impl ClientCommand {
    /// The spoke this command is routed to.
    pub fn spoke_id(&self) -> (r: Option<&SpokeId>)
        ensures
            opt_ref_eq(r, command_spoke(*self)),
    {
        match self {
            ClientCommand::ProjectList { spoke_id: Some(v) } => Some(v),
            ClientCommand::ProjectGet { spoke_id: v, .. } => Some(v),
            ClientCommand::ProjectInitialize { spoke_id: v, .. } => Some(v),
            ClientCommand::ProjectPathList { spoke_id: v, .. } => Some(v),
            ClientCommand::ProjectRemove { spoke_id: v, .. } => Some(v),
            ClientCommand::ProjectModelSet { spoke_id: v, .. } => Some(v),
            ClientCommand::IntentSubscribe { spoke_id: v, .. } => Some(v),
            ClientCommand::IntentSend { spoke_id: v, .. } => Some(v),
            ClientCommand::IntentCancel { spoke_id: v, .. } => Some(v),
            ClientCommand::IntentAnswer { spoke_id: v, .. } => Some(v),
            ClientCommand::IntentGetProjection { spoke_id: v, .. } => Some(v),
            _ => None,
        }
    }

    /// The project this command is about.
    pub fn project_id(&self) -> (r: Option<ProjectId>)
        ensures
            r == command_project(*self),
    {
        match self {
            ClientCommand::ProjectGet { project_id, .. } => Some(project_id.clone()),
            ClientCommand::ProjectRemove { project_id, .. } => Some(project_id.clone()),
            ClientCommand::ProjectModelSet { project_id, .. } => Some(project_id.clone()),
            ClientCommand::IntentSubscribe { project_id, .. } => Some(project_id.clone()),
            ClientCommand::IntentSend { project_id, .. } => Some(project_id.clone()),
            ClientCommand::IntentCancel { project_id, .. } => Some(project_id.clone()),
            ClientCommand::IntentAnswer { project_id, .. } => Some(project_id.clone()),
            ClientCommand::IntentGetProjection { project_id, .. } => Some(project_id.clone()),
            _ => None,
        }
    }
}

/// A client's request: a command with the protocol version and a request identifier.
#[derive(Debug)]
pub struct ClientRequest {
    pub protocol_version: u32,
    pub id: RequestId,
    pub command: ClientCommand,
}

/// The first message of a client connection.
#[derive(Debug)]
pub enum ClientHello {
    Auth { protocol_version: u32, token: String },
}

/// What the hub tells a client.
#[derive(Debug)]
pub enum ClientPayload {
    Authenticated,
    HubStatus { version: String },
    SpokeList { spokes: Vec<SpokeRecord> },
    ProjectList { projects: Vec<ProjectRecord> },
    ProviderList { accounts: Vec<ProviderAccount> },
    ProjectSnapshot { snapshot: Box<ProjectSnapshot> },
    ProjectPathList { spoke_id: SpokeId, parent: String, directories: Vec<String> },
    Projection { spoke_id: SpokeId, project_id: ProjectId, revision: u64, content: String },
    Accepted { operation: OperationRecord },
    Timeline { item: TimelineItem },
    Operation { operation: OperationRecord },
    Interaction {
        spoke_id: SpokeId,
        project_id: ProjectId,
        operation_id: OperationId,
        request_id: String,
        method: String,
        payload: JsonValue,
    },
    ProjectUpdated { project: ProjectRecord },
    SpokeUpdated { spoke: SpokeRecord },
    ReplayGap { spoke_id: SpokeId, project_id: ProjectId, requested: u64, available: u64 },
    Error { code: String, message: String },
}

/// The project an event concerns, when it concerns one.
pub open spec fn payload_project_spec(p: ClientPayload) -> Option<ProjectId> {
    match p {
        ClientPayload::Timeline { item } => Some(item.project_id),
        ClientPayload::Interaction { project_id, .. } => Some(project_id),
        ClientPayload::Operation { operation } => Some(operation.project_id),
        ClientPayload::Accepted { operation } => Some(operation.project_id),
        ClientPayload::ProjectUpdated { project } => Some(project.project_id),
        ClientPayload::ProjectSnapshot { snapshot } => Some(snapshot.project.project_id),
        ClientPayload::ReplayGap { project_id, .. } => Some(project_id),
        _ => None,
    }
}

/// An event concerns the project whose record it carries (a timeline item, an operation, a
/// project, a snapshot) or which it names (an interaction, a replay gap); the hub-wide and
/// connection events (authentication, lists, hub status, errors, projections) concern none.
pub proof fn lemma_event_concerns_its_project(p: ClientPayload)
    ensures
        p matches ClientPayload::Timeline { item } ==> payload_project_spec(p) == Some(item.project_id),
        p matches ClientPayload::Operation { operation } ==> payload_project_spec(p) == Some(operation.project_id),
        p matches ClientPayload::Accepted { operation } ==> payload_project_spec(p) == Some(operation.project_id),
        p matches ClientPayload::Interaction { project_id, .. } ==> payload_project_spec(p) == Some(project_id),
        p matches ClientPayload::ProjectUpdated { project } ==> payload_project_spec(p) == Some(project.project_id),
        p matches ClientPayload::ProjectSnapshot { snapshot } ==> payload_project_spec(p) == Some(snapshot.project.project_id),
        p matches ClientPayload::ReplayGap { project_id, .. } ==> payload_project_spec(p) == Some(project_id),
{
}

impl ClientPayload {
    /// The project this event concerns.
    pub fn project_id(&self) -> (r: Option<ProjectId>)
        ensures
            r == payload_project_spec(*self),
    {
        match self {
            ClientPayload::Timeline { item } => Some(item.project_id.clone()),
            ClientPayload::Interaction { project_id, .. } => Some(project_id.clone()),
            ClientPayload::Operation { operation } => Some(operation.project_id.clone()),
            ClientPayload::Accepted { operation } => Some(operation.project_id.clone()),
            ClientPayload::ProjectUpdated { project } => Some(project.project_id.clone()),
            ClientPayload::ProjectSnapshot { snapshot } => Some(snapshot.project.project_id.clone()),
            ClientPayload::ReplayGap { project_id, .. } => Some(project_id.clone()),
            _ => None,
        }
    }
}

/// An event for a client, answering the request `id` when it has one.
#[derive(Debug)]
pub struct ClientEvent {
    pub protocol_version: u32,
    pub id: Option<RequestId>,
    pub created_at: u64,
    pub payload: ClientPayload,
}

/// What the hub sends a spoke.
#[derive(Debug)]
pub enum HubToSpoke {
    Command { request: ClientRequest, provider_env: Vec<(String, String)> },
    Shutdown,
}

/// What a spoke sends the hub.
#[derive(Debug)]
pub enum SpokeToHub {
    Hello { protocol_version: u32, spoke_id: SpokeId, version: String },
    Auth { protocol_version: u32, spoke_id: SpokeId, signature: String },
    Inventory { protocol_version: u32, complete: bool, revision: u64, projects: Vec<ProjectRecord> },
    ClientEvent { protocol_version: u32, event: Box<ClientEvent> },
    Heartbeat { protocol_version: u32 },
}

/// A spoke's request to enroll with a one-time setup key.
#[derive(Debug)]
pub struct EnrollRequest {
    pub setup_key: String,
    pub hostname: String,
    pub version: String,
    pub public_key: String,
}

/// The hub's answer to an enrollment.
#[derive(Debug)]
pub struct EnrollResponse {
    pub ok: bool,
    pub spoke_id: Option<SpokeId>,
    pub hub_url: Option<String>,
    pub error: Option<String>,
}

/// Free-form diagnostic fields, ordered by name.
#[derive(Debug)]
pub struct DiagnosticEnvelope {
    pub fields: Vec<(String, JsonValue)>,
}

impl Default for DiagnosticEnvelope {
    fn default() -> (r: Self)
        ensures
            r.fields@.len() == 0,
    {
        DiagnosticEnvelope { fields: Vec::new() }
    }
}

} // verus!
