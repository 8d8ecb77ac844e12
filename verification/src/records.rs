//! The protocol's records.

use vstd::prelude::*;
use crate::ids::{SpokeId, ProjectId, SourceOfIntentId, IntentChatId, OperationId, TimelineItemId, SessionId, RunId, ReviewId, FindingId, RequestId};
use crate::status::{SpokeStatus, ProjectStatus, InitializationStatus, IntentStatus, SourceStatus, OperationStatus, SessionPurpose, SessionStatus, TimelineKind, Visibility, RealizationStatus, ReviewVerdict};

verus! {

/// A project's address: its spoke and its identifier.
#[derive(Debug, PartialEq, Eq, PartialOrd, Ord, Hash)]
pub struct ProjectKey {
    pub spoke_id: SpokeId,
    pub project_id: ProjectId,
}

impl Clone for ProjectKey {
    fn clone(&self) -> (r: Self)
        ensures
            r == *self,
    {
        ProjectKey {
            spoke_id: self.spoke_id.clone(),
            project_id: self.project_id.clone(),
        }
    }
}

/// What the hub knows of a spoke.
#[derive(Debug)]
pub struct SpokeRecord {
    pub spoke_id: SpokeId,
    pub name: String,
    pub hostname: String,
    pub version: String,
    pub status: SpokeStatus,
    pub created_at: u64,
    pub enrolled_at: Option<u64>,
    pub last_seen_at: Option<u64>,
}

impl Clone for SpokeRecord {
    fn clone(&self) -> (r: Self)
        ensures
            r == *self,
    {
        SpokeRecord {
            spoke_id: self.spoke_id.clone(),
            name: self.name.clone(),
            hostname: self.hostname.clone(),
            version: self.version.clone(),
            status: self.status,
            created_at: self.created_at,
            enrolled_at: self.enrolled_at,
            last_seen_at: self.last_seen_at,
        }
    }
}

/// A project as the protocol describes it.
#[derive(Debug)]
pub struct ProjectRecord {
    pub project_id: ProjectId,
    pub spoke_id: SpokeId,
    pub name: String,
    pub cwd: String,
    pub source_of_intent_id: SourceOfIntentId,
    pub intent_chat_id: IntentChatId,
    pub initialization_status: InitializationStatus,
    pub default_provider: Option<String>,
    pub default_model: Option<String>,
    pub run_as_user: Option<String>,
    pub allow_root_sessions: bool,
    pub status: ProjectStatus,
    pub trusted: bool,
    pub realization_status: RealizationStatus,
    pub created_at: u64,
    pub updated_at: u64,
}

impl Clone for ProjectRecord {
    fn clone(&self) -> (r: Self)
        ensures
            r == *self,
    {
        ProjectRecord {
            project_id: self.project_id.clone(),
            spoke_id: self.spoke_id.clone(),
            name: self.name.clone(),
            cwd: self.cwd.clone(),
            source_of_intent_id: self.source_of_intent_id.clone(),
            intent_chat_id: self.intent_chat_id.clone(),
            initialization_status: self.initialization_status,
            default_provider: self.default_provider.clone(),
            default_model: self.default_model.clone(),
            run_as_user: self.run_as_user.clone(),
            allow_root_sessions: self.allow_root_sessions,
            status: self.status,
            trusted: self.trusted,
            realization_status: self.realization_status,
            created_at: self.created_at,
            updated_at: self.updated_at,
        }
    }
}

/// One document of an authoritative source bundle.
#[derive(Debug)]
pub struct SourceDocument {
    pub path: String,
    pub content_hash: String,
    pub byte_len: u64,
    pub content: String,
}

impl Clone for SourceDocument {
    fn clone(&self) -> (r: Self)
        ensures
            r == *self,
    {
        SourceDocument {
            path: self.path.clone(),
            content_hash: self.content_hash.clone(),
            byte_len: self.byte_len,
            content: self.content.clone(),
        }
    }
}

/// The exact authoritative source material of a project.
#[derive(Debug)]
pub struct SourceOfIntentBundle {
    pub manifest_path: String,
    pub bundle_hash: String,
    pub documents: Vec<SourceDocument>,
}

/// A document an agent claims to have read, by path and content hash.
#[derive(Debug)]
pub struct DocumentCoverage {
    pub path: String,
    pub content_hash: String,
}

impl Clone for DocumentCoverage {
    fn clone(&self) -> (r: Self)
        ensures
            r == *self,
    {
        DocumentCoverage {
            path: self.path.clone(),
            content_hash: self.content_hash.clone(),
        }
    }
}

/// A project's source of intent. Generated payloads supplement, never replace, the authoritative bundle.
#[derive(Debug)]
pub struct SourceOfIntentRecord {
    pub source_of_intent_id: SourceOfIntentId,
    pub spoke_id: SpokeId,
    pub project_id: ProjectId,
    pub format: String,
    pub revision: u64,
    pub canonical_payload: String,
    pub authoritative_bundle: Option<SourceOfIntentBundle>,
    pub content_hash: String,
    pub status: SourceStatus,
    pub created_at: u64,
    pub updated_at: u64,
}

/// A source of intent without its content.
#[derive(Debug)]
pub struct SourceOfIntentMetadata {
    pub source_of_intent_id: SourceOfIntentId,
    pub spoke_id: SpokeId,
    pub project_id: ProjectId,
    pub format: String,
    pub revision: u64,
    pub content_hash: String,
    pub authoritative_bundle_hash: Option<String>,
    pub authoritative_document_count: u64,
    pub status: SourceStatus,
    pub created_at: u64,
    pub updated_at: u64,
}

impl Clone for SourceOfIntentMetadata {
    fn clone(&self) -> (r: Self)
        ensures
            r == *self,
    {
        SourceOfIntentMetadata {
            source_of_intent_id: self.source_of_intent_id.clone(),
            spoke_id: self.spoke_id.clone(),
            project_id: self.project_id.clone(),
            format: self.format.clone(),
            revision: self.revision,
            content_hash: self.content_hash.clone(),
            authoritative_bundle_hash: self.authoritative_bundle_hash.clone(),
            authoritative_document_count: self.authoritative_document_count,
            status: self.status,
            created_at: self.created_at,
            updated_at: self.updated_at,
        }
    }
}

/// A project's intent chat.
#[derive(Debug)]
pub struct IntentChatRecord {
    pub intent_chat_id: IntentChatId,
    pub spoke_id: SpokeId,
    pub project_id: ProjectId,
    pub source_of_intent_revision: u64,
    pub status: IntentStatus,
    pub next_cursor: u64,
    pub created_at: u64,
    pub updated_at: u64,
    pub last_active_at: u64,
}

impl Clone for IntentChatRecord {
    fn clone(&self) -> (r: Self)
        ensures
            r == *self,
    {
        IntentChatRecord {
            intent_chat_id: self.intent_chat_id.clone(),
            spoke_id: self.spoke_id.clone(),
            project_id: self.project_id.clone(),
            source_of_intent_revision: self.source_of_intent_revision,
            status: self.status,
            next_cursor: self.next_cursor,
            created_at: self.created_at,
            updated_at: self.updated_at,
            last_active_at: self.last_active_at,
        }
    }
}

/// An operation a spoke runs for an intent chat.
#[derive(Debug)]
pub struct OperationRecord {
    pub operation_id: OperationId,
    pub request_id: Option<RequestId>,
    pub spoke_id: SpokeId,
    pub project_id: ProjectId,
    pub intent_chat_id: IntentChatId,
    pub source_of_intent_revision: Option<u64>,
    pub kind: String,
    pub status: OperationStatus,
    pub error: Option<String>,
    pub created_at: u64,
    pub updated_at: u64,
    pub completed_at: Option<u64>,
}

impl Clone for OperationRecord {
    fn clone(&self) -> (r: Self)
        ensures
            r == *self,
    {
        OperationRecord {
            operation_id: self.operation_id.clone(),
            request_id: self.request_id.clone(),
            spoke_id: self.spoke_id.clone(),
            project_id: self.project_id.clone(),
            intent_chat_id: self.intent_chat_id.clone(),
            source_of_intent_revision: self.source_of_intent_revision,
            kind: self.kind.clone(),
            status: self.status,
            error: self.error.clone(),
            created_at: self.created_at,
            updated_at: self.updated_at,
            completed_at: self.completed_at,
        }
    }
}

/// One entry of an intent chat's timeline.
#[derive(Debug)]
pub struct TimelineItem {
    pub timeline_item_id: TimelineItemId,
    pub spoke_id: SpokeId,
    pub project_id: ProjectId,
    pub intent_chat_id: IntentChatId,
    pub operation_id: Option<OperationId>,
    pub session_id: Option<SessionId>,
    pub run_id: Option<RunId>,
    pub source_of_intent_revision: Option<u64>,
    pub kind: TimelineKind,
    pub visibility: Visibility,
    pub status: Option<OperationStatus>,
    pub summary: Option<String>,
    pub content: Option<String>,
    pub cursor: u64,
    pub created_at: u64,
    pub updated_at: u64,
    pub completed_at: Option<u64>,
}

impl Clone for TimelineItem {
    fn clone(&self) -> (r: Self)
        ensures
            r == *self,
    {
        TimelineItem {
            timeline_item_id: self.timeline_item_id.clone(),
            spoke_id: self.spoke_id.clone(),
            project_id: self.project_id.clone(),
            intent_chat_id: self.intent_chat_id.clone(),
            operation_id: self.operation_id.clone(),
            session_id: self.session_id.clone(),
            run_id: self.run_id.clone(),
            source_of_intent_revision: self.source_of_intent_revision,
            kind: self.kind,
            visibility: self.visibility,
            status: self.status,
            summary: self.summary.clone(),
            content: self.content.clone(),
            cursor: self.cursor,
            created_at: self.created_at,
            updated_at: self.updated_at,
            completed_at: self.completed_at,
        }
    }
}

/// An agent session as the protocol describes it.
#[derive(Debug)]
pub struct SessionRecord {
    pub session_id: SessionId,
    pub run_id: Option<RunId>,
    pub spoke_id: SpokeId,
    pub project_id: ProjectId,
    pub purpose: SessionPurpose,
    pub source_of_intent_revision: Option<u64>,
    pub parent_operation_id: Option<OperationId>,
    pub status: SessionStatus,
    pub run_as_user: Option<String>,
    pub run_as_root: bool,
    pub pi_session_file: Option<String>,
    pub created_at: u64,
    pub updated_at: u64,
}

impl Clone for SessionRecord {
    fn clone(&self) -> (r: Self)
        ensures
            r == *self,
    {
        SessionRecord {
            session_id: self.session_id.clone(),
            run_id: self.run_id.clone(),
            spoke_id: self.spoke_id.clone(),
            project_id: self.project_id.clone(),
            purpose: self.purpose,
            source_of_intent_revision: self.source_of_intent_revision,
            parent_operation_id: self.parent_operation_id.clone(),
            status: self.status,
            run_as_user: self.run_as_user.clone(),
            run_as_root: self.run_as_root,
            pi_session_file: self.pi_session_file.clone(),
            created_at: self.created_at,
            updated_at: self.updated_at,
        }
    }
}

/// A fault a review found.
#[derive(Debug)]
pub struct ReviewFinding {
    pub finding_id: FindingId,
    pub requirement: String,
    pub fault: String,
    pub evidence: Vec<String>,
    pub suggested_next_objective: Option<String>,
}

/// A completed review of a run.
#[derive(Debug)]
pub struct ReviewRecord {
    pub review_id: ReviewId,
    pub spoke_id: SpokeId,
    pub project_id: ProjectId,
    pub run_id: RunId,
    pub source_of_intent_revision: u64,
    pub observed_content_hash: String,
    pub reviewed_scope: Vec<String>,
    pub checks: Vec<String>,
    pub findings: Vec<ReviewFinding>,
    pub unreviewed_required_scope: Vec<String>,
    pub verdict: ReviewVerdict,
    pub created_at: u64,
}

/// The public part of a stored provider credential.
#[derive(Debug)]
pub struct ProviderAccount {
    pub provider_account_id: String,
    pub provider_id: String,
    pub label: String,
    pub created_at: u64,
    pub revoked_at: Option<u64>,
}

impl Clone for ProviderAccount {
    fn clone(&self) -> (r: Self)
        ensures
            r == *self,
    {
        ProviderAccount {
            provider_account_id: self.provider_account_id.clone(),
            provider_id: self.provider_id.clone(),
            label: self.label.clone(),
            created_at: self.created_at,
            revoked_at: self.revoked_at,
        }
    }
}

/// Everything a client needs to show one project.
#[derive(Debug)]
pub struct ProjectSnapshot {
    pub project: ProjectRecord,
    pub source: SourceOfIntentMetadata,
    pub chat: IntentChatRecord,
    pub timeline: Vec<TimelineItem>,
    pub operations: Vec<OperationRecord>,
    pub reviews: Vec<ReviewRecord>,
    pub gap_before: Option<u64>,
}

/// The metadata of a source of intent: everything but its content, with the
/// authoritative bundle reduced to its hash and its number of documents.
pub open spec fn metadata_of(source: SourceOfIntentRecord) -> SourceOfIntentMetadata {
    SourceOfIntentMetadata {
        source_of_intent_id: source.source_of_intent_id,
        spoke_id: source.spoke_id,
        project_id: source.project_id,
        format: source.format,
        revision: source.revision,
        content_hash: source.content_hash,
        authoritative_bundle_hash: match source.authoritative_bundle {
            Some(b) => Some(b.bundle_hash),
            None => None,
        },
        authoritative_document_count: match source.authoritative_bundle {
            Some(b) => b.documents@.len() as u64,
            None => 0,
        },
        status: source.status,
        created_at: source.created_at,
        updated_at: source.updated_at,
    }
}

impl<'a> From<&'a SourceOfIntentRecord> for SourceOfIntentMetadata {
    fn from(source: &'a SourceOfIntentRecord) -> (r: Self) {
        SourceOfIntentMetadata {
            source_of_intent_id: source.source_of_intent_id.clone(),
            spoke_id: source.spoke_id.clone(),
            project_id: source.project_id.clone(),
            format: source.format.clone(),
            revision: source.revision,
            content_hash: source.content_hash.clone(),
            authoritative_bundle_hash: match &source.authoritative_bundle {
                Some(b) => Some(b.bundle_hash.clone()),
                None => None,
            },
            authoritative_document_count: match &source.authoritative_bundle {
                Some(b) => b.documents.len() as u64,
                None => 0,
            },
            status: source.status,
            created_at: source.created_at,
            updated_at: source.updated_at,
        }
    }
}

impl<'a> vstd::std_specs::convert::FromSpecImpl<&'a SourceOfIntentRecord> for SourceOfIntentMetadata {
    open spec fn obeys_from_spec() -> bool {
        true
    }

    open spec fn from_spec(v: &'a SourceOfIntentRecord) -> SourceOfIntentMetadata {
        metadata_of(*v)
    }
}

/// Two findings hold the same contents.
pub open spec fn finding_same(a: ReviewFinding, b: ReviewFinding) -> bool {
    &&& a.finding_id == b.finding_id
    &&& a.requirement == b.requirement
    &&& a.fault == b.fault
    &&& a.evidence@ == b.evidence@
    &&& a.suggested_next_objective == b.suggested_next_objective
}

/// Two reviews hold the same contents.
pub open spec fn review_same(a: ReviewRecord, b: ReviewRecord) -> bool {
    &&& a.review_id == b.review_id
    &&& a.spoke_id == b.spoke_id
    &&& a.project_id == b.project_id
    &&& a.run_id == b.run_id
    &&& a.source_of_intent_revision == b.source_of_intent_revision
    &&& a.observed_content_hash == b.observed_content_hash
    &&& a.reviewed_scope@ == b.reviewed_scope@
    &&& a.checks@ == b.checks@
    &&& a.findings@.len() == b.findings@.len()
    &&& forall|i: int| 0 <= i < a.findings@.len() ==> finding_same(#[trigger] a.findings@[i], b.findings@[i])
    &&& a.unreviewed_required_scope@ == b.unreviewed_required_scope@
    &&& a.verdict == b.verdict
    &&& a.created_at == b.created_at
}

/// Two snapshots hold the same contents.
pub open spec fn snapshot_same(a: ProjectSnapshot, b: ProjectSnapshot) -> bool {
    &&& a.project == b.project
    &&& a.source == b.source
    &&& a.chat == b.chat
    &&& a.timeline@ == b.timeline@
    &&& a.operations@ == b.operations@
    &&& a.reviews@.len() == b.reviews@.len()
    &&& forall|i: int| 0 <= i < a.reviews@.len() ==> review_same(#[trigger] a.reviews@[i], b.reviews@[i])
    &&& a.gap_before == b.gap_before
}

impl Clone for ReviewFinding {
    fn clone(&self) -> (r: Self)
        ensures
            finding_same(*self, r),
    {
        let evidence = self.evidence.clone();
        assert(evidence@ =~= self.evidence@);
        ReviewFinding {
            finding_id: self.finding_id.clone(),
            requirement: self.requirement.clone(),
            fault: self.fault.clone(),
            evidence,
            suggested_next_objective: self.suggested_next_objective.clone(),
        }
    }
}

impl Clone for ReviewRecord {
    fn clone(&self) -> (r: Self)
        ensures
            review_same(*self, r),
    {
        let reviewed_scope = self.reviewed_scope.clone();
        assert(reviewed_scope@ =~= self.reviewed_scope@);
        let checks = self.checks.clone();
        assert(checks@ =~= self.checks@);
        let unreviewed = self.unreviewed_required_scope.clone();
        assert(unreviewed@ =~= self.unreviewed_required_scope@);
        let findings = self.findings.clone();
        ReviewRecord {
            review_id: self.review_id.clone(),
            spoke_id: self.spoke_id.clone(),
            project_id: self.project_id.clone(),
            run_id: self.run_id.clone(),
            source_of_intent_revision: self.source_of_intent_revision,
            observed_content_hash: self.observed_content_hash.clone(),
            reviewed_scope,
            checks,
            findings,
            unreviewed_required_scope: unreviewed,
            verdict: self.verdict,
            created_at: self.created_at,
        }
    }
}

impl Clone for ProjectSnapshot {
    fn clone(&self) -> (r: Self)
        ensures
            snapshot_same(*self, r),
    {
        let timeline = self.timeline.clone();
        assert(timeline@ =~= self.timeline@);
        let operations = self.operations.clone();
        assert(operations@ =~= self.operations@);
        let reviews = self.reviews.clone();
        ProjectSnapshot {
            project: self.project.clone(),
            source: self.source.clone(),
            chat: self.chat.clone(),
            timeline,
            operations,
            reviews,
            gap_before: self.gap_before,
        }
    }
}

} // verus!
