//! The protocol's status enumerations.

use vstd::prelude::*;

verus! {

/// Connection state of a spoke as the hub sees it.
#[derive(Debug, Clone, Copy, PartialEq, Eq, Structural)]
pub enum SpokeStatus {
    Offline,
    Online,
    Disabled,
    Revoked,
}

/// Whether a project's directory is present on its spoke.
#[derive(Debug, Clone, Copy, PartialEq, Eq, Structural)]
pub enum ProjectStatus {
    Active,
    Missing,
    Stale,
    Removed,
}

/// Progress of a project's first inspection.
#[derive(Debug, Clone, Copy, PartialEq, Eq, Structural)]
pub enum InitializationStatus {
    Uninitialized,
    Inspecting,
    Clarifying,
    Ready,
    Failed,
}

/// State of a project's intent chat.
#[derive(Debug, Clone, Copy, PartialEq, Eq, Structural)]
pub enum IntentStatus {
    Ready,
    WaitingForUser,
    UpdatingIntent,
    Working,
    Blocked,
    Stale,
}

/// State of a project's source of intent.
#[derive(Debug, Clone, Copy, PartialEq, Eq, Structural)]
pub enum SourceStatus {
    Absent,
    Assembling,
    Active,
    Updating,
    Conflicted,
    Unavailable,
}

/// Lifecycle state of an operation.
#[derive(Debug, Clone, Copy, PartialEq, Eq, Structural)]
pub enum OperationStatus {
    Queued,
    Accepted,
    Running,
    Blocked,
    Completed,
    Failed,
    Cancelled,
    Rejected,
    Unknown,
}

/// Why an agent session was started.
#[derive(Debug, Clone, Copy, PartialEq, Eq, Structural)]
pub enum SessionPurpose {
    Intent,
    Inspection,
    Implementation,
    Validation,
    Review,
    Recovery,
}

/// Lifecycle state of an agent session on the wire.
#[derive(Debug, Clone, Copy, PartialEq, Eq, Structural)]
pub enum SessionStatus {
    Starting,
    Idle,
    Running,
    Blocked,
    Stopped,
    Crashed,
    Missing,
    Stale,
}

/// What a timeline item records.
#[derive(Debug, Clone, Copy, PartialEq, Eq, Structural)]
pub enum TimelineKind {
    UserIntent,
    AssistantProjection,
    Question,
    Decision,
    IntentUpdate,
    Progress,
    Outcome,
    Evidence,
    ConsequentialPrompt,
    Lifecycle,
    Error,
}

/// Where a timeline item is shown.
#[derive(Debug, Clone, Copy, PartialEq, Eq, Structural)]
pub enum Visibility {
    Primary,
    Detail,
    Diagnostics,
}

/// How far a project's realization of its intent has come.
#[derive(Debug, Clone, Copy, PartialEq, Eq, Structural)]
pub enum RealizationStatus {
    Inactive,
    Reconciling,
    Reviewing,
    WaitingForUser,
    Paused,
    Satisfied,
    Blocked,
    Stale,
}

/// The overall verdict of a review run.
#[derive(Debug, Clone, Copy, PartialEq, Eq, Structural)]
pub enum ReviewVerdict {
    Findings,
    Approved,
}

/// Typed acts an intent agent may propose; the spoke validates every transition.
#[derive(Debug, Clone, Copy, PartialEq, Eq, Structural)]
pub enum IntentAct {
    Clarify,
    Correct,
    Decide,
    ReferenceContext,
    RequestProjection,
    Prioritize,
    Pause,
    Resume,
    Cancel,
}

impl Default for RealizationStatus {
    fn default() -> (r: Self)
        ensures
            r == RealizationStatus::Inactive,
    {
        RealizationStatus::Inactive
    }
}

} // verus!
