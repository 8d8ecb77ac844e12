//! The records a node keeps for its own projects and Pi sessions, and the loose envelope of its
//! local protocol.

use vstd::prelude::*;
use crate::json::JsonValue;

verus! {

/// Whether a node project's directory is present.
#[derive(Debug, Clone, Copy, PartialEq, Eq, Structural)]
pub enum ProjectStatus {
    Active,
    Missing,
    Stale,
    Removed,
}

/// Lifecycle state of a node's Pi session.
#[derive(Debug, Clone, Copy, PartialEq, Eq, Structural)]
pub enum SessionStatus {
    Starting,
    Idle,
    Running,
    Stopped,
    Crashed,
    Missing,
    Stale,
}

/// A project with no recorded status is active.
pub fn default_project_status() -> (r: ProjectStatus)
    ensures
        r == ProjectStatus::Active,
{
    ProjectStatus::Active
}

/// A session with no recorded status is idle.
pub fn default_session_status() -> (r: SessionStatus)
    ensures
        r == SessionStatus::Idle,
{
    SessionStatus::Idle
}

/// A project with no recorded trust is trusted.
pub fn default_true() -> (r: bool)
    ensures
        r,
{
    true
}

/// The wire name of a project status.
pub open spec fn project_status_name(s: ProjectStatus) -> Seq<char> {
    match s {
        ProjectStatus::Active => "active"@,
        ProjectStatus::Missing => "missing"@,
        ProjectStatus::Stale => "stale"@,
        ProjectStatus::Removed => "removed"@,
    }
}

/// The wire name of a session status.
pub open spec fn session_status_name(s: SessionStatus) -> Seq<char> {
    match s {
        SessionStatus::Starting => "starting"@,
        SessionStatus::Idle => "idle"@,
        SessionStatus::Running => "running"@,
        SessionStatus::Stopped => "stopped"@,
        SessionStatus::Crashed => "crashed"@,
        SessionStatus::Missing => "missing"@,
        SessionStatus::Stale => "stale"@,
    }
}

/// The name a session status is shown under in messages.
pub open spec fn session_status_label(s: SessionStatus) -> Seq<char> {
    match s {
        SessionStatus::Starting => "Starting"@,
        SessionStatus::Idle => "Idle"@,
        SessionStatus::Running => "Running"@,
        SessionStatus::Stopped => "Stopped"@,
        SessionStatus::Crashed => "Crashed"@,
        SessionStatus::Missing => "Missing"@,
        SessionStatus::Stale => "Stale"@,
    }
}

impl ProjectStatus {
    /// The wire name of this status.
    pub fn name(&self) -> (r: &'static str)
        ensures
            r@ == project_status_name(*self),
    {
        proof {
            reveal_strlit("active");
            reveal_strlit("missing");
            reveal_strlit("stale");
            reveal_strlit("removed");
        }
        match self {
            ProjectStatus::Active => "active",
            ProjectStatus::Missing => "missing",
            ProjectStatus::Stale => "stale",
            ProjectStatus::Removed => "removed",
        }
    }
}

impl SessionStatus {
    /// The wire name of this status.
    pub fn name(&self) -> (r: &'static str)
        ensures
            r@ == session_status_name(*self),
    {
        proof {
            reveal_strlit("starting");
            reveal_strlit("idle");
            reveal_strlit("running");
            reveal_strlit("stopped");
            reveal_strlit("crashed");
            reveal_strlit("missing");
            reveal_strlit("stale");
        }
        match self {
            SessionStatus::Starting => "starting",
            SessionStatus::Idle => "idle",
            SessionStatus::Running => "running",
            SessionStatus::Stopped => "stopped",
            SessionStatus::Crashed => "crashed",
            SessionStatus::Missing => "missing",
            SessionStatus::Stale => "stale",
        }
    }

    /// The name this status is shown under in messages.
    pub fn label(&self) -> (r: &'static str)
        ensures
            r@ == session_status_label(*self),
    {
        proof {
            reveal_strlit("Starting");
            reveal_strlit("Idle");
            reveal_strlit("Running");
            reveal_strlit("Stopped");
            reveal_strlit("Crashed");
            reveal_strlit("Missing");
            reveal_strlit("Stale");
        }
        match self {
            SessionStatus::Starting => "Starting",
            SessionStatus::Idle => "Idle",
            SessionStatus::Running => "Running",
            SessionStatus::Stopped => "Stopped",
            SessionStatus::Crashed => "Crashed",
            SessionStatus::Missing => "Missing",
            SessionStatus::Stale => "Stale",
        }
    }
}

/// A project a node serves.
#[derive(Debug)]
pub struct ProjectRecord {
    pub project_id: String,
    pub node_id: String,
    pub name: String,
    pub cwd: String,
    pub default_pi_args: Vec<String>,
    pub default_provider: Option<String>,
    pub default_model: Option<String>,
    pub run_as_user: Option<String>,
    pub allow_root_sessions: bool,
    pub status: ProjectStatus,
    pub trusted: bool,
    pub created_at: u64,
    pub updated_at: u64,
}

/// How a Pi process ended when it crashed.
#[derive(Debug)]
pub struct CrashInfo {
    pub exit_status: Option<i32>,
    pub signal: Option<i32>,
    pub stderr_tail: Vec<String>,
    pub crashed_at: u64,
}

/// A Pi session a node runs for one of its projects.
#[derive(Debug)]
pub struct SessionRecord {
    pub session_id: String,
    pub node_id: String,
    pub project_id: String,
    pub name: String,
    pub cwd: String,
    pub status: SessionStatus,
    pub run_as_user: Option<String>,
    pub run_as_root: bool,
    pub provider: Option<String>,
    pub model: Option<String>,
    pub pi_session_id: Option<String>,
    pub pi_session_file: Option<String>,
    pub pi_leaf_id: Option<String>,
    pub pi_session_name: Option<String>,
    pub created_at: u64,
    pub updated_at: u64,
    pub last_active_at: Option<u64>,
    pub crash: Option<CrashInfo>,
}

/// A message of the node's local protocol: its type, its routing fields and everything else.
#[derive(Debug)]
pub struct Envelope {
    pub protocol_version: u32,
    pub id: Option<JsonValue>,
    pub kind: String,
    pub node_id: Option<String>,
    pub project_id: Option<String>,
    pub session_id: Option<String>,
    pub extra: Vec<(String, JsonValue)>,
}

/// Two node projects hold the same contents.
pub open spec fn project_same(a: ProjectRecord, b: ProjectRecord) -> bool {
    a == ProjectRecord { default_pi_args: a.default_pi_args, ..b } && a.default_pi_args@ == b.default_pi_args@
}

/// Two crash reports hold the same contents.
pub open spec fn crash_same(a: Option<CrashInfo>, b: Option<CrashInfo>) -> bool {
    match (a, b) {
        (None, None) => true,
        (Some(x), Some(y)) => x.exit_status == y.exit_status && x.signal == y.signal
            && x.stderr_tail@ == y.stderr_tail@ && x.crashed_at == y.crashed_at,
        _ => false,
    }
}

/// Two sessions hold the same contents.
pub open spec fn session_same(a: SessionRecord, b: SessionRecord) -> bool {
    a == SessionRecord { crash: a.crash, ..b } && crash_same(a.crash, b.crash)
}

impl Clone for ProjectRecord {
    fn clone(&self) -> (r: Self)
        ensures
            project_same(r, *self),
    {
        let args = self.default_pi_args.clone();
        assert(args@ =~= self.default_pi_args@);
        ProjectRecord {
            project_id: self.project_id.clone(),
            node_id: self.node_id.clone(),
            name: self.name.clone(),
            cwd: self.cwd.clone(),
            default_pi_args: args,
            default_provider: self.default_provider.clone(),
            default_model: self.default_model.clone(),
            run_as_user: self.run_as_user.clone(),
            allow_root_sessions: self.allow_root_sessions,
            status: self.status,
            trusted: self.trusted,
            created_at: self.created_at,
            updated_at: self.updated_at,
        }
    }
}

impl Clone for CrashInfo {
    fn clone(&self) -> (r: Self)
        ensures
            crash_same(Some(r), Some(*self)),
    {
        let tail = self.stderr_tail.clone();
        assert(tail@ =~= self.stderr_tail@);
        CrashInfo { exit_status: self.exit_status, signal: self.signal, stderr_tail: tail, crashed_at: self.crashed_at }
    }
}

impl Clone for SessionRecord {
    fn clone(&self) -> (r: Self)
        ensures
            session_same(r, *self),
    {
        let crash = match &self.crash {
            Some(c) => Some(c.clone()),
            None => None,
        };
        SessionRecord {
            session_id: self.session_id.clone(),
            node_id: self.node_id.clone(),
            project_id: self.project_id.clone(),
            name: self.name.clone(),
            cwd: self.cwd.clone(),
            status: self.status,
            run_as_user: self.run_as_user.clone(),
            run_as_root: self.run_as_root,
            provider: self.provider.clone(),
            model: self.model.clone(),
            pi_session_id: self.pi_session_id.clone(),
            pi_session_file: self.pi_session_file.clone(),
            pi_leaf_id: self.pi_leaf_id.clone(),
            pi_session_name: self.pi_session_name.clone(),
            created_at: self.created_at,
            updated_at: self.updated_at,
            last_active_at: self.last_active_at,
            crash,
        }
    }
}

} // verus!
