//! The desktop client's link to its hub across reconnections: what the connection shows while it
//! is being made, how long to wait before the next attempt, and which commands restore the view
//! after authenticating, resuming each Intent Chat where the client left it.

use vstd::prelude::*;
use crate::client_state::{ConnectionKind, ConnectionView};
use crate::keyed::{Keyed, keys_sorted, lookup, upsert};
use crate::messages::{ClientCommand, ClientEvent, ClientPayload};
use crate::records::ProjectKey;
use crate::text::{copy_text, concat, decimal, decimal_text};

verus! {

/// The label of the connection while attempt `attempt` is made.
pub open spec fn connecting_label(attempt: u32) -> Seq<char> {
    if attempt == 0 {
        "Connecting"@
    } else {
        "Reconnecting · attempt "@ + decimal(attempt as nat)
    }
}

/// How the connection shows while attempt `attempt` is made: the first attempt connects, later
/// ones reconnect.
pub fn connecting_view(attempt: u32) -> (r: ConnectionView)
    ensures
        r.kind == (if attempt == 0 { ConnectionKind::Connecting } else { ConnectionKind::Reconnecting }),
        r.label@ == connecting_label(attempt),
        r.attempt == (if attempt == 0 { 0 } else { attempt }),
        r.reason is None,
{
    if attempt == 0 {
        ConnectionView::simple(ConnectionKind::Connecting, "Connecting")
    } else {
        let label = concat("Reconnecting · attempt ", decimal_text(attempt as u64).as_str());
        ConnectionView { kind: ConnectionKind::Reconnecting, label, attempt, reason: None }
    }
}

/// How the connection shows when the hub cannot be reached, and why.
pub fn unavailable_view(attempt: u32, reason: String) -> (r: ConnectionView)
    ensures
        r == (ConnectionView { kind: ConnectionKind::Degraded, label: r.label, attempt, reason: Some(reason) }),
        r.label@ == "Hub unavailable"@,
{
    ConnectionView { kind: ConnectionKind::Degraded, label: copy_text("Hub unavailable"), attempt, reason: Some(reason) }
}

/// How the connection shows when the client's configuration cannot be read, and why.
pub fn configuration_error_view(attempt: u32, reason: String) -> (r: ConnectionView)
    ensures
        r == (ConnectionView { kind: ConnectionKind::Degraded, label: r.label, attempt, reason: Some(reason) }),
        r.label@ == "Configuration error"@,
{
    ConnectionView { kind: ConnectionKind::Degraded, label: copy_text("Configuration error"), attempt, reason: Some(reason) }
}

/// How the connection shows when the client has no owner token.
pub fn login_required_view(attempt: u32) -> (r: ConnectionView)
    ensures
        r.kind == ConnectionKind::Disconnected,
        r.label@ == "Login required"@,
        r.attempt == attempt,
        r.reason matches Some(m) && m@ == "Enter your personal Hub URL and owner token."@,
{
    ConnectionView {
        kind: ConnectionKind::Disconnected,
        label: copy_text("Login required"),
        attempt,
        reason: Some(copy_text("Enter your personal Hub URL and owner token.")),
    }
}

/// Seconds to wait before the next attempt after `attempt` failed ones: one more second per
/// failure, at most five.
pub fn backoff_seconds(attempt: u32) -> (r: u64)
    ensures
        r == (if attempt < 5 { attempt as u64 } else { 5 }),
{
    if attempt < 5 {
        attempt as u64
    } else {
        5
    }
}

/// Where the client last was in a project's Intent Chat.
#[derive(Debug)]
pub struct ResumePoint {
    pub key: ProjectKey,
    pub cursor: u64,
}

impl Keyed for ResumePoint {
    open spec fn key(&self) -> (Seq<char>, Seq<char>) {
        (self.key.spoke_id@, self.key.project_id@)
    }

    fn key_first(&self) -> (r: &str) {
        self.key.spoke_id.as_str()
    }

    fn key_second(&self) -> (r: &str) {
        self.key.project_id.as_str()
    }
}

/// The Intent Chats the client follows, each with the cursor to resume from.
#[derive(Debug)]
pub struct Subscriptions {
    /// Ordered by spoke and project identifier.
    pub points: Vec<ResumePoint>,
}

pub open spec fn subscriptions_wf(s: Subscriptions) -> bool {
    keys_sorted(s.points@)
}

/// The key under which the project `key` is followed.
pub open spec fn point_key(key: ProjectKey) -> (Seq<char>, Seq<char>) {
    (key.spoke_id@, key.project_id@)
}

impl Subscriptions {
    /// Following nothing.
    pub fn new() -> (r: Subscriptions)
        ensures
            subscriptions_wf(r),
            r.points@.len() == 0,
    {
        Subscriptions { points: Vec::new() }
    }

    /// Follows the project `key` from `cursor` on, in place of any earlier cursor.
    pub fn follow(&mut self, key: ProjectKey, cursor: u64)
        requires
            subscriptions_wf(*old(self)),
        ensures
            subscriptions_wf(*final(self)),
            lookup(final(self).points@, point_key(key)) == Some(ResumePoint { key, cursor }),
            forall|k: (Seq<char>, Seq<char>)| k != point_key(key) ==> #[trigger] lookup(final(self).points@, k) == lookup(old(self).points@, k),
    {
        upsert(&mut self.points, ResumePoint { key, cursor });
    }

    /// Notes a command before it is sent: subscribing to an Intent Chat follows it from the
    /// cursor asked for, or from the start. Other commands change nothing.
    pub fn note_command(&mut self, command: &ClientCommand)
        requires
            subscriptions_wf(*old(self)),
        ensures
            subscriptions_wf(*final(self)),
            match *command {
                ClientCommand::IntentSubscribe { spoke_id, project_id, cursor } => {
                    let key = ProjectKey { spoke_id, project_id };
                    &&& lookup(final(self).points@, point_key(key)) == Some(ResumePoint {
                        key,
                        cursor: match cursor { Some(c) => c, None => 0 },
                    })
                    &&& forall|k: (Seq<char>, Seq<char>)| k != point_key(key) ==> #[trigger] lookup(final(self).points@, k) == lookup(old(self).points@, k)
                },
                _ => *final(self) == *old(self),
            },
    {
        match command {
            ClientCommand::IntentSubscribe { spoke_id, project_id, cursor } => {
                let c = match cursor {
                    Some(c) => *c,
                    None => 0,
                };
                self.follow(ProjectKey { spoke_id: spoke_id.clone(), project_id: project_id.clone() }, c);
            },
            _ => {},
        }
    }

    /// Notes an event from the hub: a timeline item moves its project's cursor to the item's.
    /// Other events change nothing.
    pub fn note_event(&mut self, event: &ClientEvent)
        requires
            subscriptions_wf(*old(self)),
        ensures
            subscriptions_wf(*final(self)),
            match event.payload {
                ClientPayload::Timeline { item } => {
                    let key = ProjectKey { spoke_id: item.spoke_id, project_id: item.project_id };
                    &&& lookup(final(self).points@, point_key(key)) == Some(ResumePoint { key, cursor: item.cursor })
                    &&& forall|k: (Seq<char>, Seq<char>)| k != point_key(key) ==> #[trigger] lookup(final(self).points@, k) == lookup(old(self).points@, k)
                },
                _ => *final(self) == *old(self),
            },
    {
        match &event.payload {
            ClientPayload::Timeline { item } => {
                self.follow(
                    ProjectKey { spoke_id: item.spoke_id.clone(), project_id: item.project_id.clone() },
                    item.cursor,
                );
            },
            _ => {},
        }
    }

    /// The commands that restore the client's view after it authenticates: the spokes, all
    /// projects, then each followed Intent Chat from its cursor, in project order.
    pub fn resume_commands(&self) -> (r: Vec<ClientCommand>)
        ensures
            r@.len() == self.points@.len() + 2,
            r@[0] == ClientCommand::SpokeList,
            r@[1] == (ClientCommand::ProjectList { spoke_id: None }),
            forall|i: int| 0 <= i < self.points@.len() ==> #[trigger] r@[i + 2] == (ClientCommand::IntentSubscribe {
                spoke_id: self.points@[i].key.spoke_id,
                project_id: self.points@[i].key.project_id,
                cursor: Some(self.points@[i].cursor),
            }),
    {
        let mut out: Vec<ClientCommand> = Vec::new();
        out.push(ClientCommand::SpokeList);
        out.push(ClientCommand::ProjectList { spoke_id: None });
        let mut i: usize = 0;
        while i < self.points.len()
            invariant
                i <= self.points@.len(),
                out@.len() == i + 2,
                out@[0] == ClientCommand::SpokeList,
                out@[1] == (ClientCommand::ProjectList { spoke_id: None }),
                forall|j: int| 0 <= j < i ==> #[trigger] out@[j + 2] == (ClientCommand::IntentSubscribe {
                    spoke_id: self.points@[j].key.spoke_id,
                    project_id: self.points@[j].key.project_id,
                    cursor: Some(self.points@[j].cursor),
                }),
            decreases self.points@.len() - i,
        {
            let p = &self.points[i];
            out.push(ClientCommand::IntentSubscribe {
                spoke_id: p.key.spoke_id.clone(),
                project_id: p.key.project_id.clone(),
                cursor: Some(p.cursor),
            });
            i = i + 1;
        }
        out
    }
}

/// What the client does with the first answer on a new connection.
#[derive(Debug)]
pub enum AuthStep {
    /// The hub accepted the owner token: show `view`, count attempts from `attempt` again, and
    /// send `commands` before anything else.
    Connected { view: ConnectionView, attempt: u32, commands: Vec<ClientCommand> },
    /// The hub answered with something else (a refusal): hand `event` on to the store and stop
    /// connecting.
    Stop { event: ClientEvent },
    /// Nothing usable came back: try again, as attempt `attempt`.
    Retry { attempt: u32 },
}

/// The step after the first answer `first` on a new connection made as attempt `attempt`
/// (`None` when the connection closed or the answer could not be read): authenticating connects,
/// resets the attempts and restores the view through `resume_commands`; any other event is
/// handed on and ends the link; no answer counts as one more failed attempt.
pub fn first_event(link: &Subscriptions, attempt: u32, first: Option<ClientEvent>) -> (r: AuthStep)
    requires
        attempt < u32::MAX,
    ensures
        match first {
            Some(e) => match e.payload {
                ClientPayload::Authenticated => r matches AuthStep::Connected { view, attempt: a, commands } && {
                    &&& view.kind == ConnectionKind::Connected
                    &&& view.label@ == "Connected"@
                    &&& view.attempt == 0
                    &&& view.reason is None
                    &&& a == 0
                    &&& commands@.len() == link.points@.len() + 2
                    &&& commands@[0] == ClientCommand::SpokeList
                    &&& commands@[1] == (ClientCommand::ProjectList { spoke_id: None })
                    &&& forall|i: int| 0 <= i < link.points@.len() ==> #[trigger] commands@[i + 2] == (ClientCommand::IntentSubscribe {
                        spoke_id: link.points@[i].key.spoke_id,
                        project_id: link.points@[i].key.project_id,
                        cursor: Some(link.points@[i].cursor),
                    })
                },
                _ => r == (AuthStep::Stop { event: e }),
            },
            None => r == (AuthStep::Retry { attempt: (attempt + 1) as u32 }),
        },
{
    match first {
        Some(e) => match e.payload {
            ClientPayload::Authenticated => AuthStep::Connected {
                view: ConnectionView::simple(ConnectionKind::Connected, "Connected"),
                attempt: 0,
                commands: link.resume_commands(),
            },
            _ => AuthStep::Stop { event: e },
        },
        None => AuthStep::Retry { attempt: attempt + 1 },
    }
}

} // verus!
