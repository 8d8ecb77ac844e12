//! A node's durable inventory of projects and sessions, and how session lifecycle events
//! change it.

use vstd::prelude::*;
use crate::json::{JsonValue, field, field_text};
use crate::keyed::{Keyed, keys_sorted, lookup, has_key, upsert, remove_key};
use crate::node_records::{ProjectRecord, SessionRecord, SessionStatus, ProjectStatus, CrashInfo};
use crate::text::{str_eq, copy_text};

verus! {

impl Keyed for ProjectRecord {
    open spec fn key(&self) -> (Seq<char>, Seq<char>) {
        (self.project_id@, Seq::empty())
    }

    fn key_first(&self) -> (r: &str) {
        self.project_id.as_str()
    }

    fn key_second(&self) -> (r: &str) {
        proof {
            reveal_strlit("");
        }
        ""
    }
}

impl Keyed for SessionRecord {
    open spec fn key(&self) -> (Seq<char>, Seq<char>) {
        (self.session_id@, Seq::empty())
    }

    fn key_first(&self) -> (r: &str) {
        self.session_id.as_str()
    }

    fn key_second(&self) -> (r: &str) {
        proof {
            reveal_strlit("");
        }
        ""
    }
}

/// A node's projects and sessions, each ordered by identifier.
#[derive(Debug)]
pub struct NodeStore {
    pub projects: Vec<ProjectRecord>,
    pub sessions: Vec<SessionRecord>,
}

pub open spec fn node_store_wf(s: NodeStore) -> bool {
    keys_sorted(s.projects@) && keys_sorted(s.sessions@)
}

/// The key of the record with identifier `id`.
pub open spec fn key_of(id: Seq<char>) -> (Seq<char>, Seq<char>) {
    (id, Seq::empty())
}

/// The session `id`.
pub open spec fn session_of(s: NodeStore, id: Seq<char>) -> Option<SessionRecord> {
    lookup(s.sessions@, key_of(id))
}

/// The project `id`.
pub open spec fn project_of(s: NodeStore, id: Seq<char>) -> Option<ProjectRecord> {
    lookup(s.projects@, key_of(id))
}

/// Only the session `id` may differ between the stores; the projects are the same.
pub open spec fn other_sessions_unchanged(n: NodeStore, o: NodeStore, id: Seq<char>) -> bool {
    &&& n.projects == o.projects
    &&& forall|k: (Seq<char>, Seq<char>)| k != key_of(id) ==> #[trigger] lookup(n.sessions@, k) == lookup(o.sessions@, k)
}

/// A session becomes active when it runs or waits for input.
pub open spec fn is_active_status(s: SessionStatus) -> bool {
    s == SessionStatus::Running || s == SessionStatus::Idle
}

/// `n` is `o` after the session `id` entered `status` at `now` (it was last active then if it
/// runs or waits for input); without such a session nothing changed.
pub open spec fn status_recorded(n: NodeStore, o: NodeStore, id: Seq<char>, status: SessionStatus, now: u64) -> bool {
    match session_of(o, id) {
        None => n.sessions@ == o.sessions@ && n.projects == o.projects,
        Some(s) => {
            &&& other_sessions_unchanged(n, o, id)
            &&& session_of(n, id) == Some(SessionRecord {
                status,
                updated_at: now,
                last_active_at: if is_active_status(status) { Some(now) } else { s.last_active_at },
                ..s
            })
        },
    }
}

/// `n` is `o` after the session `id` crashed at `now` with the given exit code, signal and
/// standard error tail; without such a session nothing changed.
pub open spec fn crash_recorded(
    n: NodeStore,
    o: NodeStore,
    id: Seq<char>,
    exit_status: Option<i32>,
    signal: Option<i32>,
    stderr_tail: Vec<String>,
    now: u64,
) -> bool {
    match session_of(o, id) {
        None => n.sessions@ == o.sessions@ && n.projects == o.projects,
        Some(s) => {
            &&& other_sessions_unchanged(n, o, id)
            &&& session_of(n, id) == Some(SessionRecord {
                status: SessionStatus::Crashed,
                updated_at: now,
                crash: Some(CrashInfo { exit_status, signal, stderr_tail, crashed_at: now }),
                ..s
            })
        },
    }
}

impl NodeStore {
    /// A node with no projects and no sessions.
    pub fn new() -> (r: NodeStore)
        ensures
            node_store_wf(r),
            r.projects@.len() == 0,
            r.sessions@.len() == 0,
    {
        NodeStore { projects: Vec::new(), sessions: Vec::new() }
    }

    /// Takes the session `id` out for an update.
    pub(crate) fn take_session(&mut self, id: &str) -> (r: Option<SessionRecord>)
        requires
            node_store_wf(*old(self)),
        ensures
            node_store_wf(*final(self)),
            r == session_of(*old(self), id@),
            r matches Some(e) ==> e.session_id@ == id@,
            r is None ==> final(self).sessions@ == old(self).sessions@,
            session_of(*final(self), id@) is None,
            other_sessions_unchanged(*final(self), *old(self), id@),
    {
        proof {
            reveal_strlit("");
            assert(""@ =~= Seq::<char>::empty());
        }
        let ghost before = self.sessions@;
        let r = remove_key(&mut self.sessions, id, "");
        proof {
            if has_key(before, key_of(id@)) {
                let j = choose|j: int| 0 <= j < before.len() && #[trigger] before[j].key() == key_of(id@);
                crate::keyed::lemma_lookup_at(before, j);
            }
        }
        r
    }

    /// Puts a session back, replacing the one with its identifier.
    pub(crate) fn put_session(&mut self, session: SessionRecord)
        requires
            node_store_wf(*old(self)),
        ensures
            node_store_wf(*final(self)),
            session_of(*final(self), session.session_id@) == Some(session),
            other_sessions_unchanged(*final(self), *old(self), session.session_id@),
            (exists|i: int| 0 <= i < old(self).sessions@.len()
                && final(self).sessions@ == #[trigger] old(self).sessions@.update(i, session))
                || (exists|i: int| 0 <= i <= old(self).sessions@.len()
                && final(self).sessions@ == #[trigger] old(self).sessions@.insert(i, session)),
    {
        upsert(&mut self.sessions, session);
    }

    /// Records that the session `id` entered `status` at `now`: it was last active then if it
    /// runs or waits for input. An unknown session changes nothing; returns whether one changed.
    pub fn update_session_status(&mut self, id: &str, status: SessionStatus, now: u64) -> (r: bool)
        requires
            node_store_wf(*old(self)),
        ensures
            node_store_wf(*final(self)),
            r == session_of(*old(self), id@) is Some,
            status_recorded(*final(self), *old(self), id@, status, now),
    {
        match self.take_session(id) {
            None => false,
            Some(mut s) => {
                s.status = status;
                s.updated_at = now;
                if status == SessionStatus::Running || status == SessionStatus::Idle {
                    s.last_active_at = Some(now);
                }
                self.put_session(s);
                true
            },
        }
    }

    /// Records a crash of the session `id` at `now`: it is crashed, with the process's exit code
    /// or signal and the last lines of its standard error. An unknown session changes nothing.
    pub fn record_session_crash(
        &mut self,
        id: &str,
        exit_status: Option<i32>,
        signal: Option<i32>,
        stderr_tail: Vec<String>,
        now: u64,
    ) -> (r: bool)
        requires
            node_store_wf(*old(self)),
        ensures
            node_store_wf(*final(self)),
            r == session_of(*old(self), id@) is Some,
            crash_recorded(*final(self), *old(self), id@, exit_status, signal, stderr_tail, now),
    {
        match self.take_session(id) {
            None => false,
            Some(mut s) => {
                s.status = SessionStatus::Crashed;
                s.updated_at = now;
                s.crash = Some(CrashInfo { exit_status, signal, stderr_tail, crashed_at: now });
                self.put_session(s);
                true
            },
        }
    }
}

/// `n` keeps `o` unless `data` has the text member `key`, whose text it then holds.
pub open spec fn takes_text(n: Option<String>, o: Option<String>, data: JsonValue, key: Seq<char>) -> bool {
    match field_text(data, key) {
        Some(t) => n matches Some(x) && x@ == t,
        None => n == o,
    }
}

/// A Pi event that reports the session's state: the response to a `get_state` command.
pub open spec fn state_report(event: JsonValue) -> Option<JsonValue> {
    if field_text(event, "type"@) == Some("response"@) && field_text(event, "command"@) == Some("get_state"@) {
        field(event, "data"@)
    } else {
        None
    }
}

fn take_text(slot: &mut Option<String>, data: &JsonValue, key: &str)
    ensures
        takes_text(*final(slot), *old(slot), *data, key@),
{
    match data.get_str(key) {
        Some(t) => {
            *slot = Some(copy_text(t));
        },
        None => {},
    }
}

impl NodeStore {
    /// Learns the Pi session's identifier, file, leaf and name from its state report (see
    /// `state_report`), at `now`. Other events, and unknown sessions, change nothing.
    pub fn update_session_pi_metadata(&mut self, id: &str, event: &JsonValue, now: u64) -> (r: bool)
        requires
            node_store_wf(*old(self)),
        ensures
            node_store_wf(*final(self)),
            match (state_report(*event), session_of(*old(self), id@)) {
                (Some(data), Some(s)) => {
                    &&& r
                    &&& other_sessions_unchanged(*final(self), *old(self), id@)
                    &&& session_of(*final(self), id@) matches Some(n) && {
                        &&& takes_text(n.pi_session_id, s.pi_session_id, data, "sessionId"@)
                        &&& takes_text(n.pi_session_file, s.pi_session_file, data, "sessionFile"@)
                        &&& takes_text(n.pi_leaf_id, s.pi_leaf_id, data, "leafId"@)
                        &&& takes_text(n.pi_session_name, s.pi_session_name, data, "sessionName"@)
                        &&& n == SessionRecord {
                            pi_session_id: n.pi_session_id,
                            pi_session_file: n.pi_session_file,
                            pi_leaf_id: n.pi_leaf_id,
                            pi_session_name: n.pi_session_name,
                            updated_at: now,
                            ..s
                        }
                    }
                },
                _ => !r && final(self).sessions@ == old(self).sessions@ && final(self).projects == old(self).projects,
            },
    {
        let is_response = match event.get_str("type") {
            Some(t) => str_eq(t, "response"),
            None => false,
        };
        if !is_response {
            return false;
        }
        let is_state = match event.get_str("command") {
            Some(c) => str_eq(c, "get_state"),
            None => false,
        };
        if !is_state {
            return false;
        }
        let data = match event.get("data") {
            None => {
                return false;
            },
            Some(d) => d,
        };
        match self.take_session(id) {
            None => false,
            Some(mut s) => {
                take_text(&mut s.pi_session_id, data, "sessionId");
                take_text(&mut s.pi_session_file, data, "sessionFile");
                take_text(&mut s.pi_leaf_id, data, "leafId");
                take_text(&mut s.pi_session_name, data, "sessionName");
                s.updated_at = now;
                self.put_session(s);
                true
            },
        }
    }

    /// Brings project statuses in line with whether their directories are present
    /// (`present[i]` for the `i`th project): an active project whose directory is gone becomes
    /// missing, a missing one whose directory is back becomes active, each updated at `now`.
    /// Returns whether any changed.
    pub fn refresh_project_presence(&mut self, present: &Vec<bool>, now: u64) -> (r: bool)
        requires
            node_store_wf(*old(self)),
            present@.len() == old(self).projects@.len(),
        ensures
            node_store_wf(*final(self)),
            final(self).sessions == old(self).sessions,
            final(self).projects@.len() == old(self).projects@.len(),
            forall|i: int| 0 <= i < final(self).projects@.len() ==> #[trigger] final(self).projects@[i] == presence_updated(
                old(self).projects@[i],
                present@[i],
                now,
            ),
            r == exists|i: int| 0 <= i < old(self).projects@.len() && #[trigger] presence_changes(old(self).projects@[i], present@[i]),
    {
        let ghost before = self.projects@;
        let mut changed = false;
        let mut i: usize = 0;
        while i < self.projects.len()
            invariant
                i <= self.projects@.len(),
                self.projects@.len() == before.len(),
                present@.len() == before.len(),
                before == old(self).projects@,
                self.sessions == old(self).sessions,
                forall|j: int| 0 <= j < i ==> #[trigger] self.projects@[j] == presence_updated(before[j], present@[j], now),
                forall|j: int| i <= j < before.len() ==> #[trigger] self.projects@[j] == before[j],
                changed == exists|j: int| 0 <= j < i && #[trigger] presence_changes(before[j], present@[j]),
            decreases self.projects@.len() - i,
        {
            let status = self.projects[i].status;
            let here = present[i];
            if status == ProjectStatus::Active && !here {
                self.projects[i].status = ProjectStatus::Missing;
                self.projects[i].updated_at = now;
                changed = true;
            } else if status == ProjectStatus::Missing && here {
                self.projects[i].status = ProjectStatus::Active;
                self.projects[i].updated_at = now;
                changed = true;
            }
            assert(presence_changes(before[i as int], present@[i as int]) == (status == ProjectStatus::Active && !here
                || status == ProjectStatus::Missing && here));
            i = i + 1;
        }
        proof {
            assert forall|a: int, b: int| 0 <= a < b < self.projects@.len() implies crate::keyed::pair_lt(
                #[trigger] self.projects@[a].key(),
                #[trigger] self.projects@[b].key(),
            ) by {
                assert(crate::keyed::pair_lt(before[a].key(), before[b].key()));
            }
        }
        changed
    }
}

/// Whether a project's status changes with the presence of its directory.
pub open spec fn presence_changes(p: ProjectRecord, present: bool) -> bool {
    (p.status == ProjectStatus::Active && !present) || (p.status == ProjectStatus::Missing && present)
}

/// A project after learning whether its directory is present.
pub open spec fn presence_updated(p: ProjectRecord, present: bool, now: u64) -> ProjectRecord {
    if p.status == ProjectStatus::Active && !present {
        ProjectRecord { status: ProjectStatus::Missing, updated_at: now, ..p }
    } else if p.status == ProjectStatus::Missing && present {
        ProjectRecord { status: ProjectStatus::Active, updated_at: now, ..p }
    } else {
        p
    }
}

} // verus!
