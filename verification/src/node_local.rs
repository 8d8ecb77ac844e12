//! A node serving clients on this machine without a hub: which clients watch which sessions, who
//! receives each session event, and the requests it answers itself.

use vstd::prelude::*;
use crate::json::{JsonValue, JsonNumber, JsonView, field, field_text, members_view, items_view, json_view};
use crate::pi_events::push_entry;
use crate::policy::PROTOCOL_VERSION;
use crate::text::{str_eq, copy_text};

verus! {

/// A client watching one session of one project.
#[derive(Debug)]
pub struct LocalWatch {
    pub client_id: String,
    pub project_id: String,
    pub session_id: String,
}

/// Who watches which sessions.
#[derive(Debug)]
pub struct LocalRoutes {
    pub watches: Vec<LocalWatch>,
}

pub open spec fn watch_is(w: LocalWatch, client: Seq<char>, project: Seq<char>, session: Seq<char>) -> bool {
    w.client_id@ == client && w.project_id@ == project && w.session_id@ == session
}

/// `client` watches `session` of `project`.
pub open spec fn watching(ws: Seq<LocalWatch>, client: Seq<char>, project: Seq<char>, session: Seq<char>) -> bool {
    exists|i: int| 0 <= i < ws.len() && #[trigger] watch_is(ws[i], client, project, session)
}

/// Keeps the watches other than `client`'s of `session` of `project`.
pub open spec fn other_watch(client: Seq<char>, project: Seq<char>, session: Seq<char>) -> spec_fn(LocalWatch) -> bool {
    |w: LocalWatch| !watch_is(w, client, project, session)
}

/// Keeps the watches of clients other than `client`.
pub open spec fn not_of_client(client: Seq<char>) -> spec_fn(LocalWatch) -> bool {
    |w: LocalWatch| w.client_id@ != client
}

/// The clients watching `session` of `project`, in the order they began.
pub open spec fn watchers(ws: Seq<LocalWatch>, project: Seq<char>, session: Seq<char>) -> Seq<Seq<char>>
    decreases ws.len(),
{
    if ws.len() == 0 {
        Seq::empty()
    } else if ws.last().project_id@ == project && ws.last().session_id@ == session {
        watchers(ws.drop_last(), project, session).push(ws.last().client_id@)
    } else {
        watchers(ws.drop_last(), project, session)
    }
}

pub open spec fn texts(v: Seq<String>) -> Seq<Seq<char>> {
    v.map_values(|s: String| s@)
}

impl LocalRoutes {
    /// Nobody watches anything.
    pub fn new() -> (r: LocalRoutes)
        ensures
            r.watches@.len() == 0,
    {
        LocalRoutes { watches: Vec::new() }
    }

    /// `client` begins to watch `session` of `project`; watching it again changes nothing.
    pub fn attach(&mut self, client: &str, project: &str, session: &str)
        ensures
            watching(old(self).watches@, client@, project@, session@) ==> final(self).watches@ == old(self).watches@,
            !watching(old(self).watches@, client@, project@, session@) ==> final(self).watches@.len() == old(self).watches@.len() + 1
                && final(self).watches@.drop_last() == old(self).watches@
                && watch_is(final(self).watches@.last(), client@, project@, session@),
    {
        let mut i: usize = 0;
        while i < self.watches.len()
            invariant
                i <= self.watches@.len(),
                *self == *old(self),
                forall|j: int| 0 <= j < i ==> !watch_is(#[trigger] self.watches@[j], client@, project@, session@),
            decreases self.watches@.len() - i,
        {
            let w = &self.watches[i];
            if str_eq(w.client_id.as_str(), client) && str_eq(w.project_id.as_str(), project)
                && str_eq(w.session_id.as_str(), session) {
                assert(watch_is(self.watches@[i as int], client@, project@, session@));
                return;
            }
            i = i + 1;
        }
        let ghost before = self.watches@;
        self.watches.push(LocalWatch {
            client_id: copy_text(client),
            project_id: copy_text(project),
            session_id: copy_text(session),
        });
        assert(self.watches@.drop_last() =~= before);
    }

    /// Keeps the watches that `keep` accepts, in order.
    fn retain_watches(&mut self, client: &str, project: Option<(&str, &str)>)
        ensures
            final(self).watches@ == match project {
                Some((p, s)) => old(self).watches@.filter(other_watch(client@, p@, s@)),
                None => old(self).watches@.filter(not_of_client(client@)),
            },
    {
        let ghost w0 = self.watches@;
        let ghost pred = match project {
            Some((p, s)) => other_watch(client@, p@, s@),
            None => not_of_client(client@),
        };
        let mut rest: Vec<LocalWatch> = Vec::new();
        std::mem::swap(&mut rest, &mut self.watches);
        let mut kept: Vec<LocalWatch> = Vec::new();
        let n = rest.len();
        let mut i: usize = 0;
        assert(w0.subrange(0, 0).filter(pred) =~= Seq::<LocalWatch>::empty());
        while i < n
            invariant
                n == w0.len(),
                i <= n,
                rest@ == w0.subrange(i as int, n as int),
                kept@ == w0.subrange(0, i as int).filter(pred),
                pred == (match project {
                    Some((p, s)) => other_watch(client@, p@, s@),
                    None => not_of_client(client@),
                }),
            decreases n - i,
        {
            let w = rest.remove(0);
            assert(w == w0[i as int]);
            proof {
                w0.subrange(0, i as int).lemma_filter_push(w, pred);
                assert(w0.subrange(0, i as int).push(w) =~= w0.subrange(0, i + 1));
            }
            let same_client = str_eq(w.client_id.as_str(), client);
            let drop = match project {
                Some((p, s)) => same_client && str_eq(w.project_id.as_str(), p) && str_eq(w.session_id.as_str(), s),
                None => same_client,
            };
            if !drop {
                kept.push(w);
            }
            i = i + 1;
            assert(rest@ =~= w0.subrange(i as int, n as int));
        }
        assert(w0.subrange(0, n as int) =~= w0);
        self.watches = kept;
    }

    /// `client` stops watching `session` of `project`.
    pub fn detach(&mut self, client: &str, project: &str, session: &str)
        ensures
            final(self).watches@ == old(self).watches@.filter(other_watch(client@, project@, session@)),
    {
        self.retain_watches(client, Some((project, session)));
    }

    /// Forgets a client that went away.
    pub fn forget_client(&mut self, client: &str)
        ensures
            final(self).watches@ == old(self).watches@.filter(not_of_client(client@)),
    {
        self.retain_watches(client, None);
    }

    /// The clients that receive a session event: those watching the session the event names by
    /// its `project_id` and `session_id`; an event that names none goes to nobody.
    pub fn recipients(&self, event: &JsonValue) -> (r: Vec<String>)
        ensures
            match (field_text(*event, "project_id"@), field_text(*event, "session_id"@)) {
                (Some(p), Some(s)) => texts(r@) == watchers(self.watches@, p, s),
                _ => r@.len() == 0,
            },
    {
        let project = match event.get_str("project_id") {
            Some(p) => p,
            None => {
                return Vec::new();
            },
        };
        let session = match event.get_str("session_id") {
            Some(s) => s,
            None => {
                return Vec::new();
            },
        };
        let mut out: Vec<String> = Vec::new();
        let mut i: usize = 0;
        while i < self.watches.len()
            invariant
                i <= self.watches@.len(),
                texts(out@) == watchers(self.watches@.subrange(0, i as int), project@, session@),
            decreases self.watches@.len() - i,
        {
            proof {
                assert(self.watches@.subrange(0, i + 1).drop_last() =~= self.watches@.subrange(0, i as int));
            }
            let w = &self.watches[i];
            if str_eq(w.project_id.as_str(), project) && str_eq(w.session_id.as_str(), session) {
                let ghost before = out@;
                out.push(w.client_id.clone());
                assert(texts(out@) =~= texts(before).push(w.client_id@));
            }
            i = i + 1;
        }
        assert(self.watches@.subrange(0, self.watches@.len() as int) =~= self.watches@);
        out
    }
}

/// What a local client asks of the node.
#[derive(Debug, Clone, Copy, PartialEq, Eq, Structural)]
pub enum LocalRequestKind {
    /// `client.auth`: every local client is the local user.
    Auth,
    /// `hub.status`: the node stands in for a hub.
    HubStatus,
    /// `node.list`: the node is the only one.
    NodeList,
    /// `session.attach` or `session.subscribe`.
    Attach,
    /// `session.detach`.
    Detach,
    /// Anything else goes to the node's command handling.
    Command,
}

/// The kind of a local request by its `type`.
pub open spec fn local_kind(t: Option<Seq<char>>) -> LocalRequestKind {
    if t == Some("client.auth"@) {
        LocalRequestKind::Auth
    } else if t == Some("hub.status"@) {
        LocalRequestKind::HubStatus
    } else if t == Some("node.list"@) {
        LocalRequestKind::NodeList
    } else if t == Some("session.attach"@) || t == Some("session.subscribe"@) {
        LocalRequestKind::Attach
    } else if t == Some("session.detach"@) {
        LocalRequestKind::Detach
    } else {
        LocalRequestKind::Command
    }
}

/// The kind of a local request.
pub fn local_request_kind(request: &JsonValue) -> (r: LocalRequestKind)
    ensures
        r == local_kind(field_text(*request, "type"@)),
{
    match request.get_str("type") {
        None => LocalRequestKind::Command,
        Some(t) => if str_eq(t, "client.auth") {
            LocalRequestKind::Auth
        } else if str_eq(t, "hub.status") {
            LocalRequestKind::HubStatus
        } else if str_eq(t, "node.list") {
            LocalRequestKind::NodeList
        } else if str_eq(t, "session.attach") || str_eq(t, "session.subscribe") {
            LocalRequestKind::Attach
        } else if str_eq(t, "session.detach") {
            LocalRequestKind::Detach
        } else {
            LocalRequestKind::Command
        },
    }
}

/// A local request addressed to this node: one that names no node is given `node_id`.
pub fn address_local_request(request: &mut JsonValue, node_id: &str)
    requires
        *old(request) is Object,
    ensures
        *final(request) is Object,
        field(*old(request), "node_id"@) is Some ==> *final(request) == *old(request),
        field(*old(request), "node_id"@) is None ==> (field(*final(request), "node_id"@) matches Some(JsonValue::Str(n))
            && n@ == node_id@),
        forall|k: Seq<char>| k != "node_id"@ ==> field(*final(request), k) == field(*old(request), k),
{
    if request.get("node_id").is_none() {
        request.set("node_id", JsonValue::text(node_id));
    }
}

/// The request's `id`, or `null`.
pub open spec fn request_id_view(request: JsonValue) -> JsonView {
    match field(request, "id"@) {
        Some(v) => v@,
        None => JsonView::Null,
    }
}

fn request_id(request: &JsonValue) -> (r: JsonValue)
    ensures
        r@ == request_id_view(*request),
{
    match request.get("id") {
        Some(v) => v.copy(),
        None => JsonValue::Null,
    }
}

/// The answer to a local client's authentication.
pub fn local_auth_reply() -> (r: JsonValue)
    ensures
        r@ == JsonView::Object(seq![
            ("protocol_version"@, JsonView::Unsigned(PROTOCOL_VERSION as u64)),
            ("type"@, JsonView::Str("client.authenticated"@)),
            ("user_id"@, JsonView::Str("local"@)),
        ]),
{
    let mut m: Vec<(String, JsonValue)> = Vec::new();
    push_entry(&mut m, "protocol_version", JsonValue::Number(JsonNumber::Unsigned(PROTOCOL_VERSION as u64)));
    push_entry(&mut m, "type", JsonValue::text("client.authenticated"));
    push_entry(&mut m, "user_id", JsonValue::text("local"));
    proof {
        reveal_strlit("client.authenticated");
        reveal_strlit("local");
    }
    assert(members_view(m@) =~= seq![
        ("protocol_version"@, JsonView::Unsigned(PROTOCOL_VERSION as u64)),
        ("type"@, JsonView::Str("client.authenticated"@)),
        ("user_id"@, JsonView::Str("local"@)),
    ]);
    JsonValue::Object(m)
}

/// The local node's answer to `hub.status`: it runs `version` and serves only this machine.
pub fn local_status_reply(request: &JsonValue, version: &str) -> (r: JsonValue)
    ensures
        r@ == JsonView::Object(seq![
            ("protocol_version"@, JsonView::Unsigned(PROTOCOL_VERSION as u64)),
            ("id"@, request_id_view(*request)),
            ("type"@, JsonView::Str("hub.status.result"@)),
            ("version"@, JsonView::Str(version@)),
            ("local_only"@, JsonView::Bool(true)),
        ]),
{
    let mut m: Vec<(String, JsonValue)> = Vec::new();
    push_entry(&mut m, "protocol_version", JsonValue::Number(JsonNumber::Unsigned(PROTOCOL_VERSION as u64)));
    push_entry(&mut m, "id", request_id(request));
    push_entry(&mut m, "type", JsonValue::text("hub.status.result"));
    push_entry(&mut m, "version", JsonValue::text(version));
    push_entry(&mut m, "local_only", JsonValue::Bool(true));
    proof {
        reveal_strlit("hub.status.result");
    }
    assert(members_view(m@) =~= seq![
        ("protocol_version"@, JsonView::Unsigned(PROTOCOL_VERSION as u64)),
        ("id"@, request_id_view(*request)),
        ("type"@, JsonView::Str("hub.status.result"@)),
        ("version"@, JsonView::Str(version@)),
        ("local_only"@, JsonView::Bool(true)),
    ]);
    JsonValue::Object(m)
}

/// The one node a local node lists: itself, online.
pub open spec fn local_node_view(node_id: Seq<char>) -> JsonView {
    JsonView::Object(seq![
        ("node_id"@, JsonView::Str(node_id)),
        ("name"@, JsonView::Str("local"@)),
        ("status"@, JsonView::Str("online"@)),
    ])
}

/// The local node's answer to `node.list`.
pub fn local_node_list_reply(request: &JsonValue, node_id: &str) -> (r: JsonValue)
    ensures
        r@ == JsonView::Object(seq![
            ("protocol_version"@, JsonView::Unsigned(PROTOCOL_VERSION as u64)),
            ("id"@, request_id_view(*request)),
            ("type"@, JsonView::Str("node.list.result"@)),
            ("nodes"@, JsonView::Array(seq![local_node_view(node_id@)])),
        ]),
{
    let mut node: Vec<(String, JsonValue)> = Vec::new();
    push_entry(&mut node, "node_id", JsonValue::text(node_id));
    push_entry(&mut node, "name", JsonValue::text("local"));
    push_entry(&mut node, "status", JsonValue::text("online"));
    proof {
        reveal_strlit("local");
        reveal_strlit("online");
        reveal_strlit("node.list.result");
    }
    assert(members_view(node@) =~= seq![
        ("node_id"@, JsonView::Str(node_id@)),
        ("name"@, JsonView::Str("local"@)),
        ("status"@, JsonView::Str("online"@)),
    ]);
    let item = JsonValue::Object(node);
    let ghost iv = item;
    assert(iv@ == local_node_view(node_id@));
    let mut nodes: Vec<JsonValue> = Vec::new();
    nodes.push(item);
    assert(nodes@ =~= seq![iv]);
    assert(items_view(nodes@) =~= seq![local_node_view(node_id@)]) by {
        assert(nodes@.drop_last() =~= Seq::<JsonValue>::empty());
        assert(nodes@.last() == iv);
        assert(items_view(Seq::<JsonValue>::empty()) =~= Seq::<JsonView>::empty());
        assert(items_view(nodes@) == items_view(nodes@.drop_last()).push(json_view(nodes@.last())));
    }
    let mut m: Vec<(String, JsonValue)> = Vec::new();
    push_entry(&mut m, "protocol_version", JsonValue::Number(JsonNumber::Unsigned(PROTOCOL_VERSION as u64)));
    push_entry(&mut m, "id", request_id(request));
    push_entry(&mut m, "type", JsonValue::text("node.list.result"));
    push_entry(&mut m, "nodes", JsonValue::Array(nodes));
    assert(members_view(m@) =~= seq![
        ("protocol_version"@, JsonView::Unsigned(PROTOCOL_VERSION as u64)),
        ("id"@, request_id_view(*request)),
        ("type"@, JsonView::Str("node.list.result"@)),
        ("nodes"@, JsonView::Array(seq![local_node_view(node_id@)])),
    ]);
    JsonValue::Object(m)
}

/// The local node's answer to `session.detach`.
pub fn local_detach_reply(request: &JsonValue) -> (r: JsonValue)
    ensures
        r@ == JsonView::Object(seq![
            ("protocol_version"@, JsonView::Unsigned(PROTOCOL_VERSION as u64)),
            ("id"@, request_id_view(*request)),
            ("type"@, JsonView::Str("session.detach.result"@)),
        ]),
{
    let mut m: Vec<(String, JsonValue)> = Vec::new();
    push_entry(&mut m, "protocol_version", JsonValue::Number(JsonNumber::Unsigned(PROTOCOL_VERSION as u64)));
    push_entry(&mut m, "id", request_id(request));
    push_entry(&mut m, "type", JsonValue::text("session.detach.result"));
    proof {
        reveal_strlit("session.detach.result");
    }
    assert(members_view(m@) =~= seq![
        ("protocol_version"@, JsonView::Unsigned(PROTOCOL_VERSION as u64)),
        ("id"@, request_id_view(*request)),
        ("type"@, JsonView::Str("session.detach.result"@)),
    ]);
    JsonValue::Object(m)
}

/// A client's request about a session on the local node: it watches (or stops watching) the
/// session its request names; a request that names no project or session names the empty one
/// when it attaches and nothing when it detaches.
pub fn local_watch_request(routes: &mut LocalRoutes, client: &str, request: &JsonValue)
    ensures
        local_kind(field_text(*request, "type"@)) == LocalRequestKind::Attach ==> {
            let p = match field_text(*request, "project_id"@) { Some(p) => p, None => Seq::empty() };
            let s = match field_text(*request, "session_id"@) { Some(s) => s, None => Seq::empty() };
            &&& watching(old(routes).watches@, client@, p, s) ==> final(routes).watches@ == old(routes).watches@
            &&& !watching(old(routes).watches@, client@, p, s) ==> final(routes).watches@.drop_last() == old(routes).watches@
                && final(routes).watches@.len() == old(routes).watches@.len() + 1
                && watch_is(final(routes).watches@.last(), client@, p, s)
        },
        local_kind(field_text(*request, "type"@)) == LocalRequestKind::Detach ==> match (
            field_text(*request, "project_id"@),
            field_text(*request, "session_id"@),
        ) {
            (Some(p), Some(s)) => final(routes).watches@ == old(routes).watches@.filter(other_watch(client@, p, s)),
            _ => final(routes).watches@ == old(routes).watches@,
        },
        local_kind(field_text(*request, "type"@)) != LocalRequestKind::Attach && local_kind(field_text(*request, "type"@))
            != LocalRequestKind::Detach ==> final(routes).watches@ == old(routes).watches@,
{
    proof {
        reveal_strlit("");
        assert(""@ =~= Seq::<char>::empty());
    }
    match local_request_kind(request) {
        LocalRequestKind::Attach => {
            let p = match request.get_str("project_id") {
                Some(p) => p,
                None => "",
            };
            let s = match request.get_str("session_id") {
                Some(s) => s,
                None => "",
            };
            routes.attach(client, p, s);
        },
        LocalRequestKind::Detach => {
            match (request.get_str("project_id"), request.get_str("session_id")) {
                (Some(p), Some(s)) => routes.detach(client, p, s),
                _ => {},
            }
        },
        _ => {},
    }
}

} // verus!
