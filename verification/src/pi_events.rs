//! How a node turns the events a Pi process prints into the session events of its protocol.

use vstd::prelude::*;
use crate::crypto::new_uuid_simple;
use crate::json::{JsonValue, JsonNumber, JsonView, field, members_view};
use crate::keyed::{Keyed, lookup, upsert, remove_key, find};
use crate::pi_session::{PiSession, ResponseRoute, ExtensionUiRequest, pi_session_wf, id_key, pi_type, extension_method_of, extension_request_id_of, extension_method, extension_request_id, expects_response, extension_method_expects_response};
use crate::policy::PROTOCOL_VERSION;
use crate::text::{str_eq, copy_text, concat};

verus! {

/// The session event type a Pi event of type `t` becomes.
pub open spec fn event_kind(t: Seq<char>) -> Seq<char> {
    if t == "response"@ {
        "session.command_response"@
    } else if t == "agent_start"@ || t == "turn_start"@ {
        "session.running"@
    } else if t == "agent_settled"@ {
        "session.idle"@
    } else if t == "agent_end"@ || t == "turn_end"@ {
        "session.turn_ended"@
    } else if t == "message_start"@ {
        "session.message_start"@
    } else if t == "message_update"@ {
        "session.output_delta"@
    } else if t == "message_end"@ {
        "session.message_end"@
    } else if t == "bash_execution_update"@ {
        "session.bash_update"@
    } else if t == "tool_execution_start"@ {
        "session.tool_start"@
    } else if t == "tool_execution_update"@ {
        "session.tool_update"@
    } else if t == "tool_execution_end"@ {
        "session.tool_end"@
    } else if t == "queue_update"@ {
        "session.queue_update"@
    } else if t == "compaction_start"@ {
        "session.compaction_start"@
    } else if t == "compaction_end"@ {
        "session.compaction_end"@
    } else if t == "auto_retry_start"@ {
        "session.auto_retry_start"@
    } else if t == "auto_retry_end"@ {
        "session.auto_retry_end"@
    } else if t == "summarization_retry_scheduled"@ {
        "session.summarization_retry_scheduled"@
    } else if t == "summarization_retry_attempt_start"@ {
        "session.summarization_retry_attempt_start"@
    } else if t == "summarization_retry_finished"@ {
        "session.summarization_retry_finished"@
    } else if t == "extension_ui_request"@ {
        "session.extension_ui_request"@
    } else if t == "extension_error"@ {
        "session.extension_error"@
    } else {
        "session.event_ignored"@
    }
}

/// Pi event types a node knows how to report.
pub open spec fn is_known_type(t: Seq<char>) -> bool {
    t == "response"@ || t == "agent_start"@ || t == "turn_start"@ || t == "agent_settled"@
        || t == "agent_end"@ || t == "turn_end"@ || t == "message_start"@ || t == "message_update"@
        || t == "message_end"@ || t == "bash_execution_update"@ || t == "tool_execution_start"@
        || t == "tool_execution_update"@ || t == "tool_execution_end"@ || t == "queue_update"@
        || t == "compaction_start"@ || t == "compaction_end"@ || t == "auto_retry_start"@
        || t == "auto_retry_end"@ || t == "summarization_retry_scheduled"@
        || t == "summarization_retry_attempt_start"@ || t == "summarization_retry_finished"@
        || t == "extension_ui_request"@ || t == "extension_error"@
}

/// The Pi event types that a node reports under their own name.
pub open spec fn reported_under_own_name(t: Seq<char>) -> bool {
    t == "message_start"@
        || t == "message_end"@
        || t == "queue_update"@
        || t == "compaction_start"@
        || t == "compaction_end"@
        || t == "auto_retry_start"@
        || t == "auto_retry_end"@
        || t == "summarization_retry_scheduled"@
        || t == "summarization_retry_attempt_start"@
        || t == "summarization_retry_finished"@
        || t == "extension_ui_request"@
        || t == "extension_error"@
}

/// How a node names the session events it reports for Pi's events, over every Pi event type:
/// most are reported under their own name after `session.`; the three phases of a tool run
/// (`tool_execution_start`, `_update`, `_end`) become `session.tool_start`, `_update` and `_end`,
/// one kind per phase; the agent's and turn's start and end, settling, streamed message text, shell
/// output and command responses get the names below; any other type is ignored.
pub proof fn lemma_session_event_names(t: Seq<char>)
    ensures
        reported_under_own_name(t) ==> event_kind(t) == "session."@ + t,
        event_kind("tool_execution_"@ + "start"@) == "session.tool_"@ + "start"@,
        event_kind("tool_execution_"@ + "update"@) == "session.tool_"@ + "update"@,
        event_kind("tool_execution_"@ + "end"@) == "session.tool_"@ + "end"@,
        event_kind("response"@) == "session.command_response"@,
        event_kind("agent_start"@) == "session.running"@,
        event_kind("turn_start"@) == "session.running"@,
        event_kind("agent_settled"@) == "session.idle"@,
        event_kind("agent_end"@) == "session.turn_ended"@,
        event_kind("turn_end"@) == "session.turn_ended"@,
        event_kind("message_update"@) == "session.output_delta"@,
        event_kind("bash_execution_update"@) == "session.bash_update"@,
        !is_known_type(t) ==> event_kind(t) == "session.event_ignored"@,
{
    reveal_strlit("response");
    reveal_strlit("agent_start");
    reveal_strlit("turn_start");
    reveal_strlit("agent_settled");
    reveal_strlit("agent_end");
    reveal_strlit("turn_end");
    reveal_strlit("message_start");
    reveal_strlit("message_update");
    reveal_strlit("message_end");
    reveal_strlit("bash_execution_update");
    reveal_strlit("tool_execution_start");
    reveal_strlit("tool_execution_update");
    reveal_strlit("tool_execution_end");
    reveal_strlit("queue_update");
    reveal_strlit("compaction_start");
    reveal_strlit("compaction_end");
    reveal_strlit("auto_retry_start");
    reveal_strlit("auto_retry_end");
    reveal_strlit("summarization_retry_scheduled");
    reveal_strlit("summarization_retry_attempt_start");
    reveal_strlit("summarization_retry_finished");
    reveal_strlit("extension_ui_request");
    reveal_strlit("extension_error");
    assert("response"@.len() == 8);
    assert("agent_start"@.len() == 11);
    assert("turn_start"@.len() == 10);
    assert("agent_settled"@.len() == 13);
    assert("agent_end"@.len() == 9);
    assert("turn_end"@.len() == 8);
    assert("message_start"@.len() == 13);
    assert("message_update"@.len() == 14);
    assert("message_end"@.len() == 11);
    assert("bash_execution_update"@.len() == 21);
    assert("tool_execution_start"@.len() == 20);
    assert("tool_execution_update"@.len() == 21);
    assert("tool_execution_end"@.len() == 18);
    assert("queue_update"@.len() == 12);
    assert("compaction_start"@.len() == 16);
    assert("compaction_end"@.len() == 14);
    assert("auto_retry_start"@.len() == 16);
    assert("auto_retry_end"@.len() == 14);
    assert("summarization_retry_scheduled"@.len() == 29);
    assert("summarization_retry_attempt_start"@.len() == 33);
    assert("summarization_retry_finished"@.len() == 28);
    assert("extension_ui_request"@.len() == 20);
    assert("extension_error"@.len() == 15);
    assert("response"@[0] == 'r');
    assert("turn_end"@[0] == 't');
    assert("agent_start"@[0] == 'a');
    assert("message_end"@[0] == 'm');
    assert("agent_settled"@[0] == 'a');
    assert("message_start"@[0] == 'm');
    assert("message_update"@[0] == 'm');
    assert("compaction_end"@[0] == 'c');
    assert("auto_retry_end"@[0] == 'a');
    assert("bash_execution_update"@[0] == 'b');
    assert("tool_execution_update"@[0] == 't');
    assert("tool_execution_start"@[0] == 't');
    assert("extension_ui_request"@[0] == 'e');
    assert("compaction_start"@[0] == 'c');
    assert("auto_retry_start"@[0] == 'a');
    reveal_strlit("session.message_start");
    reveal_strlit("session.message_end");
    reveal_strlit("session.queue_update");
    reveal_strlit("session.compaction_start");
    reveal_strlit("session.compaction_end");
    reveal_strlit("session.auto_retry_start");
    reveal_strlit("session.auto_retry_end");
    reveal_strlit("session.summarization_retry_scheduled");
    reveal_strlit("session.summarization_retry_attempt_start");
    reveal_strlit("session.summarization_retry_finished");
    reveal_strlit("session.extension_ui_request");
    reveal_strlit("session.extension_error");
    reveal_strlit("session.tool_start");
    reveal_strlit("session.tool_update");
    reveal_strlit("session.tool_end");
    reveal_strlit("session.command_response");
    reveal_strlit("session.running");
    reveal_strlit("session.idle");
    reveal_strlit("session.turn_ended");
    reveal_strlit("session.output_delta");
    reveal_strlit("session.bash_update");
    reveal_strlit("session.event_ignored");
    reveal_strlit("session.");
    reveal_strlit("tool_execution_");
    reveal_strlit("session.tool_");
    reveal_strlit("start");
    reveal_strlit("update");
    reveal_strlit("end");
    assert(("session."@ + "message_start"@) =~= "session.message_start"@);
    assert(("session."@ + "message_end"@) =~= "session.message_end"@);
    assert(("session."@ + "queue_update"@) =~= "session.queue_update"@);
    assert(("session."@ + "compaction_start"@) =~= "session.compaction_start"@);
    assert(("session."@ + "compaction_end"@) =~= "session.compaction_end"@);
    assert(("session."@ + "auto_retry_start"@) =~= "session.auto_retry_start"@);
    assert(("session."@ + "auto_retry_end"@) =~= "session.auto_retry_end"@);
    assert(("session."@ + "summarization_retry_scheduled"@) =~= "session.summarization_retry_scheduled"@);
    assert(("session."@ + "summarization_retry_attempt_start"@) =~= "session.summarization_retry_attempt_start"@);
    assert(("session."@ + "summarization_retry_finished"@) =~= "session.summarization_retry_finished"@);
    assert(("session."@ + "extension_ui_request"@) =~= "session.extension_ui_request"@);
    assert(("session."@ + "extension_error"@) =~= "session.extension_error"@);
    assert(("tool_execution_"@ + "start"@) =~= "tool_execution_start"@);
    assert(("session.tool_"@ + "start"@) =~= "session.tool_start"@);
    assert(("tool_execution_"@ + "update"@) =~= "tool_execution_update"@);
    assert(("session.tool_"@ + "update"@) =~= "session.tool_update"@);
    assert(("tool_execution_"@ + "end"@) =~= "tool_execution_end"@);
    assert(("session.tool_"@ + "end"@) =~= "session.tool_end"@);
}

/// The session event type for a Pi event type.
pub fn pi_event_kind(t: &str) -> (r: &'static str)
    ensures
        r@ == event_kind(t@),
{
    if str_eq(t, "response") {
        "session.command_response"
    } else if str_eq(t, "agent_start") || str_eq(t, "turn_start") {
        "session.running"
    } else if str_eq(t, "agent_settled") {
        "session.idle"
    } else if str_eq(t, "agent_end") || str_eq(t, "turn_end") {
        "session.turn_ended"
    } else if str_eq(t, "message_start") {
        "session.message_start"
    } else if str_eq(t, "message_update") {
        "session.output_delta"
    } else if str_eq(t, "message_end") {
        "session.message_end"
    } else if str_eq(t, "bash_execution_update") {
        "session.bash_update"
    } else if str_eq(t, "tool_execution_start") {
        "session.tool_start"
    } else if str_eq(t, "tool_execution_update") {
        "session.tool_update"
    } else if str_eq(t, "tool_execution_end") {
        "session.tool_end"
    } else if str_eq(t, "queue_update") {
        "session.queue_update"
    } else if str_eq(t, "compaction_start") {
        "session.compaction_start"
    } else if str_eq(t, "compaction_end") {
        "session.compaction_end"
    } else if str_eq(t, "auto_retry_start") {
        "session.auto_retry_start"
    } else if str_eq(t, "auto_retry_end") {
        "session.auto_retry_end"
    } else if str_eq(t, "summarization_retry_scheduled") {
        "session.summarization_retry_scheduled"
    } else if str_eq(t, "summarization_retry_attempt_start") {
        "session.summarization_retry_attempt_start"
    } else if str_eq(t, "summarization_retry_finished") {
        "session.summarization_retry_finished"
    } else if str_eq(t, "extension_ui_request") {
        "session.extension_ui_request"
    } else if str_eq(t, "extension_error") {
        "session.extension_error"
    } else {
        "session.event_ignored"
    }
}

/// The members every session event starts with.
pub open spec fn base_entries(kind: Seq<char>, node: Seq<char>, project: Seq<char>, session: Seq<char>) -> Seq<(Seq<char>, JsonView)> {
    seq![
        ("protocol_version"@, JsonView::Unsigned(PROTOCOL_VERSION as u64)),
        ("type"@, JsonView::Str(kind)),
        ("node_id"@, JsonView::Str(node)),
        ("project_id"@, JsonView::Str(project)),
        ("session_id"@, JsonView::Str(session)),
    ]
}

/// The member `key` of `src`, copied, if `src` has it.
pub open spec fn copy_entry(src: JsonValue, key: Seq<char>) -> Seq<(Seq<char>, JsonView)> {
    match field(src, key) {
        Some(v) => seq![(key, v@)],
        None => Seq::empty(),
    }
}

/// The members that address a response: the client's own identifier and the client, when the
/// Pi identifier `internal` routes to one, else the Pi identifier itself.
pub open spec fn routed_id_entries(internal: JsonValue, routes: Seq<ResponseRoute>) -> Seq<(Seq<char>, JsonView)> {
    match route_of(internal, routes) {
        Some(route) => seq![("id"@, route.external_id@)] + match route.target_client_id {
            Some(t) => seq![("target_client_id"@, JsonView::Str(t@))],
            None => Seq::empty(),
        },
        None => seq![("id"@, internal@)],
    }
}

/// The route for a Pi identifier, which must be text.
pub open spec fn route_of(internal: JsonValue, routes: Seq<ResponseRoute>) -> Option<ResponseRoute> {
    match internal {
        JsonValue::Str(t) => lookup(routes, id_key(t@)),
        _ => None,
    }
}

/// The Pi identifier of a response: its `id`, or null.
pub open spec fn response_id(event: JsonValue) -> JsonValue {
    match field(event, "id"@) {
        Some(v) => v,
        None => JsonValue::Null,
    }
}

/// The members of an extension UI request event for the request `request_id` made on behalf of
/// `origin`.
pub open spec fn extension_entries(event: JsonValue, request_id: Seq<char>, origin: Option<String>) -> Seq<(Seq<char>, JsonView)> {
    let method = extension_method_name(event);
    seq![
        ("request_id"@, JsonView::Str(request_id)),
        ("method"@, JsonView::Str(method)),
        ("expects_response"@, JsonView::Bool(expects_response(method))),
        ("target_client_id"@, match origin {
            Some(o) => JsonView::Str(o@),
            None => JsonView::Null,
        }),
    ] + extension_details(event)
}

/// The members an extension UI request event copies from the request.
pub open spec fn extension_details(event: JsonValue) -> Seq<(Seq<char>, JsonView)> {
    copy_entry(event, "timeout_ms"@) + copy_entry(event, "timeoutMs"@) + copy_entry(event, "title"@)
        + copy_entry(event, "message"@) + copy_entry(event, "prompt"@) + copy_entry(event, "options"@)
}

/// The method of an extension UI request, `unknown` when it names none.
pub open spec fn extension_method_name(event: JsonValue) -> Seq<char> {
    match extension_method_of(event) {
        Some(m) => m,
        None => "unknown"@,
    }
}

/// `n` is the pending extension UI requests `o` after an extension UI request `rid` for
/// `origin` arrived at `now`: one whose method expects an answer is remembered.
pub open spec fn extension_pending(
    n: Seq<ExtensionUiRequest>,
    o: Seq<ExtensionUiRequest>,
    event: JsonValue,
    rid: Seq<char>,
    origin: Option<String>,
    now: u64,
) -> bool {
    if expects_response(extension_method_name(event)) {
        &&& lookup(n, id_key(rid)) matches Some(p) && p.request_id@ == rid
            && p.method@ == extension_method_name(event) && p.origin_client_id == origin && p.created_at == now
        &&& forall|k: (Seq<char>, Seq<char>)| k != id_key(rid) ==> #[trigger] lookup(n, k) == lookup(o, k)
    } else {
        n == o
    }
}

/// The tool an event describes: the first of `toolExecution`, `toolExecutionStart`,
/// `toolExecutionUpdate` and `toolExecutionEnd` that it has.
pub open spec fn tool_of(event: JsonValue) -> Option<JsonValue> {
    if field(event, "toolExecution"@) is Some {
        field(event, "toolExecution"@)
    } else if field(event, "toolExecutionStart"@) is Some {
        field(event, "toolExecutionStart"@)
    } else if field(event, "toolExecutionUpdate"@) is Some {
        field(event, "toolExecutionUpdate"@)
    } else {
        field(event, "toolExecutionEnd"@)
    }
}

/// The text delta of a message update, as its `delta` member.
pub open spec fn delta_entry(event: JsonValue) -> Seq<(Seq<char>, JsonView)> {
    match field(event, "assistantMessageEvent"@) {
        Some(inner) => match field(inner, "delta"@) {
            Some(d) => seq![("delta"@, d@)],
            None => Seq::empty(),
        },
        None => Seq::empty(),
    }
}

/// The members that address a bash update with Pi identifier, if it has one.
pub open spec fn bash_id_entries(update: JsonValue, routes: Seq<ResponseRoute>) -> Seq<(Seq<char>, JsonView)> {
    match field(update, "id"@) {
        Some(internal) => routed_id_entries(internal, routes),
        None => Seq::empty(),
    }
}

/// The tool an event describes, as its `tool` member.
pub open spec fn tool_entry(event: JsonValue) -> Seq<(Seq<char>, JsonView)> {
    match tool_of(event) {
        Some(tool) => seq![("tool"@, tool@)],
        None => Seq::empty(),
    }
}

/// The members a session event adds to the common ones, for a Pi event of type `t`, with
/// `routes` the response routes and `request_id` the identifier of an extension UI request.
pub open spec fn extra_entries(
    event: JsonValue,
    t: Seq<char>,
    routes: Seq<ResponseRoute>,
    origin: Option<String>,
    request_id: Seq<char>,
) -> Seq<(Seq<char>, JsonView)> {
    if t == "response"@ {
        routed_id_entries(response_id(event), routes) + copy_entry(event, "ok"@) + copy_entry(event, "error"@)
            + copy_entry(event, "command"@) + copy_entry(event, "data"@)
    } else if t == "message_start"@ {
        copy_entry(event, "message_id"@) + copy_entry(event, "role"@)
    } else if t == "message_update"@ {
        copy_entry(event, "message_id"@) + delta_entry(event)
    } else if t == "message_end"@ {
        copy_entry(event, "message_id"@) + copy_entry(event, "message"@)
    } else if t == "bash_execution_update"@ {
        match field(event, "bashExecutionUpdate"@) {
            Some(u) => bash_id_entries(u, routes) + copy_entry(u, "status"@) + copy_entry(u, "stdout"@) + copy_entry(u, "stderr"@)
                + copy_entry(u, "exitCode"@),
            None => Seq::empty(),
        }
    } else if t == "tool_execution_start"@ || t == "tool_execution_update"@ || t == "tool_execution_end"@ {
        tool_entry(event)
    } else if t == "queue_update"@ {
        copy_entry(event, "queue"@) + copy_entry(event, "queueLength"@)
    } else if t == "extension_ui_request"@ {
        extension_entries(event, request_id, origin)
    } else if t == "extension_error"@ {
        copy_entry(event, "error"@)
    } else {
        Seq::empty()
    }
}

pub(crate) fn push_entry(members: &mut Vec<(String, JsonValue)>, key: &str, value: JsonValue)
    ensures
        members_view(final(members)@) == members_view(old(members)@).push((key@, value@)),
{
    let ghost before = members@;
    members.push((copy_text(key), value));
    assert(members@.drop_last() == before);
}

fn push_copy(members: &mut Vec<(String, JsonValue)>, src: &JsonValue, key: &str)
    ensures
        members_view(final(members)@) == members_view(old(members)@) + copy_entry(*src, key@),
{
    match src.get(key) {
        Some(v) => {
            let c = v.copy();
            push_entry(members, key, c);
            assert(members_view(members@) =~= members_view(old(members)@) + copy_entry(*src, key@));
        },
        None => {
            assert(members_view(members@) =~= members_view(old(members)@) + copy_entry(*src, key@));
        },
    }
}

fn push_extension_details(members: &mut Vec<(String, JsonValue)>, event: &JsonValue)
    ensures
        members_view(final(members)@) == members_view(old(members)@) + extension_details(*event),
{
    let ghost before = members_view(members@);
    push_copy(members, event, "timeout_ms");
    push_copy(members, event, "timeoutMs");
    push_copy(members, event, "title");
    push_copy(members, event, "message");
    push_copy(members, event, "prompt");
    push_copy(members, event, "options");
    assert(members_view(members@) =~= before + extension_details(*event));
}

pub(crate) fn base_members(kind: &str, node: &str, project: &str, session: &str) -> (r: Vec<(String, JsonValue)>)
    ensures
        members_view(r@) == base_entries(kind@, node@, project@, session@),
{
    let mut m: Vec<(String, JsonValue)> = Vec::new();
    push_entry(&mut m, "protocol_version", JsonValue::Number(JsonNumber::Unsigned(PROTOCOL_VERSION as u64)));
    push_entry(&mut m, "type", JsonValue::text(kind));
    push_entry(&mut m, "node_id", JsonValue::text(node));
    push_entry(&mut m, "project_id", JsonValue::text(project));
    push_entry(&mut m, "session_id", JsonValue::text(session));
    assert(members_view(m@) =~= base_entries(kind@, node@, project@, session@));
    m
}

impl PiSession {
    /// Appends the members that address a response with Pi identifier `internal` (see
    /// `routed_id_entries`) and forgets its route: a response is answered once.
    fn push_routed_id(&mut self, members: &mut Vec<(String, JsonValue)>, internal: &JsonValue)
        requires
            pi_session_wf(*old(self)),
        ensures
            pi_session_wf(*final(self)),
            members_view(final(members)@) == members_view(old(members)@) + routed_id_entries(*internal, old(self).response_routes@),
            final(self).pending_extension_ui == old(self).pending_extension_ui,
            final(self).current_origin_client_id == old(self).current_origin_client_id,
            final(self).recent_events == old(self).recent_events,
            match route_of(*internal, old(self).response_routes@) {
                Some(route) => {
                    &&& lookup(final(self).response_routes@, route.key()) is None
                    &&& forall|k: (Seq<char>, Seq<char>)| k != route.key() ==> #[trigger] lookup(final(self).response_routes@, k) == lookup(old(self).response_routes@, k)
                },
                None => final(self).response_routes@ == old(self).response_routes@,
            },
    {
        proof {
            reveal_strlit("");
            assert(""@ =~= Seq::<char>::empty());
        }
        let found: Option<ResponseRoute> = match internal {
            JsonValue::Str(t) => remove_key(&mut self.response_routes, t.as_str(), ""),
            _ => None,
        };
        let ghost before = members_view(members@);
        match found {
            Some(route) => {
                push_entry(members, "id", route.external_id);
                match route.target_client_id {
                    Some(t) => {
                        push_entry(members, "target_client_id", JsonValue::Str(t));
                    },
                    None => {},
                }
            },
            None => {
                push_entry(members, "id", internal.copy());
            },
        }
        assert(members_view(members@) =~= before + routed_id_entries(*internal, old(self).response_routes@));
    }
}

impl PiSession {
    /// Turns an event printed by the Pi process of session `session` (of project `project` on node
    /// `node`) into a session event: the common members (protocol version, the type that
    /// `event_kind` gives, the node, project and session) followed by what `extra_entries`
    /// lists for the event's type. A response is addressed to the client whose command it answers
    /// and its route is forgotten; a bash update is addressed the same way but keeps its route. An
    /// extension UI request without an identifier gets `extui_` and a fresh UUID; one whose method
    /// expects an answer is remembered as pending, for the current origin client, at `now`. An
    /// event of an unknown type is ignored, and the diagnostic record to log for it is returned
    /// beside.
    #[verifier::rlimit(60)]
    #[verifier::spinoff_prover]
    pub fn normalize_pi_event(
        &mut self,
        node: &str,
        project: &str,
        session: &str,
        event: &JsonValue,
        now: u64,
    ) -> (r: (JsonValue, Option<JsonValue>))
        requires
            pi_session_wf(*old(self)),
        ensures
            pi_session_wf(*final(self)),
            final(self).current_origin_client_id == old(self).current_origin_client_id,
            final(self).recent_events == old(self).recent_events,
            r.1 is Some <==> !is_known_type(pi_type(*event)),
            r.1 matches Some(d) ==> d@ == JsonView::Object(seq![
                ("event"@, JsonView::Str("unknown_pi_event"@)),
                ("pi_type"@, JsonView::Str(pi_type(*event))),
            ]),
            pi_type(*event) != "extension_ui_request"@ ==> {
                &&& r.0@ == JsonView::Object(base_entries(event_kind(pi_type(*event)), node@, project@, session@)
                    + extra_entries(*event, pi_type(*event), old(self).response_routes@, old(self).current_origin_client_id, Seq::empty()))
                &&& final(self).pending_extension_ui == old(self).pending_extension_ui
            },
            pi_type(*event) == "response"@ ==> match route_of(response_id(*event), old(self).response_routes@) {
                Some(route) => {
                    &&& lookup(final(self).response_routes@, route.key()) is None
                    &&& forall|k: (Seq<char>, Seq<char>)| k != route.key() ==> #[trigger] lookup(final(self).response_routes@, k) == lookup(old(self).response_routes@, k)
                },
                None => final(self).response_routes@ == old(self).response_routes@,
            },
            pi_type(*event) != "response"@ ==> final(self).response_routes == old(self).response_routes,
            pi_type(*event) == "extension_ui_request"@ ==> exists|rid: Seq<char>| {
                &&& match extension_request_id_of(*event) {
                    Some(given) => rid == given,
                    None => exists|u: Seq<char>| u.len() == 32 && rid == "extui_"@ + u,
                }
                &&& r.0@ == JsonView::Object(base_entries(event_kind(pi_type(*event)), node@, project@, session@)
                    + extension_entries(*event, rid, old(self).current_origin_client_id))
                &&& #[trigger] extension_pending(final(self).pending_extension_ui@, old(self).pending_extension_ui@, *event, rid,
                    old(self).current_origin_client_id, now)
            },
    {
        let t: &str = match event.get_str("type") {
            Some(t) => t,
            None => "",
        };
        proof {
            reveal_strlit("");
            assert(t@ == pi_type(*event));
        }
        let kind = pi_event_kind(t);
        let mut m = base_members(kind, node, project, session);
        let ghost base = members_view(m@);
        let ghost routes = self.response_routes@;
        let mut diagnostic: Option<JsonValue> = None;
        if str_eq(t, "extension_ui_request") {
            proof {
                reveal_strlit("extension_ui_request");
                reveal_strlit("response");
                assert("extension_ui_request"@.len() == 20 && "response"@.len() == 8);
            }
            let rid = self.push_extension_request(&mut m, event, now);
            assert(extension_pending(self.pending_extension_ui@, old(self).pending_extension_ui@, *event, rid@,
                old(self).current_origin_client_id, now));
        } else if str_eq(t, "response") {
            let internal = match event.get("id") {
                Some(v) => v.copy(),
                None => JsonValue::Null,
            };
            self.push_routed_id(&mut m, &internal);
            push_copy(&mut m, event, "ok");
            push_copy(&mut m, event, "error");
            push_copy(&mut m, event, "command");
            push_copy(&mut m, event, "data");
            assert(members_view(m@) =~= base + extra_entries(*event, t@, routes, self.current_origin_client_id, Seq::empty()));
        } else {
            self.push_plain_extras(&mut m, event, t);
            let known = str_eq(t, "agent_start") || str_eq(t, "turn_start") || str_eq(t, "agent_settled")
                || str_eq(t, "agent_end") || str_eq(t, "turn_end") || str_eq(t, "compaction_start")
                || str_eq(t, "compaction_end") || str_eq(t, "auto_retry_start") || str_eq(t, "auto_retry_end")
                || str_eq(t, "summarization_retry_scheduled") || str_eq(t, "summarization_retry_attempt_start")
                || str_eq(t, "summarization_retry_finished") || str_eq(t, "message_start")
                || str_eq(t, "message_update") || str_eq(t, "message_end") || str_eq(t, "bash_execution_update")
                || str_eq(t, "tool_execution_start") || str_eq(t, "tool_execution_update")
                || str_eq(t, "tool_execution_end") || str_eq(t, "queue_update") || str_eq(t, "extension_error");
            if !known {
                let mut d: Vec<(String, JsonValue)> = Vec::new();
                push_entry(&mut d, "event", JsonValue::text("unknown_pi_event"));
                push_entry(&mut d, "pi_type", JsonValue::text(t));
                proof {
                    reveal_strlit("unknown_pi_event");
                }
                let dv = JsonValue::Object(d);
                assert(members_view(d@) =~= seq![
                    ("event"@, JsonView::Str("unknown_pi_event"@)),
                    ("pi_type"@, JsonView::Str(pi_type(*event))),
                ]);
                diagnostic = Some(dv);
            }
        }
        (JsonValue::Object(m), diagnostic)
    }

    /// Appends the members that events other than responses and extension UI requests add.
    fn push_plain_extras(&self, members: &mut Vec<(String, JsonValue)>, event: &JsonValue, t: &str)
        requires
            pi_session_wf(*self),
            t@ != "response"@,
            t@ != "extension_ui_request"@,
        ensures
            members_view(final(members)@) == members_view(old(members)@)
                + extra_entries(*event, t@, self.response_routes@, self.current_origin_client_id, Seq::empty()),
    {
        let ghost before = members_view(members@);
        if str_eq(t, "message_start") {
            push_copy(members, event, "message_id");
            push_copy(members, event, "role");
        } else if str_eq(t, "message_update") {
            push_copy(members, event, "message_id");
            match event.get("assistantMessageEvent") {
                Some(inner) => match inner.get("delta") {
                    Some(d) => {
                        push_entry(members, "delta", d.copy());
                    },
                    None => {},
                },
                None => {},
            }
        } else if str_eq(t, "message_end") {
            push_copy(members, event, "message_id");
            push_copy(members, event, "message");
        } else if str_eq(t, "bash_execution_update") {
            match event.get("bashExecutionUpdate") {
                Some(u) => {
                    match u.get("id") {
                        Some(internal) => {
                            self.push_route_of(members, internal);
                        },
                        None => {},
                    }
                    push_copy(members, u, "status");
                    push_copy(members, u, "stdout");
                    push_copy(members, u, "stderr");
                    push_copy(members, u, "exitCode");
                },
                None => {},
            }
        } else if str_eq(t, "tool_execution_start") || str_eq(t, "tool_execution_update") || str_eq(t, "tool_execution_end") {
            let tool = match event.get("toolExecution") {
                Some(v) => Some(v),
                None => match event.get("toolExecutionStart") {
                    Some(v) => Some(v),
                    None => match event.get("toolExecutionUpdate") {
                        Some(v) => Some(v),
                        None => event.get("toolExecutionEnd"),
                    },
                },
            };
            match tool {
                Some(v) => {
                    push_entry(members, "tool", v.copy());
                },
                None => {},
            }
        } else if str_eq(t, "queue_update") {
            push_copy(members, event, "queue");
            push_copy(members, event, "queueLength");
        } else if str_eq(t, "extension_error") {
            push_copy(members, event, "error");
        }
        assert(members_view(members@) =~= before + extra_entries(*event, t@, self.response_routes@, self.current_origin_client_id, Seq::empty()));
    }

    /// Appends the members that address a bash update with Pi identifier `internal`, keeping
    /// its route.
    fn push_route_of(&self, members: &mut Vec<(String, JsonValue)>, internal: &JsonValue)
        requires
            pi_session_wf(*self),
        ensures
            members_view(final(members)@) == members_view(old(members)@) + routed_id_entries(*internal, self.response_routes@),
    {
        proof {
            reveal_strlit("");
            assert(""@ =~= Seq::<char>::empty());
        }
        let found = match internal {
            JsonValue::Str(t) => match find(&self.response_routes, t.as_str(), "") {
                Some(i) => Some(i),
                None => None,
            },
            _ => None,
        };
        let ghost before = members_view(members@);
        match found {
            Some(i) => {
                let route = &self.response_routes[i];
                push_entry(members, "id", route.external_id.copy());
                match &route.target_client_id {
                    Some(c) => {
                        push_entry(members, "target_client_id", JsonValue::Str(c.clone()));
                    },
                    None => {},
                }
                assert(members_view(members@) =~= before + routed_id_entries(*internal, self.response_routes@));
            },
            None => {
                push_entry(members, "id", internal.copy());
                assert(members_view(members@) =~= before + routed_id_entries(*internal, self.response_routes@));
            },
        }
    }

    /// Appends the members of an extension UI request event (see `extension_entries`) and
    /// remembers a request that waits for an answer; returns the request's identifier.
    fn push_extension_request(&mut self, members: &mut Vec<(String, JsonValue)>, event: &JsonValue, now: u64) -> (rid: String)
        requires
            pi_session_wf(*old(self)),
        ensures
            pi_session_wf(*final(self)),
            final(self).current_origin_client_id == old(self).current_origin_client_id,
            final(self).recent_events == old(self).recent_events,
            final(self).response_routes == old(self).response_routes,
            match extension_request_id_of(*event) {
                Some(given) => rid@ == given,
                None => exists|u: Seq<char>| u.len() == 32 && rid@ == "extui_"@ + u,
            },
            members_view(final(members)@) == members_view(old(members)@)
                + extension_entries(*event, rid@, old(self).current_origin_client_id),
            extension_pending(final(self).pending_extension_ui@, old(self).pending_extension_ui@, *event, rid@,
                old(self).current_origin_client_id, now),
    {
        proof {
            reveal_strlit("unknown");
            reveal_strlit("extui_");
        }
        let method = match extension_method(event) {
            Some(m) => m,
            None => copy_text("unknown"),
        };
        let request_id = match extension_request_id(event) {
            Some(id) => id,
            None => {
                let u = new_uuid_simple();
                let id = concat("extui_", u.as_str());
                assert(id@ =~= "extui_"@ + u@);
                id
            },
        };
        let origin = match &self.current_origin_client_id {
            Some(o) => Some(o.clone()),
            None => None,
        };
        let expects = extension_method_expects_response(method.as_str());
        let ghost before = members_view(members@);
        push_entry(members, "request_id", JsonValue::Str(request_id.clone()));
        push_entry(members, "method", JsonValue::Str(method.clone()));
        push_entry(members, "expects_response", JsonValue::Bool(expects));
        let target = match &origin {
            Some(o) => JsonValue::Str(o.clone()),
            None => JsonValue::Null,
        };
        push_entry(members, "target_client_id", target);
        let ghost heads = members_view(members@);
        assert(heads =~= before + seq![
            ("request_id"@, JsonView::Str(request_id@)),
            ("method"@, JsonView::Str(extension_method_name(*event))),
            ("expects_response"@, JsonView::Bool(expects_response(extension_method_name(*event)))),
            ("target_client_id"@, match self.current_origin_client_id {
                Some(o) => JsonView::Str(o@),
                None => JsonView::Null,
            }),
        ]);
        push_extension_details(members, event);
        assert(members_view(members@) =~= before + extension_entries(*event, request_id@, self.current_origin_client_id));
        let rid = request_id.clone();
        if expects {
            upsert(&mut self.pending_extension_ui, ExtensionUiRequest {
                request_id,
                method,
                origin_client_id: origin,
                created_at: now,
            });
        }
        rid
    }
}

} // verus!
