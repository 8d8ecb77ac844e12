//! What a node decides about one Pi session: which commands it forwards and on which lane, how
//! it tags commands so that responses find their way back, which pending extension UI requests it
//! expects answers to, and the bounded logs it keeps.

use vstd::prelude::*;
use crate::crypto::new_uuid_simple;
use crate::json::{JsonValue, field, field_text, opt_text, opt_string, json_same};
use crate::keyed::{Keyed, keys_sorted, lookup, upsert, remove_key, find};
use crate::node_records::SessionStatus;
use crate::policy::{CommandPolicy, command_policy, pi_command_policy};
use crate::text::{str_eq, copy_text, concat, debug_text, debug_quote};

verus! {

/// The `type` of a Pi message, or the empty text when it has none.
pub open spec fn pi_type(event: JsonValue) -> Seq<char> {
    match field_text(event, "type"@) {
        Some(t) => t,
        None => Seq::empty(),
    }
}

/// The session status a Pi event announces: running when an agent or a turn starts, idle when
/// the agent settles.
pub open spec fn announced_status(event: JsonValue) -> Option<SessionStatus> {
    let t = field_text(event, "type"@);
    if t == Some("agent_start"@) || t == Some("turn_start"@) {
        Some(SessionStatus::Running)
    } else if t == Some("agent_settled"@) {
        Some(SessionStatus::Idle)
    } else {
        None
    }
}

/// A Pi event announces that the session runs exactly when the node reports it as
/// `session.running`, and that it is idle exactly when the node reports it as `session.idle`; no
/// other event changes the session's status.
pub proof fn lemma_status_follows_reported_kind(event: JsonValue)
    ensures
        announced_status(event) == Some(SessionStatus::Running)
            <==> (field_text(event, "type"@) matches Some(t) && crate::pi_events::event_kind(t) == "session.running"@),
        announced_status(event) == Some(SessionStatus::Idle)
            <==> (field_text(event, "type"@) matches Some(t) && crate::pi_events::event_kind(t) == "session.idle"@),
        !(announced_status(event) is Some) <==> !(field_text(event, "type"@) matches Some(t)
            && (crate::pi_events::event_kind(t) == "session.running"@ || crate::pi_events::event_kind(t) == "session.idle"@)),
{
    reveal_strlit("response");
    reveal_strlit("agent_start");
    reveal_strlit("turn_start");
    reveal_strlit("agent_settled");
    reveal_strlit("agent_end");
    reveal_strlit("turn_end");
    reveal_strlit("message_start");
    reveal_strlit("message_update");
    reveal_strlit("message_end");
    reveal_strlit("bash_execution_update");
    reveal_strlit("tool_execution_start");
    reveal_strlit("tool_execution_update");
    reveal_strlit("tool_execution_end");
    reveal_strlit("queue_update");
    reveal_strlit("compaction_start");
    reveal_strlit("compaction_end");
    reveal_strlit("auto_retry_start");
    reveal_strlit("auto_retry_end");
    reveal_strlit("summarization_retry_scheduled");
    reveal_strlit("summarization_retry_attempt_start");
    reveal_strlit("summarization_retry_finished");
    reveal_strlit("extension_ui_request");
    reveal_strlit("extension_error");
    reveal_strlit("session.command_response");
    reveal_strlit("session.running");
    reveal_strlit("session.idle");
    reveal_strlit("session.turn_ended");
    reveal_strlit("session.message_start");
    reveal_strlit("session.output_delta");
    reveal_strlit("session.message_end");
    reveal_strlit("session.bash_update");
    reveal_strlit("session.tool_start");
    reveal_strlit("session.tool_update");
    reveal_strlit("session.tool_end");
    reveal_strlit("session.queue_update");
    reveal_strlit("session.compaction_start");
    reveal_strlit("session.compaction_end");
    reveal_strlit("session.auto_retry_start");
    reveal_strlit("session.auto_retry_end");
    reveal_strlit("session.summarization_retry_scheduled");
    reveal_strlit("session.summarization_retry_attempt_start");
    reveal_strlit("session.summarization_retry_finished");
    reveal_strlit("session.extension_ui_request");
    reveal_strlit("session.extension_error");
    reveal_strlit("session.event_ignored");
    assert("response"@.len() == 8);
    assert("agent_start"@.len() == 11);
    assert("turn_start"@.len() == 10);
    assert("agent_settled"@.len() == 13);
    assert("agent_end"@.len() == 9);
    assert("turn_end"@.len() == 8);
    assert("message_start"@.len() == 13);
    assert("message_update"@.len() == 14);
    assert("message_end"@.len() == 11);
    assert("bash_execution_update"@.len() == 21);
    assert("tool_execution_start"@.len() == 20);
    assert("tool_execution_update"@.len() == 21);
    assert("tool_execution_end"@.len() == 18);
    assert("queue_update"@.len() == 12);
    assert("compaction_start"@.len() == 16);
    assert("compaction_end"@.len() == 14);
    assert("auto_retry_start"@.len() == 16);
    assert("auto_retry_end"@.len() == 14);
    assert("summarization_retry_scheduled"@.len() == 29);
    assert("summarization_retry_attempt_start"@.len() == 33);
    assert("summarization_retry_finished"@.len() == 28);
    assert("extension_ui_request"@.len() == 20);
    assert("extension_error"@.len() == 15);
    assert("session.command_response"@.len() == 24);
    assert("session.running"@.len() == 15);
    assert("session.idle"@.len() == 12);
    assert("session.turn_ended"@.len() == 18);
    assert("session.message_start"@.len() == 21);
    assert("session.output_delta"@.len() == 20);
    assert("session.message_end"@.len() == 19);
    assert("session.bash_update"@.len() == 19);
    assert("session.tool_start"@.len() == 18);
    assert("session.tool_update"@.len() == 19);
    assert("session.tool_end"@.len() == 16);
    assert("session.queue_update"@.len() == 20);
    assert("session.compaction_start"@.len() == 24);
    assert("session.compaction_end"@.len() == 22);
    assert("session.auto_retry_start"@.len() == 24);
    assert("session.auto_retry_end"@.len() == 22);
    assert("session.summarization_retry_scheduled"@.len() == 37);
    assert("session.summarization_retry_attempt_start"@.len() == 41);
    assert("session.summarization_retry_finished"@.len() == 36);
    assert("session.extension_ui_request"@.len() == 28);
    assert("session.extension_error"@.len() == 23);
    assert("session.event_ignored"@.len() == 21);
    assert("response"@[0] == 'r');
    assert("turn_end"@[0] == 't');
    assert("agent_start"@[0] == 'a');
    assert("message_end"@[0] == 'm');
    assert("agent_settled"@[0] == 'a');
    assert("message_start"@[0] == 'm');
    assert("message_update"@[0] == 'm');
    assert("compaction_end"@[0] == 'c');
    assert("auto_retry_end"@[0] == 'a');
    assert("bash_execution_update"@[0] == 'b');
    assert("tool_execution_update"@[0] == 't');
    assert("session.message_start"@[0] == 's');
    assert("session.message_start"@[8] == 'm');
    assert("session.event_ignored"@[0] == 's');
    assert("session.event_ignored"@[8] == 'e');
    assert("tool_execution_start"@[0] == 't');
    assert("extension_ui_request"@[0] == 'e');
    assert("session.output_delta"@[0] == 's');
    assert("session.output_delta"@[8] == 'o');
    assert("session.queue_update"@[0] == 's');
    assert("session.queue_update"@[8] == 'q');
    assert("tool_execution_end"@[0] == 't');
    assert("session.turn_ended"@[0] == 's');
    assert("session.turn_ended"@[9] == 'u');
    assert("session.tool_start"@[0] == 's');
    assert("session.tool_start"@[9] == 'o');
    assert("queue_update"@[0] == 'q');
    assert("session.idle"@[0] == 's');
    assert("compaction_start"@[0] == 'c');
    assert("auto_retry_start"@[0] == 'a');
    assert("session.tool_end"@[0] == 's');
    assert("summarization_retry_finished"@[1] == 'u');
    assert("session.extension_ui_request"@[1] == 'e');
    assert("extension_error"@[0] == 'e');
    assert("session.running"@[0] == 's');
    assert("session.command_response"@[8] == 'c');
    assert("session.command_response"@[11] == 'm');
    assert("session.compaction_start"@[8] == 'c');
    assert("session.compaction_start"@[11] == 'p');
    assert("session.auto_retry_start"@[8] == 'a');
    assert("session.message_end"@[8] == 'm');
    assert("session.bash_update"@[8] == 'b');
    assert("session.tool_update"@[8] == 't');
    assert("session.compaction_end"@[8] == 'c');
    assert("session.auto_retry_end"@[8] == 'a');
}

/// The session status a Pi event announces, if any.
pub fn session_status_for_pi_event(event: &JsonValue) -> (r: Option<SessionStatus>)
    ensures
        r == announced_status(*event),
{
    match event.get_str("type") {
        Some(t) => {
            if str_eq(t, "agent_start") || str_eq(t, "turn_start") {
                Some(SessionStatus::Running)
            } else if str_eq(t, "agent_settled") {
                Some(SessionStatus::Idle)
            } else {
                None
            }
        },
        None => None,
    }
}

/// Read-only Pi commands, which a stopped or crashed session still answers.
pub open spec fn is_diagnostic_type(t: Seq<char>) -> bool {
    t == "get_state"@ || t == "get_messages"@ || t == "get_available_models"@
        || t == "get_available_thinking_levels"@ || t == "get_session_stats"@
        || t == "get_fork_messages"@ || t == "get_entries"@ || t == "get_tree"@
        || t == "get_last_assistant_text"@ || t == "get_commands"@
}

/// The read-only Pi commands are exactly the forwarded commands that ask for something: those
/// whose type begins with `get_`.
pub proof fn lemma_diagnostic_commands_are_the_queries(t: Seq<char>)
    ensures
        is_diagnostic_type(t) <==> (crate::policy::forwarded_command_types().contains(t) && t.len() >= 4
            && t.subrange(0, 4) == "get_"@),
{
    reveal_strlit("prompt");
    reveal_strlit("steer");
    reveal_strlit("follow_up");
    reveal_strlit("abort");
    reveal_strlit("clear_queue");
    reveal_strlit("get_state");
    reveal_strlit("get_messages");
    reveal_strlit("set_model");
    reveal_strlit("cycle_model");
    reveal_strlit("get_available_models");
    reveal_strlit("set_thinking_level");
    reveal_strlit("cycle_thinking_level");
    reveal_strlit("get_available_thinking_levels");
    reveal_strlit("set_steering_mode");
    reveal_strlit("set_follow_up_mode");
    reveal_strlit("compact");
    reveal_strlit("set_auto_compaction");
    reveal_strlit("set_auto_retry");
    reveal_strlit("abort_retry");
    reveal_strlit("bash");
    reveal_strlit("abort_bash");
    reveal_strlit("get_session_stats");
    reveal_strlit("export_html");
    reveal_strlit("get_fork_messages");
    reveal_strlit("get_entries");
    reveal_strlit("get_tree");
    reveal_strlit("get_last_assistant_text");
    reveal_strlit("set_session_name");
    reveal_strlit("get_commands");
    reveal_strlit("extension_ui_response");
    assert("prompt"@.len() == 6);
    assert("steer"@.len() == 5);
    assert("follow_up"@.len() == 9);
    assert("abort"@.len() == 5);
    assert("clear_queue"@.len() == 11);
    assert("get_state"@.len() == 9);
    assert("get_messages"@.len() == 12);
    assert("set_model"@.len() == 9);
    assert("cycle_model"@.len() == 11);
    assert("get_available_models"@.len() == 20);
    assert("set_thinking_level"@.len() == 18);
    assert("cycle_thinking_level"@.len() == 20);
    assert("get_available_thinking_levels"@.len() == 29);
    assert("set_steering_mode"@.len() == 17);
    assert("set_follow_up_mode"@.len() == 18);
    assert("compact"@.len() == 7);
    assert("set_auto_compaction"@.len() == 19);
    assert("set_auto_retry"@.len() == 14);
    assert("abort_retry"@.len() == 11);
    assert("bash"@.len() == 4);
    assert("abort_bash"@.len() == 10);
    assert("get_session_stats"@.len() == 17);
    assert("export_html"@.len() == 11);
    assert("get_fork_messages"@.len() == 17);
    assert("get_entries"@.len() == 11);
    assert("get_tree"@.len() == 8);
    assert("get_last_assistant_text"@.len() == 23);
    assert("set_session_name"@.len() == 16);
    assert("get_commands"@.len() == 12);
    assert("extension_ui_response"@.len() == 21);
    assert("steer"@[0] == 's');
    assert("abort"@[0] == 'a');
    assert("follow_up"@[0] == 'f');
    assert("get_state"@[0] == 'g');
    assert("set_model"@[0] == 's');
    assert("clear_queue"@[0] == 'c');
    assert("clear_queue"@[1] == 'l');
    assert("cycle_model"@[0] == 'c');
    assert("cycle_model"@[1] == 'y');
    assert("abort_retry"@[0] == 'a');
    assert("export_html"@[0] == 'e');
    assert("get_entries"@[0] == 'g');
    assert("get_messages"@[4] == 'm');
    assert("get_commands"@[4] == 'c');
    assert("get_available_models"@[0] == 'g');
    assert("cycle_thinking_level"@[0] == 'c');
    assert("set_thinking_level"@[4] == 't');
    assert("set_follow_up_mode"@[4] == 'f');
    assert("set_steering_mode"@[0] == 's');
    assert("get_session_stats"@[0] == 'g');
    assert("get_session_stats"@[4] == 's');
    assert("get_fork_messages"@[0] == 'g');
    assert("get_fork_messages"@[4] == 'f');
    reveal_strlit("get_");
    assert("get_"@.len() == 4);
    assert("get_"@[0] == 'g');
    assert("get_"@[1] == 'e');
    assert("get_"@[2] == 't');
    assert("get_"@[3] == '_');
    assert("prompt"@[0] == 'p');
    assert("prompt"@.subrange(0, 4)[0] != "get_"@[0]);
    assert("steer"@[0] == 's');
    assert("steer"@.subrange(0, 4)[0] != "get_"@[0]);
    assert("follow_up"@[0] == 'f');
    assert("follow_up"@.subrange(0, 4)[0] != "get_"@[0]);
    assert("abort"@[0] == 'a');
    assert("abort"@.subrange(0, 4)[0] != "get_"@[0]);
    assert("clear_queue"@[0] == 'c');
    assert("clear_queue"@.subrange(0, 4)[0] != "get_"@[0]);
    assert("get_state"@.subrange(0, 4) =~= "get_"@);
    assert("get_messages"@.subrange(0, 4) =~= "get_"@);
    assert("set_model"@[0] == 's');
    assert("set_model"@.subrange(0, 4)[0] != "get_"@[0]);
    assert("cycle_model"@[0] == 'c');
    assert("cycle_model"@.subrange(0, 4)[0] != "get_"@[0]);
    assert("get_available_models"@.subrange(0, 4) =~= "get_"@);
    assert("set_thinking_level"@[0] == 's');
    assert("set_thinking_level"@.subrange(0, 4)[0] != "get_"@[0]);
    assert("cycle_thinking_level"@[0] == 'c');
    assert("cycle_thinking_level"@.subrange(0, 4)[0] != "get_"@[0]);
    assert("get_available_thinking_levels"@.subrange(0, 4) =~= "get_"@);
    assert("set_steering_mode"@[0] == 's');
    assert("set_steering_mode"@.subrange(0, 4)[0] != "get_"@[0]);
    assert("set_follow_up_mode"@[0] == 's');
    assert("set_follow_up_mode"@.subrange(0, 4)[0] != "get_"@[0]);
    assert("compact"@[0] == 'c');
    assert("compact"@.subrange(0, 4)[0] != "get_"@[0]);
    assert("set_auto_compaction"@[0] == 's');
    assert("set_auto_compaction"@.subrange(0, 4)[0] != "get_"@[0]);
    assert("set_auto_retry"@[0] == 's');
    assert("set_auto_retry"@.subrange(0, 4)[0] != "get_"@[0]);
    assert("abort_retry"@[0] == 'a');
    assert("abort_retry"@.subrange(0, 4)[0] != "get_"@[0]);
    assert("bash"@[0] == 'b');
    assert("bash"@.subrange(0, 4)[0] != "get_"@[0]);
    assert("abort_bash"@[0] == 'a');
    assert("abort_bash"@.subrange(0, 4)[0] != "get_"@[0]);
    assert("get_session_stats"@.subrange(0, 4) =~= "get_"@);
    assert("export_html"@[0] == 'e');
    assert("export_html"@.subrange(0, 4)[0] != "get_"@[0]);
    assert("get_fork_messages"@.subrange(0, 4) =~= "get_"@);
    assert("get_entries"@.subrange(0, 4) =~= "get_"@);
    assert("get_tree"@.subrange(0, 4) =~= "get_"@);
    assert("get_last_assistant_text"@.subrange(0, 4) =~= "get_"@);
    assert("set_session_name"@[0] == 's');
    assert("set_session_name"@.subrange(0, 4)[0] != "get_"@[0]);
    assert("get_commands"@.subrange(0, 4) =~= "get_"@);
    assert("extension_ui_response"@[0] == 'e');
    assert("extension_ui_response"@.subrange(0, 4)[0] != "get_"@[0]);
}

/// Whether a Pi command only reads the session's state.
pub fn is_diagnostic_pi_command(command: &JsonValue) -> (r: bool)
    ensures
        r == (field_text(*command, "type"@) matches Some(t) && is_diagnostic_type(t)),
{
    match command.get_str("type") {
        Some(t) => str_eq(t, "get_state") || str_eq(t, "get_messages") || str_eq(t, "get_available_models")
            || str_eq(t, "get_available_thinking_levels") || str_eq(t, "get_session_stats")
            || str_eq(t, "get_fork_messages") || str_eq(t, "get_entries") || str_eq(t, "get_tree")
            || str_eq(t, "get_last_assistant_text") || str_eq(t, "get_commands"),
        None => false,
    }
}

/// Admits a Pi command by the policy for its type; a command must name its type.
pub fn validate_pi_command(command: &JsonValue) -> (r: Result<(), String>)
    ensures
        match field_text(*command, "type"@) {
            None => r matches Err(m) && m@ == "command.type is required"@,
            Some(t) => match command_policy(t) {
                CommandPolicy::Allowed => r is Ok,
                CommandPolicy::DeniedSessionBinding => r matches Err(m) && m@ == "Pi command "@ + debug_text(t)
                    + " is denied until PumpkinPi can update session bindings atomically"@,
                CommandPolicy::Unknown => r matches Err(m) && m@ == "unknown Pi command type: "@ + t,
            },
        },
{
    let t = match command.get_str("type") {
        None => {
            return Err(copy_text("command.type is required"));
        },
        Some(t) => t,
    };
    match pi_command_policy(t) {
        CommandPolicy::Allowed => Ok(()),
        CommandPolicy::DeniedSessionBinding => {
            let mut m = concat("Pi command ", debug_quote(t).as_str());
            m.append(" is denied until PumpkinPi can update session bindings atomically");
            Err(m)
        },
        CommandPolicy::Unknown => Err(concat("unknown Pi command type: ", t)),
    }
}

/// The first of `request_id`, `requestId` and `id` that a message has, as text.
pub open spec fn extension_request_id_of(v: JsonValue) -> Option<Seq<char>> {
    let f = if field(v, "request_id"@) is Some {
        field(v, "request_id"@)
    } else if field(v, "requestId"@) is Some {
        field(v, "requestId"@)
    } else {
        field(v, "id"@)
    };
    crate::json::as_text(f)
}

/// The identifier of an extension UI request or response.
pub fn extension_request_id(value: &JsonValue) -> (r: Option<String>)
    ensures
        opt_string(r) == extension_request_id_of(*value),
{
    let f = match value.get("request_id") {
        Some(v) => Some(v),
        None => match value.get("requestId") {
            Some(v) => Some(v),
            None => value.get("id"),
        },
    };
    match f {
        Some(JsonValue::Str(s)) => Some(s.clone()),
        _ => None,
    }
}

/// The method of an extension UI request: its `method`, or that of its `extensionUiRequest`.
pub open spec fn extension_method_of(v: JsonValue) -> Option<Seq<char>> {
    let f = if field(v, "method"@) is Some {
        field(v, "method"@)
    } else {
        match field(v, "extensionUiRequest"@) {
            Some(inner) => field(inner, "method"@),
            None => None,
        }
    };
    crate::json::as_text(f)
}

/// The method of an extension UI request.
pub fn extension_method(value: &JsonValue) -> (r: Option<String>)
    ensures
        opt_string(r) == extension_method_of(*value),
{
    let f = match value.get("method") {
        Some(v) => Some(v),
        None => match value.get("extensionUiRequest") {
            Some(inner) => inner.get("method"),
            None => None,
        },
    };
    match f {
        Some(JsonValue::Str(s)) => Some(s.clone()),
        _ => None,
    }
}

/// Extension UI methods that wait for the user's answer.
pub open spec fn expects_response(method: Seq<char>) -> bool {
    method == "select"@ || method == "confirm"@ || method == "input"@ || method == "editor"@
}

/// Whether an extension UI method waits for the user's answer.
pub fn extension_method_expects_response(method: &str) -> (r: bool)
    ensures
        r == expects_response(method@),
{
    str_eq(method, "select") || str_eq(method, "confirm") || str_eq(method, "input") || str_eq(method, "editor")
}

/// `field` of `to` holds a copy of `field` of `from`, or nothing when `from` has none.
pub open spec fn copied(to: JsonValue, from: JsonValue, key: Seq<char>) -> bool {
    match field(from, key) {
        Some(v) => field(to, key) matches Some(w) && json_same(v, w),
        None => field(to, key) is None,
    }
}

/// Copies `field` of `from` into `to`, when `from` has it.
pub fn copy_field(from: &JsonValue, to: &mut JsonValue, key: &str)
    requires
        *old(to) is Object,
    ensures
        *final(to) is Object,
        field(*old(to), key@) is None ==> copied(*final(to), *from, key@),
        field(*from, key@) is Some ==> copied(*final(to), *from, key@),
        field(*from, key@) is None ==> *final(to) == *old(to),
        forall|k: Seq<char>| k != key@ ==> field(*final(to), k) == field(*old(to), k),
{
    match from.get(key) {
        Some(v) => {
            let c = v.copy();
            to.set(key, c);
        },
        None => {},
    }
}

/// The queue a command for a running Pi process goes to: answers to extension UI requests
/// unblock it, cancellations overtake queued work, and everything else waits its turn.
#[derive(Debug, Clone, Copy, PartialEq, Eq, Structural)]
pub enum Lane {
    Unblock,
    Cancellation,
    Normal,
}

/// The lane for a Pi command of type `t` (`None` for a stop request).
pub open spec fn lane_for(t: Option<Seq<char>>) -> Lane {
    match t {
        Some(x) => if x == "extension_ui_response"@ {
            Lane::Unblock
        } else if x == "abort"@ || x == "abort_bash"@ || x == "abort_retry"@ || x == "clear_queue"@ {
            Lane::Cancellation
        } else {
            Lane::Normal
        },
        None => Lane::Normal,
    }
}

/// Which lane a Pi command takes, over every command: an answer to an extension prompt unblocks
/// Pi and takes the unblocking lane; aborting (a prompt, a shell command or a retry) and clearing
/// the queue take the cancellation lane; every other command, and a stop request, takes the
/// normal lane.
pub proof fn lemma_lanes(t: Seq<char>)
    ensures
        lane_for(Some(t)) == Lane::Unblock <==> t == "extension_ui_response"@,
        lane_for(Some(t)) == Lane::Cancellation <==> set!["abort"@, "abort_bash"@, "abort_retry"@, "clear_queue"@].contains(t),
        lane_for(None) == Lane::Normal,
{
    reveal_strlit("abort");
    reveal_strlit("abort_bash");
    reveal_strlit("abort_retry");
    reveal_strlit("clear_queue");
    reveal_strlit("extension_ui_response");
    assert("abort"@.len() == 5);
    assert("abort_bash"@.len() == 10);
    assert("abort_retry"@.len() == 11);
    assert("clear_queue"@.len() == 11);
    assert("extension_ui_response"@.len() == 21);
    assert("abort_retry"@[0] == 'a');
    assert("clear_queue"@[0] == 'c');
}

/// The lane a Pi command is dispatched on.
pub fn runtime_lane(command: &JsonValue) -> (r: Lane)
    ensures
        r == lane_for(field_text(*command, "type"@)),
{
    match command.get_str("type") {
        Some(t) => {
            if str_eq(t, "extension_ui_response") {
                Lane::Unblock
            } else if str_eq(t, "abort") || str_eq(t, "abort_bash") || str_eq(t, "abort_retry") || str_eq(t, "clear_queue") {
                Lane::Cancellation
            } else {
                Lane::Normal
            }
        },
        None => Lane::Normal,
    }
}

/// How many recent normalized events a session keeps.
pub const RECENT_EVENT_CAPACITY: usize = 256;

/// How many lines of a Pi process's standard error a session keeps.
pub const STDERR_TAIL_CAPACITY: usize = 100;

/// `buf` after keeping `item` in a log of at most `cap` entries: when full, the oldest entry goes.
pub open spec fn bounded_push<T>(buf: Seq<T>, item: T, cap: nat) -> Seq<T> {
    if buf.len() >= cap && buf.len() > 0 {
        buf.drop_first().push(item)
    } else {
        buf.push(item)
    }
}

/// Appends `item` to a log of at most `cap` entries, dropping the oldest entry when it is full.
pub fn push_bounded<T>(buf: &mut Vec<T>, item: T, cap: usize)
    requires
        cap > 0,
        old(buf)@.len() <= cap,
    ensures
        final(buf)@ == bounded_push(old(buf)@, item, cap as nat),
        final(buf)@.len() <= cap,
{
    if buf.len() == cap {
        buf.remove(0);
    }
    buf.push(item);
}

/// A route back from a tagged Pi command to the client that sent it and the identifier the
/// client used.
#[derive(Debug)]
pub struct ResponseRoute {
    pub internal_id: String,
    pub target_client_id: Option<String>,
    pub external_id: JsonValue,
}

impl Keyed for ResponseRoute {
    open spec fn key(&self) -> (Seq<char>, Seq<char>) {
        (self.internal_id@, Seq::empty())
    }

    fn key_first(&self) -> (r: &str) {
        self.internal_id.as_str()
    }

    fn key_second(&self) -> (r: &str) {
        proof {
            reveal_strlit("");
        }
        ""
    }
}

/// An extension UI request that waits for a user's answer.
#[derive(Debug)]
pub struct ExtensionUiRequest {
    pub request_id: String,
    pub method: String,
    pub origin_client_id: Option<String>,
    pub created_at: u64,
}

impl Keyed for ExtensionUiRequest {
    open spec fn key(&self) -> (Seq<char>, Seq<char>) {
        (self.request_id@, Seq::empty())
    }

    fn key_first(&self) -> (r: &str) {
        self.request_id.as_str()
    }

    fn key_second(&self) -> (r: &str) {
        proof {
            reveal_strlit("");
        }
        ""
    }
}

/// What a node remembers about one running Pi session.
#[derive(Debug)]
pub struct PiSession {
    /// Ordered by internal identifier.
    pub response_routes: Vec<ResponseRoute>,
    /// Ordered by request identifier.
    pub pending_extension_ui: Vec<ExtensionUiRequest>,
    /// The client whose command Pi is working on.
    pub current_origin_client_id: Option<String>,
    /// The latest normalized events, oldest first.
    pub recent_events: Vec<JsonValue>,
}

pub open spec fn pi_session_wf(s: PiSession) -> bool {
    &&& keys_sorted(s.response_routes@)
    &&& keys_sorted(s.pending_extension_ui@)
    &&& s.recent_events@.len() <= RECENT_EVENT_CAPACITY
}

/// The key of the entry for identifier `id`.
pub open spec fn id_key(id: Seq<char>) -> (Seq<char>, Seq<char>) {
    (id, Seq::empty())
}

impl PiSession {
    /// A session with no routes, no pending requests and no events.
    pub fn new() -> (r: PiSession)
        ensures
            pi_session_wf(r),
            r.response_routes@.len() == 0,
            r.pending_extension_ui@.len() == 0,
            r.current_origin_client_id is None,
            r.recent_events@.len() == 0,
    {
        PiSession {
            response_routes: Vec::new(),
            pending_extension_ui: Vec::new(),
            current_origin_client_id: None,
            recent_events: Vec::new(),
        }
    }

    /// Keeps a normalized event among the session's recent events.
    pub fn remember_recent_event(&mut self, event: JsonValue)
        requires
            pi_session_wf(*old(self)),
        ensures
            pi_session_wf(*final(self)),
            final(self).recent_events@ == bounded_push(old(self).recent_events@, event, RECENT_EVENT_CAPACITY as nat),
            final(self).response_routes == old(self).response_routes,
            final(self).pending_extension_ui == old(self).pending_extension_ui,
            final(self).current_origin_client_id == old(self).current_origin_client_id,
    {
        push_bounded(&mut self.recent_events, event, RECENT_EVENT_CAPACITY);
    }
}

/// The name a tagged command carries for its origin: the client's, or `node` for the node's own.
pub open spec fn origin_label(origin: Option<Seq<char>>) -> Seq<char> {
    match origin {
        Some(o) => o,
        None => "node"@,
    }
}

/// Tags a command for Pi with an identifier that routes its response: the origin (see
/// `origin_label`), a colon, and the command's own text identifier, or `req_` and a fresh UUID
/// when it has none. The tag replaces the command's `id` and is returned.
pub fn ensure_internal_pi_id(command: &mut JsonValue, origin_client_id: Option<&str>) -> (r: String)
    requires
        *old(command) is Object,
    ensures
        *final(command) is Object,
        field(*final(command), "id"@) matches Some(JsonValue::Str(t)) && t@ == r@,
        forall|k: Seq<char>| k != "id"@ ==> field(*final(command), k) == field(*old(command), k),
        match field_text(*old(command), "id"@) {
            Some(e) => r@ == origin_label(opt_text(origin_client_id)) + ":"@ + e,
            None => exists|u: Seq<char>| u.len() == 32 && r@ == origin_label(opt_text(origin_client_id)) + ":req_"@ + u,
        },
{
    let external = match command.get_str("id") {
        Some(e) => copy_text(e),
        None => concat("req_", new_uuid_simple().as_str()),
    };
    proof {
        reveal_strlit("req_");
        reveal_strlit("node");
        reveal_strlit(":");
        reveal_strlit(":req_");
    }
    let mut internal = match origin_client_id {
        Some(o) => copy_text(o),
        None => copy_text("node"),
    };
    internal.append(":");
    internal.append(external.as_str());
    proof {
        if field_text(*old(command), "id"@) is None {
            let u = external@.subrange(4, 36);
            assert(external@ =~= "req_"@ + u);
            assert(internal@ =~= origin_label(opt_text(origin_client_id)) + ":req_"@ + u);
        } else {
            assert(internal@ =~= origin_label(opt_text(origin_client_id)) + ":"@ + external@);
        }
    }
    command.set("id", JsonValue::Str(internal.clone()));
    internal
}

impl PiSession {
    /// Prepares a client's command for Pi: the client becomes the session's current origin, the
    /// command is tagged (see `ensure_internal_pi_id`), and the tag routes Pi's response back to
    /// the client under the identifier it used. Returns the command to write to Pi.
    pub fn prepare_command(&mut self, command: JsonValue, origin_client_id: Option<String>, origin_external_id: JsonValue) -> (r: JsonValue)
        requires
            pi_session_wf(*old(self)),
            command is Object,
        ensures
            pi_session_wf(*final(self)),
            final(self).current_origin_client_id == origin_client_id,
            final(self).pending_extension_ui == old(self).pending_extension_ui,
            final(self).recent_events == old(self).recent_events,
            r is Object,
            forall|k: Seq<char>| k != "id"@ ==> field(r, k) == field(command, k),
            field(r, "id"@) matches Some(JsonValue::Str(t)) && {
                &&& lookup(final(self).response_routes@, id_key(t@)) == Some(ResponseRoute {
                    internal_id: lookup(final(self).response_routes@, id_key(t@))->0.internal_id,
                    target_client_id: origin_client_id,
                    external_id: origin_external_id,
                })
                &&& forall|k: (Seq<char>, Seq<char>)| k != id_key(t@) ==> #[trigger] lookup(final(self).response_routes@, k) == lookup(old(self).response_routes@, k)
                &&& match field_text(command, "id"@) {
                    Some(e) => t@ == origin_label(opt_string(origin_client_id)) + ":"@ + e,
                    None => exists|u: Seq<char>| u.len() == 32 && t@ == origin_label(opt_string(origin_client_id)) + ":req_"@ + u,
                }
            },
    {
        let mut command = command;
        let origin_copy = match &origin_client_id {
            Some(o) => Some(o.clone()),
            None => None,
        };
        let internal = match &origin_client_id {
            Some(o) => ensure_internal_pi_id(&mut command, Some(o.as_str())),
            None => ensure_internal_pi_id(&mut command, None),
        };
        self.current_origin_client_id = origin_client_id;
        upsert(&mut self.response_routes, ResponseRoute {
            internal_id: internal,
            target_client_id: origin_copy,
            external_id: origin_external_id,
        });
        command
    }
}

impl PiSession {
    /// A command the node itself sends Pi (`get_state`, `get_entries`, or `switch_session` with
    /// the session file): tagged `node:`, a fresh UUID, a colon and its type, with its response
    /// routed to no client under that same tag.
    pub fn probe_command(&mut self, kind: &str, session_path: Option<&str>) -> (r: JsonValue)
        requires
            pi_session_wf(*old(self)),
        ensures
            pi_session_wf(*final(self)),
            final(self).current_origin_client_id == old(self).current_origin_client_id,
            final(self).pending_extension_ui == old(self).pending_extension_ui,
            final(self).recent_events == old(self).recent_events,
            r is Object,
            field_text(r, "type"@) == Some(kind@),
            field_text(r, "sessionPath"@) == opt_text(session_path),
            forall|k: Seq<char>| k != "id"@ && k != "type"@ && k != "sessionPath"@ ==> field(r, k) is None,
            field(r, "id"@) matches Some(JsonValue::Str(t)) && {
                &&& exists|u: Seq<char>| u.len() == 32 && t@ == "node:"@ + u + ":"@ + kind@
                &&& lookup(final(self).response_routes@, id_key(t@)) matches Some(route)
                    && route.target_client_id is None && (route.external_id matches JsonValue::Str(x) && x@ == t@)
                &&& forall|k: (Seq<char>, Seq<char>)| k != id_key(t@) ==> #[trigger] lookup(final(self).response_routes@, k) == lookup(old(self).response_routes@, k)
            },
    {
        let u = new_uuid_simple();
        let mut id = concat("node:", u.as_str());
        id.append(":");
        id.append(kind);
        proof {
            reveal_strlit("node:");
            reveal_strlit(":");
            assert(id@ =~= "node:"@ + u@ + ":"@ + kind@);
        }
        upsert(&mut self.response_routes, ResponseRoute {
            internal_id: id.clone(),
            target_client_id: None,
            external_id: JsonValue::Str(id.clone()),
        });
        proof {
            reveal_strlit("id");
            reveal_strlit("type");
            reveal_strlit("sessionPath");
        }
        let mut command = JsonValue::Object(Vec::new());
        command.set("id", JsonValue::Str(id));
        command.set("type", JsonValue::text(kind));
        assert(field_text(command, "type"@) == Some(kind@));
        assert("sessionPath"@ != "type"@ && "sessionPath"@ != "id"@ && "type"@ != "id"@) by {
            assert("sessionPath"@.len() == 11);
            assert("type"@.len() == 4);
            assert("id"@.len() == 2);
        }
        match session_path {
            Some(path) => {
                command.set("sessionPath", JsonValue::text(path));
            },
            None => {},
        }
        command
    }

    /// Accepts a user's answer to an extension UI request: the request must be pending, and is
    /// pending no longer. Other commands pass untouched.
    pub fn accept_extension_ui_response(&mut self, command: &JsonValue) -> (r: Result<(), String>)
        requires
            pi_session_wf(*old(self)),
        ensures
            pi_session_wf(*final(self)),
            final(self).current_origin_client_id == old(self).current_origin_client_id,
            final(self).response_routes == old(self).response_routes,
            final(self).recent_events == old(self).recent_events,
            field_text(*command, "type"@) != Some("extension_ui_response"@) ==> r is Ok && final(self).pending_extension_ui == old(self).pending_extension_ui,
            field_text(*command, "type"@) == Some("extension_ui_response"@) ==> match extension_request_id_of(*command) {
                None => r matches Err(m) && m@ == "extension_ui_response requires request_id or id"@
                    && final(self).pending_extension_ui == old(self).pending_extension_ui,
                Some(id) => match lookup(old(self).pending_extension_ui@, id_key(id)) {
                    None => r matches Err(m) && m@ == "no pending extension UI request "@ + debug_text(id)
                        && final(self).pending_extension_ui@ == old(self).pending_extension_ui@,
                    Some(_) => {
                        &&& r is Ok
                        &&& lookup(final(self).pending_extension_ui@, id_key(id)) is None
                        &&& forall|k: (Seq<char>, Seq<char>)| k != id_key(id) ==> #[trigger] lookup(final(self).pending_extension_ui@, k) == lookup(old(self).pending_extension_ui@, k)
                    },
                },
            },
    {
        let is_answer = match command.get_str("type") {
            Some(t) => str_eq(t, "extension_ui_response"),
            None => false,
        };
        if !is_answer {
            return Ok(());
        }
        let id = match extension_request_id(command) {
            None => {
                return Err(copy_text("extension_ui_response requires request_id or id"));
            },
            Some(id) => id,
        };
        proof {
            reveal_strlit("");
            assert(""@ =~= Seq::<char>::empty());
        }
        match remove_key(&mut self.pending_extension_ui, id.as_str(), "") {
            Some(_) => Ok(()),
            None => Err(concat("no pending extension UI request ", debug_quote(id.as_str()).as_str())),
        }
    }
}

} // verus!
