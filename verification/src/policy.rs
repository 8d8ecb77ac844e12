//! The protocol version and which Pi RPC command types a session may forward.

use vstd::prelude::*;
use crate::text::str_eq;

verus! {

/// The version of the wire protocol that every party must speak.
pub const PROTOCOL_VERSION: u32 = 3;

/// The version of the wire protocol.
pub fn protocol_version() -> (r: u32)
    ensures
        r == PROTOCOL_VERSION,
{
    PROTOCOL_VERSION
}

/// How the node treats a Pi command type.
#[derive(Debug, Clone, Copy, PartialEq, Eq, Structural)]
pub enum CommandPolicy {
    Allowed,
    DeniedSessionBinding,
    Unknown,
}

/// Command types that would rebind the Pi session underneath the node.
pub open spec fn is_session_binding_command(t: Seq<char>) -> bool {
    t == "new_session"@ || t == "switch_session"@ || t == "fork"@ || t == "clone"@
}

/// Command types that a session may forward to Pi.
pub open spec fn is_allowed_command(t: Seq<char>) -> bool {
    t == "prompt"@
        || t == "steer"@
        || t == "follow_up"@
        || t == "abort"@
        || t == "clear_queue"@
        || t == "get_state"@
        || t == "get_messages"@
        || t == "set_model"@
        || t == "cycle_model"@
        || t == "get_available_models"@
        || t == "set_thinking_level"@
        || t == "cycle_thinking_level"@
        || t == "get_available_thinking_levels"@
        || t == "set_steering_mode"@
        || t == "set_follow_up_mode"@
        || t == "compact"@
        || t == "set_auto_compaction"@
        || t == "set_auto_retry"@
        || t == "abort_retry"@
        || t == "bash"@
        || t == "abort_bash"@
        || t == "get_session_stats"@
        || t == "export_html"@
        || t == "get_fork_messages"@
        || t == "get_entries"@
        || t == "get_tree"@
        || t == "get_last_assistant_text"@
        || t == "set_session_name"@
        || t == "get_commands"@
        || t == "extension_ui_response"@
}

/// The policy for a command type: session-binding commands are denied, the known
/// session commands are allowed, and every other type is unknown.
pub open spec fn command_policy(t: Seq<char>) -> CommandPolicy {
    if is_session_binding_command(t) {
        CommandPolicy::DeniedSessionBinding
    } else if is_allowed_command(t) {
        CommandPolicy::Allowed
    } else {
        CommandPolicy::Unknown
    }
}

/// The Pi RPC command types a session forwards to Pi: prompting and steering, queue and abort
/// control, model and thinking-level selection, compaction and retry settings, shell commands,
/// session statistics and export, history queries, naming, and answers to extension prompts.
pub open spec fn forwarded_command_types() -> Set<Seq<char>> {
    set![
        "prompt"@,
        "steer"@,
        "follow_up"@,
        "abort"@,
        "clear_queue"@,
        "get_state"@,
        "get_messages"@,
        "set_model"@,
        "cycle_model"@,
        "get_available_models"@,
        "set_thinking_level"@,
        "cycle_thinking_level"@,
        "get_available_thinking_levels"@,
        "set_steering_mode"@,
        "set_follow_up_mode"@,
        "compact"@,
        "set_auto_compaction"@,
        "set_auto_retry"@,
        "abort_retry"@,
        "bash"@,
        "abort_bash"@,
        "get_session_stats"@,
        "export_html"@,
        "get_fork_messages"@,
        "get_entries"@,
        "get_tree"@,
        "get_last_assistant_text"@,
        "set_session_name"@,
        "get_commands"@,
        "extension_ui_response"@
    ]
}

/// The Pi RPC command types that would rebind the session underneath the node.
pub open spec fn session_binding_command_types() -> Set<Seq<char>> {
    set!["new_session"@, "switch_session"@, "fork"@, "clone"@]
}

/// The command policy, over every command type: a type is allowed exactly when it is one of the
/// forwarded Pi RPC commands, denied exactly when it would rebind the session, and unknown
/// otherwise.
pub proof fn lemma_policy_follows_the_command_lists(t: Seq<char>)
    ensures
        command_policy(t) == CommandPolicy::Allowed <==> forwarded_command_types().contains(t),
        command_policy(t) == CommandPolicy::DeniedSessionBinding <==> session_binding_command_types().contains(t),
        command_policy(t) == CommandPolicy::Unknown
            <==> !forwarded_command_types().contains(t) && !session_binding_command_types().contains(t),
{
    reveal_strlit("prompt");
    reveal_strlit("steer");
    reveal_strlit("follow_up");
    reveal_strlit("abort");
    reveal_strlit("clear_queue");
    reveal_strlit("get_state");
    reveal_strlit("get_messages");
    reveal_strlit("set_model");
    reveal_strlit("cycle_model");
    reveal_strlit("get_available_models");
    reveal_strlit("set_thinking_level");
    reveal_strlit("cycle_thinking_level");
    reveal_strlit("get_available_thinking_levels");
    reveal_strlit("set_steering_mode");
    reveal_strlit("set_follow_up_mode");
    reveal_strlit("compact");
    reveal_strlit("set_auto_compaction");
    reveal_strlit("set_auto_retry");
    reveal_strlit("abort_retry");
    reveal_strlit("bash");
    reveal_strlit("abort_bash");
    reveal_strlit("get_session_stats");
    reveal_strlit("export_html");
    reveal_strlit("get_fork_messages");
    reveal_strlit("get_entries");
    reveal_strlit("get_tree");
    reveal_strlit("get_last_assistant_text");
    reveal_strlit("set_session_name");
    reveal_strlit("get_commands");
    reveal_strlit("extension_ui_response");
    reveal_strlit("new_session");
    reveal_strlit("switch_session");
    reveal_strlit("fork");
    reveal_strlit("clone");
    assert("prompt"@.len() == 6);
    assert("steer"@.len() == 5);
    assert("follow_up"@.len() == 9);
    assert("abort"@.len() == 5);
    assert("clear_queue"@.len() == 11);
    assert("get_state"@.len() == 9);
    assert("get_messages"@.len() == 12);
    assert("set_model"@.len() == 9);
    assert("cycle_model"@.len() == 11);
    assert("get_available_models"@.len() == 20);
    assert("set_thinking_level"@.len() == 18);
    assert("cycle_thinking_level"@.len() == 20);
    assert("get_available_thinking_levels"@.len() == 29);
    assert("set_steering_mode"@.len() == 17);
    assert("set_follow_up_mode"@.len() == 18);
    assert("compact"@.len() == 7);
    assert("set_auto_compaction"@.len() == 19);
    assert("set_auto_retry"@.len() == 14);
    assert("abort_retry"@.len() == 11);
    assert("bash"@.len() == 4);
    assert("abort_bash"@.len() == 10);
    assert("get_session_stats"@.len() == 17);
    assert("export_html"@.len() == 11);
    assert("get_fork_messages"@.len() == 17);
    assert("get_entries"@.len() == 11);
    assert("get_tree"@.len() == 8);
    assert("get_last_assistant_text"@.len() == 23);
    assert("set_session_name"@.len() == 16);
    assert("get_commands"@.len() == 12);
    assert("extension_ui_response"@.len() == 21);
    assert("new_session"@.len() == 11);
    assert("switch_session"@.len() == 14);
    assert("fork"@.len() == 4);
    assert("clone"@.len() == 5);
    assert("steer"@[0] == 's');
    assert("abort"@[0] == 'a');
    assert("clone"@[0] == 'c');
    assert("follow_up"@[0] == 'f');
    assert("get_state"@[0] == 'g');
    assert("set_model"@[0] == 's');
    assert("clear_queue"@[0] == 'c');
    assert("clear_queue"@[1] == 'l');
    assert("cycle_model"@[0] == 'c');
    assert("cycle_model"@[1] == 'y');
    assert("abort_retry"@[0] == 'a');
    assert("export_html"@[0] == 'e');
    assert("get_entries"@[0] == 'g');
    assert("new_session"@[0] == 'n');
    assert("get_messages"@[4] == 'm');
    assert("get_commands"@[4] == 'c');
    assert("get_available_models"@[0] == 'g');
    assert("cycle_thinking_level"@[0] == 'c');
    assert("set_thinking_level"@[4] == 't');
    assert("set_follow_up_mode"@[4] == 'f');
    assert("set_steering_mode"@[0] == 's');
    assert("get_session_stats"@[0] == 'g');
    assert("get_session_stats"@[4] == 's');
    assert("get_fork_messages"@[0] == 'g');
    assert("get_fork_messages"@[4] == 'f');
    assert("set_auto_retry"@[1] == 'e');
    assert("switch_session"@[1] == 'w');
    assert("bash"@[0] == 'b');
    assert("fork"@[0] == 'f');
}

pub fn pi_command_policy(command_type: &str) -> (p: CommandPolicy)
    ensures
        p == command_policy(command_type@),
{
    if str_eq(command_type, "new_session")
        || str_eq(command_type, "switch_session")
        || str_eq(command_type, "fork")
        || str_eq(command_type, "clone") {
        CommandPolicy::DeniedSessionBinding
    } else if str_eq(command_type, "prompt")
        || str_eq(command_type, "steer")
        || str_eq(command_type, "follow_up")
        || str_eq(command_type, "abort")
        || str_eq(command_type, "clear_queue")
        || str_eq(command_type, "get_state")
        || str_eq(command_type, "get_messages")
        || str_eq(command_type, "set_model")
        || str_eq(command_type, "cycle_model")
        || str_eq(command_type, "get_available_models")
        || str_eq(command_type, "set_thinking_level")
        || str_eq(command_type, "cycle_thinking_level")
        || str_eq(command_type, "get_available_thinking_levels")
        || str_eq(command_type, "set_steering_mode")
        || str_eq(command_type, "set_follow_up_mode")
        || str_eq(command_type, "compact")
        || str_eq(command_type, "set_auto_compaction")
        || str_eq(command_type, "set_auto_retry")
        || str_eq(command_type, "abort_retry")
        || str_eq(command_type, "bash")
        || str_eq(command_type, "abort_bash")
        || str_eq(command_type, "get_session_stats")
        || str_eq(command_type, "export_html")
        || str_eq(command_type, "get_fork_messages")
        || str_eq(command_type, "get_entries")
        || str_eq(command_type, "get_tree")
        || str_eq(command_type, "get_last_assistant_text")
        || str_eq(command_type, "set_session_name")
        || str_eq(command_type, "get_commands")
        || str_eq(command_type, "extension_ui_response") {
        CommandPolicy::Allowed
    } else {
        CommandPolicy::Unknown
    }
}

} // verus!
