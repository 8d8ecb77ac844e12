//! A node's connection to its hub: the hello it opens with, the challenge it must answer with a
//! signature, the authentication it waits for, and the heartbeat it keeps sending.

use vstd::prelude::*;
use crate::crypto::{base64_text, ed25519_signature};
use crate::json::{JsonValue, JsonNumber, JsonView, field, field_text, members_view};
use crate::node_config::sign_challenge;
use crate::pi_events::push_entry;
use crate::policy::PROTOCOL_VERSION;
use crate::text::copy_text;

verus! {

/// The message a node opens its hub connection with.
pub open spec fn hello_entries(node_id: Seq<char>, version: Seq<char>) -> Seq<(Seq<char>, JsonView)> {
    seq![
        ("protocol_version"@, JsonView::Unsigned(PROTOCOL_VERSION as u64)),
        ("type"@, JsonView::Str("node.hello"@)),
        ("node_id"@, JsonView::Str(node_id)),
        ("version"@, JsonView::Str(version)),
    ]
}

/// The hello of the node `node_id` running `version`.
pub fn hello_message(node_id: &str, version: &str) -> (r: JsonValue)
    ensures
        r@ == JsonView::Object(hello_entries(node_id@, version@)),
{
    let mut m: Vec<(String, JsonValue)> = Vec::new();
    push_entry(&mut m, "protocol_version", JsonValue::Number(JsonNumber::Unsigned(PROTOCOL_VERSION as u64)));
    push_entry(&mut m, "type", JsonValue::text("node.hello"));
    push_entry(&mut m, "node_id", JsonValue::text(node_id));
    push_entry(&mut m, "version", JsonValue::text(version));
    proof {
        reveal_strlit("node.hello");
    }
    assert(members_view(m@) =~= hello_entries(node_id@, version@));
    JsonValue::Object(m)
}

/// The nonce of the hub's challenge: the answer to the hello must be a `node.challenge` with a
/// text `nonce`.
pub fn challenge_nonce(challenge: &JsonValue) -> (r: Result<String, String>)
    ensures
        field_text(*challenge, "type"@) != Some("node.challenge"@) ==> (r matches Err(m) && m@ == "expected node.challenge"@),
        field_text(*challenge, "type"@) == Some("node.challenge"@) ==> match field_text(*challenge, "nonce"@) {
            Some(n) => r matches Ok(t) && t@ == n,
            None => r matches Err(m) && m@ == "node.challenge nonce is required"@,
        },
{
    let is_challenge = match challenge.get_str("type") {
        Some(t) => crate::text::str_eq(t, "node.challenge"),
        None => false,
    };
    if !is_challenge {
        return Err(copy_text("expected node.challenge"));
    }
    match challenge.get_str("nonce") {
        Some(n) => Ok(copy_text(n)),
        None => Err(copy_text("node.challenge nonce is required")),
    }
}

/// The members of a node's answer to the challenge `nonce`: its identifier and the base64 text
/// of its Ed25519 signature of the nonce under its key `secret`.
pub open spec fn auth_entries(node_id: Seq<char>, secret: Seq<u8>, nonce: Seq<char>) -> Seq<(Seq<char>, JsonView)> {
    seq![
        ("protocol_version"@, JsonView::Unsigned(PROTOCOL_VERSION as u64)),
        ("type"@, JsonView::Str("node.auth"@)),
        ("node_id"@, JsonView::Str(node_id)),
        ("signature"@, JsonView::Str(base64_text(ed25519_signature(secret, vstd::utf8::encode_utf8(nonce))))),
    ]
}

/// The node's answer to its hub's challenge `nonce` (see `auth_entries`).
pub fn auth_message(node_id: &str, secret: &[u8; 32], nonce: &str) -> (r: JsonValue)
    ensures
        r@ == JsonView::Object(auth_entries(node_id@, secret@, nonce@)),
{
    let mut m: Vec<(String, JsonValue)> = Vec::new();
    push_entry(&mut m, "protocol_version", JsonValue::Number(JsonNumber::Unsigned(PROTOCOL_VERSION as u64)));
    push_entry(&mut m, "type", JsonValue::text("node.auth"));
    push_entry(&mut m, "node_id", JsonValue::text(node_id));
    push_entry(&mut m, "signature", JsonValue::Str(sign_challenge(secret, nonce)));
    proof {
        reveal_strlit("node.auth");
    }
    assert(members_view(m@) =~= auth_entries(node_id@, secret@, nonce@));
    JsonValue::Object(m)
}

/// Whether the hub accepted the node: its answer is a `node.authenticated`.
pub fn is_authenticated(answer: &JsonValue) -> (r: bool)
    ensures
        r == (field_text(*answer, "type"@) == Some("node.authenticated"@)),
{
    match answer.get_str("type") {
        Some(t) => crate::text::str_eq(t, "node.authenticated"),
        None => false,
    }
}

/// The heartbeat of the node `node_id`.
pub fn heartbeat_message(node_id: &str) -> (r: JsonValue)
    ensures
        r@ == JsonView::Object(seq![("type"@, JsonView::Str("node.heartbeat"@)), ("node_id"@, JsonView::Str(node_id@))]),
{
    let mut m: Vec<(String, JsonValue)> = Vec::new();
    push_entry(&mut m, "type", JsonValue::text("node.heartbeat"));
    push_entry(&mut m, "node_id", JsonValue::text(node_id));
    proof {
        reveal_strlit("node.heartbeat");
    }
    assert(members_view(m@) =~= seq![("type"@, JsonView::Str("node.heartbeat"@)), ("node_id"@, JsonView::Str(node_id@))]);
    JsonValue::Object(m)
}

/// Whether the node's answer to a command changed its inventory, which it must then report
/// again: the answer says `inventory_changed: true`.
pub fn inventory_changed(answer: &JsonValue) -> (r: bool)
    ensures
        r == (field(*answer, "inventory_changed"@) == Some(JsonValue::Bool(true))),
{
    match answer.get("inventory_changed") {
        Some(JsonValue::Bool(b)) => *b,
        _ => false,
    }
}

/// The commands a node carries out for its hub or its local clients.
#[derive(Debug, Clone, Copy, PartialEq, Eq, Structural)]
pub enum NodeCommand {
    ProjectList,
    ProjectAdd,
    ProjectRemove,
    ProjectGet,
    SessionList,
    SessionCreate,
    SessionStop,
    SessionRestart,
    SessionDelete,
    SessionSend,
}

/// The command a request `type` names, if it names one.
pub open spec fn command_named(kind: Seq<char>) -> Option<NodeCommand> {
    if kind == "project.list"@ {
        Some(NodeCommand::ProjectList)
    } else if kind == "project.add"@ {
        Some(NodeCommand::ProjectAdd)
    } else if kind == "project.remove"@ {
        Some(NodeCommand::ProjectRemove)
    } else if kind == "project.get"@ {
        Some(NodeCommand::ProjectGet)
    } else if kind == "session.list"@ {
        Some(NodeCommand::SessionList)
    } else if kind == "session.create"@ {
        Some(NodeCommand::SessionCreate)
    } else if kind == "session.stop"@ {
        Some(NodeCommand::SessionStop)
    } else if kind == "session.restart"@ {
        Some(NodeCommand::SessionRestart)
    } else if kind == "session.delete"@ {
        Some(NodeCommand::SessionDelete)
    } else if kind == "session.send"@ {
        Some(NodeCommand::SessionSend)
    } else {
        None
    }
}

/// The request type that names the command `c`: the command's name, spelled as the protocol
/// spells it.
pub open spec fn command_type(c: NodeCommand) -> Seq<char> {
    match c {
        NodeCommand::ProjectList => "project.list"@,
        NodeCommand::ProjectAdd => "project.add"@,
        NodeCommand::ProjectRemove => "project.remove"@,
        NodeCommand::ProjectGet => "project.get"@,
        NodeCommand::SessionList => "session.list"@,
        NodeCommand::SessionCreate => "session.create"@,
        NodeCommand::SessionStop => "session.stop"@,
        NodeCommand::SessionRestart => "session.restart"@,
        NodeCommand::SessionDelete => "session.delete"@,
        NodeCommand::SessionSend => "session.send"@,
    }
}

/// Each of the ten request types names the command of the same name, no two name the same
/// command, and no other type names a command: `command_named` is exactly the inverse of
/// `command_type`.
pub proof fn lemma_each_type_names_its_own_command(kind: Seq<char>, c: NodeCommand)
    ensures
        command_named(command_type(c)) == Some(c),
        command_named(kind) == Some(c) <==> kind == command_type(c),
{
    reveal_strlit("project.list");
    reveal_strlit("project.add");
    reveal_strlit("project.remove");
    reveal_strlit("project.get");
    reveal_strlit("session.list");
    reveal_strlit("session.create");
    reveal_strlit("session.stop");
    reveal_strlit("session.restart");
    reveal_strlit("session.delete");
    reveal_strlit("session.send");
    assert("project.list"@.len() == 12);
    assert("project.add"@.len() == 11);
    assert("project.remove"@.len() == 14);
    assert("project.get"@.len() == 11);
    assert("session.list"@.len() == 12);
    assert("session.create"@.len() == 14);
    assert("session.stop"@.len() == 12);
    assert("session.restart"@.len() == 15);
    assert("session.delete"@.len() == 14);
    assert("session.send"@.len() == 12);
    assert("project.list"@[0] == 'p');
    assert("session.list"@[0] == 's');
    assert("session.list"@[8] == 'l');
    assert("session.stop"@[0] == 's');
    assert("session.stop"@[8] == 's');
    assert("session.stop"@[9] == 't');
    assert("session.send"@[0] == 's');
    assert("session.send"@[8] == 's');
    assert("session.send"@[9] == 'e');
    assert("project.add"@[8] == 'a');
    assert("project.get"@[8] == 'g');
    assert("project.remove"@[0] == 'p');
    assert("session.create"@[0] == 's');
    assert("session.create"@[8] == 'c');
    assert("session.delete"@[0] == 's');
    assert("session.delete"@[8] == 'd');
}

/// The command of a request of type `kind`; an unknown type is refused.
pub fn node_command(kind: &str) -> (r: Result<NodeCommand, String>)
    ensures
        match command_named(kind@) {
            Some(c) => r == Ok::<NodeCommand, String>(c),
            None => r matches Err(m) && m@ == "unknown command type: "@ + kind@,
        },
{
    if crate::text::str_eq(kind, "project.list") {
        Ok(NodeCommand::ProjectList)
    } else if crate::text::str_eq(kind, "project.add") {
        Ok(NodeCommand::ProjectAdd)
    } else if crate::text::str_eq(kind, "project.remove") {
        Ok(NodeCommand::ProjectRemove)
    } else if crate::text::str_eq(kind, "project.get") {
        Ok(NodeCommand::ProjectGet)
    } else if crate::text::str_eq(kind, "session.list") {
        Ok(NodeCommand::SessionList)
    } else if crate::text::str_eq(kind, "session.create") {
        Ok(NodeCommand::SessionCreate)
    } else if crate::text::str_eq(kind, "session.stop") {
        Ok(NodeCommand::SessionStop)
    } else if crate::text::str_eq(kind, "session.restart") {
        Ok(NodeCommand::SessionRestart)
    } else if crate::text::str_eq(kind, "session.delete") {
        Ok(NodeCommand::SessionDelete)
    } else if crate::text::str_eq(kind, "session.send") {
        Ok(NodeCommand::SessionSend)
    } else {
        Err(crate::text::concat("unknown command type: ", kind))
    }
}

/// The request's `id`, or `null` when it has none.
pub open spec fn reply_id(request: JsonValue) -> JsonView {
    match field(request, "id"@) {
        Some(v) => v@,
        None => JsonView::Null,
    }
}

/// The error answer to a request.
pub open spec fn error_reply(request: JsonValue, error: Seq<char>) -> JsonView {
    JsonView::Object(seq![
        ("protocol_version"@, JsonView::Unsigned(PROTOCOL_VERSION as u64)),
        ("id"@, reply_id(request)),
        ("type"@, JsonView::Str("error"@)),
        ("error"@, JsonView::Str(error)),
    ])
}

/// The answer a node sends for `request`: a result carries the protocol version and the
/// request's `id` (or `null`); a failure becomes an error answer with its message.
pub fn command_reply(request: &JsonValue, result: Result<JsonValue, String>) -> (r: JsonValue)
    requires
        result matches Ok(b) ==> b is Object,
    ensures
        match result {
            Ok(body) => body@ matches JsonView::Object(ms) && r@ == JsonView::Object(
                crate::json::set_member(
                    crate::json::set_member(ms, "protocol_version"@, JsonView::Unsigned(PROTOCOL_VERSION as u64)),
                    "id"@,
                    reply_id(*request),
                ),
            ),
            Err(m) => r@ == error_reply(*request, m@),
        },
{
    let id = match request.get("id") {
        Some(v) => v.copy(),
        None => JsonValue::Null,
    };
    match result {
        Ok(body) => {
            let mut b = body;
            b.set("protocol_version", JsonValue::Number(JsonNumber::Unsigned(PROTOCOL_VERSION as u64)));
            b.set("id", id);
            b
        },
        Err(m) => {
            let mut out: Vec<(String, JsonValue)> = Vec::new();
            push_entry(&mut out, "protocol_version", JsonValue::Number(JsonNumber::Unsigned(PROTOCOL_VERSION as u64)));
            push_entry(&mut out, "id", id);
            push_entry(&mut out, "type", JsonValue::text("error"));
            push_entry(&mut out, "error", JsonValue::Str(m));
            proof {
                reveal_strlit("error");
            }
            assert(members_view(out@) =~= seq![
                ("protocol_version"@, JsonView::Unsigned(PROTOCOL_VERSION as u64)),
                ("id"@, reply_id(*request)),
                ("type"@, JsonView::Str("error"@)),
                ("error"@, JsonView::Str(m@)),
            ]);
            JsonValue::Object(out)
        },
    }
}

/// The answer to a request in another protocol version, which carries no `id`.
pub fn version_error_reply(error: &str) -> (r: JsonValue)
    ensures
        r@ == JsonView::Object(seq![
            ("protocol_version"@, JsonView::Unsigned(PROTOCOL_VERSION as u64)),
            ("type"@, JsonView::Str("error"@)),
            ("error"@, JsonView::Str(error@)),
        ]),
{
    let mut out: Vec<(String, JsonValue)> = Vec::new();
    push_entry(&mut out, "protocol_version", JsonValue::Number(JsonNumber::Unsigned(PROTOCOL_VERSION as u64)));
    push_entry(&mut out, "type", JsonValue::text("error"));
    push_entry(&mut out, "error", JsonValue::text(error));
    proof {
        reveal_strlit("error");
    }
    assert(members_view(out@) =~= seq![
        ("protocol_version"@, JsonView::Unsigned(PROTOCOL_VERSION as u64)),
        ("type"@, JsonView::Str("error"@)),
        ("error"@, JsonView::Str(error@)),
    ]);
    JsonValue::Object(out)
}

/// Where a node enrolls with the hub at `hub`.
pub fn enroll_url(hub: &str) -> (r: String)
    ensures
        r@ == crate::node_config::without_trailing_slashes(hub@) + "/api/nodes/enroll"@,
{
    let mut u = crate::node_config::strip_trailing_slashes(hub);
    u.append("/api/nodes/enroll");
    u
}

/// The identifier and hub address a node keeps from its hub's answer to its enrollment: the
/// answer must be a `node.enrolled` (else its error, or `enrollment failed`) that names the
/// node; a hub that names no address of its own keeps the one the node enrolled with.
pub fn enrollment_result(
    kind: &str,
    node_id: Option<String>,
    hub_url: Option<String>,
    error: Option<String>,
    hub: &str,
) -> (r: Result<(String, String), String>)
    ensures
        kind@ != "node.enrolled"@ ==> (r matches Err(m) && m@ == match error {
            Some(e) => e@,
            None => "enrollment failed"@,
        }),
        kind@ == "node.enrolled"@ ==> match node_id {
            None => r matches Err(m) && m@ == "hub did not return node_id"@,
            Some(n) => r matches Ok((i, u)) && i == n && u@ == match hub_url {
                Some(h) => h@,
                None => hub@,
            },
        },
{
    if !crate::text::str_eq(kind, "node.enrolled") {
        return match error {
            Some(e) => Err(e),
            None => Err(copy_text("enrollment failed")),
        };
    }
    let id = match node_id {
        None => {
            return Err(copy_text("hub did not return node_id"));
        },
        Some(n) => n,
    };
    let url = match hub_url {
        Some(h) => h,
        None => copy_text(hub),
    };
    Ok((id, url))
}

} // verus!
