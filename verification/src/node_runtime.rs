//! The decisions around one Pi process: whether it may start, the arguments it starts with, the
//! lifecycle events and log records a node emits for it, and how its end is recorded.

use vstd::prelude::*;
use crate::json::{JsonValue, JsonView, members_view, set_member, opt_text};
use crate::node_host::{PasswdEntry, ExecutionIdentity, identity_resolved, identity_label, resolve_execution_identity};
use crate::node_records::SessionStatus;
use crate::node_store::{NodeStore, node_store_wf, status_recorded, crash_recorded};
use crate::pi_events::{base_entries, base_members, push_entry};
use crate::redaction::{redact_sensitive_value, redact_view, nothing_sensitive, lemma_redaction_hides_sensitive};
use crate::text::{concat, copy_text, decimal, decimal_text, texts_of};

verus! {

/// The refusal of a Pi process beyond the node's limit of `limit` concurrent sessions.
pub open spec fn capacity_refusal(limit: usize) -> Seq<char> {
    "max concurrent sessions exceeded ("@ + decimal(limit as nat) + ")"@
}

/// The refusal to resume a Pi session whose session file at `path` is gone.
pub open spec fn missing_file_refusal(path: Seq<char>) -> Seq<char> {
    "Pi session file is missing: "@ + path
}

/// `active` Pi processes already reach the node's limit, when it has one.
pub open spec fn over_capacity(limit: Option<usize>, active: usize) -> bool {
    limit matches Some(l) && active >= l
}

/// The session would resume from a session file that does not exist.
pub open spec fn file_missing(session_file: Option<&str>, exists: bool) -> bool {
    session_file is Some && !exists
}

/// Decides whether a Pi process may start for the session `session_id`. One that already runs is
/// left alone (`Ok(None)`). Otherwise the node refuses one beyond its limit of concurrent
/// processes; then one whose session file is missing, recording the session as missing at
/// `now`; then resolves the identity it runs as (see `identity_resolved`).
pub fn prepare_runtime(
    store: &mut NodeStore,
    session_id: &str,
    already_running: bool,
    max_concurrent_sessions: Option<usize>,
    active_runtimes: usize,
    session_file: Option<&str>,
    session_file_exists: bool,
    entries: &Vec<PasswdEntry>,
    run_as_user: Option<&str>,
    run_as_root: bool,
    now: u64,
) -> (r: Result<Option<ExecutionIdentity>, String>)
    requires
        node_store_wf(*old(store)),
    ensures
        node_store_wf(*final(store)),
        already_running ==> (r matches Ok(None) && *final(store) == *old(store)),
        !already_running && over_capacity(max_concurrent_sessions, active_runtimes) ==> (r matches Err(m)
            && m@ == capacity_refusal(max_concurrent_sessions->0) && *final(store) == *old(store)),
        !already_running && !over_capacity(max_concurrent_sessions, active_runtimes) && file_missing(
            session_file,
            session_file_exists,
        ) ==> (r matches Err(m) && m@ == missing_file_refusal(session_file->0@) && status_recorded(
            *final(store),
            *old(store),
            session_id@,
            SessionStatus::Missing,
            now,
        )),
        !already_running && !over_capacity(max_concurrent_sessions, active_runtimes) && !file_missing(
            session_file,
            session_file_exists,
        ) ==> *final(store) == *old(store) && match r {
            Ok(Some(identity)) => identity_resolved(entries@, opt_text(run_as_user), run_as_root, Ok(identity)),
            Ok(None) => false,
            Err(m) => identity_resolved(entries@, opt_text(run_as_user), run_as_root, Err(m)),
        },
{
    if already_running {
        return Ok(None);
    }
    match max_concurrent_sessions {
        Some(limit) => {
            if active_runtimes >= limit {
                let mut m = concat("max concurrent sessions exceeded (", decimal_text(limit as u64).as_str());
                m.append(")");
                return Err(m);
            }
        },
        None => {},
    }
    match session_file {
        Some(path) => {
            if !session_file_exists {
                store.update_session_status(session_id, SessionStatus::Missing, now);
                return Err(concat("Pi session file is missing: ", path));
            }
        },
        None => {},
    }
    match resolve_execution_identity(entries, run_as_user, run_as_root) {
        Ok(identity) => Ok(Some(identity)),
        Err(m) => Err(m),
    }
}

/// The arguments of a Pi process in RPC mode for the session `name`, with the provider and model
/// it selects, if any.
pub open spec fn pi_args(name: Seq<char>, provider: Option<Seq<char>>, model: Option<Seq<char>>) -> Seq<Seq<char>> {
    seq!["--mode"@, "rpc"@, "--name"@, name] + match provider {
        Some(p) => seq!["--provider"@, p],
        None => Seq::empty(),
    } + match model {
        Some(m) => seq!["--model"@, m],
        None => Seq::empty(),
    }
}

/// The arguments a Pi process starts with (see `pi_args`).
pub fn pi_arguments(session_name: &str, provider: Option<&str>, model: Option<&str>) -> (r: Vec<String>)
    ensures
        texts_of(r@) == pi_args(session_name@, opt_text(provider), opt_text(model)),
{
    let mut args: Vec<String> = Vec::new();
    args.push(copy_text("--mode"));
    args.push(copy_text("rpc"));
    args.push(copy_text("--name"));
    args.push(copy_text(session_name));
    match provider {
        Some(p) => {
            args.push(copy_text("--provider"));
            args.push(copy_text(p));
        },
        None => {},
    }
    match model {
        Some(m) => {
            args.push(copy_text("--model"));
            args.push(copy_text(m));
        },
        None => {},
    }
    assert(texts_of(args@) =~= pi_args(session_name@, opt_text(provider), opt_text(model)));
    args
}

/// The stages of a Pi process that a node reports to its hub.
#[derive(Debug, Clone, Copy, PartialEq, Eq, Structural)]
pub enum RuntimePhase {
    Starting,
    Running,
    Stopped,
    Crashed,
}

/// The session event type that reports a phase.
pub open spec fn phase_type(p: RuntimePhase) -> Seq<char> {
    match p {
        RuntimePhase::Starting => "session.starting"@,
        RuntimePhase::Running => "session.running"@,
        RuntimePhase::Stopped => "session.stopped"@,
        RuntimePhase::Crashed => "session.crashed"@,
    }
}

/// The members of the event that reports `phase`, with the error that ended the process, if any.
pub open spec fn lifecycle_entries(
    phase: RuntimePhase,
    node: Seq<char>,
    project: Seq<char>,
    session: Seq<char>,
    error: Option<Seq<char>>,
) -> Seq<(Seq<char>, JsonView)> {
    base_entries(phase_type(phase), node, project, session) + match error {
        Some(e) => seq![("error"@, JsonView::Str(e))],
        None => Seq::empty(),
    }
}

fn phase_text(p: RuntimePhase) -> (r: &'static str)
    ensures
        r@ == phase_type(p),
{
    match p {
        RuntimePhase::Starting => "session.starting",
        RuntimePhase::Running => "session.running",
        RuntimePhase::Stopped => "session.stopped",
        RuntimePhase::Crashed => "session.crashed",
    }
}

/// The event that tells the hub a session's Pi process reached `phase`.
pub fn lifecycle_event(phase: RuntimePhase, node: &str, project: &str, session: &str, error: Option<&str>) -> (r: JsonValue)
    ensures
        r@ == JsonView::Object(lifecycle_entries(phase, node@, project@, session@, opt_text(error))),
{
    let mut m = base_members(phase_text(phase), node, project, session);
    match error {
        Some(e) => {
            push_entry(&mut m, "error", JsonValue::text(e));
        },
        None => {},
    }
    assert(members_view(m@) =~= lifecycle_entries(phase, node@, project@, session@, opt_text(error)));
    JsonValue::Object(m)
}

/// A text, or `null` when there is none.
pub open spec fn text_or_null(t: Option<Seq<char>>) -> JsonView {
    match t {
        Some(s) => JsonView::Str(s),
        None => JsonView::Null,
    }
}

fn text_or_null_value(t: Option<&str>) -> (r: JsonValue)
    ensures
        r@ == text_or_null(opt_text(t)),
{
    match t {
        Some(s) => JsonValue::text(s),
        None => JsonValue::Null,
    }
}

/// The members of the audit record of a Pi process being started.
pub open spec fn spawn_entries(
    node: Seq<char>,
    project: Seq<char>,
    session: Seq<char>,
    cwd: Seq<char>,
    identity: ExecutionIdentity,
    provider: Option<Seq<char>>,
    model: Option<Seq<char>>,
) -> Seq<(Seq<char>, JsonView)> {
    seq![
        ("event"@, JsonView::Str("pi.spawn"@)),
        ("node_id"@, JsonView::Str(node)),
        ("project_id"@, JsonView::Str(project)),
        ("session_id"@, JsonView::Str(session)),
        ("cwd"@, JsonView::Str(cwd)),
        ("execution_identity"@, JsonView::Str(identity_label(identity))),
        ("provider"@, text_or_null(provider)),
        ("model"@, text_or_null(model)),
    ]
}

/// The audit record of a Pi process started in `cwd` as `identity` (see `spawn_entries`).
pub fn spawn_audit_event(
    node: &str,
    project: &str,
    session: &str,
    cwd: &str,
    identity: &ExecutionIdentity,
    provider: Option<&str>,
    model: Option<&str>,
) -> (r: JsonValue)
    ensures
        r@ == JsonView::Object(spawn_entries(node@, project@, session@, cwd@, *identity, opt_text(provider), opt_text(model))),
{
    let mut m: Vec<(String, JsonValue)> = Vec::new();
    push_entry(&mut m, "event", JsonValue::text("pi.spawn"));
    push_entry(&mut m, "node_id", JsonValue::text(node));
    push_entry(&mut m, "project_id", JsonValue::text(project));
    push_entry(&mut m, "session_id", JsonValue::text(session));
    push_entry(&mut m, "cwd", JsonValue::text(cwd));
    push_entry(&mut m, "execution_identity", JsonValue::Str(identity.label()));
    push_entry(&mut m, "provider", text_or_null_value(provider));
    push_entry(&mut m, "model", text_or_null_value(model));
    proof {
        reveal_strlit("pi.spawn");
    }
    assert(members_view(m@) =~= spawn_entries(node@, project@, session@, cwd@, *identity, opt_text(provider), opt_text(model)));
    JsonValue::Object(m)
}

/// The line a node appends to its audit or diagnostic log for `event` at `now`: the event
/// stamped with `at`, then redacted (see `redact_view`).
pub fn log_record(event: JsonValue, now: u64) -> (r: JsonValue)
    requires
        event is Object,
    ensures
        event@ matches JsonView::Object(ms) && r@ == redact_view(JsonView::Object(set_member(ms, "at"@, JsonView::Unsigned(now)))),
        nothing_sensitive(r@),
{
    let mut stamped = event;
    stamped.set("at", JsonValue::Number(crate::json::JsonNumber::Unsigned(now)));
    let r = redact_sensitive_value(stamped);
    proof {
        lemma_redaction_hides_sensitive(stamped@);
    }
    r
}

/// Records the end of a Pi process for the session `session_id` at `now`: a process that was
/// asked to stop or exited successfully has stopped; any other has crashed, with its exit code or
/// signal and the tail of its standard error. Returns the phase to report.
pub fn finish_runtime(
    store: &mut NodeStore,
    session_id: &str,
    stop_requested: bool,
    exited_successfully: bool,
    exit_code: Option<i32>,
    signal: Option<i32>,
    stderr_tail: Vec<String>,
    now: u64,
) -> (r: RuntimePhase)
    requires
        node_store_wf(*old(store)),
    ensures
        node_store_wf(*final(store)),
        stop_requested || exited_successfully ==> r == RuntimePhase::Stopped && status_recorded(
            *final(store),
            *old(store),
            session_id@,
            SessionStatus::Stopped,
            now,
        ),
        !(stop_requested || exited_successfully) ==> r == RuntimePhase::Crashed && crash_recorded(
            *final(store),
            *old(store),
            session_id@,
            exit_code,
            signal,
            stderr_tail,
            now,
        ),
{
    if stop_requested || exited_successfully {
        store.update_session_status(session_id, SessionStatus::Stopped, now);
        RuntimePhase::Stopped
    } else {
        store.record_session_crash(session_id, exit_code, signal, stderr_tail, now);
        RuntimePhase::Crashed
    }
}

/// Records that running the Pi process for the session `session_id` failed with `error` at
/// `now`: the session has crashed, with the error as the only line of its standard error tail.
pub fn runtime_failed(store: &mut NodeStore, session_id: &str, error: &str, now: u64)
    requires
        node_store_wf(*old(store)),
    ensures
        node_store_wf(*final(store)),
        exists|tail: Vec<String>| tail@.len() == 1 && tail@[0]@ == error@
            && #[trigger] crash_recorded(*final(store), *old(store), session_id@, None, None, tail, now),
{
    let mut tail: Vec<String> = Vec::new();
    tail.push(copy_text(error));
    let ghost t = tail;
    store.record_session_crash(session_id, None, None, tail, now);
    assert(crash_recorded(*store, *old(store), session_id@, None, None, t, now));
}

/// The commands that ask a Pi process to wind down before it is stopped: clear its queue, then
/// abort its work.
pub open spec fn stop_sequence() -> Seq<JsonView> {
    seq![
        JsonView::Object(seq![("type"@, JsonView::Str("clear_queue"@))]),
        JsonView::Object(seq![("type"@, JsonView::Str("abort"@))]),
    ]
}

fn type_only(t: &str) -> (r: JsonValue)
    ensures
        r@ == JsonView::Object(seq![("type"@, JsonView::Str(t@))]),
{
    let mut m: Vec<(String, JsonValue)> = Vec::new();
    push_entry(&mut m, "type", JsonValue::text(t));
    assert(members_view(m@) =~= seq![("type"@, JsonView::Str(t@))]);
    JsonValue::Object(m)
}

/// The commands a node writes to a Pi process it stops (see `stop_sequence`).
pub fn graceful_stop_commands() -> (r: Vec<JsonValue>)
    ensures
        r@.len() == 2,
        r@[0]@ == stop_sequence()[0],
        r@[1]@ == stop_sequence()[1],
{
    let mut v: Vec<JsonValue> = Vec::new();
    v.push(type_only("clear_queue"));
    v.push(type_only("abort"));
    v
}

} // verus!
