//! The node's session commands: listing, creating, stopping, restarting, deleting sessions and
//! sending commands to them.

use vstd::prelude::*;
use crate::crypto::new_uuid_simple;
use crate::json::{JsonValue, field, field_text, as_flag, opt_text, opt_string};
use crate::keyed::{Keyed, find};
use crate::node_config::{DirFacts, validate_trusted_project_cwd, within_some_root, joined, request_env, pairs_view, provider_env_from_value};
use crate::node_host::{PasswdEntry, origin_user_may_run_root, lists_user};
use crate::node_projects::has_user;
use crate::node_records::{ProjectRecord, SessionRecord, SessionStatus, project_same, session_same, session_status_label};
use crate::node_store::{NodeStore, node_store_wf, project_of, session_of, other_sessions_unchanged};
use crate::pi_session::{validate_pi_command, is_diagnostic_pi_command, is_diagnostic_type};
use crate::policy::{CommandPolicy, command_policy};
use crate::text::{str_eq, copy_text, concat, decimal, decimal_text, debug_text, debug_quote, texts_of};

verus! {

/// Whether a session belongs to project `pid`.
pub open spec fn of_project(pid: Seq<char>) -> spec_fn(SessionRecord) -> bool {
    |s: SessionRecord| s.project_id@ == pid
}

/// The sessions of project `filter` (of every project when it is `None`), in order.
pub open spec fn listed_sessions(sessions: Seq<SessionRecord>, filter: Option<Seq<char>>) -> Seq<SessionRecord> {
    match filter {
        Some(pid) => sessions.filter(of_project(pid)),
        None => sessions,
    }
}

/// Lists the sessions of the project the request names, or all sessions.
pub fn list_sessions(store: &NodeStore, request: &JsonValue) -> (r: Vec<SessionRecord>)
    ensures
        r@.len() == listed_sessions(store.sessions@, field_text(*request, "project_id"@)).len(),
        forall|i: int| 0 <= i < r@.len() ==> session_same(#[trigger] r@[i],
            listed_sessions(store.sessions@, field_text(*request, "project_id"@))[i]),
{
    let filter = request.get_str("project_id");
    let ghost want = listed_sessions(store.sessions@, opt_text(filter));
    let ghost pred = of_project(filter->0@);
    let mut out: Vec<SessionRecord> = Vec::new();
    let mut i: usize = 0;
    proof {
        assert(store.sessions@.subrange(0, 0).filter(pred) =~= Seq::<SessionRecord>::empty());
    }
    while i < store.sessions.len()
        invariant
            i <= store.sessions@.len(),
            opt_text(filter) == field_text(*request, "project_id"@),
            pred == of_project(filter->0@),
            filter is Some ==> out@.len() == store.sessions@.subrange(0, i as int).filter(pred).len(),
            filter is Some ==> forall|j: int| 0 <= j < out@.len() ==> session_same(#[trigger] out@[j],
                store.sessions@.subrange(0, i as int).filter(pred)[j]),
            filter is None ==> out@.len() == i,
            filter is None ==> forall|j: int| 0 <= j < i ==> session_same(#[trigger] out@[j], store.sessions@[j]),
        decreases store.sessions@.len() - i,
    {
        let s = &store.sessions[i];
        proof {
            store.sessions@.subrange(0, i as int).lemma_filter_push(*s, pred);
            assert(store.sessions@.subrange(0, i as int).push(*s) =~= store.sessions@.subrange(0, i + 1));
        }
        let take = match filter {
            Some(p) => str_eq(s.project_id.as_str(), p),
            None => true,
        };
        if take {
            out.push(s.clone());
        }
        i = i + 1;
    }
    proof {
        assert(store.sessions@.subrange(0, i as int) =~= store.sessions@);
        if filter is Some {
            assert(want == store.sessions@.filter(pred));
        }
    }
    out
}

/// Lists every project.
pub fn list_projects(store: &NodeStore) -> (r: Vec<ProjectRecord>)
    ensures
        r@.len() == store.projects@.len(),
        forall|i: int| 0 <= i < r@.len() ==> project_same(#[trigger] r@[i], store.projects@[i]),
{
    let mut out: Vec<ProjectRecord> = Vec::new();
    let mut i: usize = 0;
    while i < store.projects.len()
        invariant
            i <= store.projects@.len(),
            out@.len() == i,
            forall|j: int| 0 <= j < i ==> project_same(#[trigger] out@[j], store.projects@[j]),
        decreases store.projects@.len() - i,
    {
        out.push(store.projects[i].clone());
        i = i + 1;
    }
    out
}

/// How many sessions project `pid` has.
pub open spec fn session_count(sessions: Seq<SessionRecord>, pid: Seq<char>) -> nat {
    sessions.filter(of_project(pid)).len()
}

fn count_sessions(store: &NodeStore, pid: &str) -> (r: usize)
    ensures
        r == session_count(store.sessions@, pid@),
{
    let ghost pred = of_project(pid@);
    let mut n: usize = 0;
    let mut i: usize = 0;
    proof {
        assert(store.sessions@.subrange(0, 0).filter(pred) =~= Seq::<SessionRecord>::empty());
    }
    while i < store.sessions.len()
        invariant
            i <= store.sessions@.len(),
            pred == of_project(pid@),
            n == store.sessions@.subrange(0, i as int).filter(pred).len(),
            n <= i,
        decreases store.sessions@.len() - i,
    {
        proof {
            store.sessions@.subrange(0, i as int).lemma_filter_push(store.sessions@[i as int], pred);
            assert(store.sessions@.subrange(0, i as int).push(store.sessions@[i as int]) =~= store.sessions@.subrange(0, i + 1));
        }
        if str_eq(store.sessions[i].project_id.as_str(), pid) {
            n = n + 1;
        }
        i = i + 1;
    }
    assert(store.sessions@.subrange(0, i as int) =~= store.sessions@);
    n
}

/// The text of `key` in the request, or else `fallback`.
pub open spec fn text_or(request: JsonValue, key: Seq<char>, fallback: Option<String>) -> Option<Seq<char>> {
    match field_text(request, key) {
        Some(t) => Some(t),
        None => opt_string(fallback),
    }
}

/// The user a new session runs as: nobody for a root session, the user the request names (who
/// must exist), or else the project's user.
pub open spec fn session_user(request: JsonValue, root: bool, project: ProjectRecord, entries: Seq<PasswdEntry>) -> Result<Option<Seq<char>>, Seq<char>> {
    if root {
        Ok(None)
    } else {
        match field_text(request, "run_as_user"@) {
            Some(u) => if has_user(entries, u) {
                Ok(Some(u))
            } else {
                Err("run_as_user "@ + debug_text(u) + " not found"@)
            },
            None => Ok(opt_string(project.run_as_user)),
        }
    }
}

/// Why creating a session in `project` for the request is refused, if it is.
pub open spec fn create_refusal(
    store: NodeStore,
    request: JsonValue,
    project: ProjectRecord,
    root_users: Seq<String>,
    max_per_project: Option<usize>,
    entries: Seq<PasswdEntry>,
) -> Option<Seq<char>> {
    let root = as_flag(field(request, "run_as_root"@)) == Some(true);
    if root && !project.allow_root_sessions {
        Some("root sessions are denied by project policy"@)
    } else if root && !(field_text(request, "origin_user_id"@) matches Some(u) && lists_user(root_users, u)) {
        Some("root sessions are denied by node policy for this user"@)
    } else if session_user(request, root, project, entries) is Err {
        Some(session_user(request, root, project, entries)->Err_0)
    } else if max_per_project matches Some(limit) && session_count(store.sessions@, project.project_id@) >= limit {
        Some("max sessions per project exceeded ("@ + decimal(max_per_project->0 as nat) + ")"@)
    } else {
        None
    }
}

/// The session that creating a session in `project` for the request makes, apart from its
/// identifier.
pub open spec fn created_session(
    s: SessionRecord,
    node_id: Seq<char>,
    request: JsonValue,
    project: ProjectRecord,
    entries: Seq<PasswdEntry>,
    now: u64,
) -> bool {
    let root = as_flag(field(request, "run_as_root"@)) == Some(true);
    &&& s.node_id@ == node_id
    &&& s.project_id@ == project.project_id@
    &&& s.name@ == (match field_text(request, "name"@) {
        Some(n) => n,
        None => "session"@,
    })
    &&& s.cwd@ == project.cwd@
    &&& s.status == SessionStatus::Idle
    &&& s.run_as_root == root
    &&& session_user(request, root, project, entries) == Ok::<Option<Seq<char>>, Seq<char>>(opt_string(s.run_as_user))
    &&& opt_string(s.provider) == text_or(request, "provider"@, project.default_provider)
    &&& opt_string(s.model) == text_or(request, "model"@, project.default_model)
    &&& s.pi_session_id is None
    &&& s.pi_session_file is None
    &&& s.pi_leaf_id is None
    &&& s.pi_session_name is None
    &&& s.created_at == now
    &&& s.updated_at == now
    &&& s.last_active_at is None
    &&& s.crash is None
}

/// Creates a session in the project the request names (`project_id`, required), under a fresh
/// identifier (`sess_` and a UUID), idle, at `now`, unless `create_refusal` refuses it.
pub fn create_session(
    store: &mut NodeStore,
    node_id: &str,
    request: &JsonValue,
    root_users: &Vec<String>,
    max_per_project: Option<usize>,
    entries: &Vec<PasswdEntry>,
    now: u64,
) -> (r: Result<SessionRecord, String>)
    requires
        node_store_wf(*old(store)),
    ensures
        node_store_wf(*final(store)),
        final(store).projects == old(store).projects,
        max_per_project matches Some(limit) ==> ((forall|x: Seq<char>| #[trigger] session_count(old(store).sessions@, x) <= limit)
            ==> (forall|x: Seq<char>| #[trigger] session_count(final(store).sessions@, x) <= limit)),
        match field_text(*request, "project_id"@) {
            None => r matches Err(m) && m@ == "project_id is required"@ && *final(store) == *old(store),
            Some(pid) => match project_of(*old(store), pid) {
                None => r matches Err(m) && m@ == "project not found"@ && *final(store) == *old(store),
                Some(p) => match create_refusal(*old(store), *request, p, root_users@, max_per_project, entries@) {
                    Some(e) => r matches Err(m) && m@ == e && *final(store) == *old(store),
                    None => r matches Ok(s) && {
                        &&& created_session(s, node_id@, *request, p, entries@, now)
                        &&& exists|u: Seq<char>| u.len() == 32 && s.session_id@ == "sess_"@ + u
                        &&& session_of(*final(store), s.session_id@) matches Some(t) && session_same(t, s)
                        &&& other_sessions_unchanged(*final(store), *old(store), s.session_id@)
                        &&& forall|x: Seq<char>| #[trigger] session_count(final(store).sessions@, x)
                            <= session_count(old(store).sessions@, x) + (if x == p.project_id@ { 1nat } else { 0nat })
                    },
                },
            },
        },
{
    let pid = match request.get_str("project_id") {
        None => {
            return Err(copy_text("project_id is required"));
        },
        Some(p) => p,
    };
    proof {
        reveal_strlit("");
        assert(""@ =~= Seq::<char>::empty());
        reveal_strlit("session");
        reveal_strlit("sess_");
    }
    let pi = match find(&store.projects, pid, "") {
        None => {
            return Err(copy_text("project not found"));
        },
        Some(i) => i,
    };
    let ghost p = store.projects@[pi as int];
    let name = match request.get_string("name") {
        Some(n) => n,
        None => copy_text("session"),
    };
    let root = match request.get_bool("run_as_root") {
        Some(b) => b,
        None => false,
    };
    if root && !store.projects[pi].allow_root_sessions {
        return Err(copy_text("root sessions are denied by project policy"));
    }
    if root && !origin_user_may_run_root(root_users, request) {
        return Err(copy_text("root sessions are denied by node policy for this user"));
    }
    let run_as_user = if root {
        None
    } else {
        match request.get_str("run_as_user") {
            Some(u) => {
                let found = match crate::node_host::passwd_entry_for_user(entries, u) {
                    Some(_) => true,
                    None => false,
                };
                if !found {
                    let mut m = concat("run_as_user ", debug_quote(u).as_str());
                    m.append(" not found");
                    return Err(m);
                }
                Some(copy_text(u))
            },
            None => store.projects[pi].run_as_user.clone(),
        }
    };
    match max_per_project {
        Some(limit) => {
            let count = count_sessions(store, pid);
            if count >= limit {
                let mut m = concat("max sessions per project exceeded (", decimal_text(limit as u64).as_str());
                m.append(")");
                return Err(m);
            }
        },
        None => {},
    }
    let provider = match request.get_string("provider") {
        Some(v) => Some(v),
        None => store.projects[pi].default_provider.clone(),
    };
    let model = match request.get_string("model") {
        Some(v) => Some(v),
        None => store.projects[pi].default_model.clone(),
    };
    let id = concat("sess_", new_uuid_simple().as_str());
    let session = SessionRecord {
        session_id: id,
        node_id: copy_text(node_id),
        project_id: copy_text(pid),
        name,
        cwd: store.projects[pi].cwd.clone(),
        status: SessionStatus::Idle,
        run_as_user,
        run_as_root: root,
        provider,
        model,
        pi_session_id: None,
        pi_session_file: None,
        pi_leaf_id: None,
        pi_session_name: None,
        created_at: now,
        updated_at: now,
        last_active_at: None,
        crash: None,
    };
    let copy = session.clone();
    let ghost before = store.sessions@;
    let ghost made = session;
    store.put_session(session);
    proof {
        let u = copy.session_id@.subrange(5, 37);
        assert(copy.session_id@ =~= "sess_"@ + u);
        assert forall|x: Seq<char>| #[trigger] session_count(store.sessions@, x)
            <= session_count(before, x) + (if x == p.project_id@ { 1nat } else { 0nat }) by {
            crate::keyed::lemma_filter_len_after_put(before, store.sessions@, made, of_project(x));
        }
    }
    Ok(copy)
}

/// The project and session a request addresses: both identifiers are required.
pub open spec fn session_route(request: JsonValue) -> Result<(Seq<char>, Seq<char>), Seq<char>> {
    match field_text(request, "project_id"@) {
        None => Err("project_id is required"@),
        Some(p) => match field_text(request, "session_id"@) {
            None => Err("session_id is required"@),
            Some(s) => Ok((p, s)),
        },
    }
}

/// The project and session a request addresses.
pub fn require_session_route(request: &JsonValue) -> (r: Result<(&str, &str), String>)
    ensures
        match (r, session_route(*request)) {
            (Ok((p, s)), Ok((pv, sv))) => p@ == pv && s@ == sv,
            (Err(m), Err(e)) => m@ == e,
            _ => false,
        },
{
    let p = match request.get_str("project_id") {
        None => {
            return Err(copy_text("project_id is required"));
        },
        Some(p) => p,
    };
    let s = match request.get_str("session_id") {
        None => {
            return Err(copy_text("session_id is required"));
        },
        Some(s) => s,
    };
    Ok((p, s))
}

/// The session `sid`, which must exist and belong to project `pid`.
pub open spec fn owned_session(store: NodeStore, pid: Seq<char>, sid: Seq<char>) -> Result<SessionRecord, Seq<char>> {
    match session_of(store, sid) {
        None => Err("session not found"@),
        Some(s) => if s.project_id@ != pid {
            Err("session does not belong to project"@)
        } else {
            Ok(s)
        },
    }
}

fn find_owned_session(store: &NodeStore, pid: &str, sid: &str) -> (r: Result<usize, String>)
    requires
        node_store_wf(*store),
    ensures
        match (r, owned_session(*store, pid@, sid@)) {
            (Ok(i), Ok(s)) => i < store.sessions@.len() && store.sessions@[i as int] == s && s.session_id@ == sid@,
            (Err(m), Err(e)) => m@ == e,
            _ => false,
        },
{
    proof {
        reveal_strlit("");
        assert(""@ =~= Seq::<char>::empty());
    }
    match find(&store.sessions, sid, "") {
        None => Err(copy_text("session not found")),
        Some(i) => {
            if !str_eq(store.sessions[i].project_id.as_str(), pid) {
                Err(copy_text("session does not belong to project"))
            } else {
                Ok(i)
            }
        },
    }
}

/// Stops the session the request addresses: it must belong to the project named; it is stopped
/// at `now`. Gives the project and session identifiers; the session's runtime is to be stopped.
pub fn stop_session(store: &mut NodeStore, request: &JsonValue, now: u64) -> (r: Result<(String, String), String>)
    requires
        node_store_wf(*old(store)),
    ensures
        node_store_wf(*final(store)),
        match session_route(*request) {
            Err(e) => r matches Err(m) && m@ == e && *final(store) == *old(store),
            Ok((pid, sid)) => match owned_session(*old(store), pid, sid) {
                Err(e) => r matches Err(m) && m@ == e && *final(store) == *old(store),
                Ok(s) => {
                    &&& r matches Ok((p, q)) && p@ == pid && q@ == sid
                    &&& other_sessions_unchanged(*final(store), *old(store), sid)
                    &&& session_of(*final(store), sid) == Some(SessionRecord {
                        status: SessionStatus::Stopped,
                        updated_at: now,
                        ..s
                    })
                },
            },
        },
{
    let (pid, sid) = require_session_route(request)?;
    find_owned_session(store, pid, sid)?;
    store.update_session_status(sid, SessionStatus::Stopped, now);
    Ok((copy_text(pid), copy_text(sid)))
}

/// Deletes the session the request addresses, which must belong to the project named. Gives the
/// project and session identifiers; the session's runtime is to be stopped.
pub fn delete_session(store: &mut NodeStore, request: &JsonValue) -> (r: Result<(String, String), String>)
    requires
        node_store_wf(*old(store)),
    ensures
        node_store_wf(*final(store)),
        match session_route(*request) {
            Err(e) => r matches Err(m) && m@ == e && *final(store) == *old(store),
            Ok((pid, sid)) => match owned_session(*old(store), pid, sid) {
                Err(e) => r matches Err(m) && m@ == e && *final(store) == *old(store),
                Ok(s) => {
                    &&& r matches Ok((p, q)) && p@ == pid && q@ == sid
                    &&& session_of(*final(store), sid) is None
                    &&& other_sessions_unchanged(*final(store), *old(store), sid)
                },
            },
        },
{
    let (pid, sid) = require_session_route(request)?;
    find_owned_session(store, pid, sid)?;
    store.take_session(sid);
    Ok((copy_text(pid), copy_text(sid)))
}

/// What a session's Pi runtime is started with.
#[derive(Debug)]
pub struct LaunchPlan {
    pub session_id: String,
    pub project_id: String,
    pub cwd: String,
    pub session_name: String,
    pub run_as_user: Option<String>,
    pub run_as_root: bool,
    pub pi_session_file: Option<String>,
    pub provider: Option<String>,
    pub model: Option<String>,
    pub provider_env: Vec<(String, String)>,
}

/// The first of the request's `key`, `first` and `second` that is set.
pub open spec fn chosen(request: JsonValue, key: Seq<char>, first: Option<String>, second: Option<String>) -> Option<Seq<char>> {
    match field_text(request, key) {
        Some(t) => Some(t),
        None => match first {
            Some(f) => Some(f@),
            None => opt_string(second),
        },
    }
}

/// `plan` starts session `s` of project `p` for the request: with the request's provider and
/// model, or else the session's, or else the project's defaults, and the request's environment.
pub open spec fn launch_for(plan: LaunchPlan, p: ProjectRecord, s: SessionRecord, request: JsonValue) -> bool {
    &&& plan.session_id@ == s.session_id@
    &&& plan.project_id@ == p.project_id@
    &&& plan.cwd@ == p.cwd@
    &&& plan.session_name@ == s.name@
    &&& opt_string(plan.run_as_user) == opt_string(s.run_as_user)
    &&& plan.run_as_root == s.run_as_root
    &&& opt_string(plan.pi_session_file) == opt_string(s.pi_session_file)
    &&& opt_string(plan.provider) == chosen(request, "provider"@, s.provider, p.default_provider)
    &&& opt_string(plan.model) == chosen(request, "model"@, s.model, p.default_model)
    &&& request_env(request) matches Ok(env) && pairs_view(plan.provider_env@) == env
}

fn copy_opt(o: &Option<String>) -> (r: Option<String>)
    ensures
        opt_string(r) == opt_string(*o),
{
    match o {
        Some(s) => Some(s.clone()),
        None => None,
    }
}

fn choose_text(request: &JsonValue, key: &str, first: &Option<String>, second: &Option<String>) -> (r: Option<String>)
    ensures
        opt_string(r) == chosen(*request, key@, *first, *second),
{
    match request.get_string(key) {
        Some(t) => Some(t),
        None => match first {
            Some(f) => Some(f.clone()),
            None => copy_opt(second),
        },
    }
}

fn make_launch(p: &ProjectRecord, s: &SessionRecord, request: &JsonValue, env: Vec<(String, String)>) -> (r: LaunchPlan)
    requires
        request_env(*request) matches Ok(pairs) && pairs_view(env@) == pairs,
    ensures
        launch_for(r, *p, *s, *request),
{
    LaunchPlan {
        session_id: s.session_id.clone(),
        project_id: p.project_id.clone(),
        cwd: p.cwd.clone(),
        session_name: s.name.clone(),
        run_as_user: copy_opt(&s.run_as_user),
        run_as_root: s.run_as_root,
        pi_session_file: copy_opt(&s.pi_session_file),
        provider: choose_text(request, "provider", &s.provider, &p.default_provider),
        model: choose_text(request, "model", &s.model, &p.default_model),
        provider_env: env,
    }
}

/// The request comes from a user who may run root sessions.
pub open spec fn origin_may_run_root(request: JsonValue, root_users: Seq<String>) -> bool {
    field_text(request, "origin_user_id"@) matches Some(u) && lists_user(root_users, u)
}

/// Why a session that runs as root may not be launched for this request, if it may not.
pub open spec fn root_refusal(s: SessionRecord, request: JsonValue, root_users: Seq<String>) -> Option<Seq<char>> {
    if s.run_as_root && !origin_may_run_root(request, root_users) {
        Some("root sessions are denied by node policy for this user"@)
    } else {
        None
    }
}

/// The project's directory is still trusted (see `validate_trusted_project_cwd`).
pub open spec fn cwd_refusal(p: ProjectRecord, facts: DirFacts, trusted_roots: Seq<String>, resolved_roots: Seq<String>) -> Option<Seq<char>> {
    match facts.canonical {
        None => Some("project cwd "@ + debug_text(p.cwd@) + " must exist and be accessible"@),
        Some(c) => if !facts.is_dir {
            Some("project cwd must be a directory: "@ + c@)
        } else if !within_some_root(c@, resolved_roots) {
            Some("project cwd "@ + c@ + " is outside trusted roots: "@ + joined(texts_of(trusted_roots), ", "@))
        } else {
            None
        },
    }
}

/// Why restarting the session the request addresses is refused, if it is: the project must
/// exist in a trusted directory, the session must belong to it, a root session needs a user who
/// may run one, and the request's environment must be text.
pub open spec fn restart_refusal(
    store: NodeStore,
    request: JsonValue,
    pid: Seq<char>,
    sid: Seq<char>,
    facts: DirFacts,
    trusted_roots: Seq<String>,
    resolved_roots: Seq<String>,
    root_users: Seq<String>,
) -> Option<Seq<char>> {
    match project_of(store, pid) {
        None => Some("project not found"@),
        Some(p) => if cwd_refusal(p, facts, trusted_roots, resolved_roots) is Some {
            cwd_refusal(p, facts, trusted_roots, resolved_roots)
        } else {
            match owned_session(store, pid, sid) {
                Err(e) => Some(e),
                Ok(s) => if root_refusal(s, request, root_users) is Some {
                    root_refusal(s, request, root_users)
                } else {
                    match request_env(request) {
                        Err(e) => Some(e),
                        Ok(_) => None,
                    }
                },
            }
        },
    }
}

/// Restarts the session the request addresses. Once both identifiers are given, the session's
/// runtime is to be stopped (first member), whatever comes next. Unless `restart_refusal`
/// refuses, the session is starting as of `now`, with its crash report cleared, and the plan to
/// launch its runtime is given (see `launch_for`).
pub fn restart_session(
    store: &mut NodeStore,
    request: &JsonValue,
    facts: &DirFacts,
    trusted_roots: &Vec<String>,
    resolved_roots: &Vec<String>,
    root_users: &Vec<String>,
    now: u64,
) -> (r: (Option<String>, Result<LaunchPlan, String>))
    requires
        node_store_wf(*old(store)),
        resolved_roots@.len() == trusted_roots@.len(),
    ensures
        node_store_wf(*final(store)),
        match field_text(*request, "project_id"@) {
            None => r.1 matches Err(m) && m@ == "project_id is required"@ && *final(store) == *old(store) && r.0 is None,
            Some(pid) => match field_text(*request, "session_id"@) {
                None => r.1 matches Err(m) && m@ == "session_id is required"@ && *final(store) == *old(store) && r.0 is None,
                Some(sid) => {
                    &&& r.0 matches Some(stop) && stop@ == sid
                    &&& match restart_refusal(*old(store), *request, pid, sid, *facts, trusted_roots@, resolved_roots@, root_users@) {
                        Some(e) => r.1 matches Err(m) && m@ == e && *final(store) == *old(store),
                        None => {
                            let s = owned_session(*old(store), pid, sid)->Ok_0;
                            let n = SessionRecord { status: SessionStatus::Starting, updated_at: now, crash: None, ..s };
                            &&& r.1 matches Ok(plan) && launch_for(plan, project_of(*old(store), pid)->0, n, *request)
                            &&& session_of(*final(store), sid) == Some(n)
                            &&& other_sessions_unchanged(*final(store), *old(store), sid)
                        },
                    }
                },
            },
        },
{
    let pid = match request.get_str("project_id") {
        None => {
            return (None, Err(copy_text("project_id is required")));
        },
        Some(p) => p,
    };
    let sid = match request.get_str("session_id") {
        None => {
            return (None, Err(copy_text("session_id is required")));
        },
        Some(s) => s,
    };
    let stop = Some(copy_text(sid));
    proof {
        reveal_strlit("");
        assert(""@ =~= Seq::<char>::empty());
    }
    let pi = match find(&store.projects, pid, "") {
        None => {
            return (stop, Err(copy_text("project not found")));
        },
        Some(i) => i,
    };
    match validate_trusted_project_cwd(store.projects[pi].cwd.as_str(), facts, trusted_roots, resolved_roots) {
        Err(m) => {
            return (stop, Err(m));
        },
        Ok(_) => {},
    }
    let si = match find_owned_session(store, pid, sid) {
        Err(m) => {
            return (stop, Err(m));
        },
        Ok(i) => i,
    };
    if store.sessions[si].run_as_root && !origin_user_may_run_root(root_users, request) {
        return (stop, Err(copy_text("root sessions are denied by node policy for this user")));
    }
    let env = match provider_env_from_value(request) {
        Err(m) => {
            return (stop, Err(m));
        },
        Ok(e) => e,
    };
    let mut s = match store.take_session(sid) {
        Some(s) => s,
        None => {
            return (stop, Err(copy_text("session not found")));
        },
    };
    s.status = SessionStatus::Starting;
    s.updated_at = now;
    s.crash = None;
    let plan = make_launch(&store.projects[pi], &s, request, env);
    store.put_session(s);
    (stop, Ok(plan))
}

/// Sessions that no longer run on their own: only read-only commands reach them, and only while
/// a runtime is still active.
pub open spec fn is_terminal(s: SessionStatus) -> bool {
    s == SessionStatus::Crashed || s == SessionStatus::Missing || s == SessionStatus::Stopped || s == SessionStatus::Stale
}

/// The Pi command a request carries, once checked by policy.
pub open spec fn command_refusal(command: JsonValue) -> Option<Seq<char>> {
    match field_text(command, "type"@) {
        None => Some("command.type is required"@),
        Some(t) => match command_policy(t) {
            CommandPolicy::Allowed => None,
            CommandPolicy::DeniedSessionBinding => Some("Pi command "@ + debug_text(t)
                + " is denied until PumpkinPi can update session bindings atomically"@),
            CommandPolicy::Unknown => Some("unknown Pi command type: "@ + t),
        },
    }
}

/// Why sending the request's Pi command to the session it addresses is refused, if it is: on
/// top of the checks of a restart, a session that no longer runs takes only read-only commands,
/// and only while its runtime is active.
pub open spec fn send_refusal(
    store: NodeStore,
    request: JsonValue,
    pid: Seq<char>,
    sid: Seq<char>,
    command: JsonValue,
    facts: DirFacts,
    trusted_roots: Seq<String>,
    resolved_roots: Seq<String>,
    root_users: Seq<String>,
    runtime_active: bool,
) -> Option<Seq<char>> {
    if command_refusal(command) is Some {
        command_refusal(command)
    } else {
        match project_of(store, pid) {
            None => Some("project not found"@),
            Some(p) => if cwd_refusal(p, facts, trusted_roots, resolved_roots) is Some {
                cwd_refusal(p, facts, trusted_roots, resolved_roots)
            } else {
                match owned_session(store, pid, sid) {
                    Err(e) => Some(e),
                    Ok(s) => if is_terminal(s.status) && !(field_text(command, "type"@) matches Some(t) && is_diagnostic_type(t)) {
                        Some("session is not accepting normal commands while "@ + session_status_label(s.status))
                    } else if is_terminal(s.status) && !runtime_active {
                        Some("session runtime is not active while "@ + session_status_label(s.status)
                            + "; restart explicitly before querying Pi"@)
                    } else if root_refusal(s, request, root_users) is Some {
                        root_refusal(s, request, root_users)
                    } else {
                        match request_env(request) {
                            Err(e) => Some(e),
                            Ok(_) => None,
                        }
                    },
                }
            },
        }
    }
}

/// A Pi command on its way to a session's runtime.
#[derive(Debug)]
pub struct SendPlan {
    pub launch: LaunchPlan,
    pub command: JsonValue,
    pub origin_client_id: Option<String>,
    pub origin_external_id: JsonValue,
}

/// The identifier the sender knows its command by: `origin_external_id`, else the request's
/// `id`, else null.
pub open spec fn external_id(request: JsonValue) -> JsonValue {
    match field(request, "origin_external_id"@) {
        Some(v) => v,
        None => match field(request, "id"@) {
            Some(v) => v,
            None => JsonValue::Null,
        },
    }
}

/// Sends the request's Pi command (`command`) to the session it addresses. Unless a required
/// member is missing or `send_refusal` refuses, the session is running as of `now` (and was last
/// active then), and the plan gives the runtime to make sure of, the command, and who sent it.
pub fn send_to_session(
    store: &mut NodeStore,
    request: &JsonValue,
    facts: &DirFacts,
    trusted_roots: &Vec<String>,
    resolved_roots: &Vec<String>,
    root_users: &Vec<String>,
    runtime_active: bool,
    now: u64,
) -> (r: Result<SendPlan, String>)
    requires
        node_store_wf(*old(store)),
        resolved_roots@.len() == trusted_roots@.len(),
    ensures
        node_store_wf(*final(store)),
        match field_text(*request, "project_id"@) {
            None => r matches Err(m) && m@ == "project_id is required"@ && *final(store) == *old(store),
            Some(pid) => match field_text(*request, "session_id"@) {
                None => r matches Err(m) && m@ == "session_id is required"@ && *final(store) == *old(store),
                Some(sid) => match field(*request, "command"@) {
                    None => r matches Err(m) && m@ == "command is required"@ && *final(store) == *old(store),
                    Some(command) => match send_refusal(*old(store), *request, pid, sid, command, *facts, trusted_roots@,
                        resolved_roots@, root_users@, runtime_active) {
                        Some(e) => r matches Err(m) && m@ == e && *final(store) == *old(store),
                        None => {
                            let s = owned_session(*old(store), pid, sid)->Ok_0;
                            let n = SessionRecord {
                                status: SessionStatus::Running,
                                updated_at: now,
                                last_active_at: Some(now),
                                ..s
                            };
                            &&& r matches Ok(plan) && {
                                &&& launch_for(plan.launch, project_of(*old(store), pid)->0, n, *request)
                                &&& plan.command@ == command@
                                &&& opt_string(plan.origin_client_id) == field_text(*request, "origin_client_id"@)
                                &&& plan.origin_external_id@ == external_id(*request)@
                            }
                            &&& session_of(*final(store), sid) == Some(n)
                            &&& other_sessions_unchanged(*final(store), *old(store), sid)
                        },
                    },
                },
            },
        },
{
    let pid = match request.get_str("project_id") {
        None => {
            return Err(copy_text("project_id is required"));
        },
        Some(p) => p,
    };
    let sid = match request.get_str("session_id") {
        None => {
            return Err(copy_text("session_id is required"));
        },
        Some(s) => s,
    };
    let command = match request.get("command") {
        None => {
            return Err(copy_text("command is required"));
        },
        Some(c) => c,
    };
    validate_pi_command(command)?;
    proof {
        reveal_strlit("");
        assert(""@ =~= Seq::<char>::empty());
    }
    let pi = match find(&store.projects, pid, "") {
        None => {
            return Err(copy_text("project not found"));
        },
        Some(i) => i,
    };
    validate_trusted_project_cwd(store.projects[pi].cwd.as_str(), facts, trusted_roots, resolved_roots)?;
    let si = find_owned_session(store, pid, sid)?;
    let status = store.sessions[si].status;
    let terminal = status == SessionStatus::Crashed || status == SessionStatus::Missing
        || status == SessionStatus::Stopped || status == SessionStatus::Stale;
    if terminal && !is_diagnostic_pi_command(command) {
        return Err(concat("session is not accepting normal commands while ", status.label()));
    }
    if terminal && !runtime_active {
        let mut m = concat("session runtime is not active while ", status.label());
        m.append("; restart explicitly before querying Pi");
        return Err(m);
    }
    if store.sessions[si].run_as_root && !origin_user_may_run_root(root_users, request) {
        return Err(copy_text("root sessions are denied by node policy for this user"));
    }
    let env = provider_env_from_value(request)?;
    let mut s = match store.take_session(sid) {
        Some(s) => s,
        None => {
            return Err(copy_text("session not found"));
        },
    };
    s.status = SessionStatus::Running;
    s.updated_at = now;
    s.last_active_at = Some(now);
    let launch = make_launch(&store.projects[pi], &s, request, env);
    store.put_session(s);
    let origin_external_id = match request.get("origin_external_id") {
        Some(v) => v.copy(),
        None => match request.get("id") {
            Some(v) => v.copy(),
            None => JsonValue::Null,
        },
    };
    Ok(SendPlan {
        launch,
        command: command.copy(),
        origin_client_id: request.get_string("origin_client_id"),
        origin_external_id,
    })
}

} // verus!
