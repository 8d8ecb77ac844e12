//! The node's project commands: listing, adding, removing and reading projects.

use vstd::prelude::*;
use crate::crypto::new_uuid_simple;
use crate::json::{JsonValue, field, field_text, as_flag, opt_string};
use crate::keyed::{Keyed, lookup, find, upsert, remove_key};
use crate::node_config::{DirFacts, validate_trusted_project_cwd, path_parts, within_some_root, joined};
use crate::node_host::{PasswdEntry, passwd_entry_for_user, passwd_entry_for_uid};
use crate::node_records::{ProjectRecord, SessionRecord, ProjectStatus, project_same};
use crate::node_store::{NodeStore, node_store_wf, key_of, project_of};
use crate::text::{str_eq, copy_text, concat, debug_text, debug_quote, texts_of};

verus! {

/// The last component of a path, as `Path::file_name` gives it.
pub open spec fn file_name(p: Seq<char>) -> Option<Seq<char>> {
    let parts = path_parts(p);
    if parts.len() > 0 && parts.last() != ".."@ {
        Some(parts.last())
    } else {
        None
    }
}

fn file_name_of(p: &str) -> (r: Option<String>)
    ensures
        opt_string(r) == file_name(p@),
{
    let parts = crate::node_config::path_parts_text(p);
    let n = parts.len();
    if n == 0 {
        return None;
    }
    proof {
        reveal_strlit("..");
    }
    if str_eq(parts[n - 1].as_str(), "..") {
        return None;
    }
    Some(parts[n - 1].clone())
}

/// The user named `name` exists.
pub open spec fn has_user(entries: Seq<PasswdEntry>, name: Seq<char>) -> bool {
    exists|i: int| 0 <= i < entries.len() && #[trigger] entries[i].name@ == name
}

/// The name of the first user with identifier `uid`.
pub open spec fn user_with_uid(entries: Seq<PasswdEntry>, uid: u32) -> Option<Seq<char>> {
    if exists|i: int| 0 <= i < entries.len() && #[trigger] entries[i].uid == uid {
        Some(entries[choose|i: int| 0 <= i < entries.len() && #[trigger] entries[i].uid == uid
            && forall|j: int| 0 <= j < i ==> entries[j].uid != uid].name@)
    } else {
        None
    }
}

fn user_exists(entries: &Vec<PasswdEntry>, name: &str) -> (r: bool)
    ensures
        r == has_user(entries@, name@),
{
    match passwd_entry_for_user(entries, name) {
        Some(_) => true,
        None => false,
    }
}

fn owner_name(entries: &Vec<PasswdEntry>, uid: u32) -> (r: Option<String>)
    ensures
        opt_string(r) == user_with_uid(entries@, uid),
{
    match passwd_entry_for_uid(entries, uid) {
        Some(e) => {
            proof {
                let ws = entries@;
                let i = choose|i: int| 0 <= i < ws.len() && ws[i] == e && e.uid == uid
                    && forall|j: int| 0 <= j < i ==> ws[j].uid != uid;
                let c = choose|k: int| 0 <= k < ws.len() && #[trigger] ws[k].uid == uid
                    && forall|j: int| 0 <= j < k ==> ws[j].uid != uid;
                assert(ws[i].uid == uid);
                assert(c == i) by {
                    if c < i { } else if c > i { assert(ws[i].uid == uid); }
                }
            }
            Some(e.name)
        },
        None => None,
    }
}

/// The user a new project runs as: the one the request names, who must exist, or else the
/// owner of the project directory (`owner_uid`, or the error reading it), if the host knows them.
pub open spec fn project_user(
    request: JsonValue,
    owner_uid: Result<u32, String>,
    entries: Seq<PasswdEntry>,
) -> Result<Option<Seq<char>>, Seq<char>> {
    match field_text(request, "run_as_user"@) {
        Some(u) => if has_user(entries, u) {
            Ok(Some(u))
        } else {
            Err("run_as_user "@ + debug_text(u) + " not found"@)
        },
        None => match owner_uid {
            Ok(uid) => Ok(user_with_uid(entries, uid)),
            Err(e) => Err(e@),
        },
    }
}

/// The name of a new project: the one the request gives, else the directory's name, else
/// `project`.
pub open spec fn project_name(request: JsonValue, cwd: Seq<char>) -> Seq<char> {
    match field_text(request, "name"@) {
        Some(n) => n,
        None => match file_name(cwd) {
            Some(f) => f,
            None => "project"@,
        },
    }
}

/// The project that adding a project creates, before its identifier is chosen.
pub open spec fn added_project(
    p: ProjectRecord,
    node_id: Seq<char>,
    request: JsonValue,
    cwd: Seq<char>,
    run_as_user: Option<Seq<char>>,
    now: u64,
) -> bool {
    &&& p.node_id@ == node_id
    &&& p.name@ == project_name(request, cwd)
    &&& p.cwd@ == cwd
    &&& p.default_pi_args@.len() == 0
    &&& opt_string(p.default_provider) == field_text(request, "default_provider"@)
    &&& opt_string(p.default_model) == field_text(request, "default_model"@)
    &&& opt_string(p.run_as_user) == run_as_user
    &&& p.allow_root_sessions == (as_flag(field(request, "allow_root_sessions"@)) == Some(true))
    &&& p.status == ProjectStatus::Active
    &&& p.trusted
    &&& p.created_at == now
    &&& p.updated_at == now
}

/// Adds the project in the request's `cwd`, which must be a trusted directory (see
/// `validate_trusted_project_cwd`; `cwd_facts` is what the host knows of it), under a fresh
/// identifier (`proj_` and a UUID), run as `project_user`, at `now`. Gives the new project.
pub fn add_project(
    store: &mut NodeStore,
    node_id: &str,
    request: &JsonValue,
    cwd_facts: &DirFacts,
    trusted_roots: &Vec<String>,
    resolved_roots: &Vec<String>,
    owner_uid: &Result<u32, String>,
    entries: &Vec<PasswdEntry>,
    now: u64,
) -> (r: Result<ProjectRecord, String>)
    requires
        node_store_wf(*old(store)),
        resolved_roots@.len() == trusted_roots@.len(),
    ensures
        node_store_wf(*final(store)),
        final(store).sessions == old(store).sessions,
        match field_text(*request, "cwd"@) {
            None => r matches Err(m) && m@ == "cwd is required"@ && *final(store) == *old(store),
            Some(input) => match cwd_facts.canonical {
                None => r matches Err(m) && m@ == "project cwd "@ + debug_text(input) + " must exist and be accessible"@
                    && *final(store) == *old(store),
                Some(c) => if !cwd_facts.is_dir {
                    r matches Err(m) && m@ == "project cwd must be a directory: "@ + c@ && *final(store) == *old(store)
                } else if !within_some_root(c@, resolved_roots@) {
                    r matches Err(m) && m@ == "project cwd "@ + c@ + " is outside trusted roots: "@
                        + joined(texts_of(trusted_roots@), ", "@) && *final(store) == *old(store)
                } else {
                    match project_user(*request, *owner_uid, entries@) {
                        Err(e) => r matches Err(m) && m@ == e && *final(store) == *old(store),
                        Ok(user) => r matches Ok(p) && {
                            &&& added_project(p, node_id@, *request, c@, user, now)
                            &&& exists|u: Seq<char>| u.len() == 32 && p.project_id@ == "proj_"@ + u
                            &&& lookup(final(store).projects@, p.key()) matches Some(q) && project_same(q, p)
                            &&& forall|k: (Seq<char>, Seq<char>)| k != p.key() ==> #[trigger] lookup(final(store).projects@, k) == lookup(old(store).projects@, k)
                        },
                    }
                },
            },
        },
{
    let input = match request.get_str("cwd") {
        None => {
            return Err(copy_text("cwd is required"));
        },
        Some(c) => c,
    };
    let cwd = validate_trusted_project_cwd(input, cwd_facts, trusted_roots, resolved_roots)?;
    let name = match request.get_string("name") {
        Some(n) => n,
        None => match file_name_of(cwd.as_str()) {
            Some(f) => f,
            None => {
                proof {
                    reveal_strlit("project");
                }
                copy_text("project")
            },
        },
    };
    let run_as_user = match request.get_str("run_as_user") {
        Some(user) => {
            if !user_exists(entries, user) {
                let mut m = concat("run_as_user ", debug_quote(user).as_str());
                m.append(" not found");
                return Err(m);
            }
            Some(copy_text(user))
        },
        None => match owner_uid {
            Ok(uid) => owner_name(entries, *uid),
            Err(e) => {
                return Err(e.clone());
            },
        },
    };
    let allow_root_sessions = match request.get_bool("allow_root_sessions") {
        Some(b) => b,
        None => false,
    };
    let id = concat("proj_", new_uuid_simple().as_str());
    proof {
        reveal_strlit("proj_");
    }
    let project = ProjectRecord {
        project_id: id,
        node_id: copy_text(node_id),
        name,
        cwd,
        default_pi_args: Vec::new(),
        default_provider: request.get_string("default_provider"),
        default_model: request.get_string("default_model"),
        run_as_user,
        allow_root_sessions,
        status: ProjectStatus::Active,
        trusted: true,
        created_at: now,
        updated_at: now,
    };
    let copy = project.clone();
    upsert(&mut store.projects, project);
    proof {
        let u = copy.project_id@.subrange(5, 37);
        assert(copy.project_id@ =~= "proj_"@ + u);
    }
    Ok(copy)
}

/// The sessions that do not belong to project `pid`, in order.
pub open spec fn sessions_outside(sessions: Seq<SessionRecord>, pid: Seq<char>) -> Seq<SessionRecord> {
    sessions.filter(|s: SessionRecord| s.project_id@ != pid)
}

/// The identifiers of the sessions of project `pid`, in order.
pub open spec fn session_ids_within(sessions: Seq<SessionRecord>, pid: Seq<char>) -> Seq<Seq<char>> {
    sessions.filter(|s: SessionRecord| s.project_id@ == pid).map_values(|s: SessionRecord| s.session_id@)
}

/// Removes the project the request names (`project_id`, required) with all of its sessions,
/// whether or not the project is known. Gives the project's identifier and the sessions whose
/// runtimes to stop.
pub fn remove_project(store: &mut NodeStore, request: &JsonValue) -> (r: Result<(String, Vec<String>), String>)
    requires
        node_store_wf(*old(store)),
    ensures
        node_store_wf(*final(store)),
        match field_text(*request, "project_id"@) {
            None => r matches Err(m) && m@ == "project_id is required"@ && *final(store) == *old(store),
            Some(pid) => r matches Ok((id, stopped)) && {
                &&& id@ == pid
                &&& lookup(final(store).projects@, key_of(pid)) is None
                &&& forall|k: (Seq<char>, Seq<char>)| k != key_of(pid) ==> #[trigger] lookup(final(store).projects@, k) == lookup(old(store).projects@, k)
                &&& final(store).sessions@ == sessions_outside(old(store).sessions@, pid)
                &&& texts_of(stopped@) == session_ids_within(old(store).sessions@, pid)
            },
        },
{
    let pid = match request.get_str("project_id") {
        None => {
            return Err(copy_text("project_id is required"));
        },
        Some(p) => p,
    };
    proof {
        reveal_strlit("");
        assert(""@ =~= Seq::<char>::empty());
    }
    remove_key(&mut store.projects, pid, "");
    let ghost all = store.sessions@;
    let ghost keep = |s: SessionRecord| s.project_id@ != pid@;
    let ghost gone = |s: SessionRecord| s.project_id@ == pid@;
    let mut rest: Vec<SessionRecord> = Vec::new();
    std::mem::swap(&mut rest, &mut store.sessions);
    let mut kept: Vec<SessionRecord> = Vec::new();
    let mut stopped: Vec<String> = Vec::new();
    let n = rest.len();
    let mut i: usize = 0;
    assert(all.subrange(0, 0).filter(keep) =~= Seq::<SessionRecord>::empty());
    assert(all.subrange(0, 0).filter(gone) =~= Seq::<SessionRecord>::empty());
    while i < n
        invariant
            n == all.len(),
            i <= n,
            rest@ == all.subrange(i as int, n as int),
            kept@ == all.subrange(0, i as int).filter(keep),
            texts_of(stopped@) == all.subrange(0, i as int).filter(gone).map_values(|s: SessionRecord| s.session_id@),
            keep == (|s: SessionRecord| s.project_id@ != pid@),
            gone == (|s: SessionRecord| s.project_id@ == pid@),
        decreases n - i,
    {
        let s = rest.remove(0);
        assert(s == all[i as int]);
        proof {
            all.subrange(0, i as int).lemma_filter_push(s, keep);
            all.subrange(0, i as int).lemma_filter_push(s, gone);
            assert(all.subrange(0, i as int).push(s) =~= all.subrange(0, i + 1));
        }
        if str_eq(s.project_id.as_str(), pid) {
            let ghost before = texts_of(stopped@);
            stopped.push(s.session_id.clone());
            proof {
                let f = all.subrange(0, i as int).filter(gone);
                assert(f.push(s).map_values(|x: SessionRecord| x.session_id@) =~= f.map_values(|x: SessionRecord| x.session_id@).push(s.session_id@));
                assert(texts_of(stopped@) =~= before.push(s.session_id@));
            }
        } else {
            kept.push(s);
        }
        i = i + 1;
        assert(rest@ =~= all.subrange(i as int, n as int));
    }
    assert(all.subrange(0, n as int) =~= all);
    proof {
        crate::hub_routing::lemma_filter_keys_sorted(all, keep);
        assert(kept@ == sessions_outside(all, pid@));
        assert(texts_of(stopped@) == session_ids_within(all, pid@));
    }
    store.sessions = kept;
    Ok((copy_text(pid), stopped))
}

/// The directory of the project the request names, which the host must check before the project
/// is read, restarted or sent to.
pub fn requested_project_cwd(store: &NodeStore, request: &JsonValue) -> (r: Option<String>)
    requires
        node_store_wf(*store),
    ensures
        opt_string(r) == match field_text(*request, "project_id"@) {
            Some(pid) => match project_of(*store, pid) {
                Some(p) => Some(p.cwd@),
                None => None,
            },
            None => None,
        },
{
    let pid = match request.get_str("project_id") {
        None => {
            return None;
        },
        Some(p) => p,
    };
    proof {
        reveal_strlit("");
        assert(""@ =~= Seq::<char>::empty());
    }
    match find(&store.projects, pid, "") {
        Some(i) => Some(store.projects[i].cwd.clone()),
        None => None,
    }
}

/// Reads the project the request names (`project_id`, required), which must exist and still be
/// in a trusted directory (`cwd_facts` is what the host knows of its directory).
pub fn get_project(
    store: &NodeStore,
    request: &JsonValue,
    cwd_facts: &DirFacts,
    trusted_roots: &Vec<String>,
    resolved_roots: &Vec<String>,
) -> (r: Result<ProjectRecord, String>)
    requires
        node_store_wf(*store),
        resolved_roots@.len() == trusted_roots@.len(),
    ensures
        match field_text(*request, "project_id"@) {
            None => r matches Err(m) && m@ == "project_id is required"@,
            Some(pid) => match project_of(*store, pid) {
                None => r matches Err(m) && m@ == "project not found"@,
                Some(p) => match cwd_facts.canonical {
                    None => r matches Err(m) && m@ == "project cwd "@ + debug_text(p.cwd@) + " must exist and be accessible"@,
                    Some(c) => if !cwd_facts.is_dir {
                        r matches Err(m) && m@ == "project cwd must be a directory: "@ + c@
                    } else if !within_some_root(c@, resolved_roots@) {
                        r matches Err(m) && m@ == "project cwd "@ + c@ + " is outside trusted roots: "@
                            + joined(texts_of(trusted_roots@), ", "@)
                    } else {
                        r matches Ok(q) && project_same(q, p)
                    },
                },
            },
        },
{
    let pid = match request.get_str("project_id") {
        None => {
            return Err(copy_text("project_id is required"));
        },
        Some(p) => p,
    };
    proof {
        reveal_strlit("");
        assert(""@ =~= Seq::<char>::empty());
    }
    let i = match find(&store.projects, pid, "") {
        None => {
            return Err(copy_text("project not found"));
        },
        Some(i) => i,
    };
    validate_trusted_project_cwd(store.projects[i].cwd.as_str(), cwd_facts, trusted_roots, resolved_roots)?;
    Ok(store.projects[i].clone())
}

} // verus!
