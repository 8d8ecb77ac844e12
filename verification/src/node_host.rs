//! Who a node runs Pi as: users from the password database, the identity of a session, and who
//! may ask for root sessions.

use vstd::prelude::*;
use crate::json::{JsonValue, field_text, opt_text};
use crate::text::{
    str_eq, copy_text, concat, decimal, decimal_text, debug_text, debug_quote, split_text, split_char,
    text_lines, lines, texts_of, u32_numeral, parse_u32,
};

verus! {

/// A user of the host.
#[derive(Debug)]
pub struct PasswdEntry {
    pub name: String,
    pub uid: u32,
    pub gid: u32,
}

impl Clone for PasswdEntry {
    fn clone(&self) -> (r: Self)
        ensures
            r == *self,
    {
        PasswdEntry { name: self.name.clone(), uid: self.uid, gid: self.gid }
    }
}

/// The user a line of the password database describes: name, password, numeric user and group
/// identifiers, then anything; other lines describe no one.
pub open spec fn passwd_line(line: Seq<char>) -> Option<(Seq<char>, u32, u32)> {
    let f = split_text(line, ':');
    if f.len() >= 4 {
        match (u32_numeral(f[2]), u32_numeral(f[3])) {
            (Some(uid), Some(gid)) => Some((f[0], uid, gid)),
            _ => None,
        }
    } else {
        None
    }
}

/// The users of a password database, in the order of its lines.
pub open spec fn passwd_users(lines: Seq<Seq<char>>) -> Seq<(Seq<char>, u32, u32)>
    decreases lines.len(),
{
    if lines.len() == 0 {
        Seq::empty()
    } else {
        match passwd_line(lines.last()) {
            Some(u) => passwd_users(lines.drop_last()).push(u),
            None => passwd_users(lines.drop_last()),
        }
    }
}

/// The name, user and group identifiers of some entries.
pub open spec fn entries_view(v: Seq<PasswdEntry>) -> Seq<(Seq<char>, u32, u32)> {
    v.map_values(|e: PasswdEntry| (e.name@, e.uid, e.gid))
}

/// The users of the password database `text` (the contents of `/etc/passwd`).
pub fn parse_passwd_entries(text: &str) -> (r: Vec<PasswdEntry>)
    ensures
        entries_view(r@) == passwd_users(text_lines(text@)),
{
    let ls = lines(text);
    let ghost all = texts_of(ls@);
    let mut out: Vec<PasswdEntry> = Vec::new();
    let mut i: usize = 0;
    while i < ls.len()
        invariant
            i <= ls@.len(),
            all == texts_of(ls@),
            all == text_lines(text@),
            entries_view(out@) == passwd_users(all.subrange(0, i as int)),
        decreases ls@.len() - i,
    {
        proof {
            assert(all.subrange(0, i + 1).drop_last() =~= all.subrange(0, i as int));
        }
        let f = split_char(ls[i].as_str(), ':');
        if f.len() >= 4 {
            match (parse_u32(f[2].as_str()), parse_u32(f[3].as_str())) {
                (Some(uid), Some(gid)) => {
                    let ghost before = out@;
                    out.push(PasswdEntry { name: f[0].clone(), uid, gid });
                    assert(entries_view(out@) =~= entries_view(before).push((f@[0]@, uid, gid)));
                },
                _ => {},
            }
        }
        i = i + 1;
    }
    assert(all.subrange(0, i as int) =~= all);
    out
}

/// The first user named `name`.
pub fn passwd_entry_for_user(entries: &Vec<PasswdEntry>, name: &str) -> (r: Option<PasswdEntry>)
    ensures
        match r {
            Some(e) => exists|i: int| 0 <= i < entries@.len() && entries@[i] == e && e.name@ == name@
                && forall|j: int| 0 <= j < i ==> entries@[j].name@ != name@,
            None => forall|j: int| 0 <= j < entries@.len() ==> entries@[j].name@ != name@,
        },
{
    let mut i: usize = 0;
    while i < entries.len()
        invariant
            i <= entries@.len(),
            forall|j: int| 0 <= j < i ==> entries@[j].name@ != name@,
        decreases entries@.len() - i,
    {
        if str_eq(entries[i].name.as_str(), name) {
            return Some(entries[i].clone());
        }
        i = i + 1;
    }
    None
}

/// The first user with identifier `uid`.
pub fn passwd_entry_for_uid(entries: &Vec<PasswdEntry>, uid: u32) -> (r: Option<PasswdEntry>)
    ensures
        match r {
            Some(e) => exists|i: int| 0 <= i < entries@.len() && entries@[i] == e && e.uid == uid
                && forall|j: int| 0 <= j < i ==> entries@[j].uid != uid,
            None => forall|j: int| 0 <= j < entries@.len() ==> entries@[j].uid != uid,
        },
{
    let mut i: usize = 0;
    while i < entries.len()
        invariant
            i <= entries@.len(),
            forall|j: int| 0 <= j < i ==> entries@[j].uid != uid,
        decreases entries@.len() - i,
    {
        if entries[i].uid == uid {
            return Some(entries[i].clone());
        }
        i = i + 1;
    }
    None
}

/// The name of the user who owns a project directory, given the directory's owner `uid`.
pub fn project_owner_user(entries: &Vec<PasswdEntry>, uid: u32) -> (r: Option<String>)
    ensures
        match r {
            Some(n) => exists|i: int| 0 <= i < entries@.len() && entries@[i].name@ == n@ && entries@[i].uid == uid
                && forall|j: int| 0 <= j < i ==> entries@[j].uid != uid,
            None => forall|j: int| 0 <= j < entries@.len() ==> entries@[j].uid != uid,
        },
{
    match passwd_entry_for_uid(entries, uid) {
        Some(e) => Some(e.name),
        None => None,
    }
}

/// Whom a Pi process runs as.
#[derive(Debug)]
pub enum ExecutionIdentity {
    Root,
    User(PasswdEntry),
}

/// How logs and messages name an identity: `root`, or the user's name, a colon and its
/// identifier.
pub open spec fn identity_label(i: ExecutionIdentity) -> Seq<char> {
    match i {
        ExecutionIdentity::Root => "root"@,
        ExecutionIdentity::User(u) => u.name@ + ":"@ + decimal(u.uid as nat),
    }
}

impl ExecutionIdentity {
    /// How logs and messages name the identity: `root`, or the user's name, a colon and its
    /// identifier.
    pub fn label(&self) -> (r: String)
        ensures
            r@ == identity_label(*self),
    {
        match self {
            ExecutionIdentity::Root => copy_text("root"),
            ExecutionIdentity::User(u) => {
                let mut s = concat(u.name.as_str(), ":");
                s.append(decimal_text(u.uid as u64).as_str());
                s
            },
        }
    }
}

/// `r` is the identity a session runs as: root when it asks for root; otherwise the first user
/// of `entries` named `run_as_user`, who must exist.
pub open spec fn identity_resolved(
    entries: Seq<PasswdEntry>,
    run_as_user: Option<Seq<char>>,
    run_as_root: bool,
    r: Result<ExecutionIdentity, String>,
) -> bool {
    if run_as_root {
        r matches Ok(ExecutionIdentity::Root)
    } else {
        match run_as_user {
            None => r matches Err(m) && m@ == "non-root Pi sessions require run_as_user"@,
            Some(user) => match r {
                Ok(ExecutionIdentity::User(e)) => e.name@ == user && exists|i: int| 0 <= i < entries.len() && entries[i] == e
                    && forall|j: int| 0 <= j < i ==> entries[j].name@ != user,
                Ok(ExecutionIdentity::Root) => false,
                Err(m) => m@ == "run_as_user "@ + debug_text(user) + " not found"@
                    && forall|j: int| 0 <= j < entries.len() ==> entries[j].name@ != user,
            },
        }
    }
}

/// The identity a session runs as: root when it asks for root; otherwise the user it names,
/// who must exist.
pub fn resolve_execution_identity(entries: &Vec<PasswdEntry>, run_as_user: Option<&str>, run_as_root: bool) -> (r: Result<ExecutionIdentity, String>)
    ensures
        identity_resolved(entries@, opt_text(run_as_user), run_as_root, r),
{
    if run_as_root {
        return Ok(ExecutionIdentity::Root);
    }
    let user = match run_as_user {
        None => {
            return Err(copy_text("non-root Pi sessions require run_as_user"));
        },
        Some(u) => u,
    };
    match passwd_entry_for_user(entries, user) {
        Some(e) => Ok(ExecutionIdentity::User(e)),
        None => {
            let mut m = concat("run_as_user ", debug_quote(user).as_str());
            m.append(" not found");
            Err(m)
        },
    }
}

/// `u` is one of `ids`.
pub open spec fn lists_user(ids: Seq<String>, u: Seq<char>) -> bool {
    exists|i: int| 0 <= i < ids.len() && #[trigger] ids[i]@ == u
}

/// Whether the user a request comes from (`origin_user_id`) is one of the users the node lets
/// run root sessions.
pub fn origin_user_may_run_root(root_session_user_ids: &Vec<String>, request: &JsonValue) -> (r: bool)
    ensures
        r == (field_text(*request, "origin_user_id"@) matches Some(u)
            && lists_user(root_session_user_ids@, u)),
{
    let user = match request.get_str("origin_user_id") {
        None => {
            return false;
        },
        Some(u) => u,
    };
    let mut i: usize = 0;
    while i < root_session_user_ids.len()
        invariant
            i <= root_session_user_ids@.len(),
            field_text(*request, "origin_user_id"@) == Some(user@),
            forall|j: int| 0 <= j < i ==> root_session_user_ids@[j]@ != user@,
        decreases root_session_user_ids@.len() - i,
    {
        if str_eq(root_session_user_ids[i].as_str(), user) {
            assert(root_session_user_ids@[i as int]@ == user@);
            return true;
        }
        i = i + 1;
    }
    false
}

} // verus!
