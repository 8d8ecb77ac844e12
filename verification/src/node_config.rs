//! A node's configuration and the small rules around it: where its files live, how it reaches
//! its hub, its signing key, and the protocol checks on what it receives.

use vstd::prelude::*;
use crate::crypto::{base64_text, base64_decode, base64_encode, ed25519_sign, ed25519_signature, ed25519_public, ed25519_public_key, ed25519_valid, key_accepts, random_bytes_32};
use crate::json::{JsonValue, field, as_unsigned, member};
use crate::policy::PROTOCOL_VERSION;
use crate::text::{str_eq, copy_text, concat, decimal, decimal_text, trimmed, trim_text, debug_text, debug_quote, split_text, split_char, texts_of};

verus! {

/// How a node is set up: its identity and hub, the directories it may serve projects from, who
/// may run root sessions, and its session limits.
#[derive(Debug)]
pub struct NodeConfig {
    pub node_id: String,
    pub hub_url: String,
    pub node_token: Option<String>,
    pub trusted_roots: Vec<String>,
    pub root_session_user_ids: Vec<String>,
    pub max_concurrent_sessions: Option<usize>,
    pub max_sessions_per_project: Option<usize>,
}

/// `dir` joined with the relative path `name`, as `Path::join` joins them.
pub open spec fn join_path(dir: Seq<char>, name: Seq<char>) -> Seq<char> {
    if dir.len() == 0 {
        name
    } else if dir.last() == '/' {
        dir + name
    } else {
        dir + "/"@ + name
    }
}

/// Joins a directory and a relative path.
pub fn join_path_text(dir: &str, name: &str) -> (r: String)
    ensures
        r@ == join_path(dir@, name@),
{
    let n = dir.unicode_len();
    if n == 0 {
        copy_text(name)
    } else if dir.get_char(n - 1) == '/' {
        concat(dir, name)
    } else {
        let mut s = concat(dir, "/");
        s.append(name);
        s
    }
}

/// Where a node keeps its state: `$PUMPKINPI_NODE_DIR`, else `.pumpkinpi-node` under `$HOME`,
/// else `.pumpkinpi-node` in the working directory.
pub fn default_node_data_dir(node_dir: Option<&str>, home: Option<&str>) -> (r: String)
    ensures
        r@ == match node_dir {
            Some(d) => d@,
            None => match home {
                Some(h) => join_path(h@, ".pumpkinpi-node"@),
                None => ".pumpkinpi-node"@,
            },
        },
{
    match node_dir {
        Some(d) => copy_text(d),
        None => match home {
            Some(h) => join_path_text(h, ".pumpkinpi-node"),
            None => copy_text(".pumpkinpi-node"),
        },
    }
}

/// Where a node's projects and sessions are read from.
#[derive(Debug, Clone, Copy, PartialEq, Eq, Structural)]
pub enum StoreSource {
    /// The projects and sessions files, either of which may be absent (and then empty).
    Split,
    /// The older single store file, which is then written out split.
    Legacy,
    /// Nothing yet: an empty store.
    Empty,
}

/// Where a node's store is read from, given which of its files exist: the split files win over
/// the older single file.
pub fn store_source(projects_exists: bool, sessions_exists: bool, legacy_exists: bool) -> (r: StoreSource)
    ensures
        r == (if projects_exists || sessions_exists {
            StoreSource::Split
        } else if legacy_exists {
            StoreSource::Legacy
        } else {
            StoreSource::Empty
        }),
{
    if projects_exists || sessions_exists {
        StoreSource::Split
    } else if legacy_exists {
        StoreSource::Legacy
    } else {
        StoreSource::Empty
    }
}

/// The node's configuration file.
pub fn config_path(data_dir: &str) -> (r: String)
    ensures
        r@ == join_path(data_dir@, "config.toml"@),
{
    join_path_text(data_dir, "config.toml")
}

/// Where older nodes kept their configuration.
pub fn legacy_config_path(data_dir: &str) -> (r: String)
    ensures
        r@ == join_path(data_dir@, "config.json"@),
{
    join_path_text(data_dir, "config.json")
}

/// The node's private signing key.
pub fn node_key_path(data_dir: &str) -> (r: String)
    ensures
        r@ == join_path(data_dir@, "node.key"@),
{
    join_path_text(data_dir, "node.key")
}

/// The node's projects.
pub fn projects_path(data_dir: &str) -> (r: String)
    ensures
        r@ == join_path(data_dir@, "projects.json"@),
{
    join_path_text(data_dir, "projects.json")
}

/// The node's sessions.
pub fn sessions_path(data_dir: &str) -> (r: String)
    ensures
        r@ == join_path(data_dir@, "sessions.json"@),
{
    join_path_text(data_dir, "sessions.json")
}

/// Where older nodes kept projects and sessions together.
pub fn legacy_store_path(data_dir: &str) -> (r: String)
    ensures
        r@ == join_path(data_dir@, "store.json"@),
{
    join_path_text(data_dir, "store.json")
}

/// `s` without its trailing slashes.
pub open spec fn without_trailing_slashes(s: Seq<char>) -> Seq<char>
    decreases s.len(),
{
    if s.len() > 0 && s.last() == '/' {
        without_trailing_slashes(s.drop_last())
    } else {
        s
    }
}

/// `pat` occurs in `s` at `i`.
pub open spec fn occurs_at(s: Seq<char>, pat: Seq<char>, i: int) -> bool {
    0 <= i && i + pat.len() <= s.len() && s.subrange(i, i + pat.len()) == pat
}

/// `s` with the first occurrence of `pat` replaced by `rep`, as `str::replacen(pat, rep, 1)` does.
pub open spec fn replace_first(s: Seq<char>, pat: Seq<char>, rep: Seq<char>) -> Seq<char> {
    if exists|i: int| #[trigger] occurs_at(s, pat, i) {
        let i = choose|i: int| #[trigger] occurs_at(s, pat, i) && forall|j: int| 0 <= j < i ==> !occurs_at(s, pat, j);
        s.subrange(0, i) + rep + s.subrange(i + pat.len(), s.len() as int)
    } else {
        s
    }
}

pub(crate) fn strip_trailing_slashes(s: &str) -> (r: String)
    ensures
        r@ == without_trailing_slashes(s@),
{
    let mut n = s.unicode_len();
    assert(s@.subrange(0, n as int) =~= s@);
    while n > 0 && s.get_char(n - 1) == '/'
        invariant
            n <= s@.len(),
            without_trailing_slashes(s@.subrange(0, n as int)) == without_trailing_slashes(s@),
        decreases n,
    {
        assert(s@.subrange(0, n as int).drop_last() =~= s@.subrange(0, n - 1));
        n = n - 1;
    }
    proof {
        assert(without_trailing_slashes(s@.subrange(0, n as int)) == s@.subrange(0, n as int));
    }
    copy_text(s.substring_char(0, n))
}

fn replace_first_text(s: &str, pat: &str, rep: &str) -> (r: String)
    requires
        pat@.len() > 0,
    ensures
        r@ == replace_first(s@, pat@, rep@),
{
    let n = s.unicode_len();
    let m = pat.unicode_len();
    if m > n {
        proof {
            assert forall|i: int| !#[trigger] occurs_at(s@, pat@, i) by {}
        }
        return copy_text(s);
    }
    let mut i: usize = 0;
    while i <= n - m
        invariant
            m <= n,
            n == s@.len(),
            m == pat@.len(),
            m > 0,
            i <= n - m + 1,
            forall|j: int| 0 <= j < i ==> !#[trigger] occurs_at(s@, pat@, j),
        decreases n - m + 1 - i,
    {
        let piece = s.substring_char(i, i + m);
        if str_eq(piece, pat) {
            proof {
                assert(occurs_at(s@, pat@, i as int));
                let c = choose|x: int| #[trigger] occurs_at(s@, pat@, x) && forall|j: int| 0 <= j < x ==> !occurs_at(s@, pat@, j);
                assert(c == i) by {
                    if c < i { } else if c > i { assert(occurs_at(s@, pat@, i as int)); }
                }
            }
            let mut out = copy_text(s.substring_char(0, i));
            out.append(rep);
            out.append(s.substring_char(i + m, n));
            return out;
        }
        i = i + 1;
    }
    proof {
        assert forall|j: int| !#[trigger] occurs_at(s@, pat@, j) by {
            if 0 <= j < i {
            }
        }
    }
    copy_text(s)
}

/// The node's WebSocket endpoint on its hub: the hub's address without trailing slashes, its
/// first `https://` made `wss://` and then its first `http://` made `ws://`, followed by
/// `/ws/node`.
pub open spec fn node_ws_url(hub: Seq<char>) -> Seq<char> {
    replace_first(replace_first(without_trailing_slashes(hub), "https://"@, "wss://"@), "http://"@, "ws://"@)
        + "/ws/node"@
}

/// The node's WebSocket endpoint on the hub at `hub`.
pub fn hub_ws_url(hub: &str) -> (r: String)
    ensures
        r@ == node_ws_url(hub@),
{
    proof {
        reveal_strlit("https://");
        reveal_strlit("http://");
    }
    let base = strip_trailing_slashes(hub);
    let secure = replace_first_text(base.as_str(), "https://", "wss://");
    let mut plain = replace_first_text(secure.as_str(), "http://", "ws://");
    plain.append("/ws/node");
    plain
}

/// A message must carry the protocol version the node speaks.
pub fn require_protocol_version(value: &JsonValue) -> (r: Result<(), String>)
    ensures
        match as_unsigned(field(*value, "protocol_version"@)) {
            None => r matches Err(m) && m@ == "protocol_version is required"@,
            Some(v) => if v == PROTOCOL_VERSION {
                r is Ok
            } else {
                r matches Err(m) && m@ == "unsupported protocol_version "@ + decimal(v as nat) + "; expected "@
                    + decimal(PROTOCOL_VERSION as nat)
            },
        },
{
    let v = match value.get_u64("protocol_version") {
        None => {
            return Err(copy_text("protocol_version is required"));
        },
        Some(v) => v,
    };
    if v != PROTOCOL_VERSION as u64 {
        let mut m = concat("unsupported protocol_version ", decimal_text(v).as_str());
        m.append("; expected ");
        m.append(decimal_text(PROTOCOL_VERSION as u64).as_str());
        return Err(m);
    }
    Ok(())
}

/// The members of a JSON object, all text, as pairs of texts.
pub open spec fn text_members(ms: Seq<(String, JsonValue)>) -> Option<Seq<(Seq<char>, Seq<char>)>>
    decreases ms.len(),
{
    if ms.len() == 0 {
        Some(Seq::empty())
    } else {
        match text_members(ms.drop_last()) {
            None => None,
            Some(prev) => match ms.last().1 {
                JsonValue::Str(t) => Some(prev.push((ms.last().0@, t@))),
                _ => None,
            },
        }
    }
}

/// The first member of `ms` that is not text.
pub open spec fn first_non_text(ms: Seq<(String, JsonValue)>) -> int {
    choose|i: int| 0 <= i < ms.len() && !(ms[i].1 is Str) && forall|j: int| 0 <= j < i ==> ms[j].1 is Str
}

pub open spec fn pairs_view(v: Seq<(String, String)>) -> Seq<(Seq<char>, Seq<char>)> {
    v.map_values(|p: (String, String)| (p.0@, p.1@))
}

proof fn lemma_text_members_prefix(ms: Seq<(String, JsonValue)>, i: int)
    requires
        0 <= i <= ms.len(),
        forall|j: int| 0 <= j < i ==> ms[j].1 is Str,
    ensures
        text_members(ms.subrange(0, i)) is Some,
    decreases i,
{
    if i > 0 {
        assert(ms.subrange(0, i).drop_last() =~= ms.subrange(0, i - 1));
        lemma_text_members_prefix(ms, i - 1);
    }
}

proof fn lemma_text_members_fail(ms: Seq<(String, JsonValue)>, i: int, k: int)
    requires
        0 <= i < ms.len(),
        i < k <= ms.len(),
        !(ms[i].1 is Str),
    ensures
        text_members(ms.subrange(0, k)) is None,
    decreases k,
{
    assert(ms.subrange(0, k).drop_last() =~= ms.subrange(0, k - 1));
    if k - 1 > i {
        lemma_text_members_fail(ms, i, k - 1);
    }
}

/// The provider environment a request carries in `provider_env`, as pairs of texts: every member
/// must be text. A request without an object there carries none.
pub open spec fn request_env(value: JsonValue) -> Result<Seq<(Seq<char>, Seq<char>)>, Seq<char>> {
    match field(value, "provider_env"@) {
        Some(JsonValue::Object(ms)) => match text_members(ms@) {
            Some(pairs) => Ok(pairs),
            None => Err("provider_env."@ + ms@[first_non_text(ms@)].0@ + " must be a string"@),
        },
        _ => Ok(Seq::empty()),
    }
}

/// The provider environment a request carries (see `request_env`).
pub fn provider_env_from_value(value: &JsonValue) -> (r: Result<Vec<(String, String)>, String>)
    ensures
        match (r, request_env(*value)) {
            (Ok(env), Ok(pairs)) => pairs_view(env@) == pairs,
            (Err(m), Err(e)) => m@ == e,
            _ => false,
        },
{
    let ms = match value.get("provider_env") {
        Some(JsonValue::Object(ms)) => ms,
        _ => {
            return Ok(Vec::new());
        },
    };
    let mut env: Vec<(String, String)> = Vec::new();
    let mut i: usize = 0;
    while i < ms.len()
        invariant
            i <= ms@.len(),
            field(*value, "provider_env"@) == Some(JsonValue::Object(*ms)),
            forall|j: int| 0 <= j < i ==> ms@[j].1 is Str,
            text_members(ms@.subrange(0, i as int)) == Some(pairs_view(env@)),
        decreases ms@.len() - i,
    {
        proof {
            assert(ms@.subrange(0, i + 1).drop_last() =~= ms@.subrange(0, i as int));
        }
        match &ms[i].1 {
            JsonValue::Str(t) => {
                let ghost before = env@;
                env.push((ms[i].0.clone(), t.clone()));
                assert(pairs_view(env@) =~= pairs_view(before).push((ms@[i as int].0@, t@)));
            },
            _ => {
                proof {
                    let c = first_non_text(ms@);
                    assert(0 <= i < ms@.len() && !(ms@[i as int].1 is Str) && forall|j: int| 0 <= j < i ==> ms@[j].1 is Str);
                    assert(c == i) by {
                        if c < i { } else if c > i { assert(!(ms@[i as int].1 is Str)); }
                    }
                    lemma_text_members_fail(ms@, i as int, ms@.len() as int);
                    assert(ms@.subrange(0, ms@.len() as int) =~= ms@);
                }
                let mut m = concat("provider_env.", ms[i].0.as_str());
                m.append(" must be a string");
                return Err(m);
            },
        }
        i = i + 1;
    }
    assert(ms@.subrange(0, i as int) =~= ms@);
    Ok(env)
}

/// Decodes a node's stored private key: the base64 text, trimmed, of exactly 32 bytes.
pub fn signing_key_bytes(encoded: &str) -> (r: Result<[u8; 32], String>)
    ensures
        match r {
            Ok(k) => base64_text(k@) == trimmed(encoded@),
            Err(m) => if exists|b: Seq<u8>| #[trigger] base64_text(b) == trimmed(encoded@) {
                let b = choose|b: Seq<u8>| #[trigger] base64_text(b) == trimmed(encoded@);
                b.len() != 32 && m@ == "node.key must contain 32 bytes, got "@ + decimal(b.len())
            } else {
                m@ == "invalid node.key base64"@
            },
        },
{
    let t = trim_text(encoded);
    let bytes = match base64_decode(t.as_str()) {
        Ok(b) => b,
        Err(_) => {
            return Err(copy_text("invalid node.key base64"));
        },
    };
    if bytes.len() != 32 {
        let mut m = copy_text("node.key must contain 32 bytes, got ");
        m.append(decimal_text(bytes.len() as u64).as_str());
        return Err(m);
    }
    let mut key = [0u8; 32];
    let mut i: usize = 0;
    while i < 32
        invariant
            i <= 32,
            bytes@.len() == 32,
            forall|j: int| 0 <= j < i ==> key@[j] == bytes@[j],
        decreases 32 - i,
    {
        key[i] = bytes[i];
        i = i + 1;
    }
    assert(key@ =~= bytes@);
    Ok(key)
}

/// A new node identity: a fresh 32-byte Ed25519 secret key, the base64 text of its public key
/// (which the node sends its hub when it enrolls) and the base64 text of the secret key (which the
/// node keeps). The public key accepts every answer `sign_challenge` gives with that secret key.
pub fn new_node_identity() -> (r: ([u8; 32], String, String))
    ensures
        r.1@ == base64_text(ed25519_public(r.0@)),
        r.2@ == base64_text(r.0@),
        forall|nonce: Seq<char>| #[trigger] key_accepts(
            r.1@,
            nonce,
            base64_text(ed25519_signature(r.0@, vstd::utf8::encode_utf8(nonce))),
        ),
{
    let secret = random_bytes_32();
    let public = ed25519_public_key(&secret);
    let public_text = base64_encode(public.as_slice());
    let key_text = base64_encode(&secret);
    proof {
        assert forall|nonce: Seq<char>| #[trigger] key_accepts(
            public_text@,
            nonce,
            base64_text(ed25519_signature(secret@, vstd::utf8::encode_utf8(nonce))),
        ) by {
            let m = vstd::utf8::encode_utf8(nonce);
            assert(ed25519_valid(public@, m, ed25519_signature(secret@, m)));
        }
    }
    (secret, public_text, key_text)
}

/// The node's answer to its hub's challenge: the base64 text of its Ed25519 signature of `nonce`.
pub fn sign_challenge(secret: &[u8; 32], nonce: &str) -> (r: String)
    ensures
        r@ == base64_text(ed25519_signature(secret@, vstd::utf8::encode_utf8(nonce@))),
{
    let sig = ed25519_sign(secret, nonce.as_bytes());
    base64_encode(sig.as_slice())
}

/// The components of a path: its pieces between slashes, without empty and `.` pieces.
pub open spec fn path_parts(p: Seq<char>) -> Seq<Seq<char>> {
    split_text(p, '/').filter(|c: Seq<char>| c.len() > 0 && c != "."@)
}

/// A path that starts at the root.
pub open spec fn is_absolute(p: Seq<char>) -> bool {
    p.len() > 0 && p[0] == '/'
}

/// `p` lies within `base`, as `Path::starts_with` compares whole components.
pub open spec fn path_within(p: Seq<char>, base: Seq<char>) -> bool {
    is_absolute(p) == is_absolute(base) && path_parts(base).is_prefix_of(path_parts(p))
}

pub(crate) fn path_parts_text(p: &str) -> (r: Vec<String>)
    ensures
        texts_of(r@) == path_parts(p@),
{
    let pieces = split_char(p, '/');
    let ghost all = texts_of(pieces@);
    let mut out: Vec<String> = Vec::new();
    let mut i: usize = 0;
    proof {
        reveal_strlit(".");
        assert(all.subrange(0, 0).filter(|c: Seq<char>| c.len() > 0 && c != "."@) =~= Seq::<Seq<char>>::empty());
    }
    while i < pieces.len()
        invariant
            i <= pieces@.len(),
            all == texts_of(pieces@),
            all == split_text(p@, '/'),
            texts_of(out@) == all.subrange(0, i as int).filter(|c: Seq<char>| c.len() > 0 && c != "."@),
        decreases pieces@.len() - i,
    {
        let c = pieces[i].as_str();
        proof {
            all.subrange(0, i as int).lemma_filter_push(all[i as int], |c: Seq<char>| c.len() > 0 && c != "."@);
            assert(all.subrange(0, i as int).push(all[i as int]) =~= all.subrange(0, i + 1));
        }
        if c.unicode_len() > 0 && !str_eq(c, ".") {
            let ghost before = texts_of(out@);
            out.push(copy_text(c));
            assert(texts_of(out@) =~= before.push(c@));
        }
        i = i + 1;
    }
    assert(all.subrange(0, i as int) =~= all);
    out
}

/// Whether the path `p` lies within `base`, component by component.
pub fn path_starts_with(p: &str, base: &str) -> (r: bool)
    ensures
        r == path_within(p@, base@),
{
    let pa = p.unicode_len() > 0 && p.get_char(0) == '/';
    let ba = base.unicode_len() > 0 && base.get_char(0) == '/';
    if pa != ba {
        return false;
    }
    let pp = path_parts_text(p);
    let bp = path_parts_text(base);
    if bp.len() > pp.len() {
        return false;
    }
    let mut i: usize = 0;
    while i < bp.len()
        invariant
            i <= bp@.len(),
            bp@.len() <= pp@.len(),
            texts_of(pp@) == path_parts(p@),
            texts_of(bp@) == path_parts(base@),
            forall|j: int| 0 <= j < i ==> texts_of(bp@)[j] == texts_of(pp@)[j],
        decreases bp@.len() - i,
    {
        if !str_eq(bp[i].as_str(), pp[i].as_str()) {
            assert(texts_of(bp@)[i as int] != texts_of(pp@)[i as int]);
            return false;
        }
        i = i + 1;
    }
    assert(texts_of(bp@) =~= texts_of(pp@).subrange(0, texts_of(bp@).len() as int));
    true
}

/// Texts joined with `sep` between them.
pub open spec fn joined(v: Seq<Seq<char>>, sep: Seq<char>) -> Seq<char>
    decreases v.len(),
{
    if v.len() == 0 {
        Seq::empty()
    } else if v.len() == 1 {
        v[0]
    } else {
        joined(v.drop_last(), sep) + sep + v.last()
    }
}

fn join_texts(v: &Vec<String>, sep: &str) -> (r: String)
    ensures
        r@ == joined(texts_of(v@), sep@),
{
    let mut out = String::new();
    let mut i: usize = 0;
    proof {
        reveal_strlit("");
        assert(texts_of(v@).subrange(0, 0) =~= Seq::<Seq<char>>::empty());
    }
    while i < v.len()
        invariant
            i <= v@.len(),
            out@ == joined(texts_of(v@).subrange(0, i as int), sep@),
        decreases v@.len() - i,
    {
        let ghost prefix = texts_of(v@).subrange(0, i + 1);
        assert(prefix.drop_last() =~= texts_of(v@).subrange(0, i as int));
        if i > 0 {
            out.append(sep);
        }
        out.append(v[i].as_str());
        proof {
            if i == 0 {
                assert(out@ =~= prefix[0]);
            } else {
                assert(out@ =~= joined(prefix.drop_last(), sep@) + sep@ + prefix.last());
            }
        }
        i = i + 1;
    }
    assert(texts_of(v@).subrange(0, i as int) =~= texts_of(v@));
    out
}

/// What the host reports about a directory a project would live in: its canonical path when
/// it exists and is accessible, and whether that is a directory.
#[derive(Debug)]
pub struct DirFacts {
    pub canonical: Option<String>,
    pub is_dir: bool,
}

/// Some trusted root (each as the host resolved it) contains `dir`.
pub open spec fn within_some_root(dir: Seq<char>, roots: Seq<String>) -> bool {
    exists|i: int| 0 <= i < roots.len() && #[trigger] path_within(dir, roots[i]@)
}

/// Admits a project directory: it must exist, be a directory, and lie within one of the trusted
/// roots (`resolved_roots[i]` is the canonical form of `trusted_roots[i]`, or the root itself
/// when it cannot be resolved). Gives the canonical path.
pub fn validate_trusted_project_cwd(cwd: &str, facts: &DirFacts, trusted_roots: &Vec<String>, resolved_roots: &Vec<String>) -> (r: Result<String, String>)
    requires
        resolved_roots@.len() == trusted_roots@.len(),
    ensures
        match facts.canonical {
            None => r matches Err(m) && m@ == "project cwd "@ + debug_text(cwd@) + " must exist and be accessible"@,
            Some(c) => if !facts.is_dir {
                r matches Err(m) && m@ == "project cwd must be a directory: "@ + c@
            } else if within_some_root(c@, resolved_roots@) {
                r matches Ok(p) && p@ == c@
            } else {
                r matches Err(m) && m@ == "project cwd "@ + c@ + " is outside trusted roots: "@ + joined(texts_of(trusted_roots@), ", "@)
            },
        },
{
    let c = match &facts.canonical {
        None => {
            let mut m = concat("project cwd ", debug_quote(cwd).as_str());
            m.append(" must exist and be accessible");
            return Err(m);
        },
        Some(c) => c,
    };
    if !facts.is_dir {
        return Err(concat("project cwd must be a directory: ", c.as_str()));
    }
    let mut i: usize = 0;
    while i < resolved_roots.len()
        invariant
            i <= resolved_roots@.len(),
            facts.canonical == Some(*c),
            facts.is_dir,
            forall|j: int| 0 <= j < i ==> !#[trigger] path_within(c@, resolved_roots@[j]@),
        decreases resolved_roots@.len() - i,
    {
        if path_starts_with(c.as_str(), resolved_roots[i].as_str()) {
            assert(path_within(c@, resolved_roots@[i as int]@));
            return Ok(c.clone());
        }
        i = i + 1;
    }
    let mut m = concat("project cwd ", c.as_str());
    m.append(" is outside trusted roots: ");
    m.append(join_texts(trusted_roots, ", ").as_str());
    Err(m)
}

} // verus!
