//! The hub's durable state: enrolled spokes with their project inventories, cached
//! project snapshots and encrypted provider credentials, and every change made to it.

use vstd::prelude::*;
use crate::crypto::{hash, text_hash, secret, new_uuid_simple, base64_text, base64_decode, ed25519_verify, ed25519_valid, without_base64_marks, key_accepts};
use crate::ids::SpokeId;
use crate::keyed::{Keyed, keys_sorted, lookup, has_key, find, upsert, collect_map, last_with_key};
use crate::messages::{EnrollRequest, EnrollResponse};
use crate::records::{SpokeRecord, ProjectRecord, ProviderAccount, ProjectSnapshot};
use crate::status::SpokeStatus;
use crate::text::{text_eq, concat, copy_text};

verus! {

/// How long a setup key stays valid, in seconds.
pub const SETUP_KEY_TTL: u64 = 1800;

/// A spoke's enrollment state together with the projects it last reported.
#[derive(Debug)]
pub struct SpokeAuth {
    pub record: SpokeRecord,
    pub public_key: Option<String>,
    pub setup_key_hash: Option<String>,
    pub setup_expires_at: Option<u64>,
    /// Ordered by project identifier.
    pub projects: Vec<ProjectRecord>,
}

/// A provider credential: its public account and its encrypted key.
#[derive(Debug)]
pub struct StoredProvider {
    pub account: ProviderAccount,
    pub nonce: String,
    pub ciphertext: String,
}

/// Everything the hub persists.
#[derive(Debug)]
pub struct HubStore {
    pub owner_token_hash: Option<String>,
    /// Ordered by spoke identifier.
    pub spokes: Vec<SpokeAuth>,
    pub snapshots: Vec<ProjectSnapshot>,
    pub providers: Vec<StoredProvider>,
}

impl Keyed for SpokeAuth {
    open spec fn key(&self) -> (Seq<char>, Seq<char>) {
        (self.record.spoke_id@, Seq::empty())
    }

    fn key_first(&self) -> (r: &str) {
        self.record.spoke_id.as_str()
    }

    fn key_second(&self) -> (r: &str) {
        proof {
            reveal_strlit("");
        }
        ""
    }
}

impl Keyed for ProjectRecord {
    open spec fn key(&self) -> (Seq<char>, Seq<char>) {
        (self.project_id@, Seq::empty())
    }

    fn key_first(&self) -> (r: &str) {
        self.project_id.as_str()
    }

    fn key_second(&self) -> (r: &str) {
        proof {
            reveal_strlit("");
        }
        ""
    }
}

/// The key under which the spoke `id` is kept.
pub open spec fn spoke_key(id: Seq<char>) -> (Seq<char>, Seq<char>) {
    (id, Seq::empty())
}

/// The spoke `id`, if the hub knows it.
pub open spec fn spoke_entry(store: HubStore, id: Seq<char>) -> Option<SpokeAuth> {
    lookup(store.spokes@, spoke_key(id))
}

/// A spoke entry is in order when its projects are kept ordered.
pub open spec fn spoke_wf(s: SpokeAuth) -> bool {
    keys_sorted(s.projects@)
}

/// Spokes are kept ordered by identifier, each with ordered projects.
pub open spec fn store_wf(store: HubStore) -> bool {
    &&& keys_sorted(store.spokes@)
    &&& forall|i: int| 0 <= i < store.spokes@.len() ==> spoke_wf(#[trigger] store.spokes@[i])
}

/// Everything about a spoke except the fields named by the caller stays as it was.
pub open spec fn same_spoke_except_record(a: SpokeAuth, b: SpokeAuth) -> bool {
    &&& a.public_key == b.public_key
    &&& a.setup_key_hash == b.setup_key_hash
    &&& a.setup_expires_at == b.setup_expires_at
    &&& a.projects@ == b.projects@
}

/// The other spokes are untouched.
pub open spec fn others_unchanged(old_store: HubStore, new_store: HubStore, id: Seq<char>) -> bool {
    forall|k: (Seq<char>, Seq<char>)|
        k != spoke_key(id) ==> #[trigger] lookup(new_store.spokes@, k) == lookup(old_store.spokes@, k)
}

impl HubStore {
    /// An empty store.
    pub fn new() -> (r: HubStore)
        ensures
            store_wf(r),
            r.owner_token_hash is None,
            r.spokes@.len() == 0,
            r.snapshots@.len() == 0,
            r.providers@.len() == 0,
    {
        HubStore {
            owner_token_hash: None,
            spokes: Vec::new(),
            snapshots: Vec::new(),
            providers: Vec::new(),
        }
    }

    /// Replaces the spoke entry that has the same identifier as `entry`.
    pub(crate) fn put_spoke(&mut self, entry: SpokeAuth)
        requires
            store_wf(*old(self)),
            spoke_wf(entry),
        ensures
            store_wf(*final(self)),
            spoke_entry(*final(self), entry.record.spoke_id@) == Some(entry),
            others_unchanged(*old(self), *final(self), entry.record.spoke_id@),
            final(self).owner_token_hash == old(self).owner_token_hash,
            final(self).snapshots == old(self).snapshots,
            final(self).providers == old(self).providers,
    {
        let ghost before = self.spokes@;
        upsert(&mut self.spokes, entry);
        proof {
            assert forall|i: int| 0 <= i < self.spokes@.len() implies spoke_wf(#[trigger] self.spokes@[i]) by {
                crate::keyed::lemma_lookup_at(self.spokes@, i);
                let k = self.spokes@[i].key();
                if k != entry.key() {
                    assert(lookup(before, k) == Some(self.spokes@[i]));
                    let j = choose|j: int| 0 <= j < before.len() && #[trigger] before[j].key() == k;
                    crate::keyed::lemma_lookup_at(before, j);
                }
            }
        }
    }

    /// Takes the spoke `id` out of the store for an update, if the hub knows it.
    pub(crate) fn take_spoke(&mut self, id: &str) -> (r: Option<SpokeAuth>)
        requires
            store_wf(*old(self)),
        ensures
            store_wf(*final(self)),
            r == spoke_entry(*old(self), id@),
            r is None ==> final(self).spokes@ == old(self).spokes@,
            r matches Some(e) ==> spoke_wf(e) && e.record.spoke_id@ == id@,
            spoke_entry(*final(self), id@) is None,
            others_unchanged(*old(self), *final(self), id@),
            final(self).owner_token_hash == old(self).owner_token_hash,
            final(self).snapshots == old(self).snapshots,
            final(self).providers == old(self).providers,
    {
        let ghost before = self.spokes@;
        proof {
            reveal_strlit("");
            assert(""@ =~= Seq::<char>::empty());
        }
        let r = crate::keyed::remove_key(&mut self.spokes, id, "");
        proof {
            if has_key(before, spoke_key(id@)) {
                let j = choose|j: int| 0 <= j < before.len() && #[trigger] before[j].key() == spoke_key(id@);
                crate::keyed::lemma_lookup_at(before, j);
            }
            assert forall|i: int| 0 <= i < self.spokes@.len() implies spoke_wf(#[trigger] self.spokes@[i]) by {
                crate::keyed::lemma_lookup_at(self.spokes@, i);
                let k = self.spokes@[i].key();
                let j = choose|j: int| 0 <= j < before.len() && #[trigger] before[j].key() == k;
                crate::keyed::lemma_lookup_at(before, j);
            }
        }
        r
    }

    /// Registers a new spoke under `id` with a fresh setup key, known only by its hash, that
    /// stays valid for `SETUP_KEY_TTL` seconds.
    pub fn register_spoke(&mut self, id: SpokeId, name: String, setup_key_hash: String, now: u64)
        requires
            store_wf(*old(self)),
            now <= u64::MAX - SETUP_KEY_TTL,
        ensures
            store_wf(*final(self)),
            others_unchanged(*old(self), *final(self), id@),
            spoke_entry(*final(self), id@) matches Some(e) && {
                &&& e.record.spoke_id == id
                &&& e.record.name == name
                &&& e.record.hostname@.len() == 0
                &&& e.record.version@.len() == 0
                &&& e.record.status == SpokeStatus::Offline
                &&& e.record.created_at == now
                &&& e.record.enrolled_at is None
                &&& e.record.last_seen_at is None
                &&& e.public_key is None
                &&& e.setup_key_hash == Some(setup_key_hash)
                &&& e.setup_expires_at == Some((now + SETUP_KEY_TTL) as u64)
                &&& e.projects@.len() == 0
            },
    {
        let entry = SpokeAuth {
            record: SpokeRecord {
                spoke_id: id,
                name,
                hostname: String::new(),
                version: String::new(),
                status: SpokeStatus::Offline,
                created_at: now,
                enrolled_at: None,
                last_seen_at: None,
            },
            public_key: None,
            setup_key_hash: Some(setup_key_hash),
            setup_expires_at: Some(now + SETUP_KEY_TTL),
            projects: Vec::new(),
        };
        self.put_spoke(entry);
    }
}

/// Creates a spoke with a fresh identifier (`spoke_` and a random UUID) and a fresh setup key
/// (`pps_setup_` and random text); stores only the key's hash and returns the identifier and key.
pub fn create_spoke(store: &mut HubStore, name: String, now: u64) -> (r: (SpokeId, String))
    requires
        store_wf(*old(store)),
        now <= u64::MAX - SETUP_KEY_TTL,
    ensures
        store_wf(*final(store)),
        r.0@.len() == 38,
        r.0@.subrange(0, 6) == "spoke_"@,
        r.1@.subrange(0, 10) == "pps_setup_"@,
        others_unchanged(*old(store), *final(store), r.0@),
        spoke_entry(*final(store), r.0@) matches Some(e) && {
            &&& e.record.spoke_id == r.0
            &&& e.record.name == name
            &&& e.record.status == SpokeStatus::Offline
            &&& e.record.created_at == now
            &&& e.setup_key_hash matches Some(h) && h@ == text_hash(r.1@)
            &&& e.setup_expires_at == Some((now + SETUP_KEY_TTL) as u64)
            &&& e.public_key is None
        },
{
    let uuid = new_uuid_simple();
    let id = SpokeId(concat("spoke_", uuid.as_str()));
    let key = secret("pps_setup");
    proof {
        reveal_strlit("spoke_");
        reveal_strlit("pps_setup");
        reveal_strlit("pps_setup_");
        assert(id@.subrange(0, 6) =~= "spoke_"@);
        let b = choose|b: Seq<u8>| b.len() == 32 && key@ == "pps_setup"@ + seq!['_'] + without_base64_marks(#[trigger] base64_text(b));
        assert(key@.subrange(0, 10) =~= "pps_setup_"@);
    }
    let key_hash = hash(key.as_str());
    let id_copy = id.clone();
    store.register_spoke(id, name, key_hash, now);
    (id_copy, key)
}

/// The spoke whose setup key has hash `key_hash` and is still valid at `now`: the first such
/// spoke in identifier order.
pub open spec fn enroll_index(spokes: Seq<SpokeAuth>, key_hash: Seq<char>, now: u64) -> Option<int>
    decreases spokes.len(),
{
    if spokes.len() == 0 {
        None
    } else if enrollable(spokes[0], key_hash, now) {
        Some(0)
    } else {
        match enroll_index(spokes.drop_first(), key_hash, now) {
            Some(i) => Some(i + 1),
            None => None,
        }
    }
}

/// A spoke may enroll with a key whose hash matches its pending, unexpired setup key.
pub open spec fn enrollable(s: SpokeAuth, key_hash: Seq<char>, now: u64) -> bool {
    &&& s.setup_key_hash matches Some(h) && h@ == key_hash
    &&& s.setup_expires_at matches Some(x) && x >= now
}

proof fn lemma_enroll_index_skip(spokes: Seq<SpokeAuth>, key_hash: Seq<char>, now: u64, i: int)
    requires
        0 <= i < spokes.len(),
        !enrollable(spokes[i], key_hash, now),
        forall|j: int| 0 <= j < i ==> !enrollable(#[trigger] spokes[j], key_hash, now),
    ensures
        enroll_index(spokes, key_hash, now) == (match enroll_index(spokes.skip(i + 1), key_hash, now) {
            Some(k) => Some(k + i + 1),
            None => None,
        }),
    decreases i,
{
    if i > 0 {
        assert(spokes.drop_first().skip(i) =~= spokes.skip(i + 1));
        lemma_enroll_index_skip(spokes.drop_first(), key_hash, now, i - 1);
    } else {
        assert(spokes.drop_first() =~= spokes.skip(1));
    }
}

proof fn lemma_enroll_index_found(spokes: Seq<SpokeAuth>, key_hash: Seq<char>, now: u64, i: int)
    requires
        0 <= i < spokes.len(),
        enrollable(spokes[i], key_hash, now),
        forall|j: int| 0 <= j < i ==> !enrollable(#[trigger] spokes[j], key_hash, now),
    ensures
        enroll_index(spokes, key_hash, now) == Some(i),
    decreases i,
{
    if i > 0 {
        lemma_enroll_index_found(spokes.drop_first(), key_hash, now, i - 1);
    }
}

proof fn lemma_enroll_index_none(spokes: Seq<SpokeAuth>, key_hash: Seq<char>, now: u64)
    requires
        forall|j: int| 0 <= j < spokes.len() ==> !enrollable(#[trigger] spokes[j], key_hash, now),
    ensures
        enroll_index(spokes, key_hash, now) is None,
    decreases spokes.len(),
{
    if spokes.len() > 0 {
        lemma_enroll_index_none(spokes.drop_first(), key_hash, now);
    }
}

/// The spoke an enrollment with key hash `key_hash` at `now` admits, if any.
pub open spec fn enroll_target(store: HubStore, key_hash: Seq<char>, now: u64) -> Option<SpokeAuth> {
    match enroll_index(store.spokes@, key_hash, now) {
        Some(i) => Some(store.spokes@[i]),
        None => None,
    }
}

impl HubStore {
    /// Enrolls the spoke whose pending setup key is `request.setup_key`: stores its public key,
    /// consumes the setup key, records the host and version, and answers with its identifier and
    /// the hub's public URL. An unknown or expired key changes nothing and is refused.
    pub fn enroll(&mut self, request: EnrollRequest, public_url: &str, now: u64) -> (r: EnrollResponse)
        requires
            store_wf(*old(self)),
        ensures
            store_wf(*final(self)),
            match enroll_target(*old(self), text_hash(request.setup_key@), now) {
                Some(t) => {
                    &&& r.ok
                    &&& r.spoke_id == Some(t.record.spoke_id)
                    &&& r.hub_url matches Some(u) && u@ == public_url@
                    &&& r.error is None
                    &&& others_unchanged(*old(self), *final(self), t.record.spoke_id@)
                    &&& spoke_entry(*final(self), t.record.spoke_id@) matches Some(e) && {
                        &&& e.public_key == Some(request.public_key)
                        &&& e.setup_key_hash is None
                        &&& e.setup_expires_at is None
                        &&& e.record.hostname == request.hostname
                        &&& e.record.version == request.version
                        &&& e.record.enrolled_at == Some(now)
                        &&& e.record.spoke_id == t.record.spoke_id
                        &&& e.record.name == t.record.name
                        &&& e.record.status == t.record.status
                        &&& e.record.created_at == t.record.created_at
                        &&& e.record.last_seen_at == t.record.last_seen_at
                        &&& e.projects@ == t.projects@
                    }
                },
                None => {
                    &&& !r.ok
                    &&& r.spoke_id is None
                    &&& r.hub_url is None
                    &&& r.error matches Some(m) && m@ == "invalid or expired setup key"@
                    &&& final(self).spokes@ == old(self).spokes@
                },
            },
            final(self).owner_token_hash == old(self).owner_token_hash,
            final(self).snapshots == old(self).snapshots,
            final(self).providers == old(self).providers,
    {
        let key_hash = hash(request.setup_key.as_str());
        let ghost start = *self;
        let mut i: usize = 0;
        while i < self.spokes.len()
            invariant
                i <= self.spokes@.len(),
                *self == start,
                start == *old(self),
                key_hash@ == text_hash(request.setup_key@),
                store_wf(*self),
                forall|j: int| 0 <= j < i ==> !enrollable(#[trigger] self.spokes@[j], key_hash@, now),
            decreases self.spokes@.len() - i,
        {
            let s = &self.spokes[i];
            let matches_key = match &s.setup_key_hash {
                Some(h) => text_eq(h, &key_hash),
                None => false,
            };
            let valid = match s.setup_expires_at {
                Some(x) => x >= now,
                None => false,
            };
            if matches_key && valid {
                proof {
                    lemma_enroll_index_found(self.spokes@, key_hash@, now, i as int);
                    crate::keyed::lemma_lookup_at(self.spokes@, i as int);
                }
                let id = self.spokes[i].record.spoke_id.clone();
                let taken = self.take_spoke(id.as_str());
                match taken {
                    Some(mut e) => {
                        e.public_key = Some(request.public_key);
                        e.setup_key_hash = None;
                        e.setup_expires_at = None;
                        e.record.hostname = request.hostname;
                        e.record.version = request.version;
                        e.record.enrolled_at = Some(now);
                        let ghost removed = *self;
                        self.put_spoke(e);
                        return EnrollResponse {
                            ok: true,
                            spoke_id: Some(id),
                            hub_url: Some(copy_text(public_url)),
                            error: None,
                        };
                    },
                    None => {
                        return EnrollResponse { ok: false, spoke_id: None, hub_url: None, error: None };
                    },
                }
            }
            i = i + 1;
        }
        proof {
            lemma_enroll_index_none(self.spokes@, key_hash@, now);
        }
        EnrollResponse {
            ok: false,
            spoke_id: None,
            hub_url: None,
            error: Some(copy_text("invalid or expired setup key")),
        }
    }
}

/// A spoke may hold an authenticated connection: it has enrolled, `signature` is the base64 text
/// of a valid Ed25519 signature of `nonce` under its enrolled 32-byte public key, and it is
/// neither disabled nor revoked.
pub open spec fn spoke_admissible(e: SpokeAuth, nonce: Seq<char>, signature: Seq<char>) -> bool {
    &&& e.public_key matches Some(pk) && key_accepts(pk@, nonce, signature)
    &&& !(e.record.status is Disabled || e.record.status is Revoked)
}

impl HubStore {
    /// Authenticates the spoke `id` by its signature of `nonce`; on success marks it online with
    /// the version it reported and the time it was seen.
    pub fn admit_spoke(&mut self, id: &SpokeId, nonce: &str, signature: &str, version: String, now: u64) -> (r: Result<(), String>)
        requires
            store_wf(*old(self)),
        ensures
            store_wf(*final(self)),
            final(self).owner_token_hash == old(self).owner_token_hash,
            final(self).snapshots == old(self).snapshots,
            final(self).providers == old(self).providers,
            match spoke_entry(*old(self), id@) {
                None => r matches Err(m) && m@ == "unknown spoke"@ && final(self).spokes@ == old(self).spokes@,
                Some(e) => {
                    &&& (r is Ok <==> spoke_admissible(e, nonce@, signature@))
                    &&& e.public_key is None ==> (r matches Err(m) && m@ == "spoke is not enrolled"@)
                    &&& r is Err ==> final(self).spokes@ == old(self).spokes@
                    &&& r is Ok ==> {
                        &&& others_unchanged(*old(self), *final(self), id@)
                        &&& spoke_entry(*final(self), id@) matches Some(n) && {
                            &&& n.record.status == SpokeStatus::Online
                            &&& n.record.version == version
                            &&& n.record.last_seen_at == Some(now)
                            &&& n.record.spoke_id == e.record.spoke_id
                            &&& n.record.name == e.record.name
                            &&& n.record.hostname == e.record.hostname
                            &&& n.record.created_at == e.record.created_at
                            &&& n.record.enrolled_at == e.record.enrolled_at
                            &&& same_spoke_except_record(n, e)
                        }
                    }
                },
            },
    {
        proof {
            reveal_strlit("");
            assert(""@ =~= Seq::<char>::empty());
        }
        let idx = find(&self.spokes, id.as_str(), "");
        let i = match idx {
            None => {
                return Err(copy_text("unknown spoke"));
            },
            Some(i) => i,
        };
        let ghost e = self.spokes@[i as int];
        let public = match &self.spokes[i].public_key {
            None => {
                return Err(copy_text("spoke is not enrolled"));
            },
            Some(pk) => match base64_decode(pk.as_str()) {
                Ok(b) => b,
                Err(m) => {
                    proof {
                        assert forall|k: Seq<u8>, s: Seq<u8>| base64_text(k) == pk@ implies !(k.len() == 32 && base64_text(s) == signature@
                            && #[trigger] ed25519_valid(k, vstd::utf8::encode_utf8(nonce@), s)) by {}
                    }
                    return Err(m);
                },
            },
        };
        if public.len() != 32 {
            proof {
                assert forall|k: Seq<u8>, s: Seq<u8>| base64_text(k) == e.public_key->0@ implies !(k.len() == 32 && base64_text(s) == signature@
                    && #[trigger] ed25519_valid(k, vstd::utf8::encode_utf8(nonce@), s)) by {
                    assert(k == public@);
                }
            }
            return Err(copy_text("bad public key"));
        }
        let sig = match base64_decode(signature) {
            Ok(b) => b,
            Err(m) => {
                return Err(m);
            },
        };
        match ed25519_verify(public.as_slice(), nonce.as_bytes(), sig.as_slice()) {
            Ok(()) => {},
            Err(m) => {
                proof {
                    assert forall|k: Seq<u8>, s: Seq<u8>| base64_text(k) == e.public_key->0@ implies !(k.len() == 32 && base64_text(s) == signature@
                        && #[trigger] ed25519_valid(k, vstd::utf8::encode_utf8(nonce@), s)) by {
                        if base64_text(s) == signature@ {
                            assert(k == public@);
                            assert(s == sig@);
                        }
                    }
                }
                return Err(m);
            },
        }
        let status = self.spokes[i].record.status;
        if status == SpokeStatus::Disabled || status == SpokeStatus::Revoked {
            return Err(copy_text("spoke disabled"));
        }
        proof {
            crate::keyed::lemma_lookup_at(self.spokes@, i as int);
        }
        let taken = self.take_spoke(id.as_str());
        match taken {
            Some(mut n) => {
                n.record.status = SpokeStatus::Online;
                n.record.version = version;
                n.record.last_seen_at = Some(now);
                self.put_spoke(n);
                Ok(())
            },
            None => Err(copy_text("unknown spoke")),
        }
    }
}

/// `n` is `o` after the spoke `id` reported the complete inventory `projects` at `now`: its
/// projects become the reported ones (a later report of a project replaces an earlier one) and it
/// was seen then. Without such a spoke nothing changed.
pub open spec fn inventory_recorded(n: HubStore, o: HubStore, id: Seq<char>, projects: Seq<ProjectRecord>, now: u64) -> bool {
    &&& n.owner_token_hash == o.owner_token_hash
    &&& n.snapshots == o.snapshots
    &&& n.providers == o.providers
    &&& match spoke_entry(o, id) {
        None => n.spokes@ == o.spokes@,
        Some(e) => {
            &&& others_unchanged(o, n, id)
            &&& spoke_entry(n, id) matches Some(x) && {
                &&& x.record == (SpokeRecord { last_seen_at: Some(now), ..e.record })
                &&& x.public_key == e.public_key
                &&& x.setup_key_hash == e.setup_key_hash
                &&& x.setup_expires_at == e.setup_expires_at
                &&& forall|k: (Seq<char>, Seq<char>)| #[trigger] lookup(x.projects@, k) == last_with_key(projects, k)
            }
        },
    }
}

/// `n` is `o` after the spoke `id` was seen at `now`; without such a spoke nothing changed.
pub open spec fn spoke_seen(n: HubStore, o: HubStore, id: Seq<char>, now: u64) -> bool {
    &&& n.owner_token_hash == o.owner_token_hash
    &&& n.snapshots == o.snapshots
    &&& n.providers == o.providers
    &&& match spoke_entry(o, id) {
        None => n.spokes@ == o.spokes@,
        Some(e) => {
            &&& others_unchanged(o, n, id)
            &&& spoke_entry(n, id) matches Some(x)
                && x.record == (SpokeRecord { last_seen_at: Some(now), ..e.record })
                && same_spoke_except_record(x, e)
        },
    }
}

/// Where the hub keeps its state: `.local/state/pumpkinpi-hub-v3` under `$HOME`, or under the
/// working directory without one.
pub fn default_hub_dir(home: Option<&str>) -> (r: String)
    ensures
        r@ == crate::node_config::join_path(
            match home {
                Some(h) => h@,
                None => "."@,
            },
            ".local/state/pumpkinpi-hub-v3"@,
        ),
{
    match home {
        Some(h) => crate::node_config::join_path_text(h, ".local/state/pumpkinpi-hub-v3"),
        None => crate::node_config::join_path_text(".", ".local/state/pumpkinpi-hub-v3"),
    }
}

/// Issues a fresh owner token (`ppc_` and random text) for `store`: only its hash is kept, and
/// it replaces any earlier token. Returns the token.
pub fn issue_owner_token(store: &mut HubStore) -> (r: String)
    requires
        store_wf(*old(store)),
    ensures
        store_wf(*final(store)),
        r@.subrange(0, 4) == "ppc_"@,
        final(store).owner_token_hash matches Some(h) && h@ == text_hash(r@),
        final(store).spokes == old(store).spokes,
        final(store).snapshots == old(store).snapshots,
        final(store).providers == old(store).providers,
{
    let token = secret("ppc");
    proof {
        reveal_strlit("ppc");
        reveal_strlit("ppc_");
        let b = choose|b: Seq<u8>| b.len() == 32 && token@ == "ppc"@ + seq!['_'] + without_base64_marks(#[trigger] base64_text(b));
        assert(token@.subrange(0, 4) =~= "ppc_"@);
    }
    store.owner_token_hash = Some(hash(token.as_str()));
    token
}

/// Issues a fresh setup key (`pps_setup_` and random text) for the spoke `id`, valid until
/// `now` plus the setup key lifetime; only its hash is kept. Returns the key.
pub fn rekey_spoke(store: &mut HubStore, id: &SpokeId, now: u64) -> (r: Result<String, String>)
    requires
        store_wf(*old(store)),
        now <= u64::MAX - SETUP_KEY_TTL,
    ensures
        store_wf(*final(store)),
        final(store).owner_token_hash == old(store).owner_token_hash,
        final(store).snapshots == old(store).snapshots,
        final(store).providers == old(store).providers,
        match spoke_entry(*old(store), id@) {
            None => r matches Err(m) && m@ == "spoke not found"@ && final(store).spokes@ == old(store).spokes@,
            Some(e) => r matches Ok(key) && key@.subrange(0, 10) == "pps_setup_"@ && {
                &&& others_unchanged(*old(store), *final(store), id@)
                &&& spoke_entry(*final(store), id@) matches Some(n) && {
                    &&& n.record == e.record
                    &&& n.public_key == e.public_key
                    &&& n.projects@ == e.projects@
                    &&& n.setup_key_hash matches Some(h) && h@ == text_hash(key@)
                    &&& n.setup_expires_at == Some((now + SETUP_KEY_TTL) as u64)
                }
            },
        },
{
    let key = secret("pps_setup");
    proof {
        reveal_strlit("pps_setup");
        reveal_strlit("pps_setup_");
        let b = choose|b: Seq<u8>| b.len() == 32 && key@ == "pps_setup"@ + seq!['_'] + without_base64_marks(#[trigger] base64_text(b));
        assert(key@.subrange(0, 10) =~= "pps_setup_"@);
    }
    let key_hash = hash(key.as_str());
    match store.issue_setup_key(id, key_hash, now) {
        Ok(()) => Ok(key),
        Err(m) => Err(m),
    }
}

impl HubStore {
    /// Records a complete project inventory reported by the spoke `id`: its projects become the
    /// reported ones (a later report of a project replaces an earlier one) and it was seen at `now`.
    /// An unknown spoke changes nothing.
    pub fn record_inventory(&mut self, id: &SpokeId, projects: Vec<ProjectRecord>, now: u64)
        requires
            store_wf(*old(self)),
        ensures
            store_wf(*final(self)),
            inventory_recorded(*final(self), *old(self), id@, projects@, now),
    {
        match self.take_spoke(id.as_str()) {
            None => {},
            Some(mut e) => {
                e.projects = collect_map(projects);
                e.record.last_seen_at = Some(now);
                self.put_spoke(e);
            },
        }
    }

    /// Notes that the spoke `id` was seen at `now`.
    pub fn touch_spoke(&mut self, id: &SpokeId, now: u64)
        requires
            store_wf(*old(self)),
        ensures
            store_wf(*final(self)),
            spoke_seen(*final(self), *old(self), id@, now),
    {
        match self.take_spoke(id.as_str()) {
            None => {},
            Some(mut e) => {
                e.record.last_seen_at = Some(now);
                self.put_spoke(e);
            },
        }
    }

    /// Notes that the spoke `id` disconnected at `now`: an online spoke becomes offline; a
    /// disabled or revoked one keeps its status.
    pub fn disconnect_spoke(&mut self, id: &SpokeId, now: u64)
        requires
            store_wf(*old(self)),
        ensures
            store_wf(*final(self)),
            final(self).owner_token_hash == old(self).owner_token_hash,
            final(self).snapshots == old(self).snapshots,
            final(self).providers == old(self).providers,
            match spoke_entry(*old(self), id@) {
                None => final(self).spokes@ == old(self).spokes@,
                Some(e) => {
                    &&& others_unchanged(*old(self), *final(self), id@)
                    &&& spoke_entry(*final(self), id@) matches Some(n) && n.record == (SpokeRecord {
                        last_seen_at: Some(now),
                        status: if e.record.status == SpokeStatus::Online {
                            SpokeStatus::Offline
                        } else {
                            e.record.status
                        },
                        ..e.record
                    }) && same_spoke_except_record(n, e)
                },
            },
    {
        match self.take_spoke(id.as_str()) {
            None => {},
            Some(mut e) => {
                if e.record.status == SpokeStatus::Online {
                    e.record.status = SpokeStatus::Offline;
                }
                e.record.last_seen_at = Some(now);
                self.put_spoke(e);
            },
        }
    }

    /// Sets the status of the spoke `id` (disabling or revoking it); an unknown spoke is an error.
    pub fn set_spoke_status(&mut self, id: &SpokeId, status: SpokeStatus) -> (r: Result<(), String>)
        requires
            store_wf(*old(self)),
        ensures
            store_wf(*final(self)),
            final(self).owner_token_hash == old(self).owner_token_hash,
            final(self).snapshots == old(self).snapshots,
            final(self).providers == old(self).providers,
            match spoke_entry(*old(self), id@) {
                None => r matches Err(m) && m@ == "spoke not found"@ && final(self).spokes@ == old(self).spokes@,
                Some(e) => {
                    &&& r is Ok
                    &&& others_unchanged(*old(self), *final(self), id@)
                    &&& spoke_entry(*final(self), id@) matches Some(n)
                        && n.record == (SpokeRecord { status: status, ..e.record })
                        && same_spoke_except_record(n, e)
                },
            },
    {
        match self.take_spoke(id.as_str()) {
            None => Err(copy_text("spoke not found")),
            Some(mut e) => {
                e.record.status = status;
                self.put_spoke(e);
                Ok(())
            },
        }
    }

    /// Gives the spoke `id` a new pending setup key, known by its hash, valid for
    /// `SETUP_KEY_TTL` seconds; an unknown spoke is an error.
    pub fn issue_setup_key(&mut self, id: &SpokeId, key_hash: String, now: u64) -> (r: Result<(), String>)
        requires
            store_wf(*old(self)),
            now <= u64::MAX - SETUP_KEY_TTL,
        ensures
            store_wf(*final(self)),
            final(self).owner_token_hash == old(self).owner_token_hash,
            final(self).snapshots == old(self).snapshots,
            final(self).providers == old(self).providers,
            match spoke_entry(*old(self), id@) {
                None => r matches Err(m) && m@ == "spoke not found"@ && final(self).spokes@ == old(self).spokes@,
                Some(e) => {
                    &&& r is Ok
                    &&& others_unchanged(*old(self), *final(self), id@)
                    &&& spoke_entry(*final(self), id@) matches Some(n) && {
                        &&& n.record == e.record
                        &&& n.public_key == e.public_key
                        &&& n.projects@ == e.projects@
                        &&& n.setup_key_hash == Some(key_hash)
                        &&& n.setup_expires_at == Some((now + SETUP_KEY_TTL) as u64)
                    }
                },
            },
    {
        match self.take_spoke(id.as_str()) {
            None => Err(copy_text("spoke not found")),
            Some(mut e) => {
                e.setup_key_hash = Some(key_hash);
                e.setup_expires_at = Some(now + SETUP_KEY_TTL);
                self.put_spoke(e);
                Ok(())
            },
        }
    }

    /// Marks every online spoke offline, as the hub does when it starts: no spoke is connected yet.
    pub fn mark_all_offline(&mut self)
        requires
            store_wf(*old(self)),
        ensures
            store_wf(*final(self)),
            final(self).owner_token_hash == old(self).owner_token_hash,
            final(self).snapshots == old(self).snapshots,
            final(self).providers == old(self).providers,
            final(self).spokes@.len() == old(self).spokes@.len(),
            forall|i: int| 0 <= i < final(self).spokes@.len() ==> {
                let o = #[trigger] old(self).spokes@[i];
                let n = final(self).spokes@[i];
                &&& n.record == (SpokeRecord {
                    status: if o.record.status == SpokeStatus::Online {
                        SpokeStatus::Offline
                    } else {
                        o.record.status
                    },
                    ..o.record
                })
                &&& same_spoke_except_record(n, o)
            },
    {
        let ghost before = self.spokes@;
        let mut i: usize = 0;
        while i < self.spokes.len()
            invariant
                i <= self.spokes@.len(),
                self.spokes@.len() == before.len(),
                before == old(self).spokes@,
                self.owner_token_hash == old(self).owner_token_hash,
                self.snapshots == old(self).snapshots,
                self.providers == old(self).providers,
                forall|j: int| 0 <= j < self.spokes@.len() ==> (#[trigger] self.spokes@[j]).key() == before[j].key(),
                forall|j: int| i <= j < self.spokes@.len() ==> #[trigger] self.spokes@[j] == before[j],
                forall|j: int| 0 <= j < i ==> {
                    let o = #[trigger] before[j];
                    let n = self.spokes@[j];
                    &&& n.record == (SpokeRecord {
                        status: if o.record.status == SpokeStatus::Online {
                            SpokeStatus::Offline
                        } else {
                            o.record.status
                        },
                        ..o.record
                    })
                    &&& same_spoke_except_record(n, o)
                },
            decreases self.spokes@.len() - i,
        {
            if self.spokes[i].record.status == SpokeStatus::Online {
                self.spokes[i].record.status = SpokeStatus::Offline;
            }
            i = i + 1;
        }
        proof {
            assert forall|a: int, b: int| 0 <= a < b < self.spokes@.len() implies crate::keyed::pair_lt(
                #[trigger] self.spokes@[a].key(),
                #[trigger] self.spokes@[b].key(),
            ) by {
                assert(crate::keyed::pair_lt(before[a].key(), before[b].key()));
            }
            assert forall|j: int| 0 <= j < self.spokes@.len() implies spoke_wf(#[trigger] self.spokes@[j]) by {
                assert(spoke_wf(before[j]));
            }
        }
    }
}

} // verus!
