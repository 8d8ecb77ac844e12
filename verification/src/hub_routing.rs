//! How the hub routes: client requests to replies or to spokes, spoke events to the client that
//! asked or to every subscriber of the project, and events into the offline snapshot cache.

use vstd::prelude::*;
use crate::hub_cache::{cache_event, cached, project_cached};
use crate::hub_store::{HubStore, store_wf};
use crate::ids::{SpokeId, ProjectId, RequestId};
use crate::keyed::{Keyed, keys_sorted, lookup, remove_key};
use crate::messages::{ClientEvent, ClientPayload, payload_project_spec};
use crate::records::ProjectKey;
use crate::text::{str_eq, copy_text};

verus! {

/// A request forwarded to a spoke, awaiting its answer for the client that sent it.
#[derive(Debug)]
pub struct PendingRequest {
    pub spoke_id: SpokeId,
    pub request_id: RequestId,
    pub client_id: String,
}

impl Keyed for PendingRequest {
    open spec fn key(&self) -> (Seq<char>, Seq<char>) {
        (self.spoke_id@, self.request_id@)
    }

    fn key_first(&self) -> (r: &str) {
        self.spoke_id.as_str()
    }

    fn key_second(&self) -> (r: &str) {
        self.request_id.as_str()
    }
}

/// A client's subscription to a project's live events.
#[derive(Debug)]
pub struct Subscription {
    pub client_id: String,
    pub key: ProjectKey,
}

/// The hub's in-memory routing state.
#[derive(Debug)]
pub struct HubRoutes {
    /// Ordered by spoke and request identifier.
    pub pending: Vec<PendingRequest>,
    /// No client holds the same subscription twice.
    pub subscriptions: Vec<Subscription>,
}

pub open spec fn sub_matches(s: Subscription, client: Seq<char>, spoke: Seq<char>, project: Seq<char>) -> bool {
    s.client_id@ == client && s.key.spoke_id@ == spoke && s.key.project_id@ == project
}

/// `client` is subscribed to `project` on `spoke`.
pub open spec fn subscribed(subs: Seq<Subscription>, client: Seq<char>, spoke: Seq<char>, project: Seq<char>) -> bool {
    exists|i: int| 0 <= i < subs.len() && #[trigger] sub_matches(subs[i], client, spoke, project)
}

pub open spec fn routes_wf(r: HubRoutes) -> bool {
    &&& keys_sorted(r.pending@)
    &&& forall|i: int, j: int| 0 <= i < j < r.subscriptions@.len() ==> !sub_matches(
        #[trigger] r.subscriptions@[i],
        (#[trigger] r.subscriptions@[j]).client_id@,
        r.subscriptions@[j].key.spoke_id@,
        r.subscriptions@[j].key.project_id@,
    )
}

/// The clients subscribed to `project` on `spoke`, in subscription order.
pub open spec fn subscribers(subs: Seq<Subscription>, spoke: Seq<char>, project: Seq<char>) -> Seq<Seq<char>>
    decreases subs.len(),
{
    if subs.len() == 0 {
        Seq::empty()
    } else if subs.last().key.spoke_id@ == spoke && subs.last().key.project_id@ == project {
        subscribers(subs.drop_last(), spoke, project).push(subs.last().client_id@)
    } else {
        subscribers(subs.drop_last(), spoke, project)
    }
}

pub open spec fn texts(v: Seq<String>) -> Seq<Seq<char>> {
    v.map_values(|s: String| s@)
}

impl HubRoutes {
    pub fn new() -> (r: HubRoutes)
        ensures
            routes_wf(r),
            r.pending@.len() == 0,
            r.subscriptions@.len() == 0,
    {
        HubRoutes { pending: Vec::new(), subscriptions: Vec::new() }
    }

    /// Subscribes `client` to the project `key`; a repeated subscription changes nothing.
    pub fn subscribe(&mut self, client: &str, key: ProjectKey)
        requires
            routes_wf(*old(self)),
        ensures
            routes_wf(*final(self)),
            final(self).pending@ == old(self).pending@,
            forall|c: Seq<char>, s: Seq<char>, p: Seq<char>|
                #[trigger] subscribed(final(self).subscriptions@, c, s, p) == (subscribed(old(self).subscriptions@, c, s, p)
                    || (c == client@ && s == key.spoke_id@ && p == key.project_id@)),
            subscribed(old(self).subscriptions@, client@, key.spoke_id@, key.project_id@) ==> final(self).subscriptions@ == old(self).subscriptions@,
            !subscribed(old(self).subscriptions@, client@, key.spoke_id@, key.project_id@) ==> final(self).subscriptions@ == old(self).subscriptions@.push(Subscription { client_id: final(self).subscriptions@.last().client_id, key }),
    {
        let mut i: usize = 0;
        while i < self.subscriptions.len()
            invariant
                i <= self.subscriptions@.len(),
                *self == *old(self),
                routes_wf(*self),
                forall|j: int| 0 <= j < i ==> !sub_matches(#[trigger] self.subscriptions@[j], client@, key.spoke_id@, key.project_id@),
            decreases self.subscriptions@.len() - i,
        {
            let s = &self.subscriptions[i];
            if str_eq(s.client_id.as_str(), client) && s.key.spoke_id.same(&key.spoke_id)
                && s.key.project_id.same(&key.project_id) {
                assert(sub_matches(self.subscriptions@[i as int], client@, key.spoke_id@, key.project_id@));
                return;
            }
            i = i + 1;
        }
        let ghost before = self.subscriptions@;
        let entry = Subscription { client_id: copy_text(client), key };
        self.subscriptions.push(entry);
        proof {
            assert forall|c: Seq<char>, s: Seq<char>, p: Seq<char>|
                #[trigger] subscribed(self.subscriptions@, c, s, p) == (subscribed(before, c, s, p)
                    || (c == client@ && s == entry.key.spoke_id@ && p == entry.key.project_id@)) by {
                if subscribed(before, c, s, p) {
                    let j = choose|j: int| 0 <= j < before.len() && #[trigger] sub_matches(before[j], c, s, p);
                    assert(sub_matches(self.subscriptions@[j], c, s, p));
                }
                if c == client@ && s == entry.key.spoke_id@ && p == entry.key.project_id@ {
                    assert(sub_matches(self.subscriptions@[before.len() as int], c, s, p));
                }
                if subscribed(self.subscriptions@, c, s, p) {
                    let j = choose|j: int| 0 <= j < self.subscriptions@.len() && #[trigger] sub_matches(self.subscriptions@[j], c, s, p);
                    if j < before.len() {
                        assert(sub_matches(before[j], c, s, p));
                    }
                }
            }
        }
    }

    /// The clients subscribed to `project` on `spoke`, in subscription order.
    pub fn recipients(&self, spoke: &SpokeId, project: &ProjectId) -> (r: Vec<String>)
        ensures
            texts(r@) == subscribers(self.subscriptions@, spoke@, project@),
    {
        let mut out: Vec<String> = Vec::new();
        let mut i: usize = 0;
        while i < self.subscriptions.len()
            invariant
                i <= self.subscriptions@.len(),
                texts(out@) == subscribers(self.subscriptions@.subrange(0, i as int), spoke@, project@),
            decreases self.subscriptions@.len() - i,
        {
            proof {
                assert(self.subscriptions@.subrange(0, i + 1).drop_last() =~= self.subscriptions@.subrange(0, i as int));
            }
            let s = &self.subscriptions[i];
            if s.key.spoke_id.same(spoke) && s.key.project_id.same(project) {
                let ghost before = out@;
                out.push(s.client_id.clone());
                assert(texts(out@) =~= texts(before).push(s.client_id@));
            }
            i = i + 1;
        }
        assert(self.subscriptions@.subrange(0, self.subscriptions@.len() as int) =~= self.subscriptions@);
        out
    }

    /// Forgets a disconnected client: its subscriptions and the requests it is waiting on.
    pub fn forget_client(&mut self, client: &str)
        requires
            routes_wf(*old(self)),
        ensures
            routes_wf(*final(self)),
            forall|c: Seq<char>, s: Seq<char>, p: Seq<char>|
                #[trigger] subscribed(final(self).subscriptions@, c, s, p) == (subscribed(old(self).subscriptions@, c, s, p) && c != client@),
            final(self).pending@ == old(self).pending@.filter(|e: PendingRequest| e.client_id@ != client@),
    {
        let ghost subs0 = self.subscriptions@;
        let ghost pend0 = self.pending@;
        let mut subs: Vec<Subscription> = Vec::new();
        std::mem::swap(&mut subs, &mut self.subscriptions);
        let mut kept: Vec<Subscription> = Vec::new();
        let mut i: usize = 0;
        let n = subs.len();
        while i < n
            invariant
                n == subs0.len(),
                i <= n,
                subs@ == subs0.subrange(i as int, n as int),
                forall|a: int, b: int| 0 <= a < b < subs0.len() ==> !sub_matches(
                    #[trigger] subs0[a],
                    (#[trigger] subs0[b]).client_id@,
                    subs0[b].key.spoke_id@,
                    subs0[b].key.project_id@,
                ),
                forall|a: int, b: int| 0 <= a < b < kept@.len() ==> !sub_matches(
                    #[trigger] kept@[a],
                    (#[trigger] kept@[b]).client_id@,
                    kept@[b].key.spoke_id@,
                    kept@[b].key.project_id@,
                ),
                forall|c: Seq<char>, s: Seq<char>, p: Seq<char>|
                    #[trigger] subscribed(kept@, c, s, p) == (subscribed(subs0.subrange(0, i as int), c, s, p) && c != client@),
                forall|a: int| 0 <= a < kept@.len() ==> exists|b: int| 0 <= b < i && #[trigger] kept@[a] == subs0[b],
            decreases n - i,
        {
            let s = subs.remove(0);
            assert(s == subs0[i as int]);
            let ghost prefix = subs0.subrange(0, i as int);
            let ghost next = subs0.subrange(0, i + 1);
            proof {
                assert(next =~= prefix.push(s));
                assert forall|c: Seq<char>, s2: Seq<char>, p: Seq<char>|
                    #[trigger] subscribed(next, c, s2, p) == (subscribed(prefix, c, s2, p) || sub_matches(s, c, s2, p)) by {
                    if subscribed(next, c, s2, p) {
                        let j = choose|j: int| 0 <= j < next.len() && #[trigger] sub_matches(next[j], c, s2, p);
                        if j < prefix.len() {
                            assert(sub_matches(prefix[j], c, s2, p));
                        }
                    }
                    if subscribed(prefix, c, s2, p) {
                        let j = choose|j: int| 0 <= j < prefix.len() && #[trigger] sub_matches(prefix[j], c, s2, p);
                        assert(sub_matches(next[j], c, s2, p));
                    }
                    if sub_matches(s, c, s2, p) {
                        assert(sub_matches(next[i as int], c, s2, p));
                    }
                }
            }
            if !str_eq(s.client_id.as_str(), client) {
                let ghost before = kept@;
                proof {
                    assert forall|a: int| 0 <= a < before.len() implies !sub_matches(#[trigger] before[a], s.client_id@, s.key.spoke_id@, s.key.project_id@) by {
                        let b = choose|b: int| 0 <= b < i && #[trigger] before[a] == subs0[b];
                        assert(b < i);
                    }
                }
                kept.push(s);
                proof {
                    assert forall|c: Seq<char>, s2: Seq<char>, p: Seq<char>|
                        #[trigger] subscribed(kept@, c, s2, p) == (subscribed(before, c, s2, p) || sub_matches(s, c, s2, p)) by {
                        if subscribed(kept@, c, s2, p) {
                            let j = choose|j: int| 0 <= j < kept@.len() && #[trigger] sub_matches(kept@[j], c, s2, p);
                            if j < before.len() {
                                assert(sub_matches(before[j], c, s2, p));
                            }
                        }
                        if subscribed(before, c, s2, p) {
                            let j = choose|j: int| 0 <= j < before.len() && #[trigger] sub_matches(before[j], c, s2, p);
                            assert(sub_matches(kept@[j], c, s2, p));
                        }
                        if sub_matches(s, c, s2, p) {
                            assert(sub_matches(kept@[before.len() as int], c, s2, p));
                        }
                    }
                    assert forall|a: int| 0 <= a < kept@.len() implies exists|b: int| 0 <= b < i + 1 && #[trigger] kept@[a] == subs0[b] by {
                        if a < before.len() {
                            let b = choose|b: int| 0 <= b < i && #[trigger] before[a] == subs0[b];
                            assert(kept@[a] == subs0[b]);
                        } else {
                            assert(kept@[a] == subs0[i as int]);
                        }
                    }
                }
            } else {
                proof {
                    assert forall|a: int| 0 <= a < kept@.len() implies exists|b: int| 0 <= b < i + 1 && #[trigger] kept@[a] == subs0[b] by {
                        let b = choose|b: int| 0 <= b < i && #[trigger] kept@[a] == subs0[b];
                        assert(kept@[a] == subs0[b]);
                    }
                }
            }
            i = i + 1;
            assert(subs@ =~= subs0.subrange(i as int, n as int));
        }
        assert(subs0.subrange(0, n as int) =~= subs0);
        self.subscriptions = kept;
        self.forget_pending(client);
    }

    /// Drops the requests that `client` is waiting on.
    fn forget_pending(&mut self, client: &str)
        requires
            keys_sorted(old(self).pending@),
        ensures
            keys_sorted(final(self).pending@),
            final(self).subscriptions == old(self).subscriptions,
            final(self).pending@ == old(self).pending@.filter(|e: PendingRequest| e.client_id@ != client@),
    {
        let ghost pend0 = self.pending@;
        let ghost pred = |e: PendingRequest| e.client_id@ != client@;
        let mut pend: Vec<PendingRequest> = Vec::new();
        std::mem::swap(&mut pend, &mut self.pending);
        let mut kept: Vec<PendingRequest> = Vec::new();
        let n = pend.len();
        let mut i: usize = 0;
        assert(pend0.subrange(0, 0).filter(pred) =~= Seq::<PendingRequest>::empty());
        while i < n
            invariant
                n == pend0.len(),
                i <= n,
                pend@ == pend0.subrange(i as int, n as int),
                kept@ == pend0.subrange(0, i as int).filter(pred),
                pred == (|e: PendingRequest| e.client_id@ != client@),
                self.subscriptions == old(self).subscriptions,
            decreases n - i,
        {
            let e = pend.remove(0);
            assert(e == pend0[i as int]);
            proof {
                pend0.subrange(0, i as int).lemma_filter_push(e, pred);
                assert(pend0.subrange(0, i as int).push(e) =~= pend0.subrange(0, i + 1));
            }
            if !str_eq(e.client_id.as_str(), client) {
                kept.push(e);
            }
            i = i + 1;
            assert(pend@ =~= pend0.subrange(i as int, n as int));
        }
        assert(pend0.subrange(0, n as int) =~= pend0);
        proof {
            lemma_filter_keys_sorted(pend0, pred);
        }
        self.pending = kept;
    }
}

/// Keeping only some entries of a sorted sequence keeps it sorted.
pub proof fn lemma_filter_keys_sorted<T: Keyed>(s: Seq<T>, pred: spec_fn(T) -> bool)
    requires
        keys_sorted(s),
    ensures
        keys_sorted(s.filter(pred)),
    decreases s.len(),
{
    if s.len() > 0 {
        let init = s.drop_last();
        assert(keys_sorted(init));
        lemma_filter_keys_sorted(init, pred);
        init.lemma_filter_push(s.last(), pred);
        assert(init.push(s.last()) =~= s);
        let f = init.filter(pred);
        if pred(s.last()) {
            assert forall|i: int, j: int| 0 <= i < j < f.push(s.last()).len() implies crate::keyed::pair_lt(
                #[trigger] f.push(s.last())[i].key(),
                #[trigger] f.push(s.last())[j].key(),
            ) by {
                if j == f.len() {
                    assert(f.contains(f[i]));
                    init.lemma_filter_contains_rev(pred, f[i]);
                    assert(init.contains(f[i]));
                    let k = choose|k: int| 0 <= k < init.len() && init[k] == f[i];
                    assert(s[k] == f[i]);
                    assert(crate::keyed::pair_lt(s[k].key(), s[s.len() - 1].key()));
                } else {
                    assert(f.push(s.last())[i] == f[i]);
                    assert(f.push(s.last())[j] == f[j]);
                }
            }
        }
    }
}

/// The request that the event `id` from `spoke` answers, if a client is waiting on it.
pub open spec fn pending_for(pending: Seq<PendingRequest>, spoke: Seq<char>, id: Option<RequestId>) -> Option<PendingRequest> {
    match id {
        Some(rid) => lookup(pending, (spoke, rid@)),
        None => None,
    }
}

/// An event from a spoke, to be sent as it is to each of `recipients`.
#[derive(Debug)]
pub struct Delivery {
    pub recipients: Vec<String>,
    pub event: ClientEvent,
}

/// Routes an event from the spoke `spoke`. It is cached first. An answer to a pending request
/// goes to the client that sent it alone (a snapshot also subscribes that client to the
/// project and records the project); any other event about a project goes to every client
/// subscribed to it (a project update also records the project); the rest goes nowhere.
pub fn deliver(store: &mut HubStore, routes: &mut HubRoutes, spoke: &SpokeId, event: ClientEvent) -> (r: Delivery)
    requires
        store_wf(*old(store)),
        routes_wf(*old(routes)),
    ensures
        store_wf(*final(store)),
        routes_wf(*final(routes)),
        r.event == event,
        cached(final(store).snapshots@, old(store).snapshots@, event.payload),
        final(store).providers == old(store).providers,
        final(store).owner_token_hash == old(store).owner_token_hash,
        pending_for(old(routes).pending@, spoke@, event.id) is None ==> match event.payload {
            ClientPayload::Timeline { item } => texts(r.recipients@) == subscribers(old(routes).subscriptions@, spoke@, item.project_id@),
            ClientPayload::Operation { operation } => texts(r.recipients@) == subscribers(old(routes).subscriptions@, spoke@, operation.project_id@),
            ClientPayload::Accepted { operation } => texts(r.recipients@) == subscribers(old(routes).subscriptions@, spoke@, operation.project_id@),
            ClientPayload::Interaction { project_id, .. } => texts(r.recipients@) == subscribers(old(routes).subscriptions@, spoke@, project_id@),
            ClientPayload::ProjectUpdated { project } => texts(r.recipients@) == subscribers(old(routes).subscriptions@, spoke@, project.project_id@),
            ClientPayload::ProjectSnapshot { snapshot } => texts(r.recipients@) == subscribers(old(routes).subscriptions@, spoke@, snapshot.project.project_id@),
            ClientPayload::ReplayGap { project_id, .. } => texts(r.recipients@) == subscribers(old(routes).subscriptions@, spoke@, project_id@),
            _ => r.recipients@.len() == 0,
        },
        match pending_for(old(routes).pending@, spoke@, event.id) {
            Some(p) => {
                &&& texts(r.recipients@) == seq![p.client_id@]
                &&& lookup(final(routes).pending@, p.key()) is None
                &&& forall|k: (Seq<char>, Seq<char>)| k != p.key() ==> #[trigger] lookup(final(routes).pending@, k) == lookup(old(routes).pending@, k)
                &&& match event.payload {
                    ClientPayload::ProjectSnapshot { snapshot } => {
                        &&& forall|c: Seq<char>, s: Seq<char>, q: Seq<char>|
                            #[trigger] subscribed(final(routes).subscriptions@, c, s, q) == (subscribed(old(routes).subscriptions@, c, s, q)
                                || (c == p.client_id@ && s == spoke@ && q == snapshot.project.project_id@))
                        &&& project_cached(*final(store), HubStore { snapshots: final(store).snapshots, ..*old(store) }, spoke@, snapshot.project)
                    },
                    _ => {
                        &&& final(routes).subscriptions == old(routes).subscriptions
                        &&& final(store).spokes == old(store).spokes
                    },
                }
            },
            None => {
                &&& final(routes).pending@ == old(routes).pending@
                &&& final(routes).subscriptions == old(routes).subscriptions
                &&& match payload_project_spec(event.payload) {
                    None => r.recipients@.len() == 0,
                    Some(pid) => texts(r.recipients@) == subscribers(old(routes).subscriptions@, spoke@, pid@),
                }
                &&& match event.payload {
                    ClientPayload::ProjectUpdated { project } =>
                        project_cached(*final(store), HubStore { snapshots: final(store).snapshots, ..*old(store) }, spoke@, project),
                    _ => final(store).spokes == old(store).spokes,
                }
            },
        },
{
    cache_event(store, &event);
    let waiting = match &event.id {
        Some(id) => remove_key(&mut routes.pending, spoke.as_str(), id.as_str()),
        None => None,
    };
    match waiting {
        Some(p) => {
            match &event.payload {
                ClientPayload::ProjectSnapshot { snapshot } => {
                    let key = ProjectKey { spoke_id: spoke.clone(), project_id: snapshot.project.project_id.clone() };
                    routes.subscribe(p.client_id.as_str(), key);
                    store.update_cached_project(spoke, &snapshot.project);
                },
                _ => {},
            }
            let mut recipients: Vec<String> = Vec::new();
            recipients.push(p.client_id);
            assert(texts(recipients@) =~= seq![p.client_id@]);
            Delivery { recipients, event }
        },
        None => {
            let recipients = match event.payload.project_id() {
                None => Vec::new(),
                Some(pid) => {
                    match &event.payload {
                        ClientPayload::ProjectUpdated { project } => {
                            store.update_cached_project(spoke, project);
                        },
                        _ => {},
                    }
                    routes.recipients(spoke, &pid)
                },
            };
            Delivery { recipients, event }
        },
    }
}

} // verus!
