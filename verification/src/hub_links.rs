//! What the hub does on a spoke's connection: the handshake, each message after it, the update it
//! tells clients about a spoke, and how administrative changes written to disk reach the live
//! state.

use vstd::prelude::*;
use crate::hub_requests::check_version;
use crate::hub_store::{
    HubStore, SpokeAuth, store_wf, spoke_wf, spoke_entry, inventory_recorded, spoke_seen,
};
use crate::ids::SpokeId;
use crate::json::opt_string;
use crate::keyed::{Keyed, lookup, find};
use crate::messages::{SpokeToHub, ClientEvent, ClientPayload};
use crate::policy::PROTOCOL_VERSION;
use crate::records::SpokeRecord;
use crate::status::SpokeStatus;
use crate::text::{copy_text, decimal, text_eq};

verus! {

/// The refusal of a message in protocol version `v`.
pub open spec fn version_refusal(v: u32) -> Seq<char> {
    "unsupported protocol "@ + decimal(v as nat) + "; expected "@ + decimal(PROTOCOL_VERSION as nat)
}

/// Opens a spoke connection: its first message must be a hello in this protocol, which names the
/// spoke and the version it runs.
pub fn spoke_hello(msg: SpokeToHub) -> (r: Result<(SpokeId, String), String>)
    ensures
        match msg {
            SpokeToHub::Hello { protocol_version, spoke_id, version } => if protocol_version == PROTOCOL_VERSION {
                r == Ok::<(SpokeId, String), String>((spoke_id, version))
            } else {
                r matches Err(m) && m@ == version_refusal(protocol_version)
            },
            _ => r matches Err(m) && m@ == "first message must be hello"@,
        },
{
    match msg {
        SpokeToHub::Hello { protocol_version, spoke_id, version } => {
            match check_version(protocol_version) {
                Ok(()) => Ok((spoke_id, version)),
                Err(m) => Err(m),
            }
        },
        _ => Err(copy_text("first message must be hello")),
    }
}

/// The signature a spoke answers the challenge with: its second message must be an
/// authentication by the spoke that said hello.
pub fn spoke_auth(msg: SpokeToHub, spoke: &SpokeId) -> (r: Result<String, String>)
    ensures
        match msg {
            SpokeToHub::Auth { spoke_id, signature, .. } => if spoke_id@ == spoke@ {
                r == Ok::<String, String>(signature)
            } else {
                r matches Err(m) && m@ == "identity changed"@
            },
            _ => r matches Err(m) && m@ == "missing auth"@,
        },
{
    match msg {
        SpokeToHub::Auth { spoke_id, signature, .. } => {
            if spoke_id.same(spoke) {
                Ok(signature)
            } else {
                Err(copy_text("identity changed"))
            }
        },
        _ => Err(copy_text("missing auth")),
    }
}

/// What a message from an authenticated spoke asks of the hub.
#[derive(Debug)]
pub enum SpokeStep {
    /// The spoke's inventory was recorded; the store is to be saved.
    Recorded,
    /// The spoke was seen.
    Seen,
    /// An event for clients, to be delivered.
    Deliver(ClientEvent),
    /// Nothing to do.
    Ignored,
}

/// Takes a message from the authenticated spoke `spoke` at `now`: an inventory is recorded, a
/// heartbeat notes that the spoke was seen, a client event is handed on for delivery, and a
/// repeated hello or authentication is ignored. A message in another protocol version is refused
/// and changes nothing.
pub fn spoke_message(store: &mut HubStore, spoke: &SpokeId, msg: SpokeToHub, now: u64) -> (r: Result<SpokeStep, String>)
    requires
        store_wf(*old(store)),
    ensures
        store_wf(*final(store)),
        match msg {
            SpokeToHub::Inventory { protocol_version, projects, .. } => if protocol_version == PROTOCOL_VERSION {
                r matches Ok(SpokeStep::Recorded) && inventory_recorded(*final(store), *old(store), spoke@, projects@, now)
            } else {
                r matches Err(m) && m@ == version_refusal(protocol_version) && *final(store) == *old(store)
            },
            SpokeToHub::Heartbeat { protocol_version } => if protocol_version == PROTOCOL_VERSION {
                r matches Ok(SpokeStep::Seen) && spoke_seen(*final(store), *old(store), spoke@, now)
            } else {
                r matches Err(m) && m@ == version_refusal(protocol_version) && *final(store) == *old(store)
            },
            SpokeToHub::ClientEvent { protocol_version, event } => *final(store) == *old(store) && if protocol_version
                == PROTOCOL_VERSION {
                r matches Ok(SpokeStep::Deliver(e)) && e == *event
            } else {
                r matches Err(m) && m@ == version_refusal(protocol_version)
            },
            _ => r matches Ok(SpokeStep::Ignored) && *final(store) == *old(store),
        },
{
    match msg {
        SpokeToHub::Inventory { protocol_version, projects, .. } => {
            match check_version(protocol_version) {
                Err(m) => Err(m),
                Ok(()) => {
                    store.record_inventory(spoke, projects, now);
                    Ok(SpokeStep::Recorded)
                },
            }
        },
        SpokeToHub::Heartbeat { protocol_version } => {
            match check_version(protocol_version) {
                Err(m) => Err(m),
                Ok(()) => {
                    store.touch_spoke(spoke, now);
                    Ok(SpokeStep::Seen)
                },
            }
        },
        SpokeToHub::ClientEvent { protocol_version, event } => {
            match check_version(protocol_version) {
                Err(m) => Err(m),
                Ok(()) => Ok(SpokeStep::Deliver(*event)),
            }
        },
        _ => Ok(SpokeStep::Ignored),
    }
}

/// The event that tells every client the current record of the spoke `spoke`, if the hub knows
/// it.
pub fn spoke_update_event(store: &HubStore, spoke: &SpokeId, now: u64) -> (r: Option<ClientEvent>)
    requires
        store_wf(*store),
    ensures
        match spoke_entry(*store, spoke@) {
            Some(e) => r matches Some(ev) && ev == (ClientEvent {
                protocol_version: PROTOCOL_VERSION,
                id: None,
                created_at: now,
                payload: ClientPayload::SpokeUpdated { spoke: e.record },
            }),
            None => r is None,
        },
{
    proof {
        reveal_strlit("");
        assert(""@ =~= Seq::<char>::empty());
    }
    match find(&store.spokes, spoke.as_str(), "") {
        None => None,
        Some(i) => {
            proof {
                crate::keyed::lemma_lookup_at(store.spokes@, i as int);
            }
            Some(ClientEvent {
                protocol_version: PROTOCOL_VERSION,
                id: None,
                created_at: now,
                payload: ClientPayload::SpokeUpdated { spoke: store.spokes[i].record.clone() },
            })
        },
    }
}

/// A disabled or revoked spoke may not hold a connection.
pub open spec fn is_barred(s: SpokeStatus) -> bool {
    s == SpokeStatus::Disabled || s == SpokeStatus::Revoked
}

/// The disk's record bars a spoke that the live state does not yet bar that way.
pub open spec fn newly_barred(live: SpokeAuth, disk: Option<SpokeAuth>) -> bool {
    disk matches Some(d) && is_barred(d.record.status) && d.record.status != live.record.status
}

/// The live entry of a spoke after an administrative change on disk: a status that bars it is
/// taken over, and so is a setup key that differs, with its expiry.
pub open spec fn merged_spoke(live: SpokeAuth, disk: Option<SpokeAuth>) -> SpokeAuth {
    match disk {
        None => live,
        Some(d) => {
            let status = if newly_barred(live, disk) { d.record.status } else { live.record.status };
            let rekeyed = opt_string(d.setup_key_hash) != opt_string(live.setup_key_hash);
            SpokeAuth {
                record: SpokeRecord { status, ..live.record },
                setup_key_hash: if rekeyed { d.setup_key_hash } else { live.setup_key_hash },
                setup_expires_at: if rekeyed { d.setup_expires_at } else { live.setup_expires_at },
                ..live
            }
        },
    }
}

/// The identifiers of the live spokes that the disk newly bars, in live order.
pub open spec fn barred_ids(live: Seq<SpokeAuth>, disk: Seq<SpokeAuth>) -> Seq<Seq<char>>
    decreases live.len(),
{
    if live.len() == 0 {
        Seq::empty()
    } else if newly_barred(live.last(), lookup(disk, live.last().key())) {
        barred_ids(live.drop_last(), disk).push(live.last().record.spoke_id@)
    } else {
        barred_ids(live.drop_last(), disk)
    }
}

fn same_opt_text(a: &Option<String>, b: &Option<String>) -> (r: bool)
    ensures
        r == (opt_string(*a) == opt_string(*b)),
{
    match (a, b) {
        (Some(x), Some(y)) => text_eq(x, y),
        (None, None) => true,
        _ => false,
    }
}

fn merge_spoke(live: SpokeAuth, disk: &HubStore) -> (r: (SpokeAuth, bool))
    requires
        store_wf(*disk),
    ensures
        r.0 == merged_spoke(live, lookup(disk.spokes@, live.key())),
        r.1 == newly_barred(live, lookup(disk.spokes@, live.key())),
{
    proof {
        reveal_strlit("");
        assert(""@ =~= Seq::<char>::empty());
    }
    let ghost original = live;
    let mut e = live;
    match find(&disk.spokes, e.record.spoke_id.as_str(), "") {
        None => (e, false),
        Some(j) => {
            proof {
                crate::keyed::lemma_lookup_at(disk.spokes@, j as int);
            }
            let d = &disk.spokes[j];
            let status = d.record.status;
            let cut = (status == SpokeStatus::Disabled || status == SpokeStatus::Revoked) && status != e.record.status;
            if cut {
                e.record.status = status;
            }
            if !same_opt_text(&d.setup_key_hash, &e.setup_key_hash) {
                e.setup_key_hash = d.setup_key_hash.clone();
                e.setup_expires_at = d.setup_expires_at;
            }
            assert(e == merged_spoke(original, lookup(disk.spokes@, original.key())));
            (e, cut)
        },
    }
}

/// Brings administrative changes made on disk into the live state: each live spoke takes over a
/// status on disk that bars it and a setup key on disk that differs (see `merged_spoke`); spokes
/// that are not live stay out. Returns the spokes to disconnect (see `barred_ids`).
pub fn merge_admin_state(live: &mut HubStore, disk: &HubStore) -> (r: Vec<SpokeId>)
    requires
        store_wf(*old(live)),
        store_wf(*disk),
    ensures
        store_wf(*final(live)),
        final(live).owner_token_hash == old(live).owner_token_hash,
        final(live).snapshots == old(live).snapshots,
        final(live).providers == old(live).providers,
        final(live).spokes@.len() == old(live).spokes@.len(),
        forall|i: int| 0 <= i < old(live).spokes@.len() ==> #[trigger] final(live).spokes@[i] == merged_spoke(
            old(live).spokes@[i],
            lookup(disk.spokes@, old(live).spokes@[i].key()),
        ),
        r@.map_values(|s: SpokeId| s@) == barred_ids(old(live).spokes@, disk.spokes@),
{
    let ghost before = live.spokes@;
    let mut rest: Vec<SpokeAuth> = Vec::new();
    std::mem::swap(&mut rest, &mut live.spokes);
    let mut out: Vec<SpokeAuth> = Vec::new();
    let mut cut: Vec<SpokeId> = Vec::new();
    let mut taken: usize = 0;
    assert(rest@ == before);
    assert(before.len() == rest.len());
    while rest.len() > 0
        invariant
            taken + rest@.len() == before.len(),
            before.len() <= usize::MAX,
            rest@ == before.subrange(taken as int, before.len() as int),
            out@.len() == taken,
            forall|i: int| 0 <= i < taken ==> #[trigger] out@[i] == merged_spoke(before[i], lookup(disk.spokes@, before[i].key())),
            cut@.map_values(|s: SpokeId| s@) == barred_ids(before.subrange(0, taken as int), disk.spokes@),
            store_wf(*disk),
        decreases rest.len(),
    {
        let e = rest.remove(0);
        assert(e == before[taken as int]);
        let ghost id = e.record.spoke_id@;
        let (m, barred) = merge_spoke(e, disk);
        proof {
            assert(before.subrange(0, taken + 1).drop_last() =~= before.subrange(0, taken as int));
            assert(before.subrange(0, taken + 1).last() == before[taken as int]);
        }
        if barred {
            let sid = m.record.spoke_id.clone();
            let ghost prior = cut@;
            cut.push(sid);
            proof {
                assert(cut@.map_values(|s: SpokeId| s@) =~= prior.map_values(|s: SpokeId| s@).push(id));
            }
        }
        out.push(m);
        taken = taken + 1;
        assert(rest@ =~= before.subrange(taken as int, before.len() as int));
    }
    assert(before.subrange(0, taken as int) =~= before);
    proof {
        assert forall|i: int, j: int| 0 <= i < j < out@.len() implies crate::keyed::pair_lt(
            #[trigger] out@[i].key(),
            #[trigger] out@[j].key(),
        ) by {
            assert(out@[i].key() == before[i].key());
            assert(out@[j].key() == before[j].key());
        }
        assert forall|i: int| 0 <= i < out@.len() implies spoke_wf(#[trigger] out@[i]) by {
            assert(spoke_wf(before[i]));
        }
    }
    live.spokes = out;
    cut
}

} // verus!
