//! Merging project snapshots and live updates into a cached snapshot.

use vstd::prelude::*;
use crate::ids::{ProjectId, SpokeId};
use crate::records::{ProjectSnapshot, TimelineItem, OperationRecord};

verus! {

/// Some item of `items` has identifier `id`.
pub open spec fn has_item(items: Seq<TimelineItem>, id: Seq<char>) -> bool {
    exists|i: int| 0 <= i < items.len() && #[trigger] items[i].timeline_item_id@ == id
}

/// `cur` followed by each item of `new` whose identifier is not yet present, in order.
pub open spec fn append_new_items(cur: Seq<TimelineItem>, new: Seq<TimelineItem>) -> Seq<TimelineItem>
    decreases new.len(),
{
    if new.len() == 0 {
        cur
    } else {
        let before = append_new_items(cur, new.drop_last());
        if has_item(before, new.last().timeline_item_id@) {
            before
        } else {
            before.push(new.last())
        }
    }
}

/// No two items of `items` share an identifier.
pub open spec fn ids_unique(items: Seq<TimelineItem>) -> bool {
    forall|i: int, j: int| 0 <= i < j < items.len()
        ==> (#[trigger] items[i]).timeline_item_id@ != (#[trigger] items[j]).timeline_item_id@
}

/// Adding the items a timeline lacks keeps its identifiers distinct.
pub proof fn lemma_append_new_items_unique(cur: Seq<TimelineItem>, new: Seq<TimelineItem>)
    requires
        ids_unique(cur),
    ensures
        ids_unique(append_new_items(cur, new)),
    decreases new.len(),
{
    if new.len() > 0 {
        lemma_append_new_items_unique(cur, new.drop_last());
        let before = append_new_items(cur, new.drop_last());
        if !has_item(before, new.last().timeline_item_id@) {
            let after = before.push(new.last());
            assert forall|i: int, j: int| 0 <= i < j < after.len()
                implies (#[trigger] after[i]).timeline_item_id@ != (#[trigger] after[j]).timeline_item_id@ by {
                if j == before.len() {
                    assert(after[i] == before[i]);
                } else {
                    assert(after[i] == before[i] && after[j] == before[j]);
                }
            }
        }
    }
}

/// Pushing an item whose identifier the timeline lacks keeps its identifiers distinct.
pub proof fn lemma_push_new_item_unique(items: Seq<TimelineItem>, item: TimelineItem)
    requires
        ids_unique(items),
        !has_item(items, item.timeline_item_id@),
    ensures
        ids_unique(items.push(item)),
{
    let after = items.push(item);
    assert forall|i: int, j: int| 0 <= i < j < after.len()
        implies (#[trigger] after[i]).timeline_item_id@ != (#[trigger] after[j]).timeline_item_id@ by {
        if j == items.len() {
            assert(after[i] == items[i]);
        } else {
            assert(after[i] == items[i] && after[j] == items[j]);
        }
    }
}

/// Reordering a timeline keeps its identifiers distinct.
pub proof fn lemma_permutation_keeps_ids_unique(a: Seq<TimelineItem>, b: Seq<TimelineItem>)
    requires
        a.to_multiset() == b.to_multiset(),
        ids_unique(b),
    ensures
        ids_unique(a),
    decreases a.len(),
{
    broadcast use vstd::seq_lib::group_to_multiset_ensures;
    broadcast use vstd::multiset::group_multiset_axioms;
    if a.len() > 0 {
        let x = a.last();
        let rest = a.drop_last();
        assert(rest.push(x) =~= a);
        assert(a.to_multiset() =~= rest.to_multiset().insert(x));
        assert(b.to_multiset().count(x) > 0);
        assert(b.contains(x));
        let p = choose|p: int| 0 <= p < b.len() && b[p] == x;
        let b2 = b.remove(p);
        assert(b2.to_multiset() =~= b.to_multiset().remove(x));
        assert(rest.to_multiset() =~= b2.to_multiset());
        assert forall|i: int, j: int| 0 <= i < j < b2.len()
            implies (#[trigger] b2[i]).timeline_item_id@ != (#[trigger] b2[j]).timeline_item_id@ by {
            let ii = if i < p { i } else { i + 1 };
            let jj = if j < p { j } else { j + 1 };
            assert(b2[i] == b[ii] && b2[j] == b[jj]);
        }
        lemma_permutation_keeps_ids_unique(rest, b2);
        assert forall|i: int, j: int| 0 <= i < j < a.len()
            implies (#[trigger] a[i]).timeline_item_id@ != (#[trigger] a[j]).timeline_item_id@ by {
            if j == rest.len() {
                assert(a[i] == rest[i]);
                assert(rest.contains(rest[i]));
                assert(b2.to_multiset().count(rest[i]) > 0);
                assert(b2.contains(rest[i]));
                let q = choose|q: int| 0 <= q < b2.len() && b2[q] == rest[i];
                let qq = if q < p { q } else { q + 1 };
                assert(b2[q] == b[qq]);
                if qq < p {
                    assert(b[qq].timeline_item_id@ != b[p].timeline_item_id@);
                } else {
                    assert(b[p].timeline_item_id@ != b[qq].timeline_item_id@);
                }
            } else {
                assert(a[i] == rest[i] && a[j] == rest[j]);
            }
        }
    }
}

/// Whether `items` holds an item with the identifier of `item`.
pub fn contains_item(items: &Vec<TimelineItem>, item: &TimelineItem) -> (r: bool)
    ensures
        r == has_item(items@, item.timeline_item_id@),
{
    let mut i: usize = 0;
    while i < items.len()
        invariant
            i <= items@.len(),
            forall|j: int| 0 <= j < i ==> (#[trigger] items@[j]).timeline_item_id@ != item.timeline_item_id@,
        decreases items@.len() - i,
    {
        if items[i].timeline_item_id.same(&item.timeline_item_id) {
            return true;
        }
        i = i + 1;
    }
    false
}

/// Appends the items of `new` that `cur` does not already hold (by identifier), in order.
pub fn append_new_timeline_items(cur: &mut Vec<TimelineItem>, new: Vec<TimelineItem>)
    ensures
        final(cur)@ == append_new_items(old(cur)@, new@),
{
    let ghost start = cur@;
    let ghost all = new@;
    let mut rest = new;
    let mut taken: usize = 0;
    assert(all.len() == rest.len());
    assert(all.subrange(0, 0) =~= Seq::<TimelineItem>::empty());
    while rest.len() > 0
        invariant
            taken + rest@.len() == all.len(),
            all.len() <= usize::MAX,
            rest@ == all.subrange(taken as int, all.len() as int),
            cur@ == append_new_items(start, all.subrange(0, taken as int)),
        decreases rest.len(),
    {
        let item = rest.remove(0);
        assert(item == all[taken as int]);
        proof {
            assert(all.subrange(0, taken + 1).drop_last() =~= all.subrange(0, taken as int));
        }
        if !contains_item(cur, &item) {
            cur.push(item);
        }
        taken = taken + 1;
        assert(rest@ =~= all.subrange(taken as int, all.len() as int));
    }
    assert(all.subrange(0, taken as int) =~= all);
}

/// The position of the first operation with identifier `id`.
pub open spec fn operation_index(ops: Seq<OperationRecord>, id: Seq<char>) -> Option<int> {
    if exists|i: int| 0 <= i < ops.len() && #[trigger] ops[i].operation_id@ == id {
        Some(choose|i: int| 0 <= i < ops.len() && #[trigger] ops[i].operation_id@ == id
            && forall|j: int| 0 <= j < i ==> ops[j].operation_id@ != id)
    } else {
        None
    }
}

/// `ops` with `op` replacing the first operation with its identifier, or appended.
pub open spec fn put_operation_spec(ops: Seq<OperationRecord>, op: OperationRecord) -> Seq<OperationRecord> {
    match operation_index(ops, op.operation_id@) {
        Some(i) => ops.update(i, op),
        None => ops.push(op),
    }
}

/// Replaces the operation with `op`'s identifier by `op`, or appends `op`.
pub fn put_operation(ops: &mut Vec<OperationRecord>, op: OperationRecord)
    ensures
        final(ops)@ == put_operation_spec(old(ops)@, op),
{
    let mut i: usize = 0;
    while i < ops.len()
        invariant
            i <= ops@.len(),
            ops@ == old(ops)@,
            forall|j: int| 0 <= j < i ==> (#[trigger] ops@[j]).operation_id@ != op.operation_id@,
        decreases ops@.len() - i,
    {
        if ops[i].operation_id.same(&op.operation_id) {
            proof {
                let s = ops@;
                assert(0 <= i < s.len() && s[i as int].operation_id@ == op.operation_id@
                    && forall|j: int| 0 <= j < i ==> s[j].operation_id@ != op.operation_id@);
                let c = choose|k: int| 0 <= k < s.len() && #[trigger] s[k].operation_id@ == op.operation_id@
                    && forall|j: int| 0 <= j < k ==> s[j].operation_id@ != op.operation_id@;
                assert(c == i) by {
                    if c > i {
                        assert(s[i as int].operation_id@ == op.operation_id@);
                    }
                }
            }
            ops.set(i, op);
            return;
        }
        i = i + 1;
    }
    ops.push(op);
}

/// The first cached snapshot of project `project` on spoke `spoke`.
pub open spec fn snapshot_index(snaps: Seq<ProjectSnapshot>, project: Seq<char>, spoke: Seq<char>) -> Option<int> {
    if exists|i: int| 0 <= i < snaps.len() && #[trigger] is_snapshot_of(snaps[i], project, spoke) {
        Some(choose|i: int| 0 <= i < snaps.len() && #[trigger] is_snapshot_of(snaps[i], project, spoke)
            && forall|j: int| 0 <= j < i ==> !is_snapshot_of(snaps[j], project, spoke))
    } else {
        None
    }
}

pub open spec fn is_snapshot_of(s: ProjectSnapshot, project: Seq<char>, spoke: Seq<char>) -> bool {
    s.project.project_id@ == project && s.project.spoke_id@ == spoke
}

/// Finds the first cached snapshot of project `project` on spoke `spoke`.
pub fn find_snapshot(snaps: &Vec<ProjectSnapshot>, project: &ProjectId, spoke: &SpokeId) -> (r: Option<usize>)
    ensures
        match r {
            Some(i) => snapshot_index(snaps@, project@, spoke@) == Some(i as int) && i < snaps@.len(),
            None => snapshot_index(snaps@, project@, spoke@) is None,
        },
{
    let mut i: usize = 0;
    while i < snaps.len()
        invariant
            i <= snaps@.len(),
            forall|j: int| 0 <= j < i ==> !is_snapshot_of(#[trigger] snaps@[j], project@, spoke@),
        decreases snaps@.len() - i,
    {
        if snaps[i].project.project_id.same(project) && snaps[i].project.spoke_id.same(spoke) {
            proof {
                let s = snaps@;
                assert(0 <= i < s.len() && is_snapshot_of(s[i as int], project@, spoke@)
                    && forall|j: int| 0 <= j < i ==> !is_snapshot_of(s[j], project@, spoke@));
                let c = choose|k: int| 0 <= k < s.len() && #[trigger] is_snapshot_of(s[k], project@, spoke@)
                    && forall|j: int| 0 <= j < k ==> !is_snapshot_of(s[j], project@, spoke@);
                assert(c == i) by {
                    if c > i {
                        assert(is_snapshot_of(s[i as int], project@, spoke@));
                    }
                }
            }
            return Some(i);
        }
        i = i + 1;
    }
    None
}

} // verus!
