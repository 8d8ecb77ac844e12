//! The order in which the client shows a project: its timeline, operations and reviews by their
//! authoritative times with stable identifiers breaking ties, and its chat with messages still on
//! their way merged in.

use vstd::prelude::*;

use crate::order::{Ordered, sorted, sort_stable};
use crate::records::{ProjectKey, ProjectSnapshot, TimelineItem, OperationRecord, ReviewRecord, review_same};
use crate::snapshots::{append_new_items, append_new_timeline_items, ids_unique, lemma_append_new_items_unique, lemma_permutation_keeps_ids_unique};
use crate::status::OperationStatus;
use crate::text::{text_le, text_less, str_eq, lemma_text_order};

verus! {

/// Lexicographic order on a number and a text.
pub open spec fn num_text_le(a: u64, x: Seq<char>, b: u64, y: Seq<char>) -> bool {
    a < b || (a == b && text_le(x, y))
}

pub proof fn lemma_num_text(a: u64, x: Seq<char>, b: u64, y: Seq<char>, c: u64, z: Seq<char>)
    ensures
        num_text_le(a, x, a, x),
        num_text_le(a, x, b, y) && num_text_le(b, y, c, z) ==> num_text_le(a, x, c, z),
        num_text_le(a, x, b, y) || num_text_le(b, y, a, x),
{
    lemma_text_order(x, y, z);
    lemma_text_order(y, x, z);
    lemma_text_order(x, z, y);
}

fn text_le_exec(a: &str, b: &str) -> (r: bool)
    ensures
        r == text_le(a@, b@),
{
    str_eq(a, b) || text_less(a, b)
}

impl Ordered for TimelineItem {
    /// By creation time, then cursor, then identifier.
    open spec fn key_le(self, other: Self) -> bool {
        self.created_at < other.created_at || (self.created_at == other.created_at && num_text_le(
            self.cursor,
            self.timeline_item_id@,
            other.cursor,
            other.timeline_item_id@,
        ))
    }

    fn le(&self, other: &Self) -> (r: bool) {
        self.created_at < other.created_at || (self.created_at == other.created_at && (self.cursor < other.cursor
            || (self.cursor == other.cursor && text_le_exec(self.timeline_item_id.as_str(), other.timeline_item_id.as_str()))))
    }

    proof fn lemma_total_preorder(a: Self, b: Self, c: Self) {
        lemma_num_text(a.cursor, a.timeline_item_id@, b.cursor, b.timeline_item_id@, c.cursor, c.timeline_item_id@);
        lemma_num_text(b.cursor, b.timeline_item_id@, a.cursor, a.timeline_item_id@, c.cursor, c.timeline_item_id@);
    }
}

impl Ordered for OperationRecord {
    /// By last update, then identifier.
    open spec fn key_le(self, other: Self) -> bool {
        num_text_le(self.updated_at, self.operation_id@, other.updated_at, other.operation_id@)
    }

    fn le(&self, other: &Self) -> (r: bool) {
        self.updated_at < other.updated_at || (self.updated_at == other.updated_at && text_le_exec(
            self.operation_id.as_str(),
            other.operation_id.as_str(),
        ))
    }

    proof fn lemma_total_preorder(a: Self, b: Self, c: Self) {
        lemma_num_text(a.updated_at, a.operation_id@, b.updated_at, b.operation_id@, c.updated_at, c.operation_id@);
    }
}

impl Ordered for ReviewRecord {
    /// By creation time, then identifier.
    open spec fn key_le(self, other: Self) -> bool {
        num_text_le(self.created_at, self.review_id@, other.created_at, other.review_id@)
    }

    fn le(&self, other: &Self) -> (r: bool) {
        self.created_at < other.created_at || (self.created_at == other.created_at && text_le_exec(
            self.review_id.as_str(),
            other.review_id.as_str(),
        ))
    }

    proof fn lemma_total_preorder(a: Self, b: Self, c: Self) {
        lemma_num_text(a.created_at, a.review_id@, b.created_at, b.review_id@, c.created_at, c.review_id@);
    }
}

/// `n` holds the items of `o` in sorted order.
pub open spec fn sorted_permutation<T: Ordered>(n: Seq<T>, o: Seq<T>) -> bool {
    sorted(n) && n.to_multiset() == o.to_multiset()
}

/// Timeline items in display order: by creation time, then cursor, then identifier.
pub open spec fn timeline_in_display_order(s: Seq<TimelineItem>) -> bool {
    forall|i: int, j: int| 0 <= i < j < s.len() ==> {
        &&& (#[trigger] s[i]).created_at <= (#[trigger] s[j]).created_at
        &&& s[i].created_at == s[j].created_at ==> s[i].cursor <= s[j].cursor
        &&& s[i].created_at == s[j].created_at && s[i].cursor == s[j].cursor
            ==> text_le(s[i].timeline_item_id@, s[j].timeline_item_id@)
    }
}

/// Operations in display order: by the time of their last update, then identifier.
pub open spec fn operations_in_display_order(s: Seq<OperationRecord>) -> bool {
    forall|i: int, j: int| 0 <= i < j < s.len() ==> {
        &&& (#[trigger] s[i]).updated_at <= (#[trigger] s[j]).updated_at
        &&& s[i].updated_at == s[j].updated_at ==> text_le(s[i].operation_id@, s[j].operation_id@)
    }
}

/// Reviews in display order: by creation time, then identifier.
pub open spec fn reviews_in_display_order(s: Seq<ReviewRecord>) -> bool {
    forall|i: int, j: int| 0 <= i < j < s.len() ==> {
        &&& (#[trigger] s[i]).created_at <= (#[trigger] s[j]).created_at
        &&& s[i].created_at == s[j].created_at ==> text_le(s[i].review_id@, s[j].review_id@)
    }
}

/// What sorting a snapshot's collections achieves, in terms of their fields: timeline items by
/// creation time, cursor and identifier; operations by last update and identifier; reviews by
/// creation time and identifier.
pub proof fn lemma_sorted_is_display_order(t: Seq<TimelineItem>, o: Seq<OperationRecord>, r: Seq<ReviewRecord>)
    ensures
        sorted(t) ==> timeline_in_display_order(t),
        sorted(o) ==> operations_in_display_order(o),
        sorted(r) ==> reviews_in_display_order(r),
{
    if sorted(t) {
        assert forall|i: int, j: int| 0 <= i < j < t.len() implies {
            &&& (#[trigger] t[i]).created_at <= (#[trigger] t[j]).created_at
            &&& t[i].created_at == t[j].created_at ==> t[i].cursor <= t[j].cursor
            &&& t[i].created_at == t[j].created_at && t[i].cursor == t[j].cursor
                ==> text_le(t[i].timeline_item_id@, t[j].timeline_item_id@)
        } by {
            assert(t[i].key_le(t[j]));
        }
    }
    if sorted(o) {
        assert forall|i: int, j: int| 0 <= i < j < o.len() implies {
            &&& (#[trigger] o[i]).updated_at <= (#[trigger] o[j]).updated_at
            &&& o[i].updated_at == o[j].updated_at ==> text_le(o[i].operation_id@, o[j].operation_id@)
        } by {
            assert(o[i].key_le(o[j]));
        }
    }
    if sorted(r) {
        assert forall|i: int, j: int| 0 <= i < j < r.len() implies {
            &&& (#[trigger] r[i]).created_at <= (#[trigger] r[j]).created_at
            &&& r[i].created_at == r[j].created_at ==> text_le(r[i].review_id@, r[j].review_id@)
        } by {
            assert(r[i].key_le(r[j]));
        }
    }
}

/// Puts a snapshot's timeline, operations and reviews in display order.
pub fn order_snapshot_collections(snapshot: &mut ProjectSnapshot)
    ensures
        sorted_permutation(final(snapshot).timeline@, old(snapshot).timeline@),
        sorted_permutation(final(snapshot).operations@, old(snapshot).operations@),
        sorted_permutation(final(snapshot).reviews@, old(snapshot).reviews@),
        timeline_in_display_order(final(snapshot).timeline@),
        operations_in_display_order(final(snapshot).operations@),
        reviews_in_display_order(final(snapshot).reviews@),
        final(snapshot).timeline@.len() == old(snapshot).timeline@.len(),
        final(snapshot).operations@.len() == old(snapshot).operations@.len(),
        final(snapshot).reviews@.len() == old(snapshot).reviews@.len(),
        final(snapshot).project == old(snapshot).project,
        final(snapshot).source == old(snapshot).source,
        final(snapshot).chat == old(snapshot).chat,
        final(snapshot).gap_before == old(snapshot).gap_before,
{
    let mut timeline: Vec<TimelineItem> = Vec::new();
    std::mem::swap(&mut timeline, &mut snapshot.timeline);
    snapshot.timeline = sort_stable(timeline);
    let mut operations: Vec<OperationRecord> = Vec::new();
    std::mem::swap(&mut operations, &mut snapshot.operations);
    snapshot.operations = sort_stable(operations);
    let mut reviews: Vec<ReviewRecord> = Vec::new();
    std::mem::swap(&mut reviews, &mut snapshot.reviews);
    snapshot.reviews = sort_stable(reviews);
    proof {
        lemma_sorted_is_display_order(snapshot.timeline@, snapshot.operations@, snapshot.reviews@);
    }
}

/// Two lists hold the same reviews, position by position.
pub open spec fn reviews_same(a: Seq<ReviewRecord>, b: Seq<ReviewRecord>) -> bool {
    &&& a.len() == b.len()
    &&& forall|i: int| 0 <= i < a.len() ==> review_same(#[trigger] a[i], b[i])
}

/// Merges a newer snapshot of the same project into the one the client holds: project, source,
/// chat, operations, reviews and replay gap come from the newer one; timeline items the client
/// lacks (by identifier) are added; then everything is put in display order.
pub fn merge_snapshot(held: &mut ProjectSnapshot, new: &ProjectSnapshot)
    ensures
        final(held).project == new.project,
        final(held).source == new.source,
        final(held).chat == new.chat,
        final(held).gap_before == new.gap_before,
        sorted_permutation(final(held).timeline@, append_new_items(old(held).timeline@, new.timeline@)),
        sorted_permutation(final(held).operations@, new.operations@),
        exists|rs: Seq<ReviewRecord>| #[trigger] reviews_same(rs, new.reviews@)
            && sorted_permutation(final(held).reviews@, rs),
        ids_unique(old(held).timeline@) ==> ids_unique(final(held).timeline@),
{
    held.project = new.project.clone();
    held.source = new.source.clone();
    held.chat = new.chat.clone();
    let items = new.timeline.clone();
    assert(items@ =~= new.timeline@);
    append_new_timeline_items(&mut held.timeline, items);
    let ops = new.operations.clone();
    assert(ops@ =~= new.operations@);
    held.operations = ops;
    let reviews = new.reviews.clone();
    let ghost rs = reviews@;
    assert(reviews_same(rs, new.reviews@));
    held.reviews = reviews;
    held.gap_before = new.gap_before;
    order_snapshot_collections(held);
    assert(sorted_permutation(held.reviews@, rs));
    proof {
        if ids_unique(old(held).timeline@) {
            lemma_append_new_items_unique(old(held).timeline@, new.timeline@);
            lemma_permutation_keeps_ids_unique(held.timeline@, append_new_items(old(held).timeline@, new.timeline@));
        }
    }
}

/// Whether an operation is still under way.
pub open spec fn is_active_status(status: OperationStatus) -> bool {
    status == OperationStatus::Queued || status == OperationStatus::Accepted || status == OperationStatus::Running
        || status == OperationStatus::Blocked
}

/// Whether an operation is still under way.
pub fn is_active(status: &OperationStatus) -> (r: bool)
    ensures
        r == is_active_status(*status),
{
    match status {
        OperationStatus::Queued => true,
        OperationStatus::Accepted => true,
        OperationStatus::Running => true,
        OperationStatus::Blocked => true,
        _ => false,
    }
}

/// The key of a project: its spoke and its identifier.
pub fn project_key(project: &crate::records::ProjectRecord) -> (r: ProjectKey)
    ensures
        r.spoke_id == project.spoke_id,
        r.project_id == project.project_id,
{
    ProjectKey { spoke_id: project.spoke_id.clone(), project_id: project.project_id.clone() }
}

} // verus!
