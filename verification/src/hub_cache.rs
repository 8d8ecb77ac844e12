//! The hub's offline cache: the snapshots and project records that live events keep up to date,
//! so that a client can still open a project while its spoke is away.

use vstd::prelude::*;
use crate::hub_store::{HubStore, store_wf, spoke_entry, others_unchanged};
use crate::ids::SpokeId;
use crate::keyed::{Keyed, lookup, upsert};
use crate::messages::{ClientEvent, ClientPayload};
use crate::records::{
    ProjectRecord, ProjectSnapshot, SourceOfIntentMetadata, IntentChatRecord, TimelineItem,
    OperationRecord, snapshot_same,
};
use crate::snapshots::{
    append_new_items, append_new_timeline_items, has_item, contains_item, put_operation,
    put_operation_spec, find_snapshot, snapshot_index, is_snapshot_of,
};

verus! {

/// `n` is the cached snapshot `o` with the given parts replaced; its reviews and replay gap stay.
pub open spec fn snapshot_updated(
    n: ProjectSnapshot,
    o: ProjectSnapshot,
    project: ProjectRecord,
    source: SourceOfIntentMetadata,
    chat: IntentChatRecord,
    timeline: Seq<TimelineItem>,
    operations: Seq<OperationRecord>,
) -> bool {
    &&& n.project == project
    &&& n.source == source
    &&& n.chat == chat
    &&& n.timeline@ == timeline
    &&& n.operations@ == operations
    &&& n.reviews == o.reviews
    &&& n.gap_before == o.gap_before
}

/// `n` differs from `o` at most at position `i`.
pub open spec fn only_changed_at(n: Seq<ProjectSnapshot>, o: Seq<ProjectSnapshot>, i: int) -> bool {
    &&& n.len() == o.len()
    &&& forall|j: int| 0 <= j < n.len() && j != i ==> #[trigger] n[j] == o[j]
}

/// What caching `payload` does to the cached snapshots `o`, resulting in `n`.
pub open spec fn cached(n: Seq<ProjectSnapshot>, o: Seq<ProjectSnapshot>, payload: ClientPayload) -> bool {
    match payload {
        ClientPayload::ProjectSnapshot { snapshot } => cached_snapshot(n, o, *snapshot),
        ClientPayload::Timeline { item } => cached_timeline(n, o, item),
        ClientPayload::Operation { operation } => cached_operation(n, o, operation),
        ClientPayload::Accepted { operation } => cached_operation(n, o, operation),
        ClientPayload::ProjectUpdated { project } => cached_project(n, o, project),
        _ => n == o,
    }
}

/// Caching a snapshot replaces the cached project, source, chat and operations and adds the
/// timeline items not yet cached; a snapshot of a project not yet cached is cached whole.
pub open spec fn cached_snapshot(n: Seq<ProjectSnapshot>, o: Seq<ProjectSnapshot>, snapshot: ProjectSnapshot) -> bool {
    match snapshot_index(o, snapshot.project.project_id@, snapshot.project.spoke_id@) {
        Some(i) => only_changed_at(n, o, i) && snapshot_updated(
            n[i],
            o[i],
            snapshot.project,
            snapshot.source,
            snapshot.chat,
            append_new_items(o[i].timeline@, snapshot.timeline@),
            snapshot.operations@,
        ),
        None => n.len() == o.len() + 1 && n.drop_last() == o && snapshot_same(snapshot, n.last()),
    }
}

/// Caching a timeline item appends it to its project's snapshot unless an item with its
/// identifier is already there.
pub open spec fn cached_timeline(n: Seq<ProjectSnapshot>, o: Seq<ProjectSnapshot>, item: TimelineItem) -> bool {
    match snapshot_index(o, item.project_id@, item.spoke_id@) {
        Some(i) => only_changed_at(n, o, i) && snapshot_updated(
            n[i],
            o[i],
            o[i].project,
            o[i].source,
            o[i].chat,
            if has_item(o[i].timeline@, item.timeline_item_id@) {
                o[i].timeline@
            } else {
                o[i].timeline@.push(item)
            },
            o[i].operations@,
        ),
        None => n == o,
    }
}

/// Caching a project update replaces the project record of its snapshot.
pub open spec fn cached_project(n: Seq<ProjectSnapshot>, o: Seq<ProjectSnapshot>, project: ProjectRecord) -> bool {
    match snapshot_index(o, project.project_id@, project.spoke_id@) {
        Some(i) => only_changed_at(n, o, i) && snapshot_updated(
            n[i],
            o[i],
            project,
            o[i].source,
            o[i].chat,
            o[i].timeline@,
            o[i].operations@,
        ),
        None => n == o,
    }
}

/// Caching an operation replaces the one with its identifier in its project's snapshot, or adds it.
pub open spec fn cached_operation(n: Seq<ProjectSnapshot>, o: Seq<ProjectSnapshot>, operation: OperationRecord) -> bool {
    match snapshot_index(o, operation.project_id@, operation.spoke_id@) {
        Some(i) => only_changed_at(n, o, i) && snapshot_updated(
            n[i],
            o[i],
            o[i].project,
            o[i].source,
            o[i].chat,
            o[i].timeline@,
            put_operation_spec(o[i].operations@, operation),
        ),
        None => n == o,
    }
}

/// No two cached snapshots are of the same project on the same spoke.
pub open spec fn snapshots_unique(s: Seq<ProjectSnapshot>) -> bool {
    forall|i: int, j: int| 0 <= i < j < s.len() ==> !is_snapshot_of(
        #[trigger] s[j], s[i].project.project_id@, #[trigger] s[i].project.spoke_id@)
}

proof fn lemma_same_projects_unique(n: Seq<ProjectSnapshot>, o: Seq<ProjectSnapshot>)
    requires
        snapshots_unique(o),
        n.len() == o.len(),
        forall|j: int| 0 <= j < n.len() ==> #[trigger] n[j].project.project_id@ == o[j].project.project_id@
            && n[j].project.spoke_id@ == o[j].project.spoke_id@,
    ensures
        snapshots_unique(n),
{
    assert forall|i: int, j: int| 0 <= i < j < n.len() implies !is_snapshot_of(
        #[trigger] n[j], n[i].project.project_id@, #[trigger] n[i].project.spoke_id@) by {
        assert(n[i].project.project_id@ == o[i].project.project_id@);
        assert(n[j].project.project_id@ == o[j].project.project_id@);
        assert(!is_snapshot_of(o[j], o[i].project.project_id@, o[i].project.spoke_id@));
    }
}

/// Caching any event from a spoke keeps at most one cached snapshot per project and spoke.
pub proof fn lemma_cache_keeps_snapshots_unique(n: Seq<ProjectSnapshot>, o: Seq<ProjectSnapshot>, payload: ClientPayload)
    requires
        snapshots_unique(o),
        cached(n, o, payload),
    ensures
        snapshots_unique(n),
{
    match payload {
        ClientPayload::ProjectSnapshot { snapshot } => {
            let sp = *snapshot;
            match snapshot_index(o, sp.project.project_id@, sp.project.spoke_id@) {
                Some(i) => {
                    assert(is_snapshot_of(o[i], sp.project.project_id@, sp.project.spoke_id@));
                    assert forall|j: int| 0 <= j < n.len() implies #[trigger] n[j].project.project_id@ == o[j].project.project_id@
                        && n[j].project.spoke_id@ == o[j].project.spoke_id@ by {
                        if j != i {
                            assert(n[j] == o[j]);
                        }
                    }
                    lemma_same_projects_unique(n, o);
                },
                None => {
                    assert forall|i: int, j: int| 0 <= i < j < n.len() implies !is_snapshot_of(
                        #[trigger] n[j], n[i].project.project_id@, #[trigger] n[i].project.spoke_id@) by {
                        assert(n[i] == o[i]);
                        if j < o.len() {
                            assert(n[j] == o[j]);
                        } else {
                            assert(n[j] == n.last());
                            assert(n[j].project == sp.project);
                            if is_snapshot_of(n[j], n[i].project.project_id@, n[i].project.spoke_id@) {
                                assert(is_snapshot_of(o[i], sp.project.project_id@, sp.project.spoke_id@));
                            }
                        }
                    }
                },
            }
        },
        ClientPayload::Timeline { item } => {
            match snapshot_index(o, item.project_id@, item.spoke_id@) {
                Some(i) => {
                    assert forall|j: int| 0 <= j < n.len() implies #[trigger] n[j].project.project_id@ == o[j].project.project_id@
                        && n[j].project.spoke_id@ == o[j].project.spoke_id@ by {
                        if j != i {
                            assert(n[j] == o[j]);
                        }
                    }
                    lemma_same_projects_unique(n, o);
                },
                None => {},
            }
        },
        ClientPayload::Operation { operation } => {
            lemma_operation_keeps_unique(n, o, operation);
        },
        ClientPayload::Accepted { operation } => {
            lemma_operation_keeps_unique(n, o, operation);
        },
        ClientPayload::ProjectUpdated { project } => {
            match snapshot_index(o, project.project_id@, project.spoke_id@) {
                Some(i) => {
                    assert(is_snapshot_of(o[i], project.project_id@, project.spoke_id@));
                    assert forall|j: int| 0 <= j < n.len() implies #[trigger] n[j].project.project_id@ == o[j].project.project_id@
                        && n[j].project.spoke_id@ == o[j].project.spoke_id@ by {
                        if j != i {
                            assert(n[j] == o[j]);
                        }
                    }
                    lemma_same_projects_unique(n, o);
                },
                None => {},
            }
        },
        _ => {},
    }
}

proof fn lemma_operation_keeps_unique(n: Seq<ProjectSnapshot>, o: Seq<ProjectSnapshot>, operation: OperationRecord)
    requires
        snapshots_unique(o),
        cached_operation(n, o, operation),
    ensures
        snapshots_unique(n),
{
    match snapshot_index(o, operation.project_id@, operation.spoke_id@) {
        Some(i) => {
            assert forall|j: int| 0 <= j < n.len() implies #[trigger] n[j].project.project_id@ == o[j].project.project_id@
                && n[j].project.spoke_id@ == o[j].project.spoke_id@ by {
                if j != i {
                    assert(n[j] == o[j]);
                }
            }
            lemma_same_projects_unique(n, o);
        },
        None => {},
    }
}

/// Brings the cached snapshots up to date with an event from a spoke: a snapshot replaces the
/// cached project, source, chat and operations and adds the timeline items not yet cached (or is
/// cached whole when new); a timeline item, an operation or a project update changes the cached
/// snapshot of its project, if there is one. Other events change nothing.
pub fn cache_event(store: &mut HubStore, event: &ClientEvent)
    ensures
        cached(final(store).snapshots@, old(store).snapshots@, event.payload),
        snapshots_unique(old(store).snapshots@) ==> snapshots_unique(final(store).snapshots@),
        final(store).spokes == old(store).spokes,
        final(store).providers == old(store).providers,
        final(store).owner_token_hash == old(store).owner_token_hash,
{
    match &event.payload {
        ClientPayload::ProjectSnapshot { snapshot } => cache_snapshot(store, snapshot),
        ClientPayload::Timeline { item } => cache_timeline(store, item),
        ClientPayload::Operation { operation } => cache_operation(store, operation),
        ClientPayload::Accepted { operation } => cache_operation(store, operation),
        ClientPayload::ProjectUpdated { project } => cache_project(store, project),
        _ => {},
    }
    proof {
        if snapshots_unique(old(store).snapshots@) {
            lemma_cache_keeps_snapshots_unique(store.snapshots@, old(store).snapshots@, event.payload);
        }
    }
}

fn cache_snapshot(store: &mut HubStore, snapshot: &ProjectSnapshot)
    ensures
        cached_snapshot(final(store).snapshots@, old(store).snapshots@, *snapshot),
        final(store).spokes == old(store).spokes,
        final(store).providers == old(store).providers,
        final(store).owner_token_hash == old(store).owner_token_hash,
{
    match find_snapshot(&store.snapshots, &snapshot.project.project_id, &snapshot.project.spoke_id) {
        Some(i) => {
            let ghost before = store.snapshots@;
            let mut cur = store.snapshots.remove(i);
            cur.project = snapshot.project.clone();
            cur.source = snapshot.source.clone();
            cur.chat = snapshot.chat.clone();
            let items = snapshot.timeline.clone();
            assert(items@ =~= snapshot.timeline@);
            append_new_timeline_items(&mut cur.timeline, items);
            let ops = snapshot.operations.clone();
            assert(ops@ =~= snapshot.operations@);
            cur.operations = ops;
            store.snapshots.insert(i, cur);
            assert(store.snapshots@ =~= before.update(i as int, cur));
        },
        None => {
            let copy = snapshot.clone();
            store.snapshots.push(copy);
            assert(store.snapshots@.drop_last() =~= old(store).snapshots@);
        },
    }
}

fn cache_timeline(store: &mut HubStore, item: &TimelineItem)
    ensures
        cached_timeline(final(store).snapshots@, old(store).snapshots@, *item),
        final(store).spokes == old(store).spokes,
        final(store).providers == old(store).providers,
        final(store).owner_token_hash == old(store).owner_token_hash,
{
    match find_snapshot(&store.snapshots, &item.project_id, &item.spoke_id) {
        Some(i) => {
            let ghost before = store.snapshots@;
            let mut cur = store.snapshots.remove(i);
            if !contains_item(&cur.timeline, item) {
                cur.timeline.push(item.clone());
            }
            store.snapshots.insert(i, cur);
            assert(store.snapshots@ =~= before.update(i as int, cur));
        },
        None => {},
    }
}

fn cache_project(store: &mut HubStore, project: &ProjectRecord)
    ensures
        cached_project(final(store).snapshots@, old(store).snapshots@, *project),
        final(store).spokes == old(store).spokes,
        final(store).providers == old(store).providers,
        final(store).owner_token_hash == old(store).owner_token_hash,
{
    match find_snapshot(&store.snapshots, &project.project_id, &project.spoke_id) {
        Some(i) => {
            let ghost before = store.snapshots@;
            let mut cur = store.snapshots.remove(i);
            cur.project = project.clone();
            store.snapshots.insert(i, cur);
            assert(store.snapshots@ =~= before.update(i as int, cur));
        },
        None => {},
    }
}

fn cache_operation(store: &mut HubStore, operation: &OperationRecord)
    ensures
        cached_operation(final(store).snapshots@, old(store).snapshots@, *operation),
        final(store).spokes == old(store).spokes,
        final(store).providers == old(store).providers,
        final(store).owner_token_hash == old(store).owner_token_hash,
{
    match find_snapshot(&store.snapshots, &operation.project_id, &operation.spoke_id) {
        Some(i) => {
            let ghost before = store.snapshots@;
            let mut cur = store.snapshots.remove(i);
            put_operation(&mut cur.operations, operation.clone());
            store.snapshots.insert(i, cur);
            assert(store.snapshots@ =~= before.update(i as int, cur));
        },
        None => {},
    }
}

/// `n` is the store `o` after recording `project` as the latest state of that project on the
/// spoke `spoke`: nothing changes for an unknown spoke.
pub open spec fn project_cached(n: HubStore, o: HubStore, spoke: Seq<char>, project: ProjectRecord) -> bool {
    &&& n.owner_token_hash == o.owner_token_hash
    &&& n.snapshots == o.snapshots
    &&& n.providers == o.providers
    &&& match spoke_entry(o, spoke) {
        None => n.spokes@ == o.spokes@,
        Some(e) => {
            &&& others_unchanged(o, n, spoke)
            &&& spoke_entry(n, spoke) matches Some(x) && {
                &&& x.record == e.record
                &&& x.public_key == e.public_key
                &&& x.setup_key_hash == e.setup_key_hash
                &&& x.setup_expires_at == e.setup_expires_at
                &&& lookup(x.projects@, project.key()) == Some(project)
                &&& forall|k: (Seq<char>, Seq<char>)| k != project.key() ==> #[trigger] lookup(x.projects@, k) == lookup(e.projects@, k)
            }
        },
    }
}

impl HubStore {
    /// Records `project` as the latest state of that project on the spoke `spoke`; an unknown
    /// spoke changes nothing.
    pub fn update_cached_project(&mut self, spoke: &SpokeId, project: &ProjectRecord)
        requires
            store_wf(*old(self)),
        ensures
            store_wf(*final(self)),
            project_cached(*final(self), *old(self), spoke@, *project),
    {
        match self.take_spoke(spoke.as_str()) {
            None => {},
            Some(mut e) => {
                upsert(&mut e.projects, project.clone());
                self.put_spoke(e);
            },
        }
    }
}

} // verus!
