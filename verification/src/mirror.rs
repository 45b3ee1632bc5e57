//! Mirror deletion results: the journal entries an authorized counterpart
//! deletion leaves, checked against an independent fresh inventory.
use vstd::prelude::*;

use crate::journal::{planned_action_ids, planned_ids, reconciled_status, JournalEvent, PlanRecord};
use crate::model::{ActionReason, PeerSide, PlanActionKind, RunId, SyncMode};
use crate::profile::SyncProfile;
use crate::ssh::ItemType;
use crate::store::{RunEvidenceStore, RunReport, StorageError};
use crate::workflow::{report_of, RunEnvironment, RunWorkflow, WorkflowError};
use crate::text::{debug_quoted, debug_text};
use crate::calls::{
    added, appended, call_current_inventories, call_observe, effect_free, lemma_added_push, lemma_added_refl, lemma_added_trans,
    lemma_calls_concat,
};

verus! {

/// One item of a peer inventory.
#[derive(Debug, Clone, PartialEq, Eq)]
pub struct InventoryItem {
    pub relative_path: String,
    pub item_type: ItemType,
    pub size: u64,
}

/// What a fresh analysis found on each peer.
#[derive(Debug, Clone, PartialEq, Eq)]
pub struct PeerInventories {
    pub peer_a: Vec<InventoryItem>,
    pub peer_b: Vec<InventoryItem>,
}

#[derive(Debug, Clone, Copy, PartialEq, Eq, Structural)]
pub enum MirrorDeletionOutcome {
    Completed,
    FailedPreserved,
    Deferred,
}

/// What the authorized deletion executor reports for one counterpart deletion.
#[derive(Debug, Clone, PartialEq, Eq)]
pub struct MirrorDeletionResult {
    pub relative_path: String,
    pub affected_peer: PeerSide,
    pub outcome: MirrorDeletionOutcome,
    pub requires_review: bool,
}

/// The first item at or after `i` whose path is `path`.
pub open spec fn item_from(items: Seq<InventoryItem>, path: Seq<char>, i: int) -> Option<InventoryItem>
    decreases items.len() - i,
{
    if i < 0 || i >= items.len() {
        None
    } else if items[i].relative_path@ == path {
        Some(items[i])
    } else {
        item_from(items, path, i + 1)
    }
}

/// The inventory's item for `path`.
pub open spec fn inventory_item(items: Seq<InventoryItem>, path: Seq<char>) -> Option<InventoryItem> {
    item_from(items, path, 0)
}

pub fn find_item<'a>(items: &'a Vec<InventoryItem>, path: &String) -> (item: Option<&'a InventoryItem>)
    ensures
        match item {
            Some(found) => inventory_item(items@, path@) == Some(*found),
            None => inventory_item(items@, path@) is None,
        },
{
    let mut index: usize = 0;
    while index < items.len()
        invariant
            index <= items@.len(),
            inventory_item(items@, path@) == item_from(items@, path@, index as int),
        decreases items@.len() - index,
    {
        if items[index].relative_path == *path {
            return Some(&items[index]);
        }
        index += 1;
    }
    None
}

/// `a + b`, or the largest id when that overflows.
pub open spec fn saturating_sum(a: u64, b: u64) -> u64 {
    if a + b <= u64::MAX { (a + b) as u64 } else { u64::MAX }
}

/// The largest id, or 0 for none.
pub open spec fn largest_id(ids: Seq<u64>) -> u64
    decreases ids.len(),
{
    if ids.len() == 0 {
        0
    } else {
        let rest = largest_id(ids.drop_last());
        if ids.last() > rest { ids.last() } else { rest }
    }
}

/// The id of the first deletion entry: one past every planned id.
pub open spec fn first_deletion_id(journal: Seq<JournalEvent>) -> u64 {
    saturating_sum(largest_id(planned_ids(journal)), 1)
}

fn largest(ids: &Vec<u64>) -> (largest: u64)
    ensures
        largest == largest_id(ids@),
{
    let mut best: u64 = 0;
    let mut index: usize = 0;
    while index < ids.len()
        invariant
            index <= ids@.len(),
            best == largest_id(ids@.subrange(0, index as int)),
        decreases ids@.len() - index,
    {
        assert(ids@.subrange(0, index + 1).drop_last() =~= ids@.subrange(0, index as int));
        if ids[index] > best {
            best = ids[index];
        }
        index += 1;
    }
    assert(ids@.subrange(0, index as int) =~= ids@);
    best
}

/// The event that settles a deletion entry. A reported completion counts
/// only when an independent fresh inventory finds the item on neither
/// peer and the executor did not ask for review.
pub open spec fn deletion_settlement(deletion: MirrorDeletionResult, id: u64, current: Option<PeerInventories>) -> JournalEvent {
    match deletion.outcome {
        MirrorDeletionOutcome::Completed => match current {
            Some(current) => if inventory_item(current.peer_a@, deletion.relative_path@) is None
                && inventory_item(current.peer_b@, deletion.relative_path@) is None
                && !deletion.requires_review {
                JournalEvent::Completed { action_id: id }
            } else {
                JournalEvent::Unresolved { action_id: id, reason: ActionReason::VerificationMismatch }
            },
            None => JournalEvent::Unresolved { action_id: id, reason: ActionReason::FilesystemUncertain },
        },
        MirrorDeletionOutcome::FailedPreserved => JournalEvent::Unresolved { action_id: id, reason: ActionReason::TransferFailed },
        MirrorDeletionOutcome::Deferred => JournalEvent::Deferred { action_id: id },
    }
}

/// An inventory that lists an item at `path` has an item for it.
proof fn lemma_listed_item_found(items: Seq<InventoryItem>, path: Seq<char>, i: int, k: int)
    requires
        0 <= i <= k < items.len(),
        items[k].relative_path@ == path,
    ensures
        item_from(items, path, i) is Some,
    decreases k - i,
{
    if items[i].relative_path@ != path {
        lemma_listed_item_found(items, path, i + 1, k);
    }
}

/// An inventory without an item for `path` lists nothing at `path`.
proof fn lemma_unfound_item_unlisted(items: Seq<InventoryItem>, path: Seq<char>)
    requires
        inventory_item(items, path) is None,
    ensures
        forall|k: int| 0 <= k < items.len() ==> (#[trigger] items[k]).relative_path@ != path,
{
    assert forall|k: int| 0 <= k < items.len() implies (#[trigger] items[k]).relative_path@ != path by {
        if items[k].relative_path@ == path {
            lemma_listed_item_found(items, path, 0, k);
        }
    }
}

/// A reported Mirror deletion is journaled as Completed only when the
/// executor reported it completed without asking for review and a fresh
/// inventory was taken that lists the path on neither Peer A nor Peer B.
pub proof fn completed_deletion_is_absent_from_both_peers(
    deletion: MirrorDeletionResult,
    id: u64,
    item: InventoryItem,
    current: Option<PeerInventories>,
)
    ensures
        deletion_entry(deletion, id, item, current)[2] is Completed ==> {
            &&& deletion.outcome == MirrorDeletionOutcome::Completed
            &&& !deletion.requires_review
            &&& current matches Some(inventories)
            &&& forall|k: int| 0 <= k < inventories.peer_a@.len()
                ==> (#[trigger] inventories.peer_a@[k]).relative_path@ != deletion.relative_path@
            &&& forall|k: int| 0 <= k < inventories.peer_b@.len()
                ==> (#[trigger] inventories.peer_b@[k]).relative_path@ != deletion.relative_path@
        },
{
    if deletion_entry(deletion, id, item, current)[2] is Completed {
        let inventories = current.unwrap();
        lemma_unfound_item_unlisted(inventories.peer_a@, deletion.relative_path@);
        lemma_unfound_item_unlisted(inventories.peer_b@, deletion.relative_path@);
    }
}

/// A completion that the fresh inventory contradicts, because either peer
/// still lists the path, is journaled as a verification mismatch.
pub proof fn contradicted_deletion_is_a_mismatch(
    deletion: MirrorDeletionResult,
    id: u64,
    item: InventoryItem,
    inventories: PeerInventories,
    on_peer_b: bool,
    k: int,
)
    requires
        deletion.outcome == MirrorDeletionOutcome::Completed,
        on_peer_b ==> 0 <= k < inventories.peer_b@.len() && inventories.peer_b@[k].relative_path@ == deletion.relative_path@,
        !on_peer_b ==> 0 <= k < inventories.peer_a@.len() && inventories.peer_a@[k].relative_path@ == deletion.relative_path@,
    ensures
        deletion_entry(deletion, id, item, Some(inventories))[2]
            == (JournalEvent::Unresolved { action_id: id, reason: ActionReason::VerificationMismatch }),
{
    if on_peer_b {
        lemma_listed_item_found(inventories.peer_b@, deletion.relative_path@, 0, k);
    } else {
        lemma_listed_item_found(inventories.peer_a@, deletion.relative_path@, 0, k);
    }
}

/// The affected peer's inventory item of a deletion.
pub open spec fn deletion_item(
    deletion: MirrorDeletionResult,
    inventory_a: Seq<InventoryItem>,
    inventory_b: Seq<InventoryItem>,
) -> Option<InventoryItem> {
    match deletion.affected_peer {
        PeerSide::PeerA => inventory_item(inventory_a, deletion.relative_path@),
        PeerSide::PeerB => inventory_item(inventory_b, deletion.relative_path@),
    }
}

/// The three entries one deletion leaves: its plan record, its start and
/// its settlement.
pub open spec fn deletion_entry(
    deletion: MirrorDeletionResult,
    id: u64,
    item: InventoryItem,
    current: Option<PeerInventories>,
) -> Seq<JournalEvent> {
    seq![
        JournalEvent::Planned { action: PlanRecord {
            action_id: id,
            relative_path: deletion.relative_path,
            kind: PlanActionKind::RemoveDestination,
            affected_side: deletion.affected_peer,
            size: if item.item_type == ItemType::RegularFile { Some(item.size) } else { None },
        } },
        JournalEvent::Started { action_id: id },
        deletion_settlement(deletion, id, current),
    ]
}

/// The entries of the first `count` deletions, numbered from `first_id`.
pub open spec fn deletion_entries(
    deletions: Seq<MirrorDeletionResult>,
    first_id: u64,
    inventory_a: Seq<InventoryItem>,
    inventory_b: Seq<InventoryItem>,
    current: Option<PeerInventories>,
    count: int,
) -> Seq<JournalEvent>
    decreases count,
{
    if count <= 0 {
        Seq::empty()
    } else {
        let deletion = deletions[count - 1];
        deletion_entries(deletions, first_id, inventory_a, inventory_b, current, count - 1)
            + deletion_entry(deletion, saturating_sum(first_id, (count - 1) as u64),
                deletion_item(deletion, inventory_a, inventory_b).unwrap(), current)
    }
}

/// Deletion `k` is the first whose item its affected inventory lacks.
pub open spec fn first_outside(deletions: Seq<MirrorDeletionResult>, inventory_a: Seq<InventoryItem>, inventory_b: Seq<InventoryItem>, k: int) -> bool {
    &&& 0 <= k < deletions.len()
    &&& deletion_item(deletions[k], inventory_a, inventory_b) is None
    &&& forall|j: int| 0 <= j < k ==> (#[trigger] deletion_item(deletions[j], inventory_a, inventory_b)) is Some
}

/// The refusal of a deletion result whose item the affected inventory lacks.
pub open spec fn outside_inventory_text(path: Seq<char>) -> Seq<char> {
    "deletion result "@ + debug_text(path) + " is outside the affected inventory"@
}

/// The entries of one deletion, or `None` when its path is outside the
/// affected peer's inventory.
pub fn deletion_entry_events(
    deletion: &MirrorDeletionResult,
    id: u64,
    inventory_a: &Vec<InventoryItem>,
    inventory_b: &Vec<InventoryItem>,
    current: &Option<PeerInventories>,
) -> (events: Option<Vec<JournalEvent>>)
    ensures
        match deletion_item(*deletion, inventory_a@, inventory_b@) {
            Some(item) => events matches Some(events) && events@ == deletion_entry(*deletion, id, item, *current),
            None => events is None,
        },
{
    let affected = match deletion.affected_peer {
        PeerSide::PeerA => inventory_a,
        PeerSide::PeerB => inventory_b,
    };
    let item = match find_item(affected, &deletion.relative_path) {
        Some(item) => item,
        None => return None,
    };
    let regular = match item.item_type {
        ItemType::RegularFile => true,
        _ => false,
    };
    let record = PlanRecord {
        action_id: id,
        relative_path: deletion.relative_path.clone(),
        kind: PlanActionKind::RemoveDestination,
        affected_side: deletion.affected_peer,
        size: if regular { Some(item.size) } else { None },
    };
    let settlement = match deletion.outcome {
        MirrorDeletionOutcome::Completed => match current {
            Some(current) => {
                let absent = find_item(&current.peer_a, &deletion.relative_path).is_none()
                    && find_item(&current.peer_b, &deletion.relative_path).is_none();
                if absent && !deletion.requires_review {
                    JournalEvent::Completed { action_id: id }
                } else {
                    JournalEvent::Unresolved { action_id: id, reason: ActionReason::VerificationMismatch }
                }
            },
            None => JournalEvent::Unresolved { action_id: id, reason: ActionReason::FilesystemUncertain },
        },
        MirrorDeletionOutcome::FailedPreserved => JournalEvent::Unresolved { action_id: id, reason: ActionReason::TransferFailed },
        MirrorDeletionOutcome::Deferred => JournalEvent::Deferred { action_id: id },
    };
    let mut events: Vec<JournalEvent> = Vec::new();
    events.push(JournalEvent::Planned { action: record });
    events.push(JournalEvent::Started { action_id: id });
    events.push(settlement);
    assert(events@ =~= deletion_entry(*deletion, id, *item, *current));
    Some(events)
}


impl RunWorkflow {
    /// Reconciles a Mirror run's journal against a fresh observation of
    /// both peers and records the status it settles to.
    pub fn reconcile_mirror_deletions<E: RunEnvironment>(
        &mut self,
        run_id: RunId,
        profile: &SyncProfile,
        env: &E,
        store: &mut RunEvidenceStore,
    ) -> (result: Result<RunReport, WorkflowError>)
        requires
            old(store).consistent(),
        ensures
            final(store).consistent(),
            final(self).recovery_method == old(self).recovery_method,
            final(self).supervisor == old(self).supervisor,
            final(self).scope_locks == old(self).scope_locks,
            appended(old(self).calls@, final(self).calls@),
            effect_free(added(old(self).calls@, final(self).calls@)),
            profile.mode != SyncMode::Mirror ==> (result matches Err(WorkflowError::InvalidRun(message))
                && message@ == "Mirror deletion reconciliation requires Mirror Sync"@)
                && final(store).unchanged_from(*old(store)),
            profile.mode == SyncMode::Mirror && !old(store).has_run(run_id)
                ==> result == Err::<RunReport, WorkflowError>(WorkflowError::Storage(StorageError::UnknownRun))
                    && final(store).unchanged_from(*old(store)),
            profile.mode == SyncMode::Mirror && old(store).has_run(run_id) ==> {
                &&& result matches Ok(report) && report_of(report, *final(store), run_id)
                &&& final(store).has_run(run_id)
                &&& final(store).journal(run_id) == old(store).journal(run_id)
                &&& exists|observed: bool| final(store).run_status(run_id) == #[trigger] reconciled_status(old(store).journal(run_id), observed)
                &&& final(store).snapshot(run_id) == old(store).snapshot(run_id)
                &&& final(store).blocked_reason(run_id) == old(store).blocked_reason(run_id)
                &&& final(store).others_unchanged(*old(store), run_id)
            },
    {
        proof {
            lemma_added_refl(self.calls@);
        }
        if profile.mode != SyncMode::Mirror {
            return Err(WorkflowError::InvalidRun(String::from_str("Mirror deletion reconciliation requires Mirror Sync")));
        }
        let journal = match store.load_journal(run_id) {
            Ok(journal) => journal,
            Err(storage) => return Err(WorkflowError::Storage(storage)),
        };
        let ghost call_start = self.calls@;
        let mut calls = self.calls;
        let observed = call_observe(env, profile, &journal, &mut calls);
        self.calls = calls;
        proof {
            lemma_added_push(call_start, calls@.last());
        }
        match store.record_reconciliation(run_id, observed) {
            Ok(()) => {},
            Err(storage) => return Err(WorkflowError::Storage(storage)),
        }
        match store.load_report(run_id) {
            Ok(report) => Ok(report),
            Err(storage) => Err(WorkflowError::Storage(storage)),
        }
    }

    /// Journals the results of explicit, already-authorized Mirror
    /// deletions, then reconciles the run. Each result becomes a planned
    /// destination removal under a fresh action id, its start, and its
    /// settlement; a completion settles only when a fresh inventory, taken
    /// before any entry is written, finds the item on neither peer.
    pub fn record_mirror_deletion_results<E: RunEnvironment>(
        &mut self,
        run_id: RunId,
        profile: &SyncProfile,
        inventory_a: &Vec<InventoryItem>,
        inventory_b: &Vec<InventoryItem>,
        deletions: &Vec<MirrorDeletionResult>,
        env: &E,
        store: &mut RunEvidenceStore,
    ) -> (result: Result<RunReport, WorkflowError>)
        requires
            old(store).consistent(),
        ensures
            final(store).consistent(),
            final(self).recovery_method == old(self).recovery_method,
            final(self).supervisor == old(self).supervisor,
            final(self).scope_locks == old(self).scope_locks,
            appended(old(self).calls@, final(self).calls@),
            effect_free(added(old(self).calls@, final(self).calls@)),
            profile.mode != SyncMode::Mirror ==> (result matches Err(WorkflowError::InvalidRun(message))
                && message@ == "Mirror deletion results require Mirror Sync"@)
                && final(store).unchanged_from(*old(store)),
            profile.mode == SyncMode::Mirror && !old(store).has_run(run_id)
                ==> result == Err::<RunReport, WorkflowError>(WorkflowError::Storage(StorageError::UnknownRun))
                    && final(store).unchanged_from(*old(store)),
            profile.mode == SyncMode::Mirror && old(store).has_run(run_id)
                && (exists|k: int| 0 <= k < deletions@.len() && (#[trigger] deletion_item(deletions@[k], inventory_a@, inventory_b@)) is None)
                ==> (result matches Err(WorkflowError::InvalidRun(message))
                    && exists|k: int| #[trigger] first_outside(deletions@, inventory_a@, inventory_b@, k)
                        && message@ == outside_inventory_text(deletions@[k].relative_path@)),
            profile.mode == SyncMode::Mirror && old(store).has_run(run_id)
                && (forall|k: int| 0 <= k < deletions@.len() ==> (#[trigger] deletion_item(deletions@[k], inventory_a@, inventory_b@)) is Some)
                ==> result is Ok,
            result matches Ok(report) ==> {
                &&& report_of(report, *final(store), run_id)
                &&& final(store).snapshot(run_id) == old(store).snapshot(run_id)
                &&& final(store).others_unchanged(*old(store), run_id)
                &&& exists|current: Option<PeerInventories>, observed: bool| {
                    &&& final(store).journal(run_id) == old(store).journal(run_id) + #[trigger] deletion_entries(deletions@,
                        first_deletion_id(old(store).journal(run_id)), inventory_a@, inventory_b@, current, deletions@.len() as int)
                    &&& final(store).run_status(run_id) == #[trigger] reconciled_status(final(store).journal(run_id), observed)
                }
            },
    {
        let ghost call_start = self.calls@;
        proof {
            lemma_added_refl(call_start);
        }
        if profile.mode != SyncMode::Mirror {
            return Err(WorkflowError::InvalidRun(String::from_str("Mirror deletion results require Mirror Sync")));
        }
        let mut calls = self.calls;
        let inventories = call_current_inventories(env, profile, &mut calls);
        self.calls = calls;
        let ghost inventoried = self.calls@;
        proof {
            lemma_added_push(call_start, calls@.last());
        }
        let current = match inventories {
            Ok(current) => Some(current),
            Err(_) => None,
        };
        let journal = match store.load_journal(run_id) {
            Ok(journal) => journal,
            Err(storage) => return Err(WorkflowError::Storage(storage)),
        };
        let ghost start = *store;
        let ghost start_journal = store.journal(run_id);
        let first = largest(&planned_action_ids(&journal)).saturating_add(1);
        let mut index: usize = 0;
        while index < deletions.len()
            invariant
                index <= deletions@.len(),
                profile.mode == SyncMode::Mirror,
                self.recovery_method == old(self).recovery_method,
                self.supervisor == old(self).supervisor,
                self.scope_locks == old(self).scope_locks,
                call_start == old(self).calls@,
                self.calls@ == inventoried,
                appended(call_start, inventoried),
                effect_free(added(call_start, inventoried)),
                start == *old(store),
                start.has_run(run_id),
                store.consistent(),
                store.has_run(run_id),
                first == first_deletion_id(start_journal),
                start_journal == start.journal(run_id),
                store.journal(run_id) == start_journal
                    + deletion_entries(deletions@, first, inventory_a@, inventory_b@, current, index as int),
                store.snapshot(run_id) == start.snapshot(run_id),
                store.others_unchanged(start, run_id),
                forall|k: int| 0 <= k < index ==> (#[trigger] deletion_item(deletions@[k], inventory_a@, inventory_b@)) is Some,
            decreases deletions@.len() - index,
        {
            let id = first.saturating_add(index as u64);
            let events = match deletion_entry_events(&deletions[index], id, inventory_a, inventory_b, &current) {
                Some(events) => events,
                None => {
                    let mut message = String::from_str("deletion result ");
                    let quoted = debug_quoted(deletions[index].relative_path.as_str());
                    message.append(quoted.as_str());
                    message.append(" is outside the affected inventory");
                    assert(first_outside(deletions@, inventory_a@, inventory_b@, index as int));
                    assert(message@ =~= outside_inventory_text(deletions@[index as int].relative_path@));
                    return Err(WorkflowError::InvalidRun(message));
                },
            };
            let ghost before = *store;
            let mut k: usize = 0;
            while k < events.len()
                invariant
                    k <= events@.len(),
                    self.recovery_method == old(self).recovery_method,
                    self.supervisor == old(self).supervisor,
                    self.scope_locks == old(self).scope_locks,
                    call_start == old(self).calls@,
                    self.calls@ == inventoried,
                    appended(call_start, inventoried),
                    effect_free(added(call_start, inventoried)),
                    store.consistent(),
                    store.has_run(run_id),
                    store.journal(run_id) == before.journal(run_id) + events@.subrange(0, k as int),
                    before.has_run(run_id),
                    store.snapshot(run_id) == start.snapshot(run_id),
                    store.others_unchanged(start, run_id),
                decreases events@.len() - k,
            {
                let ghost prior = *store;
                match store.append_event(run_id, events[k].duplicate()) {
                    Ok(()) => {},
                    Err(storage) => return Err(WorkflowError::Storage(storage)),
                }
                proof {
                    assert(events@.subrange(0, k + 1) =~= events@.subrange(0, k as int).push(events@[k as int]));
                    assert forall|other: RunId| other != run_id implies {
                        &&& #[trigger] store.has_run(other) == start.has_run(other)
                        &&& start.has_run(other) ==> {
                            &&& store.journal(other) == start.journal(other)
                            &&& store.run_status(other) == start.run_status(other)
                            &&& store.snapshot(other) == start.snapshot(other)
                            &&& store.blocked_reason(other) == start.blocked_reason(other)
                        }
                    } by {
                        assert(prior.has_run(other) == start.has_run(other));
                        assert(store.has_run(other) == prior.has_run(other));
                        if start.has_run(other) {
                            assert(store.journal(other) == prior.journal(other));
                            assert(prior.journal(other) == start.journal(other));
                        }
                    }
                }
                k += 1;
            }
            proof {
                assert(events@.subrange(0, k as int) =~= events@);
                assert(deletions@[index as int] == deletions[index as int]);
                let ghost sum = saturating_sum(first, index as u64);
                assert(deletion_entries(deletions@, first, inventory_a@, inventory_b@, current, index + 1)
                    == deletion_entries(deletions@, first, inventory_a@, inventory_b@, current, index as int)
                        + deletion_entry(deletions@[index as int], sum,
                            deletion_item(deletions@[index as int], inventory_a@, inventory_b@).unwrap(), current));
                assert(store.journal(run_id) =~= start_journal
                    + deletion_entries(deletions@, first, inventory_a@, inventory_b@, current, index + 1));
            }
            index += 1;
        }
        let ghost recorded = *store;
        assert(recorded.has_run(run_id));
        let result = self.reconcile_mirror_deletions(run_id, profile, env, store);
        proof {
            lemma_added_trans(call_start, inventoried, self.calls@);
            lemma_calls_concat(added(call_start, inventoried), added(inventoried, self.calls@));
        }
        proof {
            assert forall|other: RunId| other != run_id implies {
                &&& #[trigger] store.has_run(other) == start.has_run(other)
                &&& start.has_run(other) ==> {
                    &&& store.journal(other) == start.journal(other)
                    &&& store.run_status(other) == start.run_status(other)
                    &&& store.snapshot(other) == start.snapshot(other)
                    &&& store.blocked_reason(other) == start.blocked_reason(other)
                }
            } by {
                assert(recorded.has_run(other) == start.has_run(other));
                assert(store.has_run(other) == recorded.has_run(other));
                if start.has_run(other) {
                    assert(store.journal(other) == recorded.journal(other));
                }
            }
            if result is Ok {
                let observed = choose|observed: bool| store.run_status(run_id) == #[trigger] reconciled_status(recorded.journal(run_id), observed);
                assert(store.journal(run_id) == start.journal(run_id) + deletion_entries(deletions@,
                    first_deletion_id(start.journal(run_id)), inventory_a@, inventory_b@, current, deletions@.len() as int));
                assert(store.run_status(run_id) == reconciled_status(store.journal(run_id), observed));
                assert(exists|c: Option<PeerInventories>, o: bool| {
                    &&& store.journal(run_id) == start.journal(run_id) + #[trigger] deletion_entries(deletions@,
                        first_deletion_id(start.journal(run_id)), inventory_a@, inventory_b@, c, deletions@.len() as int)
                    &&& store.run_status(run_id) == #[trigger] reconciled_status(store.journal(run_id), o)
                });
            }
        }
        result
    }
}

} // verus!
