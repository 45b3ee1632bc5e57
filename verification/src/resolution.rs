//! Mirror Resolution Runs: reviewed whole-file conflict decisions carried
//! out under the same precheck, lock, analysis, confirmation and journal
//! boundaries as a Sync Run.
use vstd::prelude::*;

use crate::failure::{
    mirror_resolution_outcome, report_outcome, resolution_review_state, MirrorResolutionOutcome, MirrorResolutionReviewState,
    ResolutionRunOutcome,
};
use crate::journal::{
    all_planned, event_action, lemma_outcome_after_settling_event, lemma_push_planned, outcome_in, planned_ids,
    settled_outcome, JournalEvent, PlanRecord,
};
use crate::mirror::{find_item, inventory_item, InventoryItem, PeerInventories};
use crate::model::{ActionOutcome, ActionReason, ConflictResolution, PartialTransferPolicy, PeerSide, PlanActionKind, RunId};
use crate::profile::{partial_cleanup_roots, AuthorizationSnapshot, SyncProfile};
use crate::status::RunReportStatus;
use crate::journal::reconciled_status;
use crate::ssh::ItemType;
use crate::store::{RunEvidenceStore, RunReport};
use crate::scope_lock::{scopes_overlap, ScopeLockOwner};
use crate::calls::{
    added, appended, call_cleanup_partials, call_current_inventories, call_execute_resolution, call_observe, call_precheck,
    call_prepare_resolution, effect_free, execution_call, execution_only, first_expectation, has_effect, lemma_added_push,
    lemma_added_refl, lemma_added_trans, lemma_calls_concat, lemma_lifecycle_after_recheck, lemma_lifecycle_without_effects,
    lifecycle_calls, recheck_expectation, rechecked_at, removal_started, removals_follow_start, EnvCall,
};
use crate::workflow::{
    always_cancels, journaled_new_run,
    lemma_acquire_then_release, locks_released, persist_blocked, profile_peer_scopes, profile_scopes,
    scope_held_elsewhere, PrecheckFailure, executed_run, report_of, run_snapshot, PrecheckPassed, RunWorkflow, VolumeExpectation, RunEnvironment, frame_kept, journal_only, lemma_journal_only_refl, lemma_journal_only_trans, ordered, record_event, WorkflowError,
};

verus! {

/// One reviewed whole-file decision of a Resolution Run.
#[derive(Debug, Clone, PartialEq, Eq)]
pub struct ConflictResolutionAction {
    pub relative_path: String,
    pub resolution: ConflictResolution,
    pub source_side: Option<PeerSide>,
    pub target_side: Option<PeerSide>,
}

/// How one decision appears in the Run Report.
#[derive(Debug, Clone, PartialEq, Eq)]
pub struct MirrorResolutionReportItem {
    pub relative_path: String,
    pub resolution: ConflictResolution,
    pub source_side: Option<PeerSide>,
    pub target_side: Option<PeerSide>,
    pub outcome: MirrorResolutionOutcome,
    pub review: MirrorResolutionReviewState,
}

/// The last index at or before `j` whose action has path `path`, or -1.
pub open spec fn last_path_index(actions: Seq<ConflictResolutionAction>, path: Seq<char>, j: int) -> int
    decreases j + 1,
{
    if j < 0 || j >= actions.len() {
        -1
    } else if actions[j].relative_path@ == path {
        j
    } else {
        last_path_index(actions, path, j - 1)
    }
}

/// The journal id of decision `i`: one more than the last position of its
/// path, so decisions on one path share an id.
pub open spec fn resolution_id(actions: Seq<ConflictResolutionAction>, i: int) -> int {
    last_path_index(actions, actions[i].relative_path@, actions.len() - 1) + 1
}

proof fn lemma_last_path_index(actions: Seq<ConflictResolutionAction>, path: Seq<char>, j: int, i: int)
    requires
        0 <= i <= j < actions.len(),
        actions[i].relative_path@ == path,
    ensures
        i <= last_path_index(actions, path, j) <= j,
    decreases j,
{
    if actions[j].relative_path@ != path {
        lemma_last_path_index(actions, path, j - 1, i);
    }
}

fn same_path(a: &String, b: &String) -> (same: bool)
    ensures
        same == (a@ == b@),
{
    *a == *b
}

/// The journal ids of the decisions, in order.
pub fn resolution_action_ids(actions: &Vec<ConflictResolutionAction>) -> (ids: Vec<u64>)
    requires
        actions@.len() < u64::MAX,
    ensures
        ids@.len() == actions@.len(),
        forall|i: int| 0 <= i < actions@.len() ==> ids@[i] == resolution_id(actions@, i),
{
    let mut ids: Vec<u64> = Vec::new();
    let mut i: usize = 0;
    while i < actions.len()
        invariant
            i <= actions@.len(),
            actions@.len() < u64::MAX,
            ids@.len() == i,
            forall|k: int| 0 <= k < i ==> ids@[k] == resolution_id(actions@, k),
        decreases actions@.len() - i,
    {
        let path = &actions[i].relative_path;
        let mut j: usize = actions.len();
        proof {
            lemma_last_path_index(actions@, path@, actions@.len() - 1, i as int);
        }
        while j > 0 && !same_path(&actions[j - 1].relative_path, path)
            invariant
                i < j <= actions@.len(),
                actions[i as int].relative_path@ == path@,
                last_path_index(actions@, path@, actions@.len() - 1) == last_path_index(actions@, path@, j - 1),
                i <= last_path_index(actions@, path@, j - 1),
            decreases j,
        {
            j -= 1;
        }
        proof {
            lemma_last_path_index(actions@, path@, j - 1, i as int);
        }
        ids.push(j as u64);
        i += 1;
    }
    ids
}

/// The plan record of decision `i` with journal id `id`, read from the
/// fresh inventory of its source side (Peer A when it has none).
pub open spec fn resolution_record(
    action: ConflictResolutionAction,
    id: u64,
    inventories: PeerInventories,
) -> Option<PlanRecord> {
    let side = match action.source_side { Some(side) => side, None => PeerSide::PeerA };
    let items = match side { PeerSide::PeerA => inventories.peer_a@, PeerSide::PeerB => inventories.peer_b@ };
    match inventory_item(items, action.relative_path@) {
        Some(item) => Some(PlanRecord {
            action_id: id,
            relative_path: action.relative_path,
            kind: PlanActionKind::CopyToDestination,
            affected_side: side,
            size: if item.item_type == ItemType::RegularFile { Some(item.size) } else { None },
        }),
        None => None,
    }
}

pub fn resolution_plan_record(
    inventories: &PeerInventories,
    id: u64,
    action: &ConflictResolutionAction,
) -> (record: Result<PlanRecord, WorkflowError>)
    ensures
        match resolution_record(*action, id, *inventories) {
            Some(expected) => record == Ok::<PlanRecord, WorkflowError>(expected),
            None => record matches Err(error) && error is InvalidRun,
        },
{
    let side = match action.source_side {
        Some(side) => side,
        None => PeerSide::PeerA,
    };
    let items = match side {
        PeerSide::PeerA => &inventories.peer_a,
        PeerSide::PeerB => &inventories.peer_b,
    };
    let item = match find_item(items, &action.relative_path) {
        Some(item) => item,
        None => return Err(WorkflowError::InvalidRun(String::from_str(
            "a resolution action is outside the fresh inventory"))),
    };
    let regular = match item.item_type {
        ItemType::RegularFile => true,
        _ => false,
    };
    Ok(PlanRecord {
        action_id: id,
        relative_path: action.relative_path.clone(),
        kind: PlanActionKind::CopyToDestination,
        affected_side: side,
        size: if regular { Some(item.size) } else { None },
    })
}

/// The Run Report items of a Resolution Run whose executor could not be
/// prepared: deferred decisions stay deferred for review, every other one
/// failed for `reason` and is settled.
pub open spec fn setup_failure_item(action: ConflictResolutionAction, reason: ActionReason) -> (MirrorResolutionOutcome, MirrorResolutionReviewState) {
    if action.resolution == ConflictResolution::Defer {
        (MirrorResolutionOutcome::Deferred, MirrorResolutionReviewState::ReviewLater)
    } else {
        (MirrorResolutionOutcome::Failed(reason), MirrorResolutionReviewState::Settled)
    }
}

pub fn resolution_setup_failure_items(actions: &Vec<ConflictResolutionAction>, reason: ActionReason) -> (items: Vec<MirrorResolutionReportItem>)
    ensures
        items@.len() == actions@.len(),
        forall|i: int| 0 <= i < actions@.len() ==> {
            &&& (#[trigger] items@[i]).relative_path@ == actions@[i].relative_path@
            &&& items@[i].resolution == actions@[i].resolution
            &&& items@[i].source_side == actions@[i].source_side
            &&& items@[i].target_side == actions@[i].target_side
            &&& (items@[i].outcome, items@[i].review) == setup_failure_item(actions@[i], reason)
        },
{
    let mut items: Vec<MirrorResolutionReportItem> = Vec::new();
    let mut i: usize = 0;
    while i < actions.len()
        invariant
            i <= actions@.len(),
            items@.len() == i,
            forall|k: int| 0 <= k < i ==> {
                &&& (#[trigger] items@[k]).relative_path@ == actions@[k].relative_path@
                &&& items@[k].resolution == actions@[k].resolution
                &&& items@[k].source_side == actions@[k].source_side
                &&& items@[k].target_side == actions@[k].target_side
                &&& (items@[k].outcome, items@[k].review) == setup_failure_item(actions@[k], reason)
            },
        decreases actions@.len() - i,
    {
        let action = &actions[i];
        let deferred = action.resolution == ConflictResolution::Defer;
        items.push(MirrorResolutionReportItem {
            relative_path: action.relative_path.clone(),
            resolution: action.resolution,
            source_side: action.source_side,
            target_side: action.target_side,
            outcome: if deferred { MirrorResolutionOutcome::Deferred } else { MirrorResolutionOutcome::Failed(reason) },
            review: if deferred { MirrorResolutionReviewState::ReviewLater } else { MirrorResolutionReviewState::Settled },
        });
        i += 1;
    }
    items
}


/// The Run Report items of an executed Resolution Run: one per decision, in
/// order, with the outcome its execution gave; a preserving decision stays
/// open for a later review.
pub fn resolution_report_items(
    actions: &Vec<ConflictResolutionAction>,
    results: &Vec<ResolutionRunOutcome>,
) -> (items: Vec<MirrorResolutionReportItem>)
    requires
        results@.len() == actions@.len(),
    ensures
        items@.len() == actions@.len(),
        forall|i: int| 0 <= i < actions@.len() ==> {
            &&& (#[trigger] items@[i]).relative_path@ == actions@[i].relative_path@
            &&& items@[i].resolution == actions@[i].resolution
            &&& items@[i].source_side == actions@[i].source_side
            &&& items@[i].target_side == actions@[i].target_side
            &&& items@[i].outcome == report_outcome(results@[i])
            &&& items@[i].review == resolution_review_state(actions@[i].resolution)
        },
{
    let mut items: Vec<MirrorResolutionReportItem> = Vec::new();
    let mut i: usize = 0;
    while i < actions.len()
        invariant
            i <= actions@.len(),
            results@.len() == actions@.len(),
            items@.len() == i,
            forall|k: int| 0 <= k < i ==> {
                &&& (#[trigger] items@[k]).relative_path@ == actions@[k].relative_path@
                &&& items@[k].resolution == actions@[k].resolution
                &&& items@[k].source_side == actions@[k].source_side
                &&& items@[k].target_side == actions@[k].target_side
                &&& items@[k].outcome == report_outcome(results@[k])
                &&& items@[k].review == resolution_review_state(actions@[k].resolution)
            },
        decreases actions@.len() - i,
    {
        let action = &actions[i];
        let preserving = action.resolution == ConflictResolution::PreserveBoth
            || action.resolution == ConflictResolution::RenamePreserveForReview;
        items.push(MirrorResolutionReportItem {
            relative_path: action.relative_path.clone(),
            resolution: action.resolution,
            source_side: action.source_side,
            target_side: action.target_side,
            outcome: mirror_resolution_outcome(results[i]),
            review: if preserving { MirrorResolutionReviewState::ReviewLater } else { MirrorResolutionReviewState::Settled },
        });
        i += 1;
    }
    items
}

/// The Run Report items of a Resolution Run that stopped before its
/// decisions settled: a deferred decision stays deferred for review, every
/// other one is unresolved at an interrupted boundary.
pub fn resolution_planned_report_items(actions: &Vec<ConflictResolutionAction>) -> (items: Vec<MirrorResolutionReportItem>)
    ensures
        items@.len() == actions@.len(),
        forall|i: int| 0 <= i < actions@.len() ==> {
            &&& (#[trigger] items@[i]).relative_path@ == actions@[i].relative_path@
            &&& items@[i].resolution == actions@[i].resolution
            &&& items@[i].source_side == actions@[i].source_side
            &&& items@[i].target_side == actions@[i].target_side
            &&& (items@[i].outcome, items@[i].review) == (if actions@[i].resolution == ConflictResolution::Defer {
                (MirrorResolutionOutcome::Deferred, MirrorResolutionReviewState::ReviewLater)
            } else {
                (MirrorResolutionOutcome::Unresolved(ActionReason::InterruptedBoundary), MirrorResolutionReviewState::Settled)
            })
        },
{
    let mut items: Vec<MirrorResolutionReportItem> = Vec::new();
    let mut i: usize = 0;
    while i < actions.len()
        invariant
            i <= actions@.len(),
            items@.len() == i,
            forall|k: int| 0 <= k < i ==> {
                &&& (#[trigger] items@[k]).relative_path@ == actions@[k].relative_path@
                &&& items@[k].resolution == actions@[k].resolution
                &&& items@[k].source_side == actions@[k].source_side
                &&& items@[k].target_side == actions@[k].target_side
                &&& (items@[k].outcome, items@[k].review) == (if actions@[k].resolution == ConflictResolution::Defer {
                    (MirrorResolutionOutcome::Deferred, MirrorResolutionReviewState::ReviewLater)
                } else {
                    (MirrorResolutionOutcome::Unresolved(ActionReason::InterruptedBoundary), MirrorResolutionReviewState::Settled)
                })
            },
        decreases actions@.len() - i,
    {
        let action = &actions[i];
        let deferred = action.resolution == ConflictResolution::Defer;
        items.push(MirrorResolutionReportItem {
            relative_path: action.relative_path.clone(),
            resolution: action.resolution,
            source_side: action.source_side,
            target_side: action.target_side,
            outcome: if deferred {
                MirrorResolutionOutcome::Deferred
            } else {
                MirrorResolutionOutcome::Unresolved(ActionReason::InterruptedBoundary)
            },
            review: if deferred { MirrorResolutionReviewState::ReviewLater } else { MirrorResolutionReviewState::Settled },
        });
        i += 1;
    }
    items
}

/// A settled action stays settled whatever is appended after it.
proof fn lemma_settled_stays(journal: Seq<JournalEvent>, event: JournalEvent, id: u64)
    requires
        outcome_in(journal, id) != ActionOutcome::InProgress,
    ensures
        outcome_in(journal.push(event), id) != ActionOutcome::InProgress,
{
    assert(journal.push(event).drop_last() =~= journal);
    assert(journal.push(event).last() == event);
}

/// Journals the plan record of every decision before any of them runs.
fn persist_resolution_plan(
    store: &mut RunEvidenceStore,
    run_id: RunId,
    actions: &Vec<ConflictResolutionAction>,
    ids: &Vec<u64>,
    inventories: &PeerInventories,
) -> (result: Result<(), WorkflowError>)
    requires
        old(store).consistent(),
        old(store).has_run(run_id),
        old(store).journal(run_id) == Seq::<JournalEvent>::empty(),
        ids@.len() == actions@.len(),
    ensures
        journal_only(*old(store), *final(store), run_id),
        result matches Err(error) ==> error is InvalidRun,
        result is Ok ==> {
            &&& all_planned(final(store).journal(run_id))
            &&& ordered(final(store).journal(run_id))
            &&& planned_ids(final(store).journal(run_id)) == ids@
            &&& forall|i: int| 0 <= i < actions@.len() ==>
                (resolution_record(actions@[i], ids@[i], *inventories) matches Some(record)
                    && #[trigger] final(store).journal(run_id)[i] == (JournalEvent::Planned { action: record }))
        },
{
    let ghost first_store = *store;
    proof {
        lemma_journal_only_refl(first_store, run_id);
    }
    let mut index: usize = 0;
    while index < actions.len()
        invariant
            index <= actions@.len(),
            ids@.len() == actions@.len(),
            first_store == *old(store),
            journal_only(first_store, *store, run_id),
            all_planned(store.journal(run_id)),
            store.journal(run_id).len() == index,
            planned_ids(store.journal(run_id)) == ids@.subrange(0, index as int),
            forall|i: int| 0 <= i < index ==>
                (resolution_record(actions@[i], ids@[i], *inventories) matches Some(record)
                    && #[trigger] store.journal(run_id)[i] == (JournalEvent::Planned { action: record })),
        decreases actions@.len() - index,
    {
        let record = resolution_plan_record(inventories, ids[index], &actions[index])?;
        let ghost before_store = *store;
        let ghost before = store.journal(run_id);
        let event = JournalEvent::Planned { action: record };
        match store.append_event(run_id, event) {
            Ok(()) => {},
            Err(error) => return Err(WorkflowError::Storage(error)),
        }
        proof {
            reveal(frame_kept);
            lemma_push_planned(before, event);
            lemma_journal_only_trans(first_store, before_store, *store, run_id);
            assert(ids@.subrange(0, index + 1) =~= ids@.subrange(0, index as int).push(ids@[index as int]));
        }
        index += 1;
    }
    proof {
        assert(ids@.subrange(0, index as int) =~= ids@);
        reveal(ordered);
        let j = store.journal(run_id);
        assert forall|i: int, k: int| 0 <= i < k < j.len() && (#[trigger] j[k]) is Planned implies (#[trigger] j[i]) is Planned by {}
        assert forall|k: int| 0 <= k < j.len() && (#[trigger] j[k]) is RemovalStarted implies false by {}
    }
    Ok(())
}

/// What the execution of the decisions keeps: only the run's journal grew,
/// its ordering and planned ids held, and the first `settled` decisions
/// are settled.
pub open spec fn decisions_progress(
    first: RunEvidenceStore,
    store: RunEvidenceStore,
    run_id: RunId,
    ids: Seq<u64>,
    settled: int,
) -> bool {
    &&& journal_only(first, store, run_id)
    &&& ordered(store.journal(run_id))
    &&& planned_ids(store.journal(run_id)) == ids
    &&& forall|k: int| 0 <= k < settled ==> outcome_in(store.journal(run_id), #[trigger] ids[k]) != ActionOutcome::InProgress
}

/// Appends one ordinary event and keeps every settled decision settled.
fn append_decision_event(
    store: &mut RunEvidenceStore,
    run_id: RunId,
    event: JournalEvent,
    Ghost(first): Ghost<RunEvidenceStore>,
    Ghost(ids): Ghost<Seq<u64>>,
    Ghost(settled): Ghost<int>,
)
    requires
        old(store).consistent(),
        old(store).has_run(run_id),
        decisions_progress(first, *old(store), run_id, ids, settled),
        0 <= settled <= ids.len(),
        !(event is Planned),
        !(event is RemovalStarted),
    ensures
        final(store).consistent(),
        final(store).has_run(run_id),
        decisions_progress(first, *final(store), run_id, ids, settled),
        final(store).journal(run_id) == old(store).journal(run_id).push(event),
{
    let ghost before_store = *store;
    let ghost before = store.journal(run_id);
    proof {
        assert(before.subrange(0, before.len() as int) =~= before);
    }
    let _ = record_event(store, run_id, event, Ghost(before));
    proof {
        lemma_journal_only_trans(first, before_store, *store, run_id);
        assert forall|k: int| 0 <= k < settled implies outcome_in(store.journal(run_id), #[trigger] ids[k]) != ActionOutcome::InProgress by {
            lemma_settled_stays(before, event, ids[k]);
        }
    }
}


/// Appends the event that settles decision `index`.
fn settle_decision(
    store: &mut RunEvidenceStore,
    run_id: RunId,
    event: JournalEvent,
    Ghost(first): Ghost<RunEvidenceStore>,
    Ghost(ids): Ghost<Seq<u64>>,
    Ghost(index): Ghost<int>,
)
    requires
        old(store).consistent(),
        old(store).has_run(run_id),
        0 <= index < ids.len(),
        decisions_progress(first, *old(store), run_id, ids, index),
        event_action(event) == ids[index],
        settled_outcome(event) is Some,
        !(event is Planned),
        !(event is RemovalStarted),
    ensures
        final(store).consistent(),
        final(store).has_run(run_id),
        decisions_progress(first, *final(store), run_id, ids, index + 1),
        final(store).journal(run_id) == old(store).journal(run_id).push(event),
{
    let ghost before = store.journal(run_id);
    append_decision_event(store, run_id, event, Ghost(first), Ghost(ids), Ghost(index));
    proof {
        lemma_outcome_after_settling_event(before, event);
    }
}

/// The event that settles a decision under journal id `id`, for what the
/// resolution executor answered; a deferred decision is deferred whatever
/// the executor would have answered.
pub open spec fn decision_event(action: ConflictResolutionAction, id: u64, answer: Result<(), ActionReason>) -> JournalEvent {
    if action.resolution == ConflictResolution::Defer {
        JournalEvent::Deferred { action_id: id }
    } else {
        match answer {
            Ok(()) => JournalEvent::Completed { action_id: id },
            Err(reason) => JournalEvent::Unresolved { action_id: id, reason },
        }
    }
}

/// The events of the first `count` decisions, in order: each is started,
/// then settled.
pub open spec fn decision_entries(
    actions: Seq<ConflictResolutionAction>,
    ids: Seq<u64>,
    answers: Seq<Result<(), ActionReason>>,
    count: int,
) -> Seq<JournalEvent>
    decreases count,
{
    if count <= 0 {
        Seq::empty()
    } else {
        decision_entries(actions, ids, answers, count - 1) + seq![
            JournalEvent::Started { action_id: ids[count - 1] },
            decision_event(actions[count - 1], ids[count - 1], answers[count - 1]),
        ]
    }
}

/// The decisions from `from` up to `to`, each settled as cancelled.
pub open spec fn cancelled_entries(ids: Seq<u64>, from: int, to: int) -> Seq<JournalEvent>
    decreases to - from,
{
    if to <= from {
        Seq::empty()
    } else {
        cancelled_entries(ids, from, to - 1).push(JournalEvent::Cancelled { action_id: ids[to - 1] })
    }
}

/// The events a Resolution Run journals after its plan: the decisions run
/// in order up to `stop`, and every later one cancelled.
pub open spec fn decisions_journaled(
    actions: Seq<ConflictResolutionAction>,
    ids: Seq<u64>,
    answers: Seq<Result<(), ActionReason>>,
    stop: int,
) -> Seq<JournalEvent> {
    decision_entries(actions, ids, answers, stop) + cancelled_entries(ids, stop, actions.len() as int)
}

/// After its plan, a Resolution Run's journal holds its decisions run in
/// order, each started then settled, up to where it stopped, and every later
/// decision cancelled.
pub open spec fn decided_as_journaled(journal: Seq<JournalEvent>, actions: Seq<ConflictResolutionAction>) -> bool {
    &&& actions.len() <= journal.len()
    &&& exists|answers: Seq<Result<(), ActionReason>>, stop: int| 0 <= stop <= actions.len()
        && journal.subrange(actions.len() as int, journal.len() as int)
            == #[trigger] decisions_journaled(actions, resolution_ids(actions), answers, stop)
}

/// Settles every decision of a Resolution Run whose executor could not be
/// prepared: started, then deferred or unresolved for a failed transfer.
fn record_resolution_setup_failure(
    store: &mut RunEvidenceStore,
    run_id: RunId,
    actions: &Vec<ConflictResolutionAction>,
    ids: &Vec<u64>,
    Ghost(first): Ghost<RunEvidenceStore>,
)
    requires
        old(store).consistent(),
        old(store).has_run(run_id),
        ids@.len() == actions@.len(),
        decisions_progress(first, *old(store), run_id, ids@, 0),
    ensures
        final(store).consistent(),
        final(store).has_run(run_id),
        decisions_progress(first, *final(store), run_id, ids@, ids@.len() as int),
        final(store).journal(run_id) == old(store).journal(run_id) + decisions_journaled(actions@, ids@,
            Seq::new(actions@.len(), |i: int| Err::<(), ActionReason>(ActionReason::TransferFailed)), actions@.len() as int),
{
    let ghost start = store.journal(run_id);
    let ghost failed = Seq::new(actions@.len(), |i: int| Err::<(), ActionReason>(ActionReason::TransferFailed));
    let mut index: usize = 0;
    while index < actions.len()
        invariant
            index <= actions@.len(),
            ids@.len() == actions@.len(),
            store.consistent(),
            store.has_run(run_id),
            decisions_progress(first, *store, run_id, ids@, index as int),
            failed == Seq::new(actions@.len(), |i: int| Err::<(), ActionReason>(ActionReason::TransferFailed)),
            store.journal(run_id) == start + decision_entries(actions@, ids@, failed, index as int),
        decreases actions@.len() - index,
    {
        let id = ids[index];
        append_decision_event(store, run_id, JournalEvent::Started { action_id: id }, Ghost(first), Ghost(ids@), Ghost(index as int));
        let event = if actions[index].resolution == ConflictResolution::Defer {
            JournalEvent::Deferred { action_id: id }
        } else {
            JournalEvent::Unresolved { action_id: id, reason: ActionReason::TransferFailed }
        };
        settle_decision(store, run_id, event, Ghost(first), Ghost(ids@), Ghost(index as int));
        proof {
            assert(event == decision_event(actions@[index as int], ids@[index as int], failed[index as int]));
            assert(store.journal(run_id) =~= start + decision_entries(actions@, ids@, failed, index + 1));
        }
        index += 1;
    }
    assert(cancelled_entries(ids@, actions@.len() as int, actions@.len() as int) =~= Seq::<JournalEvent>::empty());
    assert(store.journal(run_id) =~= start + decisions_journaled(actions@, ids@, failed, actions@.len() as int));
}

/// Carries out the decisions in order. A deferred decision is journaled
/// as deferred without running; cancellation settles the decision it
/// reaches and every later one as cancelled.
fn execute_decisions<E: RunEnvironment, F: Fn() -> bool>(
    store: &mut RunEvidenceStore,
    run_id: RunId,
    actions: &Vec<ConflictResolutionAction>,
    ids: &Vec<u64>,
    env: &E,
    should_cancel: &F,
    Ghost(first): Ghost<RunEvidenceStore>,
    calls: &mut Ghost<Seq<EnvCall>>,
)
    requires
        old(store).consistent(),
        old(store).has_run(run_id),
        ids@.len() == actions@.len(),
        decisions_progress(first, *old(store), run_id, ids@, 0),
        forall|| #[trigger] call_requires(*should_cancel, ()),
    ensures
        appended(old(calls)@, final(calls)@),
        forall|i: int| 0 <= i < added(old(calls)@, final(calls)@).len()
            ==> (#[trigger] added(old(calls)@, final(calls)@)[i]) is ExecuteResolution,
        final(store).consistent(),
        final(store).has_run(run_id),
        decisions_progress(first, *final(store), run_id, ids@, ids@.len() as int),
        exists|answers: Seq<Result<(), ActionReason>>, stop: int| {
            &&& 0 <= stop <= actions@.len()
            &&& (always_cancels(*should_cancel) ==> stop == 0)
            &&& final(store).journal(run_id) == old(store).journal(run_id) + #[trigger] decisions_journaled(actions@, ids@, answers, stop)
        },
{
    let ghost start = store.journal(run_id);
    let ghost call_start = calls@;
    proof {
        lemma_added_refl(call_start);
    }
    let ghost mut answers: Seq<Result<(), ActionReason>> = Seq::empty();
    let mut index: usize = 0;
    while index < actions.len()
        invariant
            index <= actions@.len(),
            ids@.len() == actions@.len(),
            store.consistent(),
            store.has_run(run_id),
            decisions_progress(first, *store, run_id, ids@, index as int),
            forall|| #[trigger] call_requires(*should_cancel, ()),
            answers.len() == index,
            start == old(store).journal(run_id),
            store.journal(run_id) == start + decision_entries(actions@, ids@, answers, index as int),
            always_cancels(*should_cancel) ==> index == 0,
            call_start == old(calls)@,
            appended(call_start, calls@),
            forall|i: int| 0 <= i < added(call_start, calls@).len() ==> (#[trigger] added(call_start, calls@)[i]) is ExecuteResolution,
        decreases actions@.len() - index,
    {
        let id = ids[index];
        if should_cancel() {
            let mut rest = index;
            let ghost run = decision_entries(actions@, ids@, answers, index as int);
            assert(cancelled_entries(ids@, index as int, index as int) =~= Seq::<JournalEvent>::empty());
            assert(store.journal(run_id) =~= start + run + cancelled_entries(ids@, index as int, index as int));
            while rest < actions.len()
                invariant
                    index <= rest <= actions@.len(),
                    ids@.len() == actions@.len(),
                    store.consistent(),
                    store.has_run(run_id),
                    decisions_progress(first, *store, run_id, ids@, rest as int),
                    run == decision_entries(actions@, ids@, answers, index as int),
                    store.journal(run_id) == start + run + cancelled_entries(ids@, index as int, rest as int),
                    answers.len() == index,
                    start == old(store).journal(run_id),
                    always_cancels(*should_cancel) ==> index == 0,
                decreases actions@.len() - rest,
            {
                settle_decision(store, run_id, JournalEvent::Cancelled { action_id: ids[rest] }, Ghost(first), Ghost(ids@), Ghost(rest as int));
                assert(store.journal(run_id) =~= start + run + cancelled_entries(ids@, index as int, rest + 1));
                rest += 1;
            }
            assert(store.journal(run_id) =~= start + decisions_journaled(actions@, ids@, answers, index as int));
            return;
        }
        append_decision_event(store, run_id, JournalEvent::Started { action_id: id }, Ghost(first), Ghost(ids@), Ghost(index as int));
        let ghost mut answer: Result<(), ActionReason> = Ok(());
        let event = if actions[index].resolution == ConflictResolution::Defer {
            JournalEvent::Deferred { action_id: id }
        } else {
            let ghost before_call = calls@;
            let executed = call_execute_resolution(env, &actions[index], calls);
            proof {
                lemma_added_push(before_call, calls@.last());
                lemma_added_trans(call_start, before_call, calls@);
                assert(added(call_start, calls@) =~= added(call_start, before_call).push(calls@.last()));
            }
            proof {
                answer = executed;
            }
            match executed {
                Ok(()) => JournalEvent::Completed { action_id: id },
                Err(reason) => JournalEvent::Unresolved { action_id: id, reason },
            }
        };
        settle_decision(store, run_id, event, Ghost(first), Ghost(ids@), Ghost(index as int));
        proof {
            let before_answers = answers;
            answers = answers.push(answer);
            assert(event == decision_event(actions@[index as int], ids@[index as int], answers[index as int]));
            assert(decision_entries(actions@, ids@, answers, index as int) == decision_entries(actions@, ids@, before_answers, index as int))
                by {
                    lemma_decision_entries_prefix(actions@, ids@, before_answers, answers, index as int);
                }
            assert(store.journal(run_id) =~= start + decision_entries(actions@, ids@, answers, index + 1));
        }
        index += 1;
    }
    assert(cancelled_entries(ids@, actions@.len() as int, actions@.len() as int) =~= Seq::<JournalEvent>::empty());
    assert(store.journal(run_id) =~= start + decisions_journaled(actions@, ids@, answers, actions@.len() as int));
}

/// A journal of plan events only has one planned id per event.
proof fn lemma_all_planned_len(journal: Seq<JournalEvent>)
    requires
        all_planned(journal),
    ensures
        planned_ids(journal).len() == journal.len(),
    decreases journal.len(),
{
    if journal.len() > 0 {
        let rest = journal.drop_last();
        assert forall|k: int| 0 <= k < rest.len() implies (#[trigger] rest[k]) is Planned by {
            assert(rest[k] == journal[k]);
        }
        lemma_all_planned_len(rest);
        assert(journal.last() is Planned);
    }
}

/// The entries of the first `count` decisions read only the first `count`
/// answers.
proof fn lemma_decision_entries_prefix(
    actions: Seq<ConflictResolutionAction>,
    ids: Seq<u64>,
    a: Seq<Result<(), ActionReason>>,
    b: Seq<Result<(), ActionReason>>,
    count: int,
)
    requires
        0 <= count <= a.len(),
        count <= b.len(),
        forall|i: int| 0 <= i < count ==> a[i] == b[i],
    ensures
        decision_entries(actions, ids, a, count) == decision_entries(actions, ids, b, count),
    decreases count,
{
    if count > 0 {
        lemma_decision_entries_prefix(actions, ids, a, b, count - 1);
    }
}


pub open spec fn same_item(a: InventoryItem, b: InventoryItem) -> bool {
    a.relative_path@ == b.relative_path@ && a.item_type == b.item_type && a.size == b.size
}

pub open spec fn same_items(a: Seq<InventoryItem>, b: Seq<InventoryItem>) -> bool {
    a.len() == b.len() && forall|i: int| 0 <= i < a.len() ==> same_item(#[trigger] a[i], b[i])
}

/// Two fresh analyses found the same items on both peers.
pub open spec fn same_inventories(a: PeerInventories, b: PeerInventories) -> bool {
    same_items(a.peer_a@, b.peer_a@) && same_items(a.peer_b@, b.peer_b@)
}

fn items_match(a: &Vec<InventoryItem>, b: &Vec<InventoryItem>) -> (same: bool)
    ensures
        same == same_items(a@, b@),
{
    if a.len() != b.len() {
        return false;
    }
    let mut index: usize = 0;
    while index < a.len()
        invariant
            a@.len() == b@.len(),
            index <= a@.len(),
            forall|i: int| 0 <= i < index ==> same_item(#[trigger] a@[i], b@[i]),
        decreases a@.len() - index,
    {
        let x = &a[index];
        let y = &b[index];
        if x.relative_path != y.relative_path || x.item_type != y.item_type || x.size != y.size {
            return false;
        }
        index += 1;
    }
    true
}

fn inventories_match(a: &PeerInventories, b: &PeerInventories) -> (same: bool)
    ensures
        same == same_inventories(*a, *b),
{
    items_match(&a.peer_a, &b.peer_a) && items_match(&a.peer_b, &b.peer_b)
}

/// The journal ids of all decisions.
pub open spec fn resolution_ids(actions: Seq<ConflictResolutionAction>) -> Seq<u64> {
    Seq::new(actions.len(), |i: int| resolution_id(actions, i) as u64)
}

impl RunWorkflow {
    /// The part of a Resolution Run that happens while its scopes are locked.
    fn resolution_locked<
        E: RunEnvironment,
        C: FnOnce(&PeerInventories, &Vec<ConflictResolutionAction>) -> bool,
        F: Fn() -> bool,
    >(
        &self,
        run_id: RunId,
        actions: &Vec<ConflictResolutionAction>,
        profile: &SyncProfile,
        env: &E,
        authorizations: AuthorizationSnapshot,
        passed: PrecheckPassed,
        confirm: C,
        store: &mut RunEvidenceStore,
        should_cancel: &F,
        calls: &mut Ghost<Seq<EnvCall>>,
    ) -> (result: Result<RunReport, WorkflowError>)
        requires
            old(store).consistent(),
            actions@.len() < u64::MAX,
            forall|inventories: &PeerInventories, decisions: &Vec<ConflictResolutionAction>|
                #[trigger] call_requires(confirm, (inventories, decisions)),
            forall|| #[trigger] call_requires(*should_cancel, ()),
        ensures
            final(store).consistent(),
            result matches Err(error) && (error is ConfirmationRequired || error is Resolution || error is Precheck)
                ==> final(store).unchanged_from(*old(store)),
            result matches Ok(report) ==> {
                &&& executed_run(*old(store), *final(store), run_id, *profile, authorizations, passed.source_volume, passed.destination_volume)
                &&& planned_ids(final(store).journal(run_id)) == resolution_ids(actions@)
                &&& report_of(report, *final(store), run_id)
                &&& decided_as_journaled(report.journal@, actions@)
            },
            result is Ok ==> exists|reviewed: PeerInventories| #[trigger] call_ensures(confirm, (&reviewed, actions), true),
            result matches Err(WorkflowError::ConfirmationRequired)
                ==> exists|reviewed: PeerInventories| #[trigger] call_ensures(confirm, (&reviewed, actions), false),
            journaled_new_run(*old(store), *final(store), run_id)
                ==> exists|reviewed: PeerInventories| #[trigger] call_ensures(confirm, (&reviewed, actions), true),
            result matches Ok(report) ==> decided_as_journaled(report.journal@, actions@),
            appended(old(calls)@, final(calls)@),
            locked_resolution_calls(added(old(calls)@, final(calls)@), passed),
            !effect_free(added(old(calls)@, final(calls)@))
                ==> exists|reviewed: PeerInventories| #[trigger] call_ensures(confirm, (&reviewed, actions), true),
            added(old(calls)@, final(calls)@).len() >= 2
                ==> exists|reviewed: PeerInventories| #[trigger] call_ensures(confirm, (&reviewed, actions), true),
            added(old(calls)@, final(calls)@).len() >= 2
                ==> (added(old(calls)@, final(calls)@)[0] matches EnvCall::CurrentInventories { answer: Ok(reviewed) }
                    && call_ensures(confirm, (&reviewed, actions), true)),
            result is Ok || journaled_new_run(*old(store), *final(store), run_id)
                ==> resolution_rechecked(added(old(calls)@, final(calls)@), passed),
            prepared_with(added(old(calls)@, final(calls)@), actions@),
            never_confirms_decisions(confirm, actions)
                && (added(old(calls)@, final(calls)@)[0] matches EnvCall::CurrentInventories { answer: Ok(_) })
                ==> result == Err::<RunReport, WorkflowError>(WorkflowError::ConfirmationRequired)
                    && added(old(calls)@, final(calls)@).len() == 1,
    {
        let ghost call_start = calls@;
        let reviewed_answer = call_current_inventories(env, profile, calls);
        let ghost c1 = calls@;
        proof {
            lemma_added_push(call_start, calls@.last());
            assert(effect_free(added(call_start, calls@)));
        }
        let reviewed = match reviewed_answer {
            Ok(inventories) => inventories,
            Err(message) => return Err(WorkflowError::Resolution(message)),
        };
        if !confirm(&reviewed, actions) {
            assert(call_ensures(confirm, (&reviewed, actions), false));
            return Err(WorkflowError::ConfirmationRequired);
        }
        assert(call_ensures(confirm, (&reviewed, actions), true));
        let prepared_answer = call_current_inventories(env, profile, calls);
        let ghost c2 = calls@;
        proof {
            lemma_added_push(c1, calls@.last());
            lemma_added_trans(call_start, c1, calls@);
            assert(added(call_start, calls@) =~= seq![c1.last(), c2.last()]);
            assert(effect_free(added(call_start, calls@)));
        }
        let prepared = match prepared_answer {
            Ok(inventories) => inventories,
            Err(message) => return Err(WorkflowError::Resolution(message)),
        };
        if !inventories_match(&reviewed, &prepared) {
            return Err(WorkflowError::Resolution(String::from_str(
                "the conflicting items changed after they were reviewed; review them again")));
        }
        let recheck = VolumeExpectation {
            source_volume: passed.source_volume,
            destination_volume: passed.destination_volume,
            require_recorded: false,
            allow_replacement: false,
        };
        let rechecked = call_precheck(env, profile, &recheck, calls);
        let ghost checked = calls@;
        proof {
            lemma_added_push(c2, calls@.last());
            lemma_added_trans(call_start, c2, calls@);
            assert(added(call_start, calls@) =~= seq![c1.last(), c2.last(), checked.last()]);
            assert(effect_free(added(call_start, calls@)));
            lemma_added_refl(checked);
            assert(added(call_start, calls@).skip(3) =~= Seq::<EnvCall>::empty());
        }
        match rechecked {
            Ok(_) => {},
            Err(failure) => return Err(WorkflowError::Precheck(failure)),
        }
        let ghost start = *store;
        let snapshot = run_snapshot(run_id, profile, authorizations, passed.source_volume, passed.destination_volume);
        match store.begin_run(snapshot) {
            Ok(()) => {},
            Err(storage) => return Err(WorkflowError::Storage(storage)),
        }
        let ghost begun = *store;
        let ids = resolution_action_ids(actions);
        persist_resolution_plan(store, run_id, actions, &ids, &prepared)?;
        let ghost planned = *store;
        proof {
            lemma_journal_only_refl(planned, run_id);
            assert(ids@ =~= resolution_ids(actions@));
        }
        let ghost planned_journal = store.journal(run_id);
        proof {
            lemma_all_planned_len(planned_journal);
        }
        let setup = call_prepare_resolution(env, profile, actions, calls);
        proof {
            lemma_added_push(checked, calls@.last());
            lemma_resolution_tail(call_start, checked, calls@);
            assert(prepared_with(added(checked, calls@), actions@));
            assert(prepared_with(added(call_start, calls@).take(3), actions@)) by {
                assert(added(call_start, calls@).take(3) == added(call_start, checked));
            }
            lemma_prepared_split(added(call_start, calls@), actions@);
        }
        let ready = match setup {
            Ok(()) => true,
            Err(_) => false,
        };
        let ghost mut answers: Seq<Result<(), ActionReason>> =
            Seq::new(actions@.len(), |i: int| Err::<(), ActionReason>(ActionReason::TransferFailed));
        let ghost mut stop: int = actions@.len() as int;
        if ready {
            let ghost before_decisions = calls@;
            execute_decisions(store, run_id, actions, &ids, env, should_cancel, Ghost(planned), calls);
            proof {
                lemma_added_trans(checked, before_decisions, calls@);
                lemma_execution_calls_concat(added(checked, before_decisions), added(before_decisions, calls@));
                lemma_resolution_tail(call_start, checked, calls@);
                assert(prepared_with(added(before_decisions, calls@), actions@));
                lemma_prepared_concat(added(checked, before_decisions), added(before_decisions, calls@), actions@);
                assert(prepared_with(added(call_start, calls@).take(3), actions@)) by {
                    assert(added(call_start, calls@).take(3) == added(call_start, checked));
                }
                lemma_prepared_split(added(call_start, calls@), actions@);
            }
            proof {
                let (a, st) = choose|a: Seq<Result<(), ActionReason>>, st: int| 0 <= st <= actions@.len()
                    && (always_cancels(*should_cancel) ==> st == 0)
                    && store.journal(run_id) == planned_journal + #[trigger] decisions_journaled(actions@, ids@, a, st);
                answers = a;
                stop = st;
            }
        } else {
            record_resolution_setup_failure(store, run_id, actions, &ids, Ghost(planned));
        }
        assert(store.journal(run_id) == planned_journal + decisions_journaled(actions@, ids@, answers, stop));
        let ghost executed = *store;
        proof {
            lemma_journal_only_trans(begun, planned, executed, run_id);
        }
        let journal = match store.load_journal(run_id) {
            Ok(journal) => journal,
            Err(storage) => return Err(WorkflowError::Storage(storage)),
        };
        let ghost before_observe = calls@;
        let observed = call_observe(env, profile, &journal, calls);
        proof {
            lemma_added_push(before_observe, calls@.last());
            lemma_added_trans(checked, before_observe, calls@);
            lemma_execution_calls_concat(added(checked, before_observe), added(before_observe, calls@));
            lemma_resolution_tail(call_start, checked, calls@);
            assert(prepared_with(added(before_observe, calls@), actions@));
            lemma_prepared_concat(added(checked, before_observe), added(before_observe, calls@), actions@);
            assert(prepared_with(added(call_start, calls@).take(3), actions@)) by {
                assert(added(call_start, calls@).take(3) == added(call_start, checked));
            }
            lemma_prepared_split(added(call_start, calls@), actions@);
        }
        match store.record_reconciliation(run_id, observed) {
            Ok(()) => {},
            Err(storage) => return Err(WorkflowError::Storage(storage)),
        }
        let report = match store.load_report(run_id) {
            Ok(report) => report,
            Err(storage) => return Err(WorkflowError::Storage(storage)),
        };
        proof {
            reveal(frame_kept);
            let j = store.journal(run_id);
            assert(store.run_status(run_id) == reconciled_status(j, observed));
            assert forall|i: int| 0 <= i < planned_ids(j).len()
                implies outcome_in(j, #[trigger] planned_ids(j)[i]) != ActionOutcome::InProgress by {
                assert(planned_ids(j)[i] == ids@[i]);
            }
            assert forall|other: RunId| other != run_id implies {
                &&& #[trigger] store.has_run(other) == start.has_run(other)
                &&& start.has_run(other) ==> {
                    &&& store.journal(other) == start.journal(other)
                    &&& store.run_status(other) == start.run_status(other)
                    &&& store.snapshot(other) == start.snapshot(other)
                    &&& store.blocked_reason(other) == start.blocked_reason(other)
                }
            } by {
                assert(begun.has_run(other) == start.has_run(other));
                assert(executed.has_run(other) == begun.has_run(other));
                assert(store.has_run(other) == executed.has_run(other));
            }
            assert(executed_run(start, *store, run_id, *profile, authorizations, passed.source_volume, passed.destination_volume));
        }
        proof {
            let j = report.journal@;
            assert(j.subrange(actions@.len() as int, j.len() as int)
                =~= decisions_journaled(actions@, resolution_ids(actions@), answers, stop));
        }
        if ready {
            let ghost before_cleanup = calls@;
            let cleaned = self.cleanup_partials_after_resolution(profile, &report, env, calls);
            proof {
                lemma_added_trans(checked, before_cleanup, calls@);
                lemma_execution_calls_concat(added(checked, before_cleanup), added(before_cleanup, calls@));
                lemma_resolution_tail(call_start, checked, calls@);
                assert(prepared_with(added(before_cleanup, calls@), actions@));
                lemma_prepared_concat(added(checked, before_cleanup), added(before_cleanup, calls@), actions@);
                assert(prepared_with(added(call_start, calls@).take(3), actions@)) by {
                    assert(added(call_start, calls@).take(3) == added(call_start, checked));
                }
                lemma_prepared_split(added(call_start, calls@), actions@);
            }
            cleaned?;
        }
        Ok(report)
    }

    /// Removes retained partial transfers once a Resolution Run that kept
    /// them for resume has completed.
    fn cleanup_partials_after_resolution<E: RunEnvironment>(
        &self,
        profile: &SyncProfile,
        report: &RunReport,
        env: &E,
        calls: &mut Ghost<Seq<EnvCall>>,
    ) -> (result: Result<(), WorkflowError>)
        ensures
            appended(old(calls)@, final(calls)@),
            forall|i: int| 0 <= i < added(old(calls)@, final(calls)@).len()
                ==> (#[trigger] added(old(calls)@, final(calls)@)[i]) is CleanupPartials,
            !(profile.options.partial_transfer_policy == PartialTransferPolicy::KeepPartialForResume
                && report.status == RunReportStatus::Completed) ==> result is Ok,
            result matches Err(error) ==> error is Io,
    {
        let ghost call_start = calls@;
        proof {
            lemma_added_refl(call_start);
        }
        let keeps_partials = match profile.options.partial_transfer_policy {
            PartialTransferPolicy::KeepPartialForResume => true,
            _ => false,
        };
        let completed = match report.status {
            RunReportStatus::Completed => true,
            _ => false,
        };
        if keeps_partials && completed {
            let roots = partial_cleanup_roots(profile);
            let mut index: usize = 0;
            while index < roots.len()
                invariant
                    index <= roots@.len(),
                    profile.options.partial_transfer_policy == PartialTransferPolicy::KeepPartialForResume,
                    report.status == RunReportStatus::Completed,
                    call_start == old(calls)@,
                    appended(call_start, calls@),
                    forall|i: int| 0 <= i < added(call_start, calls@).len() ==> (#[trigger] added(call_start, calls@)[i]) is CleanupPartials,
                decreases roots@.len() - index,
            {
                let ghost before = calls@;
                let answer = call_cleanup_partials(env, roots[index], calls);
                proof {
                    lemma_added_push(before, calls@.last());
                    lemma_added_trans(call_start, before, calls@);
                    assert(added(call_start, calls@) =~= added(call_start, before).push(calls@.last()));
                }
                match answer {
                    Ok(()) => {},
                    Err(message) => return Err(WorkflowError::Io(message)),
                }
                index += 1;
            }
        }
        Ok(())
    }
}


/// The calls of a Resolution Run while its scopes are locked: a fresh
/// inventory first; every call that can change a peer comes after a second
/// fresh inventory and a passed precheck that expects the volumes the first
/// precheck measured, and belongs to the confirmed decisions.
pub open spec fn locked_resolution_calls(made: Seq<EnvCall>, passed: PrecheckPassed) -> bool {
    &&& made.len() >= 1
    &&& made[0] is CurrentInventories
    &&& effect_free(made) || {
        &&& made.len() >= 3
        &&& made[1] is CurrentInventories
        &&& made[2] matches EnvCall::Precheck { expectation, answer: Ok(_) } && expectation == recheck_expectation(passed)
        &&& execution_only(made.skip(3))
        &&& removals_follow_start(made.skip(3))
    }
}

proof fn lemma_execution_calls_concat(a: Seq<EnvCall>, b: Seq<EnvCall>)
    requires
        execution_only(a),
        removals_follow_start(a),
        forall|i: int| 0 <= i < b.len() ==> (#[trigger] b[i]) is ExecuteResolution || b[i] is CleanupPartials
            || b[i] is PrepareResolution || b[i] is Observe,
    ensures
        execution_only(a + b),
        removals_follow_start(a + b),
{
    assert(execution_only(b) && removals_follow_start(b)) by {
        assert forall|i: int| 0 <= i < b.len() implies execution_call(#[trigger] b[i]) && removal_started(b[i]) by {}
    }
    lemma_calls_concat(a, b);
}

/// The calls after the recheck are calls of the confirmed decisions.
/// Every preparation of the resolution executor is given `decisions`.
pub open spec fn prepared_with(calls: Seq<EnvCall>, decisions: Seq<ConflictResolutionAction>) -> bool {
    forall|i: int| 0 <= i < calls.len() && (#[trigger] calls[i]) is PrepareResolution
        ==> calls[i]->PrepareResolution_decisions == decisions
}

proof fn lemma_prepared_concat(a: Seq<EnvCall>, b: Seq<EnvCall>, decisions: Seq<ConflictResolutionAction>)
    requires
        prepared_with(a, decisions),
        prepared_with(b, decisions),
    ensures
        prepared_with(a + b, decisions),
{
    assert forall|i: int| 0 <= i < (a + b).len() && (#[trigger] (a + b)[i]) is PrepareResolution
        implies (a + b)[i]->PrepareResolution_decisions == decisions by {
        if i < a.len() {
            assert((a + b)[i] == a[i]);
        } else {
            assert((a + b)[i] == b[i - a.len()]);
        }
    }
}

proof fn lemma_prepared_split(all: Seq<EnvCall>, decisions: Seq<ConflictResolutionAction>)
    requires
        all.len() >= 3,
        prepared_with(all.take(3), decisions),
        prepared_with(all.skip(3), decisions),
    ensures
        prepared_with(all, decisions),
{
    lemma_prepared_concat(all.take(3), all.skip(3), decisions);
    assert(all.take(3) + all.skip(3) =~= all);
}

/// A confirmation that never agrees to the decisions.
pub open spec fn never_confirms_decisions<C: FnOnce(&PeerInventories, &Vec<ConflictResolutionAction>) -> bool>(
    confirm: C,
    actions: &Vec<ConflictResolutionAction>,
) -> bool {
    forall|reviewed: PeerInventories| !#[trigger] call_ensures(confirm, (&reviewed, actions), true)
}

/// The locked calls of a Resolution Run that passed its second precheck:
/// the reviewed inventory, the fresh one taken after confirmation, and a
/// passed precheck that expects the volumes the first one measured.
pub open spec fn resolution_rechecked(made: Seq<EnvCall>, passed: PrecheckPassed) -> bool {
    &&& made.len() >= 3
    &&& made[0] is CurrentInventories
    &&& made[1] is CurrentInventories
    &&& made[2] matches EnvCall::Precheck { expectation, answer: Ok(_) } && expectation == recheck_expectation(passed)
}

proof fn lemma_resolution_tail(start: Seq<EnvCall>, checked: Seq<EnvCall>, now: Seq<EnvCall>)
    requires
        appended(start, checked),
        appended(checked, now),
        added(start, checked).len() == 3,
        execution_only(added(checked, now)) || added(checked, now).len() == 1,
        added(checked, now).len() == 1 ==> added(checked, now)[0] is PrepareResolution,
        removals_follow_start(added(checked, now)) || added(checked, now).len() == 1,
    ensures
        appended(start, now),
        added(start, now).skip(3) == added(checked, now),
        added(start, now).take(3) == added(start, checked),
        forall|i: int| 0 <= i < 3 ==> #[trigger] added(start, now)[i] == added(start, checked)[i],
        execution_only(added(start, now).skip(3)),
        removals_follow_start(added(start, now).skip(3)),
{
    lemma_added_trans(start, checked, now);
    assert(added(start, now).skip(3) =~= added(checked, now));
    assert(added(start, now).take(3) =~= added(start, checked));
    assert forall|i: int| 0 <= i < 3 implies #[trigger] added(start, now)[i] == added(start, checked)[i] by {
        assert(added(start, now).take(3)[i] == added(start, now)[i]);
    }
    if added(checked, now).len() == 1 {
        assert(execution_call(added(checked, now)[0]));
    }
}

/// The first precheck followed by the locked calls of a Resolution Run are
/// the calls of a lifecycle.
proof fn lemma_resolution_lifecycle(first: EnvCall, made: Seq<EnvCall>, passed: PrecheckPassed)
    requires
        first matches EnvCall::Precheck { expectation, answer: Ok(measured) } && expectation == first_expectation() && measured == passed,
        locked_resolution_calls(made, passed),
    ensures
        lifecycle_calls(seq![first] + made),
        resolution_rechecked(made, passed) ==> rechecked_at(seq![first] + made, 3),
{
    let all = seq![first] + made;
    if resolution_rechecked(made, passed) {
        assert(all[0] == first);
        assert(all[1] == made[0]);
        assert(all[3] == made[2]);
        assert(rechecked_at(all, 3));
    }
    if effect_free(made) {
        lemma_calls_concat(seq![first], made);
        assert(effect_free(seq![first]));
        lemma_lifecycle_without_effects(all);
    } else {
        let head = seq![first] + made.take(3);
        let rest = made.skip(3);
        assert(all =~= head + rest);
        assert(head[1] == made[0]);
        assert(head[2] == made[1]);
        assert(head[3] == made[2]);
        assert(effect_free(head)) by {
            assert forall|i: int| 0 <= i < head.len() implies !has_effect(#[trigger] head[i]) by {}
        }
        assert(rechecked_at(head, 3));
        lemma_lifecycle_after_recheck(head, rest);
    }
}

/// What a Resolution Run promises whatever the precheck, analysis and
/// executor returned.
pub open spec fn resolution_outcome(
    before: RunWorkflow,
    after: RunWorkflow,
    store_before: RunEvidenceStore,
    store_after: RunEvidenceStore,
    run_id: RunId,
    profile: SyncProfile,
    actions: Seq<ConflictResolutionAction>,
    authorizations: AuthorizationSnapshot,
    result: Result<RunReport, WorkflowError>,
) -> bool {
    &&& after.recovery_method == before.recovery_method
    &&& after.supervisor == before.supervisor
    &&& locks_released(before.scope_locks, after.scope_locks, run_id)
    &&& store_after.consistent()
    &&& (scope_held_elsewhere(before.scope_locks, run_id, profile) ==> result is Err)
    &&& (scope_held_elsewhere(before.scope_locks, run_id, profile) && !store_before.has_run(run_id)
        ==> result matches Err(WorkflowError::Precheck(_)))
    &&& (result matches Err(error) && (error is ConfirmationRequired || error is Resolution)
        ==> store_after.unchanged_from(store_before))
    &&& (result matches Ok(report) ==> {
        &&& exists|source_volume: Option<u64>, destination_volume: Option<u64>|
            executed_run(store_before, store_after, run_id, profile, authorizations, source_volume, destination_volume)
        &&& planned_ids(store_after.journal(run_id)) == resolution_ids(actions)
        &&& report_of(report, store_after, run_id)
    })
}

impl RunWorkflow {
    /// Executes a reviewed Mirror Resolution Run with no unattended authority.
    pub fn execute_resolution_run<
        E: RunEnvironment,
        C: FnOnce(&PeerInventories, &Vec<ConflictResolutionAction>) -> bool,
        F: Fn() -> bool,
    >(
        &mut self,
        run_id: RunId,
        actions: &Vec<ConflictResolutionAction>,
        profile: &SyncProfile,
        env: &E,
        confirm: C,
        store: &mut RunEvidenceStore,
        should_cancel: F,
    ) -> (result: Result<RunReport, WorkflowError>)
        requires
            old(self).scope_locks.exclusive(),
            old(store).consistent(),
            actions@.len() < u64::MAX,
            forall|inventories: &PeerInventories, decisions: &Vec<ConflictResolutionAction>|
                #[trigger] call_requires(confirm, (inventories, decisions)),
            forall|| #[trigger] call_requires(should_cancel, ()),
        ensures
            resolution_outcome(*old(self), *final(self), *old(store), *final(store), run_id, *profile, actions@,
                AuthorizationSnapshot::none_spec(), result),
            result is Ok ==> exists|reviewed: PeerInventories| #[trigger] call_ensures(confirm, (&reviewed, actions), true),
            result matches Err(WorkflowError::ConfirmationRequired)
                ==> exists|reviewed: PeerInventories| #[trigger] call_ensures(confirm, (&reviewed, actions), false),
            journaled_new_run(*old(store), *final(store), run_id)
                ==> exists|reviewed: PeerInventories| #[trigger] call_ensures(confirm, (&reviewed, actions), true),
            result matches Ok(report) ==> decided_as_journaled(report.journal@, actions@),
            appended(old(self).calls@, final(self).calls@),
            lifecycle_calls(added(old(self).calls@, final(self).calls@)),
            !effect_free(added(old(self).calls@, final(self).calls@))
                ==> exists|reviewed: PeerInventories| #[trigger] call_ensures(confirm, (&reviewed, actions), true),
            added(old(self).calls@, final(self).calls@).len() > 2
                ==> exists|reviewed: PeerInventories| #[trigger] call_ensures(confirm, (&reviewed, actions), true),
            added(old(self).calls@, final(self).calls@).len() > 2
                ==> (added(old(self).calls@, final(self).calls@)[1] matches EnvCall::CurrentInventories { answer: Ok(reviewed) }
                    && call_ensures(confirm, (&reviewed, actions), true)),
            result is Ok || journaled_new_run(*old(store), *final(store), run_id)
                ==> rechecked_at(added(old(self).calls@, final(self).calls@), 3),
            never_confirms_decisions(confirm, actions) && added(old(self).calls@, final(self).calls@).len() >= 2
                && (added(old(self).calls@, final(self).calls@)[1] matches EnvCall::CurrentInventories { answer: Ok(_) })
                ==> result == Err::<RunReport, WorkflowError>(WorkflowError::ConfirmationRequired)
                    && final(store).unchanged_from(*old(store))
                    && added(old(self).calls@, final(self).calls@).len() == 2,
            prepared_with(added(old(self).calls@, final(self).calls@), actions@),
    {
        self.execute_resolution_run_with_authorizations(run_id, actions, profile, env, AuthorizationSnapshot::none(), confirm, store, should_cancel)
    }

    /// Executes a reviewed Mirror Resolution Run through the same precheck,
    /// Peer Scope Lock, fresh analysis, confirmation, journal and
    /// reconciliation boundaries as a Sync Run.
    pub fn execute_resolution_run_with_authorizations<
        E: RunEnvironment,
        C: FnOnce(&PeerInventories, &Vec<ConflictResolutionAction>) -> bool,
        F: Fn() -> bool,
    >(
        &mut self,
        run_id: RunId,
        actions: &Vec<ConflictResolutionAction>,
        profile: &SyncProfile,
        env: &E,
        authorizations: AuthorizationSnapshot,
        confirm: C,
        store: &mut RunEvidenceStore,
        should_cancel: F,
    ) -> (result: Result<RunReport, WorkflowError>)
        requires
            old(self).scope_locks.exclusive(),
            old(store).consistent(),
            actions@.len() < u64::MAX,
            forall|inventories: &PeerInventories, decisions: &Vec<ConflictResolutionAction>|
                #[trigger] call_requires(confirm, (inventories, decisions)),
            forall|| #[trigger] call_requires(should_cancel, ()),
        ensures
            resolution_outcome(*old(self), *final(self), *old(store), *final(store), run_id, *profile, actions@,
                authorizations, result),
            result is Ok ==> exists|reviewed: PeerInventories| #[trigger] call_ensures(confirm, (&reviewed, actions), true),
            result matches Err(WorkflowError::ConfirmationRequired)
                ==> exists|reviewed: PeerInventories| #[trigger] call_ensures(confirm, (&reviewed, actions), false),
            journaled_new_run(*old(store), *final(store), run_id)
                ==> exists|reviewed: PeerInventories| #[trigger] call_ensures(confirm, (&reviewed, actions), true),
            result matches Ok(report) ==> decided_as_journaled(report.journal@, actions@),
            appended(old(self).calls@, final(self).calls@),
            lifecycle_calls(added(old(self).calls@, final(self).calls@)),
            !effect_free(added(old(self).calls@, final(self).calls@))
                ==> exists|reviewed: PeerInventories| #[trigger] call_ensures(confirm, (&reviewed, actions), true),
            added(old(self).calls@, final(self).calls@).len() > 2
                ==> exists|reviewed: PeerInventories| #[trigger] call_ensures(confirm, (&reviewed, actions), true),
            added(old(self).calls@, final(self).calls@).len() > 2
                ==> (added(old(self).calls@, final(self).calls@)[1] matches EnvCall::CurrentInventories { answer: Ok(reviewed) }
                    && call_ensures(confirm, (&reviewed, actions), true)),
            result is Ok || journaled_new_run(*old(store), *final(store), run_id)
                ==> rechecked_at(added(old(self).calls@, final(self).calls@), 3),
            never_confirms_decisions(confirm, actions) && added(old(self).calls@, final(self).calls@).len() >= 2
                && (added(old(self).calls@, final(self).calls@)[1] matches EnvCall::CurrentInventories { answer: Ok(_) })
                ==> result == Err::<RunReport, WorkflowError>(WorkflowError::ConfirmationRequired)
                    && final(store).unchanged_from(*old(store))
                    && added(old(self).calls@, final(self).calls@).len() == 2,
            prepared_with(added(old(self).calls@, final(self).calls@), actions@),
    {
        let ghost call_start = self.calls@;
        let mut calls = self.calls;
        let scopes = profile_peer_scopes(profile);
        let owner = ScopeLockOwner { profile_name: profile.name.clone(), run_id };
        let initial = VolumeExpectation { source_volume: None, destination_volume: None, require_recorded: false, allow_replacement: false };
        let first = call_precheck(env, profile, &initial, &mut calls);
        let ghost after_first = calls@;
        proof {
            lemma_added_push(call_start, calls@.last());
        }
        let ghost registry_before = self.scope_locks;
        let passed = match self.admit_run(store, run_id, profile, first, &owner, &scopes, authorizations) {
            Ok(passed) => passed,
            Err(error) => {
                self.calls = calls;
                proof {
                    lemma_lifecycle_without_effects(seq![after_first.last()]);
                }
                return Err(error);
            },
        };
        let ghost registry_locked = self.scope_locks;
        let outcome = self.resolution_locked(run_id, actions, profile, env, authorizations, passed, confirm, store, &should_cancel, &mut calls);
        self.calls = calls;
        proof {
            lemma_added_trans(call_start, after_first, calls@);
            lemma_resolution_lifecycle(after_first.last(), added(after_first, calls@), passed);
            assert(added(call_start, calls@) =~= seq![after_first.last()] + added(after_first, calls@));
            assert(added(call_start, calls@)[1] == added(after_first, calls@)[0]);
            lemma_prepared_concat(seq![after_first.last()], added(after_first, calls@), actions@);
        }
        self.scope_locks.release(run_id);
        proof {
            lemma_acquire_then_release(registry_before, registry_locked, self.scope_locks, owner, scopes@);
        }
        outcome
    }
}

} // verus!
