//! The durable action journal of a Sync Run and the outcome each action
//! settles to.
use vstd::prelude::*;

use crate::model::{ActionOutcome, ActionReason, DeletionMethod, PlanActionKind, PeerSide, SyncMode};
use crate::profile::SyncOptions;
use crate::status::RunReportStatus;

verus! {

/// One planned action of a reviewed plan.
#[derive(Debug, Clone, PartialEq, Eq)]
pub struct PlanAction {
    pub action_id: u64,
    pub relative_path: String,
    pub kind: PlanActionKind,
    pub source_side: PeerSide,
    pub size: Option<u64>,
}

/// A reviewed plan: the mode and options it was analysed under and its
/// ordered actions.
#[derive(Debug, Clone, PartialEq, Eq)]
pub struct OneWayPlan {
    pub mode: SyncMode,
    pub options: SyncOptions,
    pub actions: Vec<PlanAction>,
}

/// The durable record of one planned action.
#[derive(Debug, Clone, PartialEq, Eq)]
pub struct PlanRecord {
    pub action_id: u64,
    pub relative_path: String,
    pub kind: PlanActionKind,
    pub affected_side: PeerSide,
    pub size: Option<u64>,
}

/// One journal event. Every event names the action it belongs to.
#[derive(Debug, Clone, PartialEq, Eq)]
pub enum JournalEvent {
    Planned { action: PlanRecord },
    Started { action_id: u64 },
    Progress { action_id: u64, completed_bytes: u64 },
    TransferVerified { action_id: u64, metadata_verified: bool },
    ProofBoundary { action_id: u64, deletion_method: DeletionMethod },
    RemovalStarted { action_id: u64, deletion_method: DeletionMethod },
    RemovalCompleted { action_id: u64 },
    Completed { action_id: u64 },
    Failed { action_id: u64, reason: ActionReason },
    Cancelled { action_id: u64 },
    Interrupted { action_id: u64 },
    Deferred { action_id: u64 },
    Unresolved { action_id: u64, reason: ActionReason },
    RecoveryReview { action_id: u64, reason: ActionReason },
}

pub open spec fn event_action(event: JournalEvent) -> u64 {
    match event {
        JournalEvent::Planned { action } => action.action_id,
        JournalEvent::Started { action_id } => action_id,
        JournalEvent::Progress { action_id, .. } => action_id,
        JournalEvent::TransferVerified { action_id, .. } => action_id,
        JournalEvent::ProofBoundary { action_id, .. } => action_id,
        JournalEvent::RemovalStarted { action_id, .. } => action_id,
        JournalEvent::RemovalCompleted { action_id } => action_id,
        JournalEvent::Completed { action_id } => action_id,
        JournalEvent::Failed { action_id, .. } => action_id,
        JournalEvent::Cancelled { action_id } => action_id,
        JournalEvent::Interrupted { action_id } => action_id,
        JournalEvent::Deferred { action_id } => action_id,
        JournalEvent::Unresolved { action_id, .. } => action_id,
        JournalEvent::RecoveryReview { action_id, .. } => action_id,
    }
}

/// The outcome an event settles its action to, if it is a settling event.
pub open spec fn settled_outcome(event: JournalEvent) -> Option<ActionOutcome> {
    match event {
        JournalEvent::RemovalCompleted { .. } => Some(ActionOutcome::Completed),
        JournalEvent::Completed { .. } => Some(ActionOutcome::Completed),
        JournalEvent::Failed { reason, .. } => Some(ActionOutcome::Failed(reason)),
        JournalEvent::Cancelled { .. } => Some(ActionOutcome::Cancelled),
        JournalEvent::Interrupted { .. } => Some(ActionOutcome::Interrupted),
        JournalEvent::Deferred { .. } => Some(ActionOutcome::Deferred),
        JournalEvent::Unresolved { reason, .. } => Some(ActionOutcome::Unresolved(reason)),
        JournalEvent::RecoveryReview { reason, .. } => Some(ActionOutcome::RecoveryReview(reason)),
        _ => None,
    }
}

/// The outcome of action `id`: the last settling event for it, or
/// `InProgress` while no event has settled it.
pub open spec fn outcome_in(journal: Seq<JournalEvent>, id: u64) -> ActionOutcome
    decreases journal.len(),
{
    if journal.len() == 0 {
        ActionOutcome::InProgress
    } else if event_action(journal.last()) == id && settled_outcome(journal.last()) is Some {
        settled_outcome(journal.last()).unwrap()
    } else {
        outcome_in(journal.drop_last(), id)
    }
}

/// Appending events about other actions leaves an action's outcome alone.
pub proof fn lemma_outcome_unchanged_by_other_events(journal: Seq<JournalEvent>, extra: Seq<JournalEvent>, id: u64)
    requires
        forall|k: int| 0 <= k < extra.len() ==> event_action(#[trigger] extra[k]) != id,
    ensures
        outcome_in(journal + extra, id) == outcome_in(journal, id),
    decreases extra.len(),
{
    if extra.len() > 0 {
        let shorter = extra.drop_last();
        assert((journal + extra).drop_last() =~= journal + shorter);
        assert((journal + extra).last() == extra.last());
        lemma_outcome_unchanged_by_other_events(journal, shorter, id);
    } else {
        assert(journal + extra =~= journal);
    }
}

/// A settling event makes its outcome the action's outcome.
pub proof fn lemma_outcome_after_settling_event(journal: Seq<JournalEvent>, event: JournalEvent)
    requires
        settled_outcome(event) is Some,
    ensures
        outcome_in(journal.push(event), event_action(event)) == settled_outcome(event).unwrap(),
{
    assert(journal.push(event).last() == event);
}

/// The ids planned in a journal, in planning order.
pub open spec fn planned_ids(journal: Seq<JournalEvent>) -> Seq<u64>
    decreases journal.len(),
{
    if journal.len() == 0 {
        Seq::empty()
    } else {
        let rest = planned_ids(journal.drop_last());
        match journal.last() {
            JournalEvent::Planned { action } => rest.push(action.action_id),
            _ => rest,
        }
    }
}

impl JournalEvent {
    pub fn action_id(&self) -> (id: u64)
        ensures
            id == event_action(*self),
    {
        match self {
            JournalEvent::Planned { action } => action.action_id,
            JournalEvent::Started { action_id } => *action_id,
            JournalEvent::Progress { action_id, .. } => *action_id,
            JournalEvent::TransferVerified { action_id, .. } => *action_id,
            JournalEvent::ProofBoundary { action_id, .. } => *action_id,
            JournalEvent::RemovalStarted { action_id, .. } => *action_id,
            JournalEvent::RemovalCompleted { action_id } => *action_id,
            JournalEvent::Completed { action_id } => *action_id,
            JournalEvent::Failed { action_id, .. } => *action_id,
            JournalEvent::Cancelled { action_id } => *action_id,
            JournalEvent::Interrupted { action_id } => *action_id,
            JournalEvent::Deferred { action_id } => *action_id,
            JournalEvent::Unresolved { action_id, .. } => *action_id,
            JournalEvent::RecoveryReview { action_id, .. } => *action_id,
        }
    }

    pub fn settled(&self) -> (outcome: Option<ActionOutcome>)
        ensures
            outcome == settled_outcome(*self),
    {
        match self {
            JournalEvent::RemovalCompleted { .. } => Some(ActionOutcome::Completed),
            JournalEvent::Completed { .. } => Some(ActionOutcome::Completed),
            JournalEvent::Failed { reason, .. } => Some(ActionOutcome::Failed(*reason)),
            JournalEvent::Cancelled { .. } => Some(ActionOutcome::Cancelled),
            JournalEvent::Interrupted { .. } => Some(ActionOutcome::Interrupted),
            JournalEvent::Deferred { .. } => Some(ActionOutcome::Deferred),
            JournalEvent::Unresolved { reason, .. } => Some(ActionOutcome::Unresolved(*reason)),
            JournalEvent::RecoveryReview { reason, .. } => Some(ActionOutcome::RecoveryReview(*reason)),
            _ => None,
        }
    }
}

/// The outcome of one action as recorded in `journal`.
pub fn outcome_of(journal: &Vec<JournalEvent>, id: u64) -> (outcome: ActionOutcome)
    ensures
        outcome == outcome_in(journal@, id),
{
    let mut index: usize = journal.len();
    assert(journal@.subrange(0, index as int) =~= journal@);
    while index > 0
        invariant
            index <= journal@.len(),
            outcome_in(journal@, id) == outcome_in(journal@.subrange(0, index as int), id),
        decreases index,
    {
        let prefix = Ghost(journal@.subrange(0, index as int));
        assert(prefix@.drop_last() =~= journal@.subrange(0, index - 1));
        if journal[index - 1].action_id() == id {
            if let Some(outcome) = journal[index - 1].settled() {
                return outcome;
            }
        }
        index -= 1;
    }
    ActionOutcome::InProgress
}

/// The ids planned in the journal, in planning order.
pub fn planned_action_ids(journal: &Vec<JournalEvent>) -> (ids: Vec<u64>)
    ensures
        ids@ == planned_ids(journal@),
{
    let mut ids: Vec<u64> = Vec::new();
    let mut index: usize = 0;
    while index < journal.len()
        invariant
            index <= journal@.len(),
            ids@ == planned_ids(journal@.subrange(0, index as int)),
        decreases journal@.len() - index,
    {
        assert(journal@.subrange(0, index + 1).drop_last() =~= journal@.subrange(0, index as int));
        match &journal[index] {
            JournalEvent::Planned { action } => ids.push(action.action_id),
            _ => {},
        }
        index += 1;
    }
    assert(journal@.subrange(0, index as int) =~= journal@);
    ids
}

/// How strongly an outcome holds a run open: recovery review above
/// interruption, then cancellation, failure, pending review, completion.
pub open spec fn outcome_rank(outcome: ActionOutcome) -> int {
    match outcome {
        ActionOutcome::RecoveryReview(_) => 5,
        ActionOutcome::InProgress | ActionOutcome::Interrupted => 4,
        ActionOutcome::Cancelled => 3,
        ActionOutcome::Failed(_) => 2,
        ActionOutcome::Unresolved(_) | ActionOutcome::Deferred => 1,
        ActionOutcome::Completed => 0,
    }
}

fn rank_of(outcome: ActionOutcome) -> (rank: u8)
    ensures
        rank == outcome_rank(outcome),
{
    match outcome {
        ActionOutcome::RecoveryReview(_) => 5,
        ActionOutcome::InProgress | ActionOutcome::Interrupted => 4,
        ActionOutcome::Cancelled => 3,
        ActionOutcome::Failed(_) => 2,
        ActionOutcome::Unresolved(_) | ActionOutcome::Deferred => 1,
        ActionOutcome::Completed => 0,
    }
}

/// The highest rank among the outcomes of `ids`.
pub open spec fn max_rank(journal: Seq<JournalEvent>, ids: Seq<u64>) -> int
    decreases ids.len(),
{
    if ids.len() == 0 {
        0
    } else {
        let rest = max_rank(journal, ids.drop_last());
        let last = outcome_rank(outcome_in(journal, ids.last()));
        if last > rest { last } else { rest }
    }
}

/// The status a reconciled run settles to. `observed_consistent` is the
/// independent observation that the peers now match what the journal says.
pub open spec fn status_for_rank(rank: int, observed_consistent: bool) -> RunReportStatus {
    if rank == 5 {
        RunReportStatus::RecoveryReview
    } else if rank == 4 {
        RunReportStatus::Interrupted
    } else if rank == 3 {
        RunReportStatus::Cancelled
    } else if rank == 2 {
        RunReportStatus::Failed
    } else if rank == 1 || !observed_consistent {
        RunReportStatus::CompletedWithReviewRequired
    } else {
        RunReportStatus::Completed
    }
}

pub open spec fn reconciled_status(journal: Seq<JournalEvent>, observed_consistent: bool) -> RunReportStatus {
    status_for_rank(max_rank(journal, planned_ids(journal)), observed_consistent)
}

/// The status of a run once its journal is reconciled against a fresh
/// observation of the peers.
pub fn reconcile_status(journal: &Vec<JournalEvent>, observed_consistent: bool) -> (status: RunReportStatus)
    ensures
        status == reconciled_status(journal@, observed_consistent),
{
    let ids = planned_action_ids(journal);
    let mut rank: u8 = 0;
    let mut index: usize = 0;
    while index < ids.len()
        invariant
            ids@ == planned_ids(journal@),
            index <= ids@.len(),
            rank == max_rank(journal@, ids@.subrange(0, index as int)),
            rank <= 5,
        decreases ids@.len() - index,
    {
        assert(ids@.subrange(0, index + 1).drop_last() =~= ids@.subrange(0, index as int));
        let next = rank_of(outcome_of(journal, ids[index]));
        if next > rank {
            rank = next;
        }
        index += 1;
    }
    assert(ids@.subrange(0, index as int) =~= ids@);
    if rank == 5 {
        RunReportStatus::RecoveryReview
    } else if rank == 4 {
        RunReportStatus::Interrupted
    } else if rank == 3 {
        RunReportStatus::Cancelled
    } else if rank == 2 {
        RunReportStatus::Failed
    } else if rank == 1 || !observed_consistent {
        RunReportStatus::CompletedWithReviewRequired
    } else {
        RunReportStatus::Completed
    }
}

pub(crate) proof fn lemma_max_rank_bounds(journal: Seq<JournalEvent>, ids: Seq<u64>, i: int)
    requires
        0 <= i < ids.len(),
    ensures
        outcome_rank(outcome_in(journal, ids[i])) <= max_rank(journal, ids),
    decreases ids.len(),
{
    if i < ids.len() - 1 {
        lemma_max_rank_bounds(journal, ids.drop_last(), i);
    }
}

/// A run reconciles to Completed only when every planned action completed
/// and the fresh observation agreed; a run with any open, cancelled,
/// failed, deferred or unresolved action is never reported as Completed.
pub proof fn completed_runs_have_only_completed_actions(journal: Seq<JournalEvent>, observed_consistent: bool)
    ensures
        reconciled_status(journal, observed_consistent) == RunReportStatus::Completed ==> {
            &&& observed_consistent
            &&& forall|i: int| 0 <= i < planned_ids(journal).len()
                ==> outcome_in(journal, #[trigger] planned_ids(journal)[i]) == ActionOutcome::Completed
        },
{
    if reconciled_status(journal, observed_consistent) == RunReportStatus::Completed {
        assert forall|i: int| 0 <= i < planned_ids(journal).len()
            implies outcome_in(journal, #[trigger] planned_ids(journal)[i]) == ActionOutcome::Completed by {
            lemma_max_rank_bounds(journal, planned_ids(journal), i);
            lemma_max_rank_nonneg(journal, planned_ids(journal));
        }
    }
}

pub(crate) proof fn lemma_max_rank_nonneg(journal: Seq<JournalEvent>, ids: Seq<u64>)
    ensures
        0 <= max_rank(journal, ids) <= 5,
    decreases ids.len(),
{
    if ids.len() > 0 {
        lemma_max_rank_nonneg(journal, ids.drop_last());
    }
}

/// An action that reached Recovery Review keeps the whole run in Recovery
/// Review whatever the other actions did.
pub proof fn recovery_review_dominates(journal: Seq<JournalEvent>, observed_consistent: bool, i: int)
    requires
        0 <= i < planned_ids(journal).len(),
        outcome_in(journal, planned_ids(journal)[i]) is RecoveryReview,
    ensures
        reconciled_status(journal, observed_consistent) == RunReportStatus::RecoveryReview,
{
    lemma_max_rank_bounds(journal, planned_ids(journal), i);
    lemma_max_rank_nonneg(journal, planned_ids(journal));
}

impl PlanRecord {
    pub fn duplicate(&self) -> (copy: PlanRecord)
        ensures
            copy == *self,
    {
        PlanRecord {
            action_id: self.action_id,
            relative_path: self.relative_path.clone(),
            kind: self.kind,
            affected_side: self.affected_side,
            size: self.size,
        }
    }
}

impl PlanAction {
    pub fn duplicate(&self) -> (copy: PlanAction)
        ensures
            copy == *self,
    {
        PlanAction {
            action_id: self.action_id,
            relative_path: self.relative_path.clone(),
            kind: self.kind,
            source_side: self.source_side,
            size: self.size,
        }
    }
}

impl JournalEvent {
    pub fn duplicate(&self) -> (copy: JournalEvent)
        ensures
            copy == *self,
    {
        match self {
            JournalEvent::Planned { action } => JournalEvent::Planned { action: action.duplicate() },
            JournalEvent::Started { action_id } => JournalEvent::Started { action_id: *action_id },
            JournalEvent::Progress { action_id, completed_bytes } =>
                JournalEvent::Progress { action_id: *action_id, completed_bytes: *completed_bytes },
            JournalEvent::TransferVerified { action_id, metadata_verified } =>
                JournalEvent::TransferVerified { action_id: *action_id, metadata_verified: *metadata_verified },
            JournalEvent::ProofBoundary { action_id, deletion_method } =>
                JournalEvent::ProofBoundary { action_id: *action_id, deletion_method: *deletion_method },
            JournalEvent::RemovalStarted { action_id, deletion_method } =>
                JournalEvent::RemovalStarted { action_id: *action_id, deletion_method: *deletion_method },
            JournalEvent::RemovalCompleted { action_id } => JournalEvent::RemovalCompleted { action_id: *action_id },
            JournalEvent::Completed { action_id } => JournalEvent::Completed { action_id: *action_id },
            JournalEvent::Failed { action_id, reason } => JournalEvent::Failed { action_id: *action_id, reason: *reason },
            JournalEvent::Cancelled { action_id } => JournalEvent::Cancelled { action_id: *action_id },
            JournalEvent::Interrupted { action_id } => JournalEvent::Interrupted { action_id: *action_id },
            JournalEvent::Deferred { action_id } => JournalEvent::Deferred { action_id: *action_id },
            JournalEvent::Unresolved { action_id, reason } =>
                JournalEvent::Unresolved { action_id: *action_id, reason: *reason },
            JournalEvent::RecoveryReview { action_id, reason } =>
                JournalEvent::RecoveryReview { action_id: *action_id, reason: *reason },
        }
    }
}

/// An exact copy of a journal.
pub fn copy_journal(journal: &Vec<JournalEvent>) -> (copy: Vec<JournalEvent>)
    ensures
        copy@ == journal@,
{
    let mut copy: Vec<JournalEvent> = Vec::new();
    let mut index: usize = 0;
    while index < journal.len()
        invariant
            index <= journal@.len(),
            copy@ == journal@.subrange(0, index as int),
        decreases journal@.len() - index,
    {
        copy.push(journal[index].duplicate());
        index += 1;
        assert(copy@ =~= journal@.subrange(0, index as int));
    }
    assert(journal@.subrange(0, index as int) =~= journal@);
    copy
}

/// Every `Planned` event comes before every other event.
pub open spec fn planned_first(journal: Seq<JournalEvent>) -> bool {
    forall|i: int, j: int| 0 <= i < j < journal.len() && (#[trigger] journal[j]) is Planned ==> (#[trigger] journal[i]) is Planned
}

/// Every source removal starts only after a verified transfer and a durable
/// proof boundary for the same action.
pub open spec fn removal_after_proof(journal: Seq<JournalEvent>) -> bool {
    forall|k: int| 0 <= k < journal.len() && (#[trigger] journal[k]) is RemovalStarted ==> {
        exists|m: int, v: int| 0 <= v < m < k
            && (#[trigger] journal[m]) is ProofBoundary && event_action(journal[m]) == event_action(journal[k])
            && (#[trigger] journal[v]) is TransferVerified && event_action(journal[v]) == event_action(journal[k])
    }
}

pub open spec fn all_planned(journal: Seq<JournalEvent>) -> bool {
    forall|k: int| 0 <= k < journal.len() ==> (#[trigger] journal[k]) is Planned
}

/// Appending an ordinary (non-planning, non-removal) event keeps the
/// journal's ordering properties and its planned ids.
pub proof fn lemma_push_ordinary(journal: Seq<JournalEvent>, event: JournalEvent)
    requires
        !(event is Planned),
        !(event is RemovalStarted),
    ensures
        planned_first(journal) ==> planned_first(journal.push(event)),
        removal_after_proof(journal) ==> removal_after_proof(journal.push(event)),
        planned_ids(journal.push(event)) == planned_ids(journal),
{
    let next = journal.push(event);
    assert(next.drop_last() =~= journal);
    if removal_after_proof(journal) {
        assert forall|k: int| 0 <= k < next.len() && (#[trigger] next[k]) is RemovalStarted implies {
            exists|m: int, v: int| 0 <= v < m < k
                && (#[trigger] next[m]) is ProofBoundary && event_action(next[m]) == event_action(next[k])
                && (#[trigger] next[v]) is TransferVerified && event_action(next[v]) == event_action(next[k])
        } by {
            assert(k < journal.len());
            assert(journal[k] is RemovalStarted);
            let (m, v) = choose|m: int, v: int| 0 <= v < m < k
                && (#[trigger] journal[m]) is ProofBoundary && event_action(journal[m]) == event_action(journal[k])
                && (#[trigger] journal[v]) is TransferVerified && event_action(journal[v]) == event_action(journal[k]);
            assert(next[m] == journal[m]);
            assert(next[v] == journal[v]);
        }
    }
}

/// Appending a removal right after its proof boundary, with a verified
/// transfer of the same action earlier, keeps the removal ordering.
pub proof fn lemma_push_removal(journal: Seq<JournalEvent>, event: JournalEvent, verified_at: int)
    requires
        event is RemovalStarted,
        journal.len() > 0,
        journal.last() is ProofBoundary,
        event_action(journal.last()) == event_action(event),
        0 <= verified_at < journal.len() - 1,
        journal[verified_at] is TransferVerified,
        event_action(journal[verified_at]) == event_action(event),
    ensures
        planned_first(journal) ==> planned_first(journal.push(event)),
        removal_after_proof(journal) ==> removal_after_proof(journal.push(event)),
        planned_ids(journal.push(event)) == planned_ids(journal),
{
    let next = journal.push(event);
    assert(next.drop_last() =~= journal);
    if removal_after_proof(journal) {
        assert forall|k: int| 0 <= k < next.len() && (#[trigger] next[k]) is RemovalStarted implies {
            exists|m: int, v: int| 0 <= v < m < k
                && (#[trigger] next[m]) is ProofBoundary && event_action(next[m]) == event_action(next[k])
                && (#[trigger] next[v]) is TransferVerified && event_action(next[v]) == event_action(next[k])
        } by {
            if k == journal.len() {
                let m = journal.len() - 1;
                assert(next[m] == journal.last());
                assert(next[verified_at] == journal[verified_at]);
            } else {
                assert(journal[k] is RemovalStarted);
                let (m, v) = choose|m: int, v: int| 0 <= v < m < k
                    && (#[trigger] journal[m]) is ProofBoundary && event_action(journal[m]) == event_action(journal[k])
                    && (#[trigger] journal[v]) is TransferVerified && event_action(journal[v]) == event_action(journal[k]);
                assert(next[m] == journal[m]);
                assert(next[v] == journal[v]);
            }
        }
    }
}

/// Appending a planning event to a journal of planning events.
pub proof fn lemma_push_planned(journal: Seq<JournalEvent>, event: JournalEvent)
    requires
        event is Planned,
        all_planned(journal),
    ensures
        all_planned(journal.push(event)),
        planned_first(journal.push(event)),
        removal_after_proof(journal.push(event)),
        planned_ids(journal.push(event)) == planned_ids(journal).push(event_action(event)),
{
    let next = journal.push(event);
    assert(next.drop_last() =~= journal);
}


/// Every planned id is in `planned_ids`.
pub proof fn lemma_planned_member(journal: Seq<JournalEvent>, p: int)
    requires
        0 <= p < journal.len(),
        journal[p] is Planned,
    ensures
        planned_ids(journal).contains(journal[p]->action.action_id),
    decreases journal.len(),
{
    let rest = journal.drop_last();
    if p == journal.len() - 1 {
        assert(planned_ids(journal) == planned_ids(rest).push(journal[p]->action.action_id));
        assert(planned_ids(journal)[planned_ids(rest).len() as int] == journal[p]->action.action_id);
    } else {
        assert(rest[p] == journal[p]);
        lemma_planned_member(rest, p);
        let w = choose|w: int| 0 <= w < planned_ids(rest).len() && planned_ids(rest)[w] == journal[p]->action.action_id;
        match journal.last() {
            JournalEvent::Planned { action } => {
                assert(planned_ids(journal)[w] == planned_ids(rest)[w]);
            },
            _ => {},
        }
    }
}

/// Ids that occur at most once in a sequence.
pub open spec fn unique_ids(ids: Seq<u64>) -> bool {
    forall|i: int, j: int| 0 <= i < ids.len() && 0 <= j < ids.len() && i != j ==> ids[i] != ids[j]
}

/// Two planning events of a journal whose planned ids are unique plan
/// different actions.
pub proof fn lemma_planned_positions_distinct(journal: Seq<JournalEvent>, p: int, q: int)
    requires
        unique_ids(planned_ids(journal)),
        0 <= p < q < journal.len(),
        journal[p] is Planned,
        journal[q] is Planned,
    ensures
        journal[p]->action.action_id != journal[q]->action.action_id,
    decreases journal.len(),
{
    let rest = journal.drop_last();
    assert(rest[p] == journal[p]);
    let ids = planned_ids(journal);
    let rest_ids = planned_ids(rest);
    if q == journal.len() - 1 {
        assert(ids == rest_ids.push(journal[q]->action.action_id));
        lemma_planned_member(rest, p);
        let w = choose|w: int| 0 <= w < rest_ids.len() && rest_ids[w] == journal[p]->action.action_id;
        assert(ids[w] == rest_ids[w]);
        assert(ids[rest_ids.len() as int] == journal[q]->action.action_id);
    } else {
        assert(rest[q] == journal[q]);
        match journal.last() {
            JournalEvent::Planned { action } => {
                assert(ids == rest_ids.push(action.action_id));
                assert forall|i: int, j: int| 0 <= i < rest_ids.len() && 0 <= j < rest_ids.len() && i != j
                    implies rest_ids[i] != rest_ids[j] by {
                    assert(ids[i] == rest_ids[i]);
                    assert(ids[j] == rest_ids[j]);
                }
            },
            _ => {
                assert(ids == rest_ids);
            },
        }
        lemma_planned_positions_distinct(rest, p, q);
    }
}

/// Whether the ids are pairwise distinct.
pub fn ids_unique(ids: &Vec<u64>) -> (unique: bool)
    ensures
        unique == unique_ids(ids@),
{
    let mut i: usize = 0;
    while i < ids.len()
        invariant
            i <= ids@.len(),
            forall|a: int, b: int| 0 <= a < i && 0 <= b < ids@.len() && a != b ==> ids@[a] != ids@[b],
        decreases ids@.len() - i,
    {
        let mut j: usize = 0;
        while j < ids.len()
            invariant
                i < ids@.len(),
                j <= ids@.len(),
                forall|a: int, b: int| 0 <= a < i && 0 <= b < ids@.len() && a != b ==> ids@[a] != ids@[b],
                forall|b: int| 0 <= b < j && b != i ==> ids@[i as int] != ids@[b],
            decreases ids@.len() - j,
        {
            if j != i && ids[i] == ids[j] {
                return false;
            }
            j += 1;
        }
        i += 1;
    }
    true
}

/// Action `id` verified its transfer, or, unless only verified transfers
/// count, reached its proof boundary.
pub open spec fn reached_boundary(journal: Seq<JournalEvent>, id: u64, transfers_only: bool) -> bool {
    exists|k: int| 0 <= k < journal.len() && event_action(#[trigger] journal[k]) == id
        && (journal[k] is TransferVerified || (!transfers_only && journal[k] is ProofBoundary))
}

/// How an open action of an interrupted run is settled before a resume: a
/// Recovery Review at the interrupted boundary when the action had reached
/// a verified boundary (for a local run, only a source removal), otherwise
/// interrupted.
pub open spec fn interruption_outcome(journal: Seq<JournalEvent>, record: PlanRecord, remote: bool) -> ActionOutcome {
    if reached_boundary(journal, record.action_id, remote)
        && (remote || record.kind == PlanActionKind::RemoveSourceAfterVerification) {
        ActionOutcome::RecoveryReview(ActionReason::InterruptedBoundary)
    } else {
        ActionOutcome::Interrupted
    }
}

/// The action planned at `p` is a source removal that is still open although
/// its transfer was verified or it reached its proof boundary: the removal
/// may already have happened.
pub open spec fn open_removal_at_boundary(journal: Seq<JournalEvent>, p: int) -> bool {
    &&& 0 <= p < journal.len()
    &&& journal[p] is Planned
    &&& journal[p]->action.kind == PlanActionKind::RemoveSourceAfterVerification
    &&& outcome_in(journal, journal[p]->action.action_id) == ActionOutcome::InProgress
    &&& exists|k: int| 0 <= k < journal.len() && event_action(#[trigger] journal[k]) == journal[p]->action.action_id
        && (journal[k] is TransferVerified || journal[k] is ProofBoundary)
}

/// When a local run is classified for a resume, an open source removal that
/// had verified its transfer or reached its proof boundary goes to Recovery
/// Review at the interrupted boundary; it is never merely interrupted.
pub proof fn open_removal_at_boundary_needs_review(journal: Seq<JournalEvent>, p: int)
    requires
        open_removal_at_boundary(journal, p),
    ensures
        classified_outcome(journal, journal[p]->action, false)
            == ActionOutcome::RecoveryReview(ActionReason::InterruptedBoundary),
{
    let id = journal[p]->action.action_id;
    let k = choose|k: int| 0 <= k < journal.len() && event_action(#[trigger] journal[k]) == id
        && (journal[k] is TransferVerified || journal[k] is ProofBoundary);
    assert(reached_boundary(journal, id, false));
}

/// When a local run is classified for a resume, an open action that is not
/// a source removal, or that verified no transfer and reached no proof
/// boundary, is interrupted.
pub proof fn local_open_actions_without_removal_boundary_are_interrupted(journal: Seq<JournalEvent>, p: int)
    requires
        0 <= p < journal.len(),
        journal[p] is Planned,
        outcome_in(journal, journal[p]->action.action_id) == ActionOutcome::InProgress,
        journal[p]->action.kind != PlanActionKind::RemoveSourceAfterVerification
            || forall|k: int| 0 <= k < journal.len() && event_action(#[trigger] journal[k]) == journal[p]->action.action_id
                ==> !(journal[k] is TransferVerified) && !(journal[k] is ProofBoundary),
    ensures
        classified_outcome(journal, journal[p]->action, false) == ActionOutcome::Interrupted,
{
}

/// When an SSH run is classified for a resume, any open action whose
/// transfer was verified goes to Recovery Review at the interrupted
/// boundary; an open action that verified nothing is interrupted.
pub proof fn remote_open_actions_classify_by_verified_transfer(journal: Seq<JournalEvent>, p: int)
    requires
        0 <= p < journal.len(),
        journal[p] is Planned,
        outcome_in(journal, journal[p]->action.action_id) == ActionOutcome::InProgress,
    ensures
        (exists|k: int| 0 <= k < journal.len() && event_action(#[trigger] journal[k]) == journal[p]->action.action_id
            && journal[k] is TransferVerified)
            ==> classified_outcome(journal, journal[p]->action, true)
                == ActionOutcome::RecoveryReview(ActionReason::InterruptedBoundary),
        (forall|k: int| 0 <= k < journal.len() && event_action(#[trigger] journal[k]) == journal[p]->action.action_id
            ==> !(journal[k] is TransferVerified))
            ==> classified_outcome(journal, journal[p]->action, true) == ActionOutcome::Interrupted,
{
}

/// The outcome of a planned action once the run's open actions are classified.
pub open spec fn classified_outcome(journal: Seq<JournalEvent>, record: PlanRecord, remote: bool) -> ActionOutcome {
    if outcome_in(journal, record.action_id) == ActionOutcome::InProgress {
        interruption_outcome(journal, record, remote)
    } else {
        outcome_in(journal, record.action_id)
    }
}

pub fn boundary_reached(journal: &Vec<JournalEvent>, id: u64, transfers_only: bool) -> (reached: bool)
    ensures
        reached == reached_boundary(journal@, id, transfers_only),
{
    let mut index: usize = 0;
    while index < journal.len()
        invariant
            index <= journal@.len(),
            forall|k: int| 0 <= k < index ==> !(event_action(#[trigger] journal@[k]) == id
                && (journal@[k] is TransferVerified || (!transfers_only && journal@[k] is ProofBoundary))),
        decreases journal@.len() - index,
    {
        let event = &journal[index];
        if event.action_id() == id {
            let hit = match event {
                JournalEvent::TransferVerified { .. } => true,
                JournalEvent::ProofBoundary { .. } => !transfers_only,
                _ => false,
            };
            if hit {
                return true;
            }
        }
        index += 1;
    }
    false
}

} // verus!
