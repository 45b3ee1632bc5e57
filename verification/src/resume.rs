//! Resuming an incomplete Sync Run: its open action boundaries are
//! classified first, then a new run goes through every gate of a fresh one.
use vstd::prelude::*;

use crate::journal::{
    ids_unique, planned_action_ids, OneWayPlan, boundary_reached, classified_outcome, lemma_outcome_after_settling_event,
    lemma_outcome_unchanged_by_other_events, lemma_planned_positions_distinct, outcome_in, outcome_of, planned_ids,
    unique_ids, JournalEvent, lemma_planned_member, lemma_max_rank_bounds, lemma_max_rank_nonneg, max_rank, reconciled_status, open_removal_at_boundary, open_removal_at_boundary_needs_review, recovery_review_dominates,
};
use crate::model::{ActionOutcome, ActionReason, PeerSide, PlanActionKind, RunId};
use crate::profile::{same_profile, side_peer, AuthorizationSnapshot, SyncProfile};
use crate::model::SyncMode;
use crate::scope_lock::ScopeLockOwner;
use crate::scope_lock::{HeldScope, PeerScopeLockRegistry};
use crate::status::RunReportStatus;
use crate::ssh::{
    all_removals_trash, lemma_ssh_lifecycle_without_effects, permit_fits, ssh_lifecycle_calls, remote_prechecks_bounded, ssh_of, ssh_peer_for_profile, ssh_side, validate_ssh_permits, SshHostTrustPermit, SshRunBackend,
};
use crate::store::{RunReport, RunSnapshot, StorageError};
use crate::store::RunEvidenceStore;
use crate::calls::{
    added, appended, call_fresh_analysis, call_precheck, effect_free, execution_call, execution_only, lemma_added_push,
    lemma_added_refl, lemma_added_trans, lemma_calls_concat, removal_started, removals_follow_start, EnvCall,
};
use crate::workflow::{
    action_ids, journaled_new_run, all_planned_settled, journal_only, lemma_journal_only_refl, lemma_journal_only_trans, locks_released, ordered,
    executable_plan, frame_kept, lemma_acquire_then_release, persist_blocked, profile_peer_scopes, record_event, report_of, PrecheckBlocked, PrecheckFailure, PrecheckPassed, RunEnvironment, RunWorkflow,
    VolumeExpectation, WorkflowError,
};

verus! {

/// Every planned id comes from a planning event of the journal.
proof fn lemma_planned_source(journal: Seq<JournalEvent>, i: int)
    requires
        0 <= i < planned_ids(journal).len(),
    ensures
        exists|p: int| 0 <= p < journal.len() && (#[trigger] journal[p]) is Planned
            && journal[p]->action.action_id == planned_ids(journal)[i],
    decreases journal.len(),
{
    let rest = journal.drop_last();
    let last = journal.len() - 1;
    match journal.last() {
        JournalEvent::Planned { action } => {
            if i == planned_ids(rest).len() {
                assert(journal[last] is Planned);
            } else {
                lemma_planned_source(rest, i);
                let p = choose|p: int| 0 <= p < rest.len() && (#[trigger] rest[p]) is Planned
                    && rest[p]->action.action_id == planned_ids(rest)[i];
                assert(journal[p] == rest[p]);
            }
        },
        _ => {
            lemma_planned_source(rest, i);
            let p = choose|p: int| 0 <= p < rest.len() && (#[trigger] rest[p]) is Planned
                && rest[p]->action.action_id == planned_ids(rest)[i];
            assert(journal[p] == rest[p]);
        },
    }
}

/// Settles the action planned at position `p` of `start` when it is still
/// open; every other planned action keeps its outcome.
fn classify_at(
    store: &mut RunEvidenceStore,
    run_id: RunId,
    journal: &Vec<JournalEvent>,
    p: usize,
    remote: bool,
) -> (appended: Result<bool, WorkflowError>)
    requires
        old(store).consistent(),
        old(store).has_run(run_id),
        p < journal@.len(),
        journal@.len() <= old(store).journal(run_id).len(),
        old(store).journal(run_id).subrange(0, journal@.len() as int) == journal@,
        unique_ids(planned_ids(journal@)),
        journal@[p as int] is Planned ==> outcome_in(old(store).journal(run_id), journal@[p as int]->action.action_id)
            == outcome_in(journal@, journal@[p as int]->action.action_id),
    ensures
        appended is Ok,
        journal_only(*old(store), *final(store), run_id),
        final(store).journal(run_id).len() == old(store).journal(run_id).len() + (if appended == Ok::<bool, WorkflowError>(true) { 1int } else { 0int }),
        final(store).journal(run_id).subrange(0, old(store).journal(run_id).len() as int) == old(store).journal(run_id),
        ordered(old(store).journal(run_id)) ==> ordered(final(store).journal(run_id)),
        planned_ids(final(store).journal(run_id)) == planned_ids(old(store).journal(run_id)),
        journal@[p as int] is Planned ==> outcome_in(final(store).journal(run_id), journal@[p as int]->action.action_id)
            == classified_outcome(journal@, journal@[p as int]->action, remote),
        forall|q: int| 0 <= q < journal@.len() && q != p && (#[trigger] journal@[q]) is Planned ==>
            outcome_in(final(store).journal(run_id), journal@[q]->action.action_id)
                == outcome_in(old(store).journal(run_id), journal@[q]->action.action_id),
{
    let ghost first_store = *store;
    let ghost start = journal@;
    let ghost before = store.journal(run_id);
    proof {
        lemma_journal_only_refl(first_store, run_id);
        assert(before.subrange(0, before.len() as int) =~= before);
    }
    if let JournalEvent::Planned { action } = &journal[p] {
        let id = action.action_id;
        let open = match outcome_of(journal, id) {
            ActionOutcome::InProgress => true,
            _ => false,
        };
        if open {
            let at_boundary = boundary_reached(journal, id, remote);
            let removal = match action.kind {
                PlanActionKind::RemoveSourceAfterVerification => true,
                _ => false,
            };
            let event = if at_boundary && (remote || removal) {
                JournalEvent::RecoveryReview { action_id: id, reason: ActionReason::InterruptedBoundary }
            } else {
                JournalEvent::Interrupted { action_id: id }
            };
            record_event(store, run_id, event, Ghost(before))?;
            proof {
                let after = store.journal(run_id);
                assert(after == before + seq![event]);
                lemma_outcome_after_settling_event(before, event);
                assert forall|q: int| 0 <= q < start.len() && q != p && (#[trigger] start[q]) is Planned implies
                    outcome_in(after, start[q]->action.action_id) == outcome_in(before, start[q]->action.action_id) by {
                    if q < p {
                        lemma_planned_positions_distinct(start, q, p as int);
                    } else {
                        lemma_planned_positions_distinct(start, p as int, q);
                    }
                    lemma_outcome_unchanged_by_other_events(before, seq![event], start[q]->action.action_id);
                }
                assert(after.subrange(0, before.len() as int) =~= before);
            }
            return Ok(true);
        }
    }
    Ok(false)
}

/// Settles every open planned action of run `run_id`, whose journal is
/// `journal`: a Recovery Review at the interrupted boundary where the
/// action had reached a verified boundary (`remote`: a verified transfer of
/// any action; otherwise a verified transfer or proof boundary of a source
/// removal), otherwise interrupted. Returns whether any action was open.
pub(crate) fn classify_open_actions(
    store: &mut RunEvidenceStore,
    run_id: RunId,
    journal: &Vec<JournalEvent>,
    remote: bool,
) -> (result: Result<bool, WorkflowError>)
    requires
        old(store).consistent(),
        old(store).has_run(run_id),
        journal@ == old(store).journal(run_id),
        unique_ids(planned_ids(journal@)),
    ensures
        journal_only(*old(store), *final(store), run_id),
        journal@.len() <= final(store).journal(run_id).len(),
        final(store).journal(run_id).subrange(0, journal@.len() as int) == journal@,
        ordered(journal@) ==> ordered(final(store).journal(run_id)),
        planned_ids(final(store).journal(run_id)) == planned_ids(journal@),
        forall|p: int| 0 <= p < journal@.len() && (#[trigger] journal@[p]) is Planned ==>
            outcome_in(final(store).journal(run_id), journal@[p]->action.action_id)
                == classified_outcome(journal@, journal@[p]->action, remote),
        all_planned_settled(final(store).journal(run_id)),
        result == Ok::<bool, WorkflowError>(final(store).journal(run_id).len() > journal@.len()),
{
    let ghost first_store = *store;
    let ghost start = journal@;
    proof {
        lemma_journal_only_refl(first_store, run_id);
        assert(start.subrange(0, start.len() as int) =~= start);
    }
    let mut changed = false;
    let mut p: usize = 0;
    while p < journal.len()
        invariant
            p <= start.len(),
            start == journal@,
            start == first_store.journal(run_id),
            unique_ids(planned_ids(start)),
            journal_only(first_store, *store, run_id),
            start.len() <= store.journal(run_id).len(),
            store.journal(run_id).subrange(0, start.len() as int) == start,
            ordered(start) ==> ordered(store.journal(run_id)),
            planned_ids(store.journal(run_id)) == planned_ids(start),
            changed == (store.journal(run_id).len() > start.len()),
            forall|q: int| 0 <= q < p && (#[trigger] start[q]) is Planned ==>
                outcome_in(store.journal(run_id), start[q]->action.action_id) == classified_outcome(start, start[q]->action, remote),
            forall|q: int| p <= q < start.len() && (#[trigger] start[q]) is Planned ==>
                outcome_in(store.journal(run_id), start[q]->action.action_id) == outcome_in(start, start[q]->action.action_id),
        decreases start.len() - p,
    {
        let ghost before_store = *store;
        let ghost before = store.journal(run_id);
        let appended = classify_at(store, run_id, journal, p, remote)?;
        proof {
            lemma_journal_only_trans(first_store, before_store, *store, run_id);
            let after = store.journal(run_id);
            assert(after.subrange(0, start.len() as int) =~= before.subrange(0, start.len() as int));
        }
        if appended {
            changed = true;
        }
        p += 1;
    }
    proof {
        let j = store.journal(run_id);
        assert forall|i: int| 0 <= i < planned_ids(j).len()
            implies outcome_in(j, #[trigger] planned_ids(j)[i]) != ActionOutcome::InProgress by {
            lemma_planned_source(start, i);
        }
    }
    Ok(changed)
}


/// A run that may be resumed: not completed, not cleared, and not waiting
/// for Recovery Review.
pub open spec fn resumable_status(status: RunReportStatus) -> bool {
    !(status == RunReportStatus::Completed || status == RunReportStatus::ReviewCleared
        || status == RunReportStatus::RecoveryReview)
}

/// The workflow holds no lock after the call that it did not hold before.
pub open spec fn holds_no_new_locks(before: PeerScopeLockRegistry, after: PeerScopeLockRegistry) -> bool {
    &&& after.exclusive()
    &&& forall|h: HeldScope| #[trigger] after.held_scopes().contains(h) ==> before.held_scopes().contains(h)
}

proof fn lemma_released_holds_no_new_locks(before: PeerScopeLockRegistry, after: PeerScopeLockRegistry, run_id: RunId)
    requires
        locks_released(before, after, run_id),
    ensures
        holds_no_new_locks(before, after),
{
    assert forall|h: HeldScope| #[trigger] after.held_scopes().contains(h) implies before.held_scopes().contains(h) by {
        let w = choose|w: int| 0 <= w < after.held_scopes().len() && after.held_scopes()[w] == h;
        assert(after.held_scopes()[w].owner.run_id != run_id);
    }
}

/// The old run once its open actions are classified: every action it
/// planned is settled as classification decides, its snapshot is kept, it
/// does not need Recovery Review, and it is Interrupted when an open action
/// was settled as interrupted.
pub open spec fn classified_run(before: RunEvidenceStore, after: RunEvidenceStore, run_id: RunId, remote: bool) -> bool {
    &&& after.has_run(run_id)
    &&& after.snapshot(run_id) == before.snapshot(run_id)
    &&& after.run_status(run_id) != RunReportStatus::RecoveryReview
    &&& all_planned_settled(after.journal(run_id))
    &&& forall|p: int| 0 <= p < before.journal(run_id).len() && (#[trigger] before.journal(run_id)[p]) is Planned ==>
        outcome_in(after.journal(run_id), before.journal(run_id)[p]->action.action_id)
            == classified_outcome(before.journal(run_id), before.journal(run_id)[p]->action, remote)
    &&& interrupted_by_classification(before.journal(run_id), remote) ==> after.run_status(run_id) == RunReportStatus::Interrupted
    &&& !remote ==> forall|p: int| !open_removal_at_boundary(before.journal(run_id), p)
}

/// What a resumed run leaves: the old run's open actions classified and
/// no longer in Recovery Review, and `report` the record of a new run of
/// the old run's profile and authorizations that settled every planned
/// action; no other run changed.
pub open spec fn resumed_run(
    before: RunEvidenceStore,
    after: RunEvidenceStore,
    run_id: RunId,
    report: RunReport,
    remote: bool,
) -> bool {
    let next = report.snapshot.run_id;
    &&& next != run_id
    &&& !before.has_run(next)
    &&& classified_run(before, after, run_id, remote)
    &&& report_of(report, after, next)
    &&& after.has_run(next)
    &&& same_profile(after.snapshot(next).profile, before.snapshot(run_id).profile)
    &&& after.snapshot(next).authorizations == before.snapshot(run_id).authorizations
    &&& after.blocked_reason(next) is None
    &&& ordered(after.journal(next))
    &&& all_planned_settled(after.journal(next))
    &&& forall|other: RunId| other != run_id && other != next ==> {
        &&& #[trigger] after.has_run(other) == before.has_run(other)
        &&& before.has_run(other) ==> {
            &&& after.journal(other) == before.journal(other)
            &&& after.run_status(other) == before.run_status(other)
            &&& after.snapshot(other) == before.snapshot(other)
            &&& after.blocked_reason(other) == before.blocked_reason(other)
        }
    }
}

/// What every resume promises whatever the precheck, analysis and transfer
/// calls returned.
pub open spec fn resume_outcome(
    before: RunWorkflow,
    after: RunWorkflow,
    store_before: RunEvidenceStore,
    store_after: RunEvidenceStore,
    run_id: RunId,
    result: Result<RunReport, WorkflowError>,
    remote: bool,
) -> bool {
    &&& after.recovery_method == before.recovery_method
    &&& after.supervisor == before.supervisor
    &&& holds_no_new_locks(before.scope_locks, after.scope_locks)
    &&& store_after.consistent()
    &&& (!store_before.has_run(run_id) ==> result == Err::<RunReport, WorkflowError>(WorkflowError::Storage(StorageError::UnknownRun))
        && store_after.unchanged_from(store_before))
    &&& (store_before.has_run(run_id) && !resumable_status(store_before.run_status(run_id)) ==>
        (result matches Err(error) && error is InvalidRun) && store_after.unchanged_from(store_before))
    &&& (result matches Ok(report) ==> resumed_run(store_before, store_after, run_id, report, remote))
}

/// The volume identity a snapshot recorded for one side.
pub fn snapshot_volume(snapshot: &RunSnapshot, side: PeerSide) -> (volume: Option<u64>)
    ensures
        volume == (match side {
            PeerSide::PeerA => snapshot.peer_a_volume,
            PeerSide::PeerB => snapshot.peer_b_volume,
        }),
{
    match side {
        PeerSide::PeerA => snapshot.peer_a_volume,
        PeerSide::PeerB => snapshot.peer_b_volume,
    }
}

/// Every precheck that may accept a replaced volume was preceded by an
/// explicit replacement confirmation.
pub open spec fn replacement_confirmed_first<A: FnOnce(&PrecheckBlocked) -> bool>(calls: Seq<EnvCall>, authorize_replacement: A) -> bool {
    forall|i: int| 0 <= i < calls.len() && (#[trigger] calls[i] matches EnvCall::Precheck { expectation, .. } && expectation.allow_replacement)
        ==> exists|blocked: PrecheckBlocked| #[trigger] call_ensures(authorize_replacement, (&blocked,), true)
}

/// No precheck of `calls` accepts a replaced volume.
pub open spec fn no_replacement_precheck(calls: Seq<EnvCall>) -> bool {
    forall|i: int| 0 <= i < calls.len() ==> !(#[trigger] calls[i] matches EnvCall::Precheck { expectation, .. } && expectation.allow_replacement)
}

/// Calls of a confirmed plan make no precheck.
proof fn lemma_execution_keeps_resume_calls(calls: Seq<EnvCall>)
    requires
        execution_only(calls) || forall|i: int| 0 <= i < calls.len() ==> (#[trigger] calls[i]) is CleanupPartials,
    ensures
        no_replacement_precheck(calls),
        (forall|i: int| 0 <= i < calls.len() ==> (#[trigger] calls[i]) is CleanupPartials) ==> removals_follow_start(calls),
{
    assert forall|i: int| 0 <= i < calls.len() implies !(#[trigger] calls[i] matches EnvCall::Precheck { expectation, .. } && expectation.allow_replacement) by {
        if execution_only(calls) {
            assert(execution_call(calls[i]));
        }
    }
}

proof fn lemma_resume_calls_concat(a: Seq<EnvCall>, b: Seq<EnvCall>)
    requires
        removals_follow_start(a),
        no_replacement_precheck(a),
        removals_follow_start(b),
        no_replacement_precheck(b),
    ensures
        removals_follow_start(a + b),
        no_replacement_precheck(a + b),
{
    lemma_calls_concat(a, b);
    let c = a + b;
    assert forall|i: int| 0 <= i < c.len() implies !(#[trigger] c[i] matches EnvCall::Precheck { expectation, .. } && expectation.allow_replacement) by {
        if i < a.len() {
            assert(c[i] == a[i]);
        } else {
            assert(c[i] == b[i - a.len()]);
        }
    }
}

/// The resume precheck against the recorded volume identities; a volume
/// that was only replaced is accepted after the separate replacement
/// confirmation alone. The first precheck expects the recorded volumes; a
/// second one, accepting a replaced volume, is made only when the first
/// found nothing but a replaced volume and the confirmation agreed; the
/// result is the last precheck's answer.
fn resume_precheck<E: RunEnvironment, A: FnOnce(&PrecheckBlocked) -> bool>(
    env: &E,
    profile: &SyncProfile,
    source_volume: Option<u64>,
    destination_volume: Option<u64>,
    authorize_replacement: A,
    calls: &mut Ghost<Seq<EnvCall>>,
) -> (result: Result<PrecheckPassed, PrecheckFailure>)
    requires
        forall|blocked: &PrecheckBlocked| #[trigger] call_requires(authorize_replacement, (blocked,)),
    ensures
        appended(old(calls)@, final(calls)@),
        added(old(calls)@, final(calls)@).len() == 1 || added(old(calls)@, final(calls)@).len() == 2,
        added(old(calls)@, final(calls)@)[0] == (EnvCall::Precheck {
            expectation: VolumeExpectation { source_volume, destination_volume, require_recorded: true, allow_replacement: false },
            answer: added(old(calls)@, final(calls)@)[0]->Precheck_answer,
        }),
        added(old(calls)@, final(calls)@).len() == 2 ==> {
            &&& added(old(calls)@, final(calls)@)[0]->Precheck_answer matches Err(PrecheckFailure::Blocked(blocked))
                && blocked.replacement_only && call_ensures(authorize_replacement, (&blocked,), true)
            &&& added(old(calls)@, final(calls)@)[1] == (EnvCall::Precheck {
                expectation: VolumeExpectation { source_volume, destination_volume, require_recorded: true, allow_replacement: true },
                answer: result,
            })
        },
        added(old(calls)@, final(calls)@).len() == 1 ==> result == added(old(calls)@, final(calls)@)[0]->Precheck_answer,
        replacement_confirmed_first(added(old(calls)@, final(calls)@), authorize_replacement),
        removals_follow_start(added(old(calls)@, final(calls)@)),
        effect_free(added(old(calls)@, final(calls)@)),
{
    let ghost start = calls@;
    let expectation = VolumeExpectation { source_volume, destination_volume, require_recorded: true, allow_replacement: false };
    let first = call_precheck(env, profile, &expectation, calls);
    let ghost once = calls@;
    proof {
        lemma_added_push(start, calls@.last());
    }
    match first {
        Ok(passed) => Ok(passed),
        Err(failure) => {
            let replacement_authorized = match &failure {
                PrecheckFailure::Blocked(blocked) => blocked.replacement_only && authorize_replacement(blocked),
                _ => false,
            };
            if replacement_authorized {
                let replacement = VolumeExpectation { source_volume, destination_volume, require_recorded: true, allow_replacement: true };
                let second = call_precheck(env, profile, &replacement, calls);
                proof {
                    lemma_added_push(once, calls@.last());
                    lemma_added_trans(start, once, calls@);
                    assert(added(start, calls@) =~= seq![once.last(), calls@.last()]);
                    let blocked = failure->Blocked_0;
                    assert(call_ensures(authorize_replacement, (&blocked,), true));
                }
                second
            } else {
                Err(failure)
            }
        },
    }
}


/// A local run that was resumed had no open source removal that had
/// verified its transfer or reached its proof boundary: such a run goes to
/// Recovery Review and is not resumed.
pub proof fn resumed_local_runs_had_no_removal_at_boundary(
    before: RunEvidenceStore,
    after: RunEvidenceStore,
    run_id: RunId,
    report: RunReport,
    p: int,
)
    requires
        resumed_run(before, after, run_id, report, false),
    ensures
        !open_removal_at_boundary(before.journal(run_id), p),
{
}

/// Classifying an open source removal that reached its boundary appends to
/// the journal and leaves a journal that reconciles to Recovery Review.
proof fn lemma_open_removal_forces_review(before: Seq<JournalEvent>, after: Seq<JournalEvent>, p: int)
    requires
        open_removal_at_boundary(before, p),
        before.len() <= after.len(),
        after.subrange(0, before.len() as int) == before,
        planned_ids(after) == planned_ids(before),
        outcome_in(after, before[p]->action.action_id) == classified_outcome(before, before[p]->action, false),
    ensures
        after.len() > before.len(),
        reconciled_status(after, false) == RunReportStatus::RecoveryReview,
{
    open_removal_at_boundary_needs_review(before, p);
    let id = before[p]->action.action_id;
    if after.len() == before.len() {
        assert(after =~= before);
    }
    lemma_planned_member(before, p);
    let i = choose|i: int| 0 <= i < planned_ids(after).len() && planned_ids(after)[i] == id;
    recovery_review_dominates(after, false, i);
}

/// Some action of the journal was open and its classification settles it
/// as interrupted.
pub open spec fn interrupted_by_classification(journal: Seq<JournalEvent>, remote: bool) -> bool {
    exists|p: int| 0 <= p < journal.len() && (#[trigger] journal[p]) is Planned
        && outcome_in(journal, journal[p]->action.action_id) == ActionOutcome::InProgress
        && classified_outcome(journal, journal[p]->action, remote) == ActionOutcome::Interrupted
}

/// Classifies the open actions of run `run_id` for a resume, records the
/// status they leave it in, and refuses a run that now needs Recovery
/// Review.
fn classify_for_resume(
    store: &mut RunEvidenceStore,
    run_id: RunId,
    journal: &Vec<JournalEvent>,
    remote: bool,
    refusal: &str,
) -> (result: Result<(), WorkflowError>)
    requires
        old(store).consistent(),
        old(store).has_run(run_id),
        journal@ == old(store).journal(run_id),
        unique_ids(planned_ids(journal@)),
    ensures
        final(store).consistent(),
        final(store).has_run(run_id),
        final(store).snapshot(run_id) == old(store).snapshot(run_id),
        final(store).others_unchanged(*old(store), run_id),
        result matches Err(error) ==> error is InvalidRun,
        result is Ok ==> {
            &&& final(store).run_status(run_id) != RunReportStatus::RecoveryReview
            &&& all_planned_settled(final(store).journal(run_id))
            &&& forall|p: int| 0 <= p < journal@.len() && (#[trigger] journal@[p]) is Planned ==>
                outcome_in(final(store).journal(run_id), journal@[p]->action.action_id)
                    == classified_outcome(journal@, journal@[p]->action, remote)
        },
        result is Ok && interrupted_by_classification(journal@, remote)
            ==> final(store).run_status(run_id) == RunReportStatus::Interrupted,
        result is Ok && !remote ==> forall|p: int| !open_removal_at_boundary(journal@, p),
{
    let ghost start = *store;
    let changed = classify_open_actions(store, run_id, journal, remote)?;
    proof {
        if interrupted_by_classification(journal@, remote) {
            let p = choose|p: int| 0 <= p < journal@.len() && (#[trigger] journal@[p]) is Planned
                && outcome_in(journal@, journal@[p]->action.action_id) == ActionOutcome::InProgress
                && classified_outcome(journal@, journal@[p]->action, remote) == ActionOutcome::Interrupted;
            let id = journal@[p]->action.action_id;
            let j = store.journal(run_id);
            if j.len() == journal@.len() {
                assert(j =~= journal@);
            }
            assert(changed);
            lemma_planned_member(journal@, p);
            let i = choose|i: int| 0 <= i < planned_ids(j).len() && planned_ids(j)[i] == id;
            lemma_max_rank_bounds(j, planned_ids(j), i);
            lemma_max_rank_nonneg(j, planned_ids(j));
            assert(max_rank(j, planned_ids(j)) >= 4);
        }
        if !remote && exists|p: int| open_removal_at_boundary(journal@, p) {
            let p = choose|p: int| open_removal_at_boundary(journal@, p);
            lemma_open_removal_forces_review(journal@, store.journal(run_id), p);
        }
    }
    let ghost classified = *store;
    proof {
        reveal(frame_kept);
    }
    if changed {
        match store.record_reconciliation(run_id, false) {
            Ok(()) => {},
            Err(storage) => return Err(WorkflowError::Storage(storage)),
        }
        proof {
            assert forall|other: RunId| other != run_id implies {
                &&& #[trigger] store.has_run(other) == start.has_run(other)
                &&& start.has_run(other) ==> {
                    &&& store.journal(other) == start.journal(other)
                    &&& store.run_status(other) == start.run_status(other)
                    &&& store.snapshot(other) == start.snapshot(other)
                    &&& store.blocked_reason(other) == start.blocked_reason(other)
                }
            } by {
                assert(classified.has_run(other) == start.has_run(other));
                assert(store.has_run(other) == classified.has_run(other));
            }
        }
    }
    proof {
        if (!remote && exists|p: int| open_removal_at_boundary(journal@, p)) || interrupted_by_classification(journal@, remote) {
            assert(changed);
            assert(store.run_status(run_id) == reconciled_status(classified.journal(run_id), false));
        }
    }
    let status = match store.load_report(run_id) {
        Ok(report) => report.status,
        Err(storage) => return Err(WorkflowError::Storage(storage)),
    };
    if status == RunReportStatus::RecoveryReview {
        return Err(WorkflowError::InvalidRun(String::from_str(refusal)));
    }
    Ok(())
}

impl RunWorkflow {
    /// The part of a local resume that runs while the new run's scopes are
    /// locked, once the old run's open actions are classified (`start` is the
    /// store before that): Fresh Analysis, explicit confirmation, a second
    /// precheck and execution as run `next`.
    fn resume_locked<E: RunEnvironment, C: FnOnce(&OneWayPlan) -> bool, F: Fn() -> bool>(
        &self,
        run_id: RunId,
        next: RunId,
        journal: &Vec<JournalEvent>,
        profile: &SyncProfile,
        authorizations: AuthorizationSnapshot,
        expected_source: Option<u64>,
        expected_destination: Option<u64>,
        passed: PrecheckPassed,
        env: &E,
        confirm: C,
        store: &mut RunEvidenceStore,
        should_cancel: &F,
        Ghost(start): Ghost<RunEvidenceStore>,
        calls: &mut Ghost<Seq<EnvCall>>,
    ) -> (result: Result<RunReport, WorkflowError>)
        requires
            start.consistent(),
            start.has_run(run_id),
            !start.has_run(next),
            next != run_id,
            journal@ == start.journal(run_id),
            same_profile(*profile, start.snapshot(run_id).profile),
            authorizations == start.snapshot(run_id).authorizations,
            old(store).consistent(),
            old(store).has_run(run_id),
            old(store).snapshot(run_id) == start.snapshot(run_id),
            old(store).others_unchanged(start, run_id),
            old(store).run_status(run_id) != RunReportStatus::RecoveryReview,
            all_planned_settled(old(store).journal(run_id)),
            forall|p: int| 0 <= p < journal@.len() && (#[trigger] journal@[p]) is Planned ==>
                outcome_in(old(store).journal(run_id), journal@[p]->action.action_id)
                    == classified_outcome(journal@, journal@[p]->action, false),
            interrupted_by_classification(journal@, false) ==> old(store).run_status(run_id) == RunReportStatus::Interrupted,
            forall|p: int| !open_removal_at_boundary(journal@, p),
            forall|plan: &OneWayPlan| #[trigger] call_requires(confirm, (plan,)),
            forall|| #[trigger] call_requires(*should_cancel, ()),
        ensures
            final(store).consistent(),
            appended(old(calls)@, final(calls)@),
            removals_follow_start(added(old(calls)@, final(calls)@)),
            no_replacement_precheck(added(old(calls)@, final(calls)@)),
            final(store).others_unchanged(*old(store), next),
            result matches Ok(report) ==> report.snapshot.run_id == next
                && resumed_run(start, *final(store), run_id, report, false),
            result matches Err(WorkflowError::ConfirmationRequired)
                ==> exists|plan: OneWayPlan| #[trigger] call_ensures(confirm, (&plan,), false),
            result matches Err(error) && (error is ConfirmationRequired || error is Analysis) ==> !final(store).has_run(next),
            result matches Ok(report) ==> exists|plan: OneWayPlan| #[trigger] call_ensures(confirm, (&plan,), true)
                && planned_ids(final(store).journal(report.snapshot.run_id)) == action_ids(plan.actions@),
            forall|id: RunId| #[trigger] journaled_new_run(start, *final(store), id)
                ==> exists|plan: OneWayPlan| #[trigger] call_ensures(confirm, (&plan,), true),
    {
        let ghost classified = *store;
        let ghost call_start = calls@;
        let analysis = call_fresh_analysis(env, profile, calls);
        let ghost analysed_calls = calls@;
        proof {
            lemma_added_push(call_start, calls@.last());
        }
        let plan = match analysis {
            Ok(plan) => plan,
            Err(message) => return Err(WorkflowError::Analysis(message)),
        };
        if !confirm(&plan) {
            assert(call_ensures(confirm, (&plan,), false));
            return Err(WorkflowError::ConfirmationRequired);
        }
        let recheck = VolumeExpectation {
            source_volume: passed.source_volume,
            destination_volume: passed.destination_volume,
            require_recorded: true,
            allow_replacement: false,
        };
        let rechecked = call_precheck(env, profile, &recheck, calls);
        let ghost checked = calls@;
        proof {
            lemma_added_push(analysed_calls, calls@.last());
            lemma_added_trans(call_start, analysed_calls, calls@);
            assert(added(call_start, calls@) =~= seq![analysed_calls.last(), calls@.last()]);
        }
        match rechecked {
            Ok(_) => {},
            Err(failure) => {
                let error = WorkflowError::Precheck(failure);
                persist_blocked(store, next, profile, &error, expected_source, expected_destination, authorizations)?;
                return Err(error);
            },
        }
        let outcome = self.execute_confirmed(
            next, profile, &plan, authorizations, store, env, should_cancel, passed.source_volume, passed.destination_volume,
            calls);
        let ghost executed = calls@;
        proof {
            lemma_added_trans(call_start, checked, executed);
            lemma_execution_keeps_resume_calls(added(checked, executed));
            lemma_resume_calls_concat(added(call_start, checked), added(checked, executed));
        }
        let report = outcome?;
        assert(call_ensures(confirm, (&plan,), true));
        let cleaned = self.cleanup_partials_after_success(profile, &plan, &report, env, calls);
        proof {
            lemma_added_trans(call_start, executed, calls@);
            lemma_execution_keeps_resume_calls(added(executed, calls@));
            lemma_resume_calls_concat(added(call_start, executed), added(executed, calls@));
        }
        proof {
            reveal(frame_kept);
            assert(classified.has_run(run_id));
            assert forall|other: RunId| other != run_id && other != next implies {
                &&& #[trigger] store.has_run(other) == start.has_run(other)
                &&& start.has_run(other) ==> {
                    &&& store.journal(other) == start.journal(other)
                    &&& store.run_status(other) == start.run_status(other)
                    &&& store.snapshot(other) == start.snapshot(other)
                    &&& store.blocked_reason(other) == start.blocked_reason(other)
                }
            } by {
                assert(classified.has_run(other) == start.has_run(other));
                assert(store.has_run(other) == classified.has_run(other));
            }
            assert(executable_plan(plan));
            assert(store.has_run(run_id) == classified.has_run(run_id));
            assert(store.run_status(run_id) == classified.run_status(run_id));
        }
        match cleaned {
            Ok(()) => Ok(report),
            Err(error) => Err(error),
        }
    }

    /// Resumes an incomplete run through the same precheck, lock, Fresh
    /// Analysis and confirmation gates as a new run; a replaced volume is
    /// always refused. The old run's open action boundaries are classified
    /// before any new run is recorded.
    pub fn resume<E: RunEnvironment, C: FnOnce(&OneWayPlan) -> bool, F: Fn() -> bool>(
        &mut self,
        run_id: RunId,
        env: &E,
        confirm: C,
        store: &mut RunEvidenceStore,
        should_cancel: F,
    ) -> (result: Result<RunReport, WorkflowError>)
        requires
            old(self).scope_locks.exclusive(),
            old(store).consistent(),
            forall|plan: &OneWayPlan| #[trigger] call_requires(confirm, (plan,)),
            forall|| #[trigger] call_requires(should_cancel, ()),
        ensures
            resume_outcome(*old(self), *final(self), *old(store), *final(store), run_id, result, false),
            forall|id: RunId| #[trigger] final(store).has_run(id) && !old(store).has_run(id)
                ==> classified_run(*old(store), *final(store), run_id, false),
            result matches Ok(report) ==> exists|plan: OneWayPlan| #[trigger] call_ensures(confirm, (&plan,), true)
                && planned_ids(final(store).journal(report.snapshot.run_id)) == action_ids(plan.actions@),
            forall|id: RunId| #[trigger] journaled_new_run(*old(store), *final(store), id)
                ==> exists|plan: OneWayPlan| #[trigger] call_ensures(confirm, (&plan,), true),
            appended(old(self).calls@, final(self).calls@),
            no_replacement_precheck(added(old(self).calls@, final(self).calls@)),
            removals_follow_start(added(old(self).calls@, final(self).calls@)),
            old(store).has_run(run_id) && !resumable_status(old(store).run_status(run_id))
                ==> added(old(self).calls@, final(self).calls@).len() == 0,
    {
        let refuse = |blocked: &PrecheckBlocked| -> (accepted: bool)
            ensures
                !accepted,
        { false };
        self.resume_with_replacement_confirmation(run_id, env, refuse, confirm, store, should_cancel)
    }

    /// Resumes an incomplete run; a volume that was only replaced is
    /// accepted after `authorize_replacement` confirms it separately. The old
    /// run's open action boundaries are classified first, so a run that now
    /// needs Recovery Review is refused and a blocked precheck is recorded
    /// only after classification.
    pub fn resume_with_replacement_confirmation<
        E: RunEnvironment,
        A: FnOnce(&PrecheckBlocked) -> bool,
        C: FnOnce(&OneWayPlan) -> bool,
        F: Fn() -> bool,
    >(
        &mut self,
        run_id: RunId,
        env: &E,
        authorize_replacement: A,
        confirm: C,
        store: &mut RunEvidenceStore,
        should_cancel: F,
    ) -> (result: Result<RunReport, WorkflowError>)
        requires
            old(self).scope_locks.exclusive(),
            old(store).consistent(),
            forall|blocked: &PrecheckBlocked| #[trigger] call_requires(authorize_replacement, (blocked,)),
            forall|plan: &OneWayPlan| #[trigger] call_requires(confirm, (plan,)),
            forall|| #[trigger] call_requires(should_cancel, ()),
        ensures
            resume_outcome(*old(self), *final(self), *old(store), *final(store), run_id, result, false),
            forall|id: RunId| #[trigger] final(store).has_run(id) && !old(store).has_run(id)
                ==> classified_run(*old(store), *final(store), run_id, false),
            result matches Ok(report) ==> exists|plan: OneWayPlan| #[trigger] call_ensures(confirm, (&plan,), true)
                && planned_ids(final(store).journal(report.snapshot.run_id)) == action_ids(plan.actions@),
            forall|id: RunId| #[trigger] journaled_new_run(*old(store), *final(store), id)
                ==> exists|plan: OneWayPlan| #[trigger] call_ensures(confirm, (&plan,), true),
            appended(old(self).calls@, final(self).calls@),
            replacement_confirmed_first(added(old(self).calls@, final(self).calls@), authorize_replacement),
            removals_follow_start(added(old(self).calls@, final(self).calls@)),
            old(store).has_run(run_id) && !resumable_status(old(store).run_status(run_id))
                ==> added(old(self).calls@, final(self).calls@).len() == 0,
    {
        let ghost call_start = self.calls@;
        proof {
            lemma_added_refl(call_start);
        }
        let report = match store.load_report(run_id) {
            Ok(report) => report,
            Err(storage) => return Err(WorkflowError::Storage(storage)),
        };
        match report.status {
            RunReportStatus::Completed | RunReportStatus::ReviewCleared => return Err(WorkflowError::InvalidRun(String::from_str(
                "only an incomplete, cancelled, interrupted, or review-needed run can be resumed"))),
            RunReportStatus::RecoveryReview => return Err(WorkflowError::InvalidRun(String::from_str(
                "Recovery Review must be explicitly resolved before a new run can resume"))),
            _ => {},
        }
        let ids = planned_action_ids(&report.journal);
        if !ids_unique(&ids) {
            return Err(WorkflowError::InvalidRun(String::from_str("the run's journal plans an action more than once")));
        }
        let profile = report.snapshot.profile.duplicate();
        let authorizations = report.snapshot.authorizations;
        let expected_source = snapshot_volume(&report.snapshot, PeerSide::from_source(profile.source));
        let analysed_side = if profile.mode == SyncMode::Mirror { PeerSide::PeerA } else { PeerSide::from_source(profile.source) };
        let expected_destination = snapshot_volume(&report.snapshot, analysed_side.opposite());
        let next = match store.next_run_id() {
            Ok(next) => next,
            Err(storage) => return Err(WorkflowError::Storage(storage)),
        };
        let ghost start = *store;
        classify_for_resume(store, run_id, &report.journal, false,
            "Recovery Review must be explicitly resolved before a new run can resume")?;
        let ghost classified = *store;
        let mut calls = self.calls;
        let prechecked = resume_precheck(env, &profile, expected_source, expected_destination, authorize_replacement, &mut calls);
        let ghost checked = calls@;
        self.calls = calls;
        let passed = match prechecked {
            Ok(passed) => passed,
            Err(failure) => {
                let error = WorkflowError::Precheck(failure);
                let persisted = persist_blocked(store, next, &profile, &error, expected_source, expected_destination, authorizations);
                proof {
                    lemma_classified_kept(start, classified, *store, run_id, next);
                }
                persisted?;
                return Err(error);
            },
        };
        let scopes = profile_peer_scopes(&profile);
        let owner = ScopeLockOwner { profile_name: profile.name.clone(), run_id: next };
        let ghost registry_before = self.scope_locks;
        if !self.scope_locks.acquire(&owner, &scopes) {
            let error = WorkflowError::Precheck(PrecheckFailure::ScopeLocked(String::from_str(
                "another Sync Run holds an overlapping Peer Scope Lock")));
            let persisted = persist_blocked(store, next, &profile, &error, expected_source, expected_destination, authorizations);
            proof {
                lemma_classified_kept(start, classified, *store, run_id, next);
            }
            persisted?;
            return Err(error);
        }
        let ghost registry_locked = self.scope_locks;
        let outcome = self.resume_locked(
            run_id, next, &report.journal, &profile, authorizations, expected_source, expected_destination, passed, env,
            confirm, store, &should_cancel, Ghost(start), &mut calls);
        self.calls = calls;
        proof {
            lemma_added_trans(call_start, checked, calls@);
            let made = added(call_start, calls@);
            assert(made =~= added(call_start, checked) + added(checked, calls@));
            assert forall|i: int| 0 <= i < made.len() && (#[trigger] made[i] matches EnvCall::Precheck { expectation, .. } && expectation.allow_replacement)
                implies exists|blocked: PrecheckBlocked| #[trigger] call_ensures(authorize_replacement, (&blocked,), true) by {
                if i >= added(call_start, checked).len() {
                    assert(made[i] == added(checked, calls@)[i - added(call_start, checked).len()]);
                } else {
                    assert(made[i] == added(call_start, checked)[i]);
                }
            }
            assert forall|i: int| 0 <= i < made.len() implies removal_started(#[trigger] made[i]) by {
                if i >= added(call_start, checked).len() {
                    assert(made[i] == added(checked, calls@)[i - added(call_start, checked).len()]);
                } else {
                    assert(made[i] == added(call_start, checked)[i]);
                }
            }
        }
        self.scope_locks.release(next);
        proof {
            lemma_acquire_then_release(registry_before, registry_locked, self.scope_locks, owner, scopes@);
            lemma_released_holds_no_new_locks(registry_before, self.scope_locks, next);
            lemma_classified_kept(start, classified, *store, run_id, next);
        }
        outcome
    }
}

/// Runs other than `next` keep what classification left in the old run.
proof fn lemma_classified_kept(
    start: RunEvidenceStore,
    classified: RunEvidenceStore,
    after: RunEvidenceStore,
    run_id: RunId,
    next: RunId,
)
    requires
        classified_run(start, classified, run_id, false),
        next != run_id,
        after.others_unchanged(classified, next) || after.unchanged_from(classified),
    ensures
        classified_run(start, after, run_id, false),
{
    assert(after.has_run(run_id) == classified.has_run(run_id));
}


impl RunWorkflow {
    /// The part of an SSH resume that runs while the new run's scopes are
    /// locked.
    #[verifier::rlimit(50)]
    fn resume_ssh_locked<B: SshRunBackend, C: FnOnce(&OneWayPlan) -> bool, F: Fn() -> bool>(
        &self,
        run_id: RunId,
        next: RunId,
        journal: &Vec<JournalEvent>,
        profile: &SyncProfile,
        authorizations: AuthorizationSnapshot,
        permit: &SshHostTrustPermit,
        backend: &B,
        confirm: C,
        store: &mut RunEvidenceStore,
        should_cancel: &F,
        calls: &mut Ghost<Seq<EnvCall>>,
    ) -> (result: Result<RunReport, WorkflowError>)
        requires
            old(store).consistent(),
            old(store).has_run(run_id),
            !old(store).has_run(next),
            next != run_id,
            journal@ == old(store).journal(run_id),
            unique_ids(planned_ids(journal@)),
            same_profile(*profile, old(store).snapshot(run_id).profile),
            authorizations == old(store).snapshot(run_id).authorizations,
            forall|plan: &OneWayPlan| #[trigger] call_requires(confirm, (plan,)),
            forall|| #[trigger] call_requires(*should_cancel, ()),
        ensures
            final(store).consistent(),
            appended(old(calls)@, final(calls)@),
            ssh_lifecycle_calls(added(old(calls)@, final(calls)@)),
            remote_prechecks_bounded(added(old(calls)@, final(calls)@)),
            result matches Ok(report) ==> report.snapshot.run_id == next
                && resumed_run(*old(store), *final(store), run_id, report, true)
                && all_removals_trash(final(store).journal(next)),
            ssh_side(*profile) is None ==> (result matches Err(error) && error is InvalidRun) && final(store).unchanged_from(*old(store)),
            ssh_side(*profile) matches Some(side) && !permit_fits(*permit, ssh_of(side_peer(*profile, side)))
                ==> (result matches Err(error) && error is InvalidRun) && final(store).unchanged_from(*old(store)),
            result matches Err(WorkflowError::ConfirmationRequired)
                ==> exists|plan: OneWayPlan| #[trigger] call_ensures(confirm, (&plan,), false),
            result matches Ok(report) ==> exists|plan: OneWayPlan| #[trigger] call_ensures(confirm, (&plan,), true)
                && planned_ids(final(store).journal(report.snapshot.run_id)) == action_ids(plan.actions@),
            forall|id: RunId| #[trigger] journaled_new_run(*old(store), *final(store), id)
                ==> exists|plan: OneWayPlan| #[trigger] call_ensures(confirm, (&plan,), true),
    {
        let ghost start = *store;
        proof {
            lemma_added_refl(calls@);
            lemma_ssh_lifecycle_without_effects(Seq::empty());
        }
        let (_, peer) = ssh_peer_for_profile(profile)?;
        validate_ssh_permits(peer, permit)?;
        classify_for_resume(store, run_id, journal, true,
            "Recovery Review must be explicitly resolved before an SSH run can resume")?;
        let ghost classified = *store;
        let report = self.run_ssh_lifecycle(next, profile, permit, authorizations, backend, confirm, store, should_cancel, calls)?;
        proof {
            reveal(frame_kept);
            assert(classified.has_run(run_id));
            assert(store.has_run(run_id) == classified.has_run(run_id));
            assert(store.run_status(run_id) == classified.run_status(run_id));
            assert forall|other: RunId| other != run_id && other != next implies {
                &&& #[trigger] store.has_run(other) == start.has_run(other)
                &&& start.has_run(other) ==> {
                    &&& store.journal(other) == start.journal(other)
                    &&& store.run_status(other) == start.run_status(other)
                    &&& store.snapshot(other) == start.snapshot(other)
                    &&& store.blocked_reason(other) == start.blocked_reason(other)
                }
            } by {
                assert(classified.has_run(other) == start.has_run(other));
                assert(store.has_run(other) == classified.has_run(other));
            }
        }
        Ok(report)
    }

    /// Resumes an incomplete SSH run only after its open boundaries are
    /// classified and the remote precheck, two agreeing Fresh Analyses and
    /// explicit confirmation succeed again.
    pub fn resume_ssh<B: SshRunBackend, C: FnOnce(&OneWayPlan) -> bool, F: Fn() -> bool>(
        &mut self,
        run_id: RunId,
        permit: &SshHostTrustPermit,
        backend: &B,
        confirm: C,
        store: &mut RunEvidenceStore,
        should_cancel: F,
    ) -> (result: Result<RunReport, WorkflowError>)
        requires
            old(self).scope_locks.exclusive(),
            old(store).consistent(),
            forall|plan: &OneWayPlan| #[trigger] call_requires(confirm, (plan,)),
            forall|| #[trigger] call_requires(should_cancel, ()),
        ensures
            resume_outcome(*old(self), *final(self), *old(store), *final(store), run_id, result, true),
            result matches Ok(report) ==> all_removals_trash(final(store).journal(report.snapshot.run_id)),
            result matches Ok(report) ==> exists|plan: OneWayPlan| #[trigger] call_ensures(confirm, (&plan,), true)
                && planned_ids(final(store).journal(report.snapshot.run_id)) == action_ids(plan.actions@),
            forall|id: RunId| #[trigger] journaled_new_run(*old(store), *final(store), id)
                ==> exists|plan: OneWayPlan| #[trigger] call_ensures(confirm, (&plan,), true),
            appended(old(self).calls@, final(self).calls@),
            ssh_lifecycle_calls(added(old(self).calls@, final(self).calls@)),
            remote_prechecks_bounded(added(old(self).calls@, final(self).calls@)),
            old(store).has_run(run_id) && !resumable_status(old(store).run_status(run_id)) ==> final(self).calls@ == old(self).calls@,
    {
        proof {
            lemma_added_refl(self.calls@);
            lemma_ssh_lifecycle_without_effects(Seq::empty());
        }
        let report = match store.load_report(run_id) {
            Ok(report) => report,
            Err(storage) => return Err(WorkflowError::Storage(storage)),
        };
        match report.status {
            RunReportStatus::Completed | RunReportStatus::ReviewCleared => return Err(WorkflowError::InvalidRun(String::from_str(
                "only an incomplete SSH run can be resumed"))),
            RunReportStatus::RecoveryReview => return Err(WorkflowError::InvalidRun(String::from_str(
                "Recovery Review must be explicitly resolved before an SSH run can resume"))),
            _ => {},
        }
        let ids = planned_action_ids(&report.journal);
        if !ids_unique(&ids) {
            return Err(WorkflowError::InvalidRun(String::from_str("the run's journal plans an action more than once")));
        }
        let profile = report.snapshot.profile.duplicate();
        let authorizations = report.snapshot.authorizations;
        let next = match store.next_run_id() {
            Ok(next) => next,
            Err(storage) => return Err(WorkflowError::Storage(storage)),
        };
        let scopes = profile_peer_scopes(&profile);
        let owner = ScopeLockOwner { profile_name: profile.name.clone(), run_id: next };
        let ghost registry_before = self.scope_locks;
        if !self.scope_locks.acquire(&owner, &scopes) {
            return Err(WorkflowError::InvalidRun(String::from_str("could not acquire peer scope lock")));
        }
        let ghost registry_locked = self.scope_locks;
        let mut calls = self.calls;
        let outcome = self.resume_ssh_locked(
            run_id, next, &report.journal, &profile, authorizations, permit, backend, confirm, store, &should_cancel, &mut calls);
        self.calls = calls;
        self.scope_locks.release(next);
        proof {
            lemma_acquire_then_release(registry_before, registry_locked, self.scope_locks, owner, scopes@);
            lemma_released_holds_no_new_locks(registry_before, self.scope_locks, next);
        }
        outcome
    }
}

} // verus!
