//! The Sync Run workflow: Run Precheck, Fresh Analysis, explicit Execution
//! Confirmation and journaled execution while the peer scopes stay locked.
use vstd::prelude::*;

use crate::failure::{
    is_transient, retry_delay_millis, safe_delete_reason,
    transfer_failure_reason, transfer_needs_recovery_review, transfer_reason, SafeDeleteError,
    SshRunError, TransferError,
};
use crate::journal::{
    all_planned, event_action, lemma_outcome_unchanged_by_other_events, lemma_push_ordinary,
    lemma_push_planned, lemma_push_removal, outcome_in, planned_first, planned_ids, removal_after_proof,
    settled_outcome, JournalEvent, OneWayPlan, PlanAction, PlanRecord,
};
use crate::model::{ActionOutcome, ActionReason, DeletionMethod, PlanActionKind, RunId};
use crate::profile::{
    oriented_volumes, orient_volume_identities, AuthorizationSnapshot, RetryPolicy, SyncProfile,
};
use crate::store::RunSnapshot;
use crate::scope_lock::{scopes_overlap, HeldScope, PeerScope, PeerScopeLockRegistry, ScopeLockOwner};
use crate::model::PartialTransferPolicy;
use crate::profile::{partial_cleanup_roots, peer_root};
use crate::status::RunReportStatus;
use crate::journal::{max_rank, reconciled_status};
use crate::calls::{
    added, analysed, appended, attempt_call, attempt_for, call_cleanup_partials, call_fresh_analysis, call_observe, call_precheck,
    call_remove_source, effect_free, execution_call, has_effect, lemma_lifecycle_after_recheck, lemma_lifecycle_without_effects,
    lifecycle_calls, recheck_expectation, rechecked_at, removal_started, call_transfer, call_wait, execution_only, lemma_added_push,
    lemma_added_refl, lemma_added_trans, lemma_calls_concat, lemma_retry_execution_only, removals_follow_start, retry_calls, transfer_answer, wait_call, EnvCall,
};
use crate::failure::safe_delete_failure_reason;
use crate::store::{same_snapshot, RunReport};
use crate::store::{RunEvidenceStore, StorageError};

verus! {

/// Why a workflow stopped without a settled report.
#[derive(Debug, Clone, PartialEq, Eq)]
pub enum WorkflowError {
    Analysis(String),
    Precheck(PrecheckFailure),
    Storage(StorageError),
    Verification(String),
    ConfirmationRequired,
    InvalidRun(String),
    Io(String),
    Resolution(String),
    Ssh(SshRunError),
}

/// A Run Precheck that did not pass.
#[derive(Debug, Clone, PartialEq, Eq)]
pub enum PrecheckFailure {
    /// The precheck ran and found blockers; nothing was mutated.
    Blocked(PrecheckBlocked),
    /// The profile could not be turned into a valid specification.
    InvalidSpecification(String),
    /// A probe of a peer failed.
    Probe(String),
    /// Another Sync Run holds an overlapping Peer Scope Lock.
    ScopeLocked(String),
}

/// The blockers a precheck found and the volume identities it measured.
#[derive(Debug, Clone, PartialEq, Eq)]
pub struct PrecheckBlocked {
    pub blockers: Vec<String>,
    /// The only blocker is a replaced volume, which a separate explicit
    /// confirmation may accept when a run resumes.
    pub replacement_only: bool,
    pub source_volume: Option<u64>,
    pub destination_volume: Option<u64>,
}

/// Where verified source removals go.
#[derive(Debug, Clone, PartialEq, Eq)]
pub enum RecoveryMethod {
    NativeTrash { data_home: String },
    PermanentRemoval,
}

impl RecoveryMethod {
    pub fn native_trash(data_home: String) -> (method: RecoveryMethod)
        ensures
            method == (RecoveryMethod::NativeTrash { data_home }),
    {
        RecoveryMethod::NativeTrash { data_home }
    }

    pub fn permanent_removal() -> (method: RecoveryMethod)
        ensures
            method == RecoveryMethod::PermanentRemoval,
    {
        RecoveryMethod::PermanentRemoval
    }
}

pub open spec fn removal_method(method: RecoveryMethod) -> DeletionMethod {
    match method {
        RecoveryMethod::NativeTrash { .. } => DeletionMethod::Trash,
        RecoveryMethod::PermanentRemoval => DeletionMethod::PermanentRemoval,
    }
}

/// Limits applied to the transfer processes a workflow launches.
#[derive(Debug, Clone, Copy, PartialEq, Eq, Structural)]
pub struct ProcessSupervisor {
    pub termination_grace_millis: u64,
}

impl ProcessSupervisor {
    pub fn new(termination_grace_millis: u64) -> (supervisor: ProcessSupervisor)
        ensures
            supervisor.termination_grace_millis == termination_grace_millis,
    {
        ProcessSupervisor { termination_grace_millis }
    }
}

/// Whether the run goes on to its next action.
#[derive(Debug, Clone, Copy, PartialEq, Eq, Structural)]
pub enum ActionDisposition {
    Continue,
    Stop,
}

/// The filesystem and transfer work a run delegates. The workflow decides
/// what to journal from whatever these calls return.
pub trait RunEnvironment {
    /// Copies or overwrites one destination item and verifies the replacement.
    fn transfer(&self, plan: &OneWayPlan, action: &PlanAction) -> Result<(), TransferError>;

    /// Re-verifies an already equal destination before its source is removed.
    fn verify_source(&self, plan: &OneWayPlan, action: &PlanAction) -> Result<(), TransferError>;

    /// Moves a verified source item to recovery, or removes it permanently.
    fn remove_source(&self, plan: &OneWayPlan, action: &PlanAction, method: &RecoveryMethod) -> Result<(), SafeDeleteError>;

    /// Waits before a retry; `false` when the run was cancelled while waiting.
    fn wait_before_retry(&self, delay_millis: u64) -> bool;

    /// Run Precheck of both peers against the volume identities a run expects.
    fn precheck(&self, profile: &SyncProfile, expectation: &VolumeExpectation) -> Result<PrecheckPassed, PrecheckFailure>;

    /// Fresh Analysis of both peers: the plan the user is asked to confirm.
    fn fresh_analysis(&self, profile: &SyncProfile) -> Result<OneWayPlan, String>;

    /// Completion Reconciliation's independent observation: whether the
    /// peers now match what the journal says was done.
    fn observe_consistent(&self, profile: &SyncProfile, journal: &Vec<JournalEvent>) -> bool;

    /// Removes retained partial-transfer artifacts under `root`.
    fn cleanup_partials(&self, root: &str) -> Result<(), String>;

    /// A fresh inventory of both peers, taken independently of any journal.
    fn current_inventories(&self, profile: &SyncProfile) -> Result<crate::mirror::PeerInventories, String>;

    /// Prepares the executor of a Resolution Run: destination naming and
    /// collision-safe paths for preserved copies.
    fn prepare_resolution(&self, profile: &SyncProfile, actions: &Vec<crate::resolution::ConflictResolutionAction>) -> Result<(), String>;

    /// Carries out one reviewed conflict decision.
    fn execute_resolution(&self, action: &crate::resolution::ConflictResolutionAction) -> Result<(), ActionReason>;
}

/// The volume identities a precheck must find, and whether a replaced
/// volume may be accepted.
#[derive(Debug, Clone, Copy, PartialEq, Eq, Structural)]
pub struct VolumeExpectation {
    pub source_volume: Option<u64>,
    pub destination_volume: Option<u64>,
    pub require_recorded: bool,
    pub allow_replacement: bool,
}

/// A passed precheck and the volume identities it measured.
#[derive(Debug, Clone, Copy, PartialEq, Eq, Structural)]
pub struct PrecheckPassed {
    pub source_volume: Option<u64>,
    pub destination_volume: Option<u64>,
}

/// `after` extends `before` only with non-planning events of action `id`.
pub open spec fn extends_for(before: Seq<JournalEvent>, after: Seq<JournalEvent>, id: u64) -> bool {
    &&& before.len() <= after.len()
    &&& after.subrange(0, before.len() as int) == before
    &&& forall|k: int| before.len() <= k < after.len() ==> event_action(#[trigger] after[k]) == id && !(after[k] is Planned)
}

/// `after` extends `before` with events of action `id`, the last of which
/// settles it.
pub open spec fn settled_for(before: Seq<JournalEvent>, after: Seq<JournalEvent>, id: u64) -> bool {
    &&& extends_for(before, after, id)
    &&& before.len() < after.len()
    &&& settled_outcome(after.last()) is Some
}

#[verifier::opaque]
pub open spec fn ordered(journal: Seq<JournalEvent>) -> bool {
    planned_first(journal) && removal_after_proof(journal)
}

/// Only the journal of `run_id` changed between the two stores.
pub open spec fn journal_only(before: RunEvidenceStore, after: RunEvidenceStore, run_id: RunId) -> bool {
    &&& after.consistent()
    &&& after.has_run(run_id)
    &&& frame_kept(before, after, run_id)
}

/// The run's status, snapshot and blocker, and every other run, are unchanged.
#[verifier::opaque]
pub open spec fn frame_kept(before: RunEvidenceStore, after: RunEvidenceStore, run_id: RunId) -> bool {
    &&& after.run_status(run_id) == before.run_status(run_id)
    &&& after.snapshot(run_id) == before.snapshot(run_id)
    &&& after.blocked_reason(run_id) == before.blocked_reason(run_id)
    &&& after.others_unchanged(before, run_id)
}

pub(crate) proof fn lemma_journal_only_trans(a: RunEvidenceStore, b: RunEvidenceStore, c: RunEvidenceStore, run_id: RunId)
    requires
        journal_only(a, b, run_id),
        journal_only(b, c, run_id),
    ensures
        journal_only(a, c, run_id),
{
    reveal(frame_kept);
    assert forall|other: RunId| other != run_id implies {
        &&& #[trigger] c.has_run(other) == a.has_run(other)
        &&& a.has_run(other) ==> {
            &&& c.journal(other) == a.journal(other)
            &&& c.run_status(other) == a.run_status(other)
            &&& c.snapshot(other) == a.snapshot(other)
            &&& c.blocked_reason(other) == a.blocked_reason(other)
        }
    } by {
        assert(b.has_run(other) == a.has_run(other));
        assert(c.has_run(other) == b.has_run(other));
    }
}

pub(crate) proof fn lemma_journal_only_refl(a: RunEvidenceStore, run_id: RunId)
    requires
        a.consistent(),
        a.has_run(run_id),
    ensures
        journal_only(a, a, run_id),
{
    reveal(frame_kept);
}

pub(crate) proof fn lemma_extends_trans(a: Seq<JournalEvent>, b: Seq<JournalEvent>, c: Seq<JournalEvent>, id: u64)
    requires
        extends_for(a, b, id),
        extends_for(b, c, id),
    ensures
        extends_for(a, c, id),
{
    assert(c.subrange(0, a.len() as int) =~= b.subrange(0, a.len() as int));
    assert forall|k: int| a.len() <= k < c.len() implies event_action(#[trigger] c[k]) == id && !(c[k] is Planned) by {
        if k < b.len() {
            assert(c[k] == c.subrange(0, b.len() as int)[k]);
            assert(b[k] == c[k]);
        }
    }
}

/// Appends one event of action `id` to the run's journal.
pub(crate) fn record_event(
    store: &mut RunEvidenceStore,
    run_id: RunId,
    event: JournalEvent,
    Ghost(start): Ghost<Seq<JournalEvent>>,
) -> (result: Result<(), WorkflowError>)
    requires
        old(store).consistent(),
        old(store).has_run(run_id),
        extends_for(start, old(store).journal(run_id), event_action(event)),
        !(event is Planned),
        !(event is RemovalStarted),
    ensures
        result is Ok,
        journal_only(*old(store), *final(store), run_id),
        final(store).journal(run_id) == old(store).journal(run_id).push(event),
        extends_for(start, final(store).journal(run_id), event_action(event)),
        ordered(old(store).journal(run_id)) ==> ordered(final(store).journal(run_id)),
        planned_ids(final(store).journal(run_id)) == planned_ids(old(store).journal(run_id)),
{
    let ghost before = old(store).journal(run_id);
    match store.append_event(run_id, event) {
        Ok(()) => {},
        Err(error) => return Err(WorkflowError::Storage(error)),
    }
    proof {
        reveal(frame_kept);
        reveal(ordered);
        lemma_push_ordinary(before, event);
        let after = before.push(event);
        assert(after.subrange(0, start.len() as int) =~= before.subrange(0, start.len() as int));
    }
    Ok(())
}

/// The outcome of a bounded retry: the last result and how many attempts ran.
pub struct RetryResult {
    pub result: Result<(), TransferError>,
    pub attempts: u8,
}

/// Retries a transfer while its failure is transient and attempts remain.
fn retry_transfer<E: RunEnvironment, F: Fn() -> bool>(
    env: &E,
    policy: RetryPolicy,
    plan: &OneWayPlan,
    action: &PlanAction,
    verify_only: bool,
    should_cancel: &F,
    calls: &mut Ghost<Seq<EnvCall>>,
) -> (outcome: RetryResult)
    requires
        policy.max_attempts >= 1,
        forall|| #[trigger] call_requires(*should_cancel, ()),
    ensures
        outcome.attempts <= policy.max_attempts,
        outcome.result matches Err(error) && is_transient(error) ==> outcome.attempts == policy.max_attempts,
        appended(old(calls)@, final(calls)@),
        retry_calls(added(old(calls)@, final(calls)@), action.action_id, verify_only, outcome.attempts as int, outcome.result),
{
    let ghost start = calls@;
    let mut attempt: u8 = 0;
    proof {
        lemma_added_refl(start);
    }
    loop
        invariant
            attempt < policy.max_attempts,
            forall|| #[trigger] call_requires(*should_cancel, ()),
            start == old(calls)@,
            appended(start, calls@),
            added(start, calls@).len() == 2 * attempt,
            forall|k: int| 0 <= k < attempt ==> attempt_for(#[trigger] attempt_call(added(start, calls@), k), action.action_id, verify_only),
            forall|k: int| 0 <= k && 2 * k + 1 < added(start, calls@).len() ==>
                (transfer_answer(#[trigger] attempt_call(added(start, calls@), k)) matches Err(error) && is_transient(error))
                    && wait_call(added(start, calls@), k) matches EnvCall::Wait { continued: true, .. },
        decreases policy.max_attempts - attempt,
    {
        let ghost before = calls@;
        if should_cancel() {
            proof {
                let made = added(start, calls@);
                assert forall|k: int| 0 <= k && 2 * k + 2 < made.len()
                    implies (#[trigger] wait_call(made, k)) matches EnvCall::Wait { continued: true, .. } by {
                    assert(attempt_call(made, k) == made[2 * k]);
                }
            }
            return RetryResult { result: Err(TransferError::Cancelled), attempts: attempt };
        }
        let result = call_transfer(env, plan, action, verify_only, calls);
        let ghost answered = result;
        proof {
            lemma_added_push(before, calls@.last());
            lemma_added_trans(start, before, calls@);
            let old_made = added(start, before);
            let made = added(start, calls@);
            assert(made =~= old_made.push(calls@.last()));
            assert(attempt_call(made, attempt as int) == calls@.last());
            assert forall|k: int| 0 <= k < attempt + 1 implies attempt_for(#[trigger] attempt_call(made, k), action.action_id, verify_only) by {
                if k < attempt {
                    assert(attempt_call(made, k) == attempt_call(old_made, k));
                }
            }
            assert forall|k: int| 0 <= k && 2 * k + 1 < made.len() implies
                (transfer_answer(#[trigger] attempt_call(made, k)) matches Err(error) && is_transient(error))
                    && wait_call(made, k) matches EnvCall::Wait { continued: true, .. } by {
                assert(attempt_call(made, k) == attempt_call(old_made, k));
                assert(wait_call(made, k) == wait_call(old_made, k));
            }
            assert forall|k: int| 0 <= k && 2 * k + 2 < made.len()
                implies (#[trigger] wait_call(made, k)) matches EnvCall::Wait { continued: true, .. } by {
                assert(wait_call(made, k) == wait_call(old_made, k));
                assert(attempt_call(old_made, k) == old_made[2 * k]);
            }
        }
        match result {
            Ok(()) => {
                proof {
                    let made = added(start, calls@);
                    assert(calls@.last() == EnvCall::Transfer { action_id: action.action_id, verify_only, answer: answered });
                    assert(attempt_call(made, attempt as int) == calls@.last());
                    assert(answered is Ok);
                    assert(made.len() == 2 * (attempt + 1) - 1);
                }
                return RetryResult { result: Ok(()), attempts: attempt + 1 };
            },
            Err(error) => {
                if error.is_transient() && attempt + 1 < policy.max_attempts {
                    let delay = retry_delay_millis(policy.initial_delay_millis, attempt);
                    let ghost mid = calls@;
                    let continued = call_wait(env, delay, calls);
                    proof {
                        lemma_added_push(mid, calls@.last());
                        lemma_added_trans(start, mid, calls@);
                        let old_made = added(start, mid);
                        let made = added(start, calls@);
                        assert(made =~= old_made.push(calls@.last()));
                        assert forall|k: int| 0 <= k < attempt + 1 implies attempt_for(#[trigger] attempt_call(made, k), action.action_id, verify_only) by {
                            assert(attempt_call(made, k) == attempt_call(old_made, k));
                        }
                        assert forall|k: int| 0 <= k && 2 * k + 1 < made.len() implies
                            (transfer_answer(#[trigger] attempt_call(made, k)) matches Err(error) && is_transient(error))
                                && wait_call(made, k) is Wait by {
                            assert(attempt_call(made, k) == attempt_call(old_made, k));
                            if k < attempt {
                                assert(wait_call(made, k) == wait_call(old_made, k));
                            }
                        }
                        assert forall|k: int| 0 <= k && 2 * k + 2 < made.len()
                            implies (#[trigger] wait_call(made, k)) matches EnvCall::Wait { continued: true, .. } by {
                            assert(wait_call(made, k) == wait_call(old_made, k));
                            assert(attempt_call(old_made, k) == old_made[2 * k]);
                        }
                    }
                    if !continued {
                        return RetryResult { result: Err(TransferError::Cancelled), attempts: attempt + 1 };
                    }
                    attempt += 1;
                } else {
                    return RetryResult { result: Err(error), attempts: attempt + 1 };
                }
            },
        }
    }
}

/// The event that records a failed transfer of action `id`.
pub open spec fn transfer_failure_event(id: u64, error: TransferError) -> JournalEvent {
    if error is Cancelled {
        JournalEvent::Cancelled { action_id: id }
    } else if transfer_needs_recovery_review(error) {
        JournalEvent::RecoveryReview { action_id: id, reason: transfer_failure_reason(error) }
    } else {
        JournalEvent::Failed { action_id: id, reason: transfer_failure_reason(error) }
    }
}

/// A cancelled transfer or one at an unproven boundary stops the run;
/// any other failure lets it go on to the next action.
pub open spec fn transfer_failure_disposition(error: TransferError) -> ActionDisposition {
    if error is Cancelled || transfer_needs_recovery_review(error) {
        ActionDisposition::Stop
    } else {
        ActionDisposition::Continue
    }
}

fn record_transfer_failure(
    store: &mut RunEvidenceStore,
    run_id: RunId,
    action: &PlanAction,
    error: TransferError,
    Ghost(start): Ghost<Seq<JournalEvent>>,
) -> (disposition: Result<ActionDisposition, WorkflowError>)
    requires
        old(store).consistent(),
        old(store).has_run(run_id),
        extends_for(start, old(store).journal(run_id), action.action_id),
    ensures
        disposition == Ok::<ActionDisposition, WorkflowError>(transfer_failure_disposition(error)),
        journal_only(*old(store), *final(store), run_id),
        final(store).journal(run_id) == old(store).journal(run_id).push(transfer_failure_event(action.action_id, error)),
        extends_for(start, final(store).journal(run_id), action.action_id),
        ordered(old(store).journal(run_id)) ==> ordered(final(store).journal(run_id)),
        planned_ids(final(store).journal(run_id)) == planned_ids(old(store).journal(run_id)),
{
    let id = action.action_id;
    match error {
        TransferError::Cancelled => {
            record_event(store, run_id, JournalEvent::Cancelled { action_id: id }, Ghost(start))?;
            return Ok(ActionDisposition::Stop);
        },
        _ => {},
    }
    let reason = transfer_reason(&error);
    if error.requires_recovery_review() {
        record_event(store, run_id, JournalEvent::RecoveryReview { action_id: id, reason }, Ghost(start))?;
        Ok(ActionDisposition::Stop)
    } else {
        record_event(store, run_id, JournalEvent::Failed { action_id: id, reason }, Ghost(start))?;
        Ok(ActionDisposition::Continue)
    }
}

/// How a verified source removal settles, for whether the run was cancelled
/// when it began and what the removal reported: the verification and the
/// proof boundary are journaled before the removal starts.
pub open spec fn source_removal_settlement(
    id: u64,
    method: DeletionMethod,
    cancelled: bool,
    removal: Result<(), SafeDeleteError>,
) -> (Seq<JournalEvent>, ActionDisposition) {
    if cancelled {
        (seq![JournalEvent::Cancelled { action_id: id }], ActionDisposition::Stop)
    } else {
        let head = seq![
            JournalEvent::TransferVerified { action_id: id, metadata_verified: true },
            JournalEvent::ProofBoundary { action_id: id, deletion_method: method },
            JournalEvent::RemovalStarted { action_id: id, deletion_method: method },
        ];
        match removal {
            Ok(()) => (head.push(JournalEvent::RemovalCompleted { action_id: id }), ActionDisposition::Continue),
            Err(error) => if error is RecoveryUncertain {
                (head.push(JournalEvent::RecoveryReview { action_id: id, reason: safe_delete_failure_reason(error) }), ActionDisposition::Stop)
            } else {
                (head.push(JournalEvent::Unresolved { action_id: id, reason: safe_delete_failure_reason(error) }), ActionDisposition::Continue)
            },
        }
    }
}

/// How a started local action settles, for the final answer of its bounded
/// transfer or verification, whether its source was verified earlier in the
/// run, and what the removal step saw.
pub open spec fn action_settlement(
    id: u64,
    kind: PlanActionKind,
    method: DeletionMethod,
    transfer: Result<(), TransferError>,
    verified_before: bool,
    cancelled: bool,
    removal: Result<(), SafeDeleteError>,
) -> (Seq<JournalEvent>, ActionDisposition) {
    match kind {
        PlanActionKind::RemoveDestination => (seq![JournalEvent::Deferred { action_id: id }], ActionDisposition::Continue),
        PlanActionKind::RemoveSourceAfterVerification => if verified_before {
            source_removal_settlement(id, method, cancelled, removal)
        } else {
            match transfer {
                Ok(()) => source_removal_settlement(id, method, cancelled, removal),
                Err(error) => (seq![transfer_failure_event(id, error)], transfer_failure_disposition(error)),
            }
        },
        _ => match transfer {
            Ok(()) => (seq![JournalEvent::Completed { action_id: id }], ActionDisposition::Continue),
            Err(error) => (seq![transfer_failure_event(id, error)], transfer_failure_disposition(error)),
        },
    }
}

/// `path` is among the verified paths.
pub open spec fn path_listed(paths: Seq<String>, path: Seq<char>) -> bool {
    exists|j: int| 0 <= j < paths.len() && (#[trigger] paths[j])@ == path
}

/// Whether the outcome stops the run: cancellation or Recovery Review.
pub open spec fn stops_run(outcome: ActionOutcome) -> bool {
    outcome is Cancelled || outcome is RecoveryReview
}

impl RunWorkflow {
    /// Settles a verified source removal: cancellation stops before the
    /// proof boundary; otherwise the verification and proof boundary are
    /// journaled before the removal starts.
    #[verifier::rlimit(50)]
    fn settle_source_removal<E: RunEnvironment, F: Fn() -> bool>(
        &self,
        store: &mut RunEvidenceStore,
        run_id: RunId,
        plan: &OneWayPlan,
        action: &PlanAction,
        env: &E,
        should_cancel: &F,
        Ghost(start): Ghost<Seq<JournalEvent>>,
        calls: &mut Ghost<Seq<EnvCall>>,
    ) -> (disposition: Result<ActionDisposition, WorkflowError>)
        requires
            old(store).consistent(),
            old(store).has_run(run_id),
            extends_for(start, old(store).journal(run_id), action.action_id),
            forall|| #[trigger] call_requires(*should_cancel, ()),
        ensures
            disposition is Ok,
            appended(old(calls)@, final(calls)@),
            execution_only(added(old(calls)@, final(calls)@)),
            removals_follow_start(added(old(calls)@, final(calls)@)),
            journal_only(*old(store), *final(store), run_id),
            settled_for(old(store).journal(run_id), final(store).journal(run_id), action.action_id),
            extends_for(start, final(store).journal(run_id), action.action_id),
            ordered(old(store).journal(run_id)) ==> ordered(final(store).journal(run_id)),
            planned_ids(final(store).journal(run_id)) == planned_ids(old(store).journal(run_id)),
            disposition == Ok::<ActionDisposition, WorkflowError>(ActionDisposition::Stop)
                <==> stops_run(settled_outcome(final(store).journal(run_id).last()).unwrap()),
            exists|cancelled: bool, removal: Result<(), SafeDeleteError>|
                #[trigger] source_removal_settlement(action.action_id, removal_method(self.recovery_method), cancelled, removal) == (
                    final(store).journal(run_id).subrange(old(store).journal(run_id).len() as int, final(store).journal(run_id).len() as int),
                    disposition->Ok_0)
                && final(store).journal(run_id).len() >= old(store).journal(run_id).len()
                && final(store).journal(run_id).subrange(0, old(store).journal(run_id).len() as int) == old(store).journal(run_id),
    {
        let id = action.action_id;
        let ghost first = old(store).journal(run_id);
        let ghost first_store = *old(store);
        let ghost method_spec = removal_method(self.recovery_method);
        let ghost not_asked: Result<(), SafeDeleteError> = Ok(());
        proof {
            lemma_added_refl(calls@);
        }
        proof {
            lemma_journal_only_refl(first_store, run_id);
        }
        proof {
            assert(first.subrange(0, first.len() as int) =~= first);
        }
        if should_cancel() {
            record_event(store, run_id, JournalEvent::Cancelled { action_id: id }, Ghost(first))?;
            proof {
                lemma_extends_trans(start, first, store.journal(run_id), id);
                let j = store.journal(run_id);
                assert(j.subrange(first.len() as int, j.len() as int) =~= source_removal_settlement(id, method_spec, true, not_asked).0);
                assert(j.subrange(0, first.len() as int) =~= first);
                assert(source_removal_settlement(id, method_spec, true, not_asked) == (j.subrange(first.len() as int, j.len() as int), ActionDisposition::Stop));
            }
            return Ok(ActionDisposition::Stop);
        }
        let method = removal_method_of(&self.recovery_method);
        record_event(store, run_id, JournalEvent::TransferVerified { action_id: id, metadata_verified: true }, Ghost(first))?;
        let ghost s1 = *store;
        let ghost verified_at = first.len() as int;
        record_event(store, run_id, JournalEvent::ProofBoundary { action_id: id, deletion_method: method }, Ghost(first))?;
        let ghost s2 = *store;
        proof {
            lemma_journal_only_trans(first_store, s1, s2, run_id);
        }
        let ghost before_removal = store.journal(run_id);
        let removal = JournalEvent::RemovalStarted { action_id: id, deletion_method: method };
        match store.append_event(run_id, removal) {
            Ok(()) => {},
            Err(error) => return Err(WorkflowError::Storage(error)),
        }
        let ghost s3 = *store;
        proof {
            reveal(frame_kept);
            reveal(ordered);
            lemma_push_removal(before_removal, removal, verified_at);
            lemma_journal_only_trans(first_store, s2, s3, run_id);
            let after = before_removal.push(removal);
            assert(after.subrange(0, first.len() as int) =~= before_removal.subrange(0, first.len() as int));
        }
        let ghost before_call = calls@;
        let outcome = call_remove_source(env, plan, action, &self.recovery_method, store, run_id, calls);
        proof {
            lemma_added_push(before_call, calls@.last());
            assert(store.journal(run_id).last() == removal);
        }
        let ghost reported = outcome;
        let disposition = match outcome {
            Ok(()) => {
                record_event(store, run_id, JournalEvent::RemovalCompleted { action_id: id }, Ghost(first))?;
                ActionDisposition::Continue
            },
            Err(error) => {
                let reason = safe_delete_reason(&error);
                match error {
                    SafeDeleteError::RecoveryUncertain => {
                        record_event(store, run_id, JournalEvent::RecoveryReview { action_id: id, reason }, Ghost(first))?;
                        ActionDisposition::Stop
                    },
                    _ => {
                        record_event(store, run_id, JournalEvent::Unresolved { action_id: id, reason }, Ghost(first))?;
                        ActionDisposition::Continue
                    },
                }
            },
        };
        proof {
            lemma_journal_only_trans(first_store, s3, *store, run_id);
            lemma_extends_trans(start, first, store.journal(run_id), id);
            let j = store.journal(run_id);
            assert(j.subrange(first.len() as int, j.len() as int) =~= source_removal_settlement(id, method_spec, false, reported).0);
            assert(j.subrange(0, first.len() as int) =~= first);
            assert(source_removal_settlement(id, method_spec, false, reported) == (j.subrange(first.len() as int, j.len() as int), disposition));
        }
        Ok(disposition)
    }

    /// Executes one planned action and journals how it settled.
    fn execute_action<E: RunEnvironment, F: Fn() -> bool>(
        &self,
        store: &mut RunEvidenceStore,
        run_id: RunId,
        plan: &OneWayPlan,
        action: &PlanAction,
        env: &E,
        should_cancel: &F,
        verified_paths: &mut Vec<String>,
        calls: &mut Ghost<Seq<EnvCall>>,
    ) -> (disposition: Result<ActionDisposition, WorkflowError>)
        requires
            old(store).consistent(),
            old(store).has_run(run_id),
            plan.options.retry_policy.max_attempts >= 1,
            forall|| #[trigger] call_requires(*should_cancel, ()),
        ensures
            disposition is Ok,
            appended(old(calls)@, final(calls)@),
            execution_only(added(old(calls)@, final(calls)@)),
            removals_follow_start(added(old(calls)@, final(calls)@)),
            journal_only(*old(store), *final(store), run_id),
            settled_for(old(store).journal(run_id), final(store).journal(run_id), action.action_id),
            ordered(old(store).journal(run_id)) ==> ordered(final(store).journal(run_id)),
            planned_ids(final(store).journal(run_id)) == planned_ids(old(store).journal(run_id)),
            disposition == Ok::<ActionDisposition, WorkflowError>(ActionDisposition::Stop)
                <==> stops_run(settled_outcome(final(store).journal(run_id).last()).unwrap()),
            exists|transfer: Result<(), TransferError>, cancelled: bool, removal: Result<(), SafeDeleteError>|
                #![trigger action_settlement(action.action_id, action.kind, removal_method(self.recovery_method), transfer,
                    path_listed(old(verified_paths)@, action.relative_path@), cancelled, removal)]
            {
                &&& final(store).journal(run_id) == old(store).journal(run_id)
                    .push(JournalEvent::Started { action_id: action.action_id })
                    .push(JournalEvent::Progress { action_id: action.action_id, completed_bytes: 0 })
                    + action_settlement(action.action_id, action.kind, removal_method(self.recovery_method), transfer,
                        path_listed(old(verified_paths)@, action.relative_path@), cancelled, removal).0
                &&& disposition == Ok::<ActionDisposition, WorkflowError>(action_settlement(action.action_id, action.kind,
                    removal_method(self.recovery_method), transfer, path_listed(old(verified_paths)@, action.relative_path@),
                    cancelled, removal).1)
            },
    {
        let id = action.action_id;
        let ghost first = old(store).journal(run_id);
        let ghost first_store = *old(store);
        proof {
            lemma_journal_only_refl(first_store, run_id);
        }
        proof {
            assert(first.subrange(0, first.len() as int) =~= first);
        }
        record_event(store, run_id, JournalEvent::Started { action_id: id }, Ghost(first))?;
        let ghost s1 = *store;
        record_event(store, run_id, JournalEvent::Progress { action_id: id, completed_bytes: 0 }, Ghost(first))?;
        let ghost s2 = *store;
        let ghost second = store.journal(run_id);
        proof {
            lemma_journal_only_trans(first_store, s1, s2, run_id);
        }
        let ghost call_start = calls@;
        proof {
            lemma_added_refl(call_start);
        }
        let ghost method = removal_method(self.recovery_method);
        let ghost listed = path_listed(old(verified_paths)@, action.relative_path@);
        let ghost mut answer: Result<(), TransferError> = Ok(());
        let ghost mut cancelled: bool = false;
        let ghost mut removal: Result<(), SafeDeleteError> = Ok(());
        let disposition = match action.kind {
            PlanActionKind::CopyToDestination | PlanActionKind::OverwriteDestination => {
                let attempt = retry_transfer(env, plan.options.retry_policy, plan, action, false, should_cancel, calls);
                proof {
                    answer = attempt.result;
                    lemma_retry_execution_only(added(call_start, calls@), action.action_id, false, attempt.attempts as int, attempt.result);
                }
                match attempt.result {
                    Ok(()) => {
                        if action.kind == PlanActionKind::CopyToDestination || plan.options.safe_delete {
                            verified_paths.push(action.relative_path.clone());
                        }
                        record_event(store, run_id, JournalEvent::Completed { action_id: id }, Ghost(first))?;
                        ActionDisposition::Continue
                    },
                    Err(error) => record_transfer_failure(store, run_id, action, error, Ghost(first))?,
                }
            },
            PlanActionKind::RemoveSourceAfterVerification => {
                let ghost before_removal = store.journal(run_id);
                let settled = if take_verified_path(verified_paths, &action.relative_path) {
                    self.settle_source_removal(store, run_id, plan, action, env, should_cancel, Ghost(first), calls)?
                } else {
                    let attempt = retry_transfer(env, plan.options.retry_policy, plan, action, true, should_cancel, calls);
                    let ghost retried = calls@;
                    proof {
                        answer = attempt.result;
                        lemma_retry_execution_only(added(call_start, calls@), action.action_id, true, attempt.attempts as int, attempt.result);
                        lemma_added_refl(retried);
                    }
                    match attempt.result {
                        Ok(()) => {
                            let d = self.settle_source_removal(store, run_id, plan, action, env, should_cancel, Ghost(first), calls)?;
                            proof {
                                lemma_added_trans(call_start, retried, calls@);
                                lemma_calls_concat(added(call_start, retried), added(retried, calls@));
                            }
                            d
                        },
                        Err(error) => record_transfer_failure(store, run_id, action, error, Ghost(first))?,
                    }
                };
                proof {
                    if listed || answer is Ok {
                        let j = store.journal(run_id);
                        let (c, r) = choose|c: bool, r: Result<(), SafeDeleteError>|
                            #[trigger] source_removal_settlement(id, method, c, r) == (
                                j.subrange(before_removal.len() as int, j.len() as int), settled);
                        cancelled = c;
                        removal = r;
                        assert(j =~= before_removal + j.subrange(before_removal.len() as int, j.len() as int));
                    }
                }
                settled
            },
            PlanActionKind::RemoveDestination => {
                record_event(store, run_id, JournalEvent::Deferred { action_id: id }, Ghost(first))?;
                ActionDisposition::Continue
            },
        };
        proof {
            lemma_journal_only_trans(first_store, s2, *store, run_id);
            lemma_calls_concat(added(call_start, calls@), Seq::empty());
            assert(store.journal(run_id) =~= first.push(JournalEvent::Started { action_id: id })
                .push(JournalEvent::Progress { action_id: id, completed_bytes: 0 })
                + action_settlement(id, action.kind, method, answer, listed, cancelled, removal).0);
            assert(disposition == action_settlement(id, action.kind, method, answer, listed, cancelled, removal).1);
        }
        Ok(disposition)
    }
}

fn removal_method_of(method: &RecoveryMethod) -> (deletion: DeletionMethod)
    ensures
        deletion == removal_method(*method),
{
    match method {
        RecoveryMethod::NativeTrash { .. } => DeletionMethod::Trash,
        RecoveryMethod::PermanentRemoval => DeletionMethod::PermanentRemoval,
    }
}

/// Removes `path` from the verified paths; `true` when it was there.
fn take_verified_path(paths: &mut Vec<String>, path: &String) -> (found: bool)
    ensures
        found == exists|j: int| 0 <= j < old(paths)@.len() && (#[trigger] old(paths)@[j])@ == path@,
{
    let mut index: usize = 0;
    while index < paths.len()
        invariant
            index <= paths@.len(),
            paths@ == old(paths)@,
            forall|j: int| 0 <= j < index ==> (#[trigger] paths@[j])@ != path@,
        decreases paths@.len() - index,
    {
        if paths[index] == *path {
            assert(old(paths)@[index as int]@ == path@);
            let _ = paths.remove(index);
            return true;
        }
        index += 1;
    }
    false
}

/// A Sync Run workflow with its recovery method, process limits and the
/// Peer Scope Locks it shares with other workflows.
pub struct RunWorkflow {
    pub recovery_method: RecoveryMethod,
    pub supervisor: ProcessSupervisor,
    pub scope_locks: PeerScopeLockRegistry,
    /// Every call the workflow's runs made to their environment or SSH
    /// backend, in order.
    pub calls: Ghost<Seq<EnvCall>>,
}

/// The ids of a plan's actions, in order.
pub open spec fn action_ids(actions: Seq<PlanAction>) -> Seq<u64> {
    Seq::new(actions.len(), |i: int| actions[i].action_id)
}

pub open spec fn distinct_ids(ids: Seq<u64>) -> bool {
    forall|i: int, j: int| 0 <= i < ids.len() && 0 <= j < ids.len() && i != j ==> ids[i] != ids[j]
}

/// No planned action of the journal is still open.
pub open spec fn all_planned_settled(journal: Seq<JournalEvent>) -> bool {
    forall|i: int| 0 <= i < planned_ids(journal).len()
        ==> outcome_in(journal, #[trigger] planned_ids(journal)[i]) != ActionOutcome::InProgress
}

/// A settled suffix settles its action and leaves every other action alone.
pub(crate) proof fn lemma_settled_for_outcomes(a: Seq<JournalEvent>, b: Seq<JournalEvent>, id: u64)
    requires
        settled_for(a, b, id),
    ensures
        outcome_in(b, id) == settled_outcome(b.last()).unwrap(),
        outcome_in(b, id) != ActionOutcome::InProgress,
        forall|other: u64| other != id ==> #[trigger] outcome_in(b, other) == outcome_in(a, other),
{
    assert(event_action(b.last()) == id);
    assert forall|other: u64| other != id implies #[trigger] outcome_in(b, other) == outcome_in(a, other) by {
        let extra = b.subrange(a.len() as int, b.len() as int);
        assert(b =~= a + extra);
        assert forall|k: int| 0 <= k < extra.len() implies event_action(#[trigger] extra[k]) != other by {
            assert(extra[k] == b[a.len() + k]);
        }
        lemma_outcome_unchanged_by_other_events(a, extra, other);
    }
}

pub open spec fn record_for(action: PlanAction) -> PlanRecord {
    PlanRecord {
        action_id: action.action_id,
        relative_path: action.relative_path,
        kind: action.kind,
        affected_side: action.source_side,
        size: action.size,
    }
}

pub(crate) fn plan_record(action: &PlanAction) -> (record: PlanRecord)
    ensures
        record == record_for(*action),
{
    PlanRecord {
        action_id: action.action_id,
        relative_path: action.relative_path.clone(),
        kind: action.kind,
        affected_side: action.source_side,
        size: action.size,
    }
}

/// Whether the plan's action ids are pairwise distinct.
pub fn plan_ids_distinct(actions: &Vec<PlanAction>) -> (distinct: bool)
    ensures
        distinct == distinct_ids(action_ids(actions@)),
{
    let mut i: usize = 0;
    while i < actions.len()
        invariant
            i <= actions@.len(),
            forall|a: int, b: int| 0 <= a < i && 0 <= b < actions@.len() && a != b
                ==> actions@[a].action_id != actions@[b].action_id,
        decreases actions@.len() - i,
    {
        let mut j: usize = 0;
        while j < actions.len()
            invariant
                i < actions@.len(),
                j <= actions@.len(),
                forall|a: int, b: int| 0 <= a < i && 0 <= b < actions@.len() && a != b
                    ==> actions@[a].action_id != actions@[b].action_id,
                forall|b: int| 0 <= b < j && b != i ==> actions@[i as int].action_id != actions@[b].action_id,
            decreases actions@.len() - j,
        {
            if j != i && actions[i].action_id == actions[j].action_id {
                assert(action_ids(actions@)[i as int] == action_ids(actions@)[j as int]);
                return false;
            }
            j += 1;
        }
        i += 1;
    }
    true
}

/// Journals every planned action before the first one runs.
pub(crate) fn persist_plan(store: &mut RunEvidenceStore, run_id: RunId, plan: &OneWayPlan) -> (result: Result<(), WorkflowError>)
    requires
        old(store).consistent(),
        old(store).has_run(run_id),
        old(store).journal(run_id) == Seq::<JournalEvent>::empty(),
    ensures
        result is Ok,
        journal_only(*old(store), *final(store), run_id),
        all_planned(final(store).journal(run_id)),
        ordered(final(store).journal(run_id)),
        planned_ids(final(store).journal(run_id)) == action_ids(plan.actions@),
        final(store).journal(run_id).len() == plan.actions@.len(),
        forall|i: int| 0 <= i < plan.actions@.len() ==>
            #[trigger] final(store).journal(run_id)[i] == (JournalEvent::Planned { action: record_for(plan.actions@[i]) }),
{
    let ghost first_store = *old(store);
        proof {
            lemma_journal_only_refl(first_store, run_id);
        }
    let mut index: usize = 0;
    while index < plan.actions.len()
        invariant
            index <= plan.actions@.len(),
            journal_only(first_store, *store, run_id),
            all_planned(store.journal(run_id)),
            store.journal(run_id).len() == index,
            planned_ids(store.journal(run_id)) == action_ids(plan.actions@).subrange(0, index as int),
            forall|i: int| 0 <= i < index ==>
                #[trigger] store.journal(run_id)[i] == (JournalEvent::Planned { action: record_for(plan.actions@[i]) }),
        decreases plan.actions@.len() - index,
    {
        let ghost before_store = *store;
        let ghost before = store.journal(run_id);
        let event = JournalEvent::Planned { action: plan_record(&plan.actions[index]) };
        match store.append_event(run_id, event) {
            Ok(()) => {},
            Err(error) => return Err(WorkflowError::Storage(error)),
        }
        proof {
            reveal(frame_kept);
            lemma_push_planned(before, event);
            lemma_journal_only_trans(first_store, before_store, *store, run_id);
            assert(action_ids(plan.actions@).subrange(0, index + 1) =~= action_ids(plan.actions@).subrange(0, index as int).push(plan.actions@[index as int].action_id));
        }
        index += 1;
    }
    proof {
        assert(action_ids(plan.actions@).subrange(0, index as int) =~= action_ids(plan.actions@));
        reveal(ordered);
        let j = store.journal(run_id);
        assert forall|i: int, k: int| 0 <= i < k < j.len() && (#[trigger] j[k]) is Planned implies (#[trigger] j[i]) is Planned by {}
        assert forall|k: int| 0 <= k < j.len() && (#[trigger] j[k]) is RemovalStarted implies false by {}
    }
    Ok(())
}

impl RunWorkflow {
    /// Settles every remaining planned action from `from` on as cancelled.
    pub(crate) fn cancel_remaining(
        &self,
        store: &mut RunEvidenceStore,
        run_id: RunId,
        actions: &Vec<PlanAction>,
        from: usize,
    ) -> (result: Result<(), WorkflowError>)
        requires
            old(store).consistent(),
            old(store).has_run(run_id),
            from <= actions@.len(),
            distinct_ids(action_ids(actions@)),
        ensures
            result is Ok,
            journal_only(*old(store), *final(store), run_id),
            old(store).journal(run_id).len() <= final(store).journal(run_id).len(),
            final(store).journal(run_id).subrange(0, old(store).journal(run_id).len() as int) == old(store).journal(run_id),
            ordered(old(store).journal(run_id)) ==> ordered(final(store).journal(run_id)),
            planned_ids(final(store).journal(run_id)) == planned_ids(old(store).journal(run_id)),
            forall|i: int| from <= i < actions@.len() ==>
                outcome_in(final(store).journal(run_id), #[trigger] actions@[i].action_id) == ActionOutcome::Cancelled,
            forall|i: int| 0 <= i < from ==>
                outcome_in(final(store).journal(run_id), #[trigger] actions@[i].action_id)
                    == outcome_in(old(store).journal(run_id), actions@[i].action_id),
            forall|k: int| old(store).journal(run_id).len() <= k < final(store).journal(run_id).len()
                ==> (#[trigger] final(store).journal(run_id)[k]) is Cancelled,
    {
        let ghost first_store = *old(store);
        proof {
            lemma_journal_only_refl(first_store, run_id);
        }
        let ghost first = old(store).journal(run_id);
        let mut index: usize = from;
        proof {
            assert(first.subrange(0, first.len() as int) =~= first);
        }
        while index < actions.len()
            invariant
                from <= index <= actions@.len(),
                distinct_ids(action_ids(actions@)),
                journal_only(first_store, *store, run_id),
                first.len() <= store.journal(run_id).len(),
                store.journal(run_id).subrange(0, first.len() as int) == first,
                ordered(first) ==> ordered(store.journal(run_id)),
                planned_ids(store.journal(run_id)) == planned_ids(first),
                forall|i: int| from <= i < index ==>
                    outcome_in(store.journal(run_id), #[trigger] actions@[i].action_id) == ActionOutcome::Cancelled,
                forall|i: int| (0 <= i < from || index <= i < actions@.len()) ==>
                    outcome_in(store.journal(run_id), #[trigger] actions@[i].action_id) == outcome_in(first, actions@[i].action_id),
                forall|k: int| first.len() <= k < store.journal(run_id).len() ==> (#[trigger] store.journal(run_id)[k]) is Cancelled,
            decreases actions@.len() - index,
        {
            let ghost before_store = *store;
            let ghost before = store.journal(run_id);
            let id = actions[index].action_id;
            let event = JournalEvent::Cancelled { action_id: id };
            proof {
                assert(before.subrange(0, before.len() as int) =~= before);
            }
            record_event(store, run_id, event, Ghost(before))?;
            proof {
                lemma_journal_only_trans(first_store, before_store, *store, run_id);
                let after = store.journal(run_id);
                assert(after.subrange(0, first.len() as int) =~= before.subrange(0, first.len() as int));
                lemma_settled_for_outcomes(before, after, id);
                assert forall|i: int| 0 <= i < actions@.len() && i != index implies actions@[i].action_id != id by {
                    assert(action_ids(actions@)[i] == actions@[i].action_id);
                    assert(action_ids(actions@)[index as int] == id);
                }
            }
            index += 1;
        }
        Ok(())
    }

    /// Runs action `index`, or settles it and every later action as
    /// cancelled when the run was cancelled or the action stops the run.
    fn advance<E: RunEnvironment, F: Fn() -> bool>(
        &self,
        store: &mut RunEvidenceStore,
        run_id: RunId,
        plan: &OneWayPlan,
        index: usize,
        env: &E,
        should_cancel: &F,
        verified_paths: &mut Vec<String>,
        calls: &mut Ghost<Seq<EnvCall>>,
    ) -> (stopped: Result<bool, WorkflowError>)
        requires
            old(store).consistent(),
            old(store).has_run(run_id),
            index < plan.actions@.len(),
            planned_ids(old(store).journal(run_id)) == action_ids(plan.actions@),
            distinct_ids(action_ids(plan.actions@)),
            ordered(old(store).journal(run_id)),
            plan.options.retry_policy.max_attempts >= 1,
            forall|| #[trigger] call_requires(*should_cancel, ()),
            forall|i: int| 0 <= i < index ==>
                outcome_in(old(store).journal(run_id), #[trigger] plan.actions@[i].action_id) != ActionOutcome::InProgress,
        ensures
            stopped is Ok,
            appended(old(calls)@, final(calls)@),
            execution_only(added(old(calls)@, final(calls)@)),
            removals_follow_start(added(old(calls)@, final(calls)@)),
            journal_only(*old(store), *final(store), run_id),
            old(store).journal(run_id).len() <= final(store).journal(run_id).len(),
            final(store).journal(run_id).subrange(0, old(store).journal(run_id).len() as int) == old(store).journal(run_id),
            ordered(final(store).journal(run_id)),
            planned_ids(final(store).journal(run_id)) == action_ids(plan.actions@),
            stopped == Ok::<bool, WorkflowError>(true) ==> forall|i: int| 0 <= i < plan.actions@.len() ==>
                outcome_in(final(store).journal(run_id), #[trigger] plan.actions@[i].action_id) != ActionOutcome::InProgress,
            stopped == Ok::<bool, WorkflowError>(false) ==> forall|i: int| 0 <= i <= index ==>
                outcome_in(final(store).journal(run_id), #[trigger] plan.actions@[i].action_id) != ActionOutcome::InProgress,
            always_cancels(*should_cancel) ==> stopped == Ok::<bool, WorkflowError>(true)
                && forall|i: int| index <= i < plan.actions@.len() ==>
                    outcome_in(final(store).journal(run_id), #[trigger] plan.actions@[i].action_id) == ActionOutcome::Cancelled,
    {
        let ghost first_store = *old(store);
        proof {
            lemma_journal_only_refl(first_store, run_id);
        }
        let ghost first = old(store).journal(run_id);
        let ghost ids = action_ids(plan.actions@);
        proof {
            lemma_added_refl(calls@);
        }
        if should_cancel() {
            self.cancel_remaining(store, run_id, &plan.actions, index)?;
            return Ok(true);
        }
        let count = plan.actions.len();
        let action = &plan.actions[index];
        let disposition = self.execute_action(store, run_id, plan, action, env, should_cancel, verified_paths, calls)?;
        let ghost mid_store = *store;
        let ghost mid = store.journal(run_id);
        proof {
            lemma_settled_for_outcomes(first, mid, action.action_id);
            assert forall|i: int| 0 <= i < plan.actions@.len() && i != index implies plan.actions@[i].action_id != action.action_id by {
                assert(ids[i] == plan.actions@[i].action_id);
                assert(ids[index as int] == action.action_id);
            }
            assert(mid.subrange(0, first.len() as int) =~= first);
        }
        match disposition {
            ActionDisposition::Stop => {
                self.cancel_remaining(store, run_id, &plan.actions, index + 1)?;
                proof {
                    lemma_journal_only_trans(first_store, mid_store, *store, run_id);
                    let after = store.journal(run_id);
                    assert(after.subrange(0, first.len() as int) =~= mid.subrange(0, first.len() as int));
                }
                Ok(true)
            },
            ActionDisposition::Continue => Ok(false),
        }
    }

    /// Runs the planned actions in order. Cancellation, or an action that
    /// stops the run, settles every remaining action as cancelled.
    fn execute_planned_actions<E: RunEnvironment, F: Fn() -> bool>(
        &self,
        store: &mut RunEvidenceStore,
        run_id: RunId,
        plan: &OneWayPlan,
        env: &E,
        should_cancel: &F,
        calls: &mut Ghost<Seq<EnvCall>>,
    ) -> (result: Result<(), WorkflowError>)
        requires
            old(store).consistent(),
            old(store).has_run(run_id),
            planned_ids(old(store).journal(run_id)) == action_ids(plan.actions@),
            distinct_ids(action_ids(plan.actions@)),
            ordered(old(store).journal(run_id)),
            plan.options.retry_policy.max_attempts >= 1,
            forall|| #[trigger] call_requires(*should_cancel, ()),
        ensures
            result is Ok,
            appended(old(calls)@, final(calls)@),
            execution_only(added(old(calls)@, final(calls)@)),
            removals_follow_start(added(old(calls)@, final(calls)@)),
            journal_only(*old(store), *final(store), run_id),
            old(store).journal(run_id).len() <= final(store).journal(run_id).len(),
            final(store).journal(run_id).subrange(0, old(store).journal(run_id).len() as int) == old(store).journal(run_id),
            ordered(final(store).journal(run_id)),
            planned_ids(final(store).journal(run_id)) == action_ids(plan.actions@),
            all_planned_settled(final(store).journal(run_id)),
            always_cancels(*should_cancel) ==> forall|i: int| 0 <= i < plan.actions@.len() ==>
                outcome_in(final(store).journal(run_id), #[trigger] plan.actions@[i].action_id) == ActionOutcome::Cancelled,
    {
        let ghost first_store = *old(store);
        proof {
            lemma_journal_only_refl(first_store, run_id);
        }
        let ghost first = old(store).journal(run_id);
        let ghost call_start = calls@;
        proof {
            lemma_added_refl(call_start);
        }
        let mut verified_paths: Vec<String> = Vec::new();
        let mut index: usize = 0;
        proof {
            assert(first.subrange(0, first.len() as int) =~= first);
        }
        while index < plan.actions.len()
            invariant
                index <= plan.actions@.len(),
                distinct_ids(action_ids(plan.actions@)),
                plan.options.retry_policy.max_attempts >= 1,
                forall|| #[trigger] call_requires(*should_cancel, ()),
                first_store == *old(store),
                first == old(store).journal(run_id),
                journal_only(first_store, *store, run_id),
                first.len() <= store.journal(run_id).len(),
                store.journal(run_id).subrange(0, first.len() as int) == first,
                ordered(store.journal(run_id)),
                planned_ids(store.journal(run_id)) == action_ids(plan.actions@),
                forall|i: int| 0 <= i < index ==>
                    outcome_in(store.journal(run_id), #[trigger] plan.actions@[i].action_id) != ActionOutcome::InProgress,
                always_cancels(*should_cancel) ==> index == 0,
                call_start == old(calls)@,
                appended(call_start, calls@),
                execution_only(added(call_start, calls@)),
                removals_follow_start(added(call_start, calls@)),
            decreases plan.actions@.len() - index,
        {
            let ghost before_store = *store;
            let ghost before = store.journal(run_id);
            let ghost calls_before = calls@;
            let stopped = self.advance(store, run_id, plan, index, env, should_cancel, &mut verified_paths, calls)?;
            proof {
                lemma_added_trans(call_start, calls_before, calls@);
                lemma_calls_concat(added(call_start, calls_before), added(calls_before, calls@));
                lemma_journal_only_trans(first_store, before_store, *store, run_id);
                let after = store.journal(run_id);
                assert(after.subrange(0, first.len() as int) =~= before.subrange(0, first.len() as int));
            }
            if stopped {
                proof {
                    lemma_all_settled(store.journal(run_id), plan.actions@);
                }
                return Ok(());
            }
            index += 1;
        }
        proof {
            lemma_all_settled(store.journal(run_id), plan.actions@);
        }
        Ok(())
    }
}

pub(crate) proof fn lemma_all_settled(journal: Seq<JournalEvent>, actions: Seq<PlanAction>)
    requires
        planned_ids(journal) == action_ids(actions),
        forall|i: int| 0 <= i < actions.len() ==>
            outcome_in(journal, #[trigger] actions[i].action_id) != ActionOutcome::InProgress,
    ensures
        all_planned_settled(journal),
{
    assert forall|i: int| 0 <= i < planned_ids(journal).len()
        implies outcome_in(journal, #[trigger] planned_ids(journal)[i]) != ActionOutcome::InProgress by {
        assert(planned_ids(journal)[i] == actions[i].action_id);
    }
}

/// Lines joined with a separator.
pub open spec fn joined(lines: Seq<Seq<char>>, separator: Seq<char>) -> Seq<char>
    decreases lines.len(),
{
    if lines.len() == 0 {
        Seq::empty()
    } else if lines.len() == 1 {
        lines[0]
    } else {
        joined(lines.drop_last(), separator) + separator + lines.last()
    }
}

pub open spec fn string_views(values: Seq<String>) -> Seq<Seq<char>> {
    Seq::new(values.len(), |i: int| values[i]@)
}

pub fn join_lines(values: &Vec<String>, separator: &str) -> (text: String)
    ensures
        text@ == joined(string_views(values@), separator@),
{
    let mut text = String::new();
    let mut index: usize = 0;
    while index < values.len()
        invariant
            index <= values@.len(),
            text@ == joined(string_views(values@.subrange(0, index as int)), separator@),
        decreases values@.len() - index,
    {
        let ghost prior = string_views(values@.subrange(0, index as int));
        let ghost next = string_views(values@.subrange(0, index + 1));
        assert(next.drop_last() =~= prior);
        if index > 0 {
            text.append(separator);
        }
        text.append(values[index].as_str());
        index += 1;
        proof {
            if index == 1 {
                assert(next.len() == 1);
            }
        }
    }
    assert(values@.subrange(0, index as int) =~= values@);
    text
}

pub open spec fn storage_error_text(error: StorageError) -> Seq<char> {
    match error {
        StorageError::UnknownRun => "the Run Evidence Store has no such Sync Run"@,
        StorageError::DuplicateRun => "the Run Evidence Store already holds this Sync Run"@,
        StorageError::RunIdsExhausted => "the Run Evidence Store has no Sync Run id left"@,
    }
}

pub open spec fn precheck_failure_text(failure: PrecheckFailure) -> Seq<char> {
    match failure {
        PrecheckFailure::Blocked(blocked) => "Run Precheck blocked: "@ + joined(string_views(blocked.blockers@), "; "@),
        PrecheckFailure::InvalidSpecification(message) => "invalid profile: "@ + message@,
        PrecheckFailure::Probe(message) => "Run Precheck probe failed: "@ + message@,
        PrecheckFailure::ScopeLocked(message) => "Run Precheck blocked: "@ + message@,
    }
}

/// The message shown for a workflow error.
pub open spec fn workflow_error_text(error: WorkflowError) -> Seq<char> {
    match error {
        WorkflowError::Analysis(message) => "Fresh Analysis failed: "@ + message@,
        WorkflowError::Precheck(failure) => precheck_failure_text(failure),
        WorkflowError::Storage(storage) => storage_error_text(storage),
        WorkflowError::Verification(message) => "verification failed: "@ + message@,
        WorkflowError::ConfirmationRequired => "explicit Execution Confirmation was not given"@,
        WorkflowError::InvalidRun(reason) => "invalid Sync Run: "@ + reason@,
        WorkflowError::Io(reason) => "Sync Run filesystem operation failed: "@ + reason@,
        WorkflowError::Resolution(reason) => "Resolution Run failed: "@ + reason@,
        WorkflowError::Ssh(error) => "SSH Sync Run failed: "@ + ssh_error_text(error),
    }
}

/// How an SSH failure reads.
pub open spec fn ssh_error_text(error: SshRunError) -> Seq<char> {
    match error {
        SshRunError::Cancelled => "the run was cancelled"@,
        SshRunError::Transport(message) => message@,
        SshRunError::RemoteVerificationUnavailable => "remote verification was unavailable"@,
        SshRunError::RemoteVerificationMismatch => "the remote copy did not match its source"@,
        SshRunError::SourceChanged => "the source changed during the transfer"@,
        SshRunError::MetadataMismatch => "metadata did not match"@,
        SshRunError::RemoteRecoveryUnavailable => "the remote Trash is unavailable"@,
        SshRunError::RemoteRecoveryFailed => "remote recovery failed"@,
        SshRunError::RemoteRecoveryAmbiguous => "remote recovery could not be proven"@,
        SshRunError::Precheck(message) => message@,
        SshRunError::Failed(message) => message@,
    }
}

fn ssh_error_message(error: &SshRunError) -> (text: String)
    ensures
        text@ == ssh_error_text(*error),
{
    match error {
        SshRunError::Cancelled => String::from_str("the run was cancelled"),
        SshRunError::Transport(message) => message.clone(),
        SshRunError::RemoteVerificationUnavailable => String::from_str("remote verification was unavailable"),
        SshRunError::RemoteVerificationMismatch => String::from_str("the remote copy did not match its source"),
        SshRunError::SourceChanged => String::from_str("the source changed during the transfer"),
        SshRunError::MetadataMismatch => String::from_str("metadata did not match"),
        SshRunError::RemoteRecoveryUnavailable => String::from_str("the remote Trash is unavailable"),
        SshRunError::RemoteRecoveryFailed => String::from_str("remote recovery failed"),
        SshRunError::RemoteRecoveryAmbiguous => String::from_str("remote recovery could not be proven"),
        SshRunError::Precheck(message) => message.clone(),
        SshRunError::Failed(message) => message.clone(),
    }
}

pub(crate) fn prefixed(prefix: &str, message: &String) -> (text: String)
    ensures
        text@ == prefix@ + message@,
{
    let mut text = String::from_str(prefix);
    text.append(message.as_str());
    text
}

impl WorkflowError {
    pub fn message(&self) -> (text: String)
        ensures
            text@ == workflow_error_text(*self),
    {
        match self {
            WorkflowError::Analysis(message) => prefixed("Fresh Analysis failed: ", message),
            WorkflowError::Precheck(failure) => match failure {
                PrecheckFailure::Blocked(blocked) => {
                    let lines = join_lines(&blocked.blockers, "; ");
                    prefixed("Run Precheck blocked: ", &lines)
                },
                PrecheckFailure::InvalidSpecification(message) => prefixed("invalid profile: ", message),
                PrecheckFailure::Probe(message) => prefixed("Run Precheck probe failed: ", message),
                PrecheckFailure::ScopeLocked(message) => prefixed("Run Precheck blocked: ", message),
            },
            WorkflowError::Storage(storage) => match storage {
                StorageError::UnknownRun => String::from_str("the Run Evidence Store has no such Sync Run"),
                StorageError::DuplicateRun => String::from_str("the Run Evidence Store already holds this Sync Run"),
                StorageError::RunIdsExhausted => String::from_str("the Run Evidence Store has no Sync Run id left"),
            },
            WorkflowError::Verification(message) => prefixed("verification failed: ", message),
            WorkflowError::ConfirmationRequired => String::from_str("explicit Execution Confirmation was not given"),
            WorkflowError::InvalidRun(reason) => prefixed("invalid Sync Run: ", reason),
            WorkflowError::Io(reason) => prefixed("Sync Run filesystem operation failed: ", reason),
            WorkflowError::Resolution(reason) => prefixed("Resolution Run failed: ", reason),
            WorkflowError::Ssh(error) => {
                let detail = ssh_error_message(error);
                prefixed("SSH Sync Run failed: ", &detail)
            },
        }
    }
}

/// The snapshot a run is recorded under.
pub open spec fn snapshot_fits(
    snapshot: RunSnapshot,
    run_id: RunId,
    profile: SyncProfile,
    authorizations: AuthorizationSnapshot,
    source_volume: Option<u64>,
    destination_volume: Option<u64>,
) -> bool {
    &&& snapshot.run_id == run_id
    &&& crate::profile::same_profile(snapshot.profile, profile)
    &&& snapshot.authorizations == authorizations
    &&& (snapshot.peer_a_volume, snapshot.peer_b_volume) == oriented_volumes(profile, source_volume, destination_volume)
}

pub(crate) fn run_snapshot(
    run_id: RunId,
    profile: &SyncProfile,
    authorizations: AuthorizationSnapshot,
    source_volume: Option<u64>,
    destination_volume: Option<u64>,
) -> (snapshot: RunSnapshot)
    ensures
        snapshot_fits(snapshot, run_id, *profile, authorizations, source_volume, destination_volume),
{
    let (peer_a_volume, peer_b_volume) = orient_volume_identities(profile, source_volume, destination_volume);
    RunSnapshot { run_id, profile: profile.duplicate(), authorizations, peer_a_volume, peer_b_volume }
}

/// Records a run that a precheck blocked before any mutation.
pub(crate) fn persist_blocked(
    store: &mut RunEvidenceStore,
    run_id: RunId,
    profile: &SyncProfile,
    error: &WorkflowError,
    source_volume: Option<u64>,
    destination_volume: Option<u64>,
    authorizations: AuthorizationSnapshot,
) -> (result: Result<(), WorkflowError>)
    requires
        old(store).consistent(),
    ensures
        final(store).consistent(),
        old(store).has_run(run_id) ==> result == Err::<(), WorkflowError>(WorkflowError::Storage(StorageError::DuplicateRun))
            && final(store).unchanged_from(*old(store)),
        !old(store).has_run(run_id) ==> {
            &&& result is Ok
            &&& blocked_record(*old(store), *final(store), run_id, *profile, authorizations, source_volume, destination_volume, workflow_error_text(*error))
        },
{
    let ghost start = *store;
    let snapshot = run_snapshot(run_id, profile, authorizations, source_volume, destination_volume);
    match store.begin_run(snapshot) {
        Ok(()) => {},
        Err(storage) => return Err(WorkflowError::Storage(storage)),
    }
    let ghost begun = *store;
    let reason = error.message();
    match store.mark_blocked(run_id, reason) {
        Ok(()) => {},
        Err(storage) => return Err(WorkflowError::Storage(storage)),
    }
    proof {
        assert(!start.has_run(run_id));
        assert(begun.others_unchanged(start, run_id));
        assert(store.others_unchanged(begun, run_id));
        assert forall|other: RunId| other != run_id implies {
            &&& #[trigger] store.has_run(other) == start.has_run(other)
            &&& start.has_run(other) ==> {
                &&& store.journal(other) == start.journal(other)
                &&& store.run_status(other) == start.run_status(other)
                &&& store.snapshot(other) == start.snapshot(other)
                &&& store.blocked_reason(other) == start.blocked_reason(other)
            }
        } by {
            assert(begun.has_run(other) == start.has_run(other));
            assert(store.has_run(other) == begun.has_run(other));
        }
        assert(store.has_run(run_id));
        assert(store.run_status(run_id) == crate::status::RunReportStatus::Blocked);
        assert(store.journal(run_id) == Seq::<JournalEvent>::empty());
        assert(store.blocked_reason(run_id) matches Some(text) && text@ == workflow_error_text(*error));
        assert(snapshot_fits(store.snapshot(run_id), run_id, *profile, authorizations, source_volume, destination_volume));
        assert(store.others_unchanged(start, run_id));
        assert(blocked_record(start, *store, run_id, *profile, authorizations, source_volume, destination_volume, workflow_error_text(*error)));
    }
    Ok(())
}

/// The store gained exactly one blocked run with an empty journal.
pub open spec fn blocked_record(
    before: RunEvidenceStore,
    after: RunEvidenceStore,
    run_id: RunId,
    profile: SyncProfile,
    authorizations: AuthorizationSnapshot,
    source_volume: Option<u64>,
    destination_volume: Option<u64>,
    reason: Seq<char>,
) -> bool {
    &&& after.has_run(run_id)
    &&& after.run_status(run_id) == crate::status::RunReportStatus::Blocked
    &&& after.journal(run_id) == Seq::<JournalEvent>::empty()
    &&& after.blocked_reason(run_id) matches Some(text) && text@ == reason
    &&& snapshot_fits(after.snapshot(run_id), run_id, profile, authorizations, source_volume, destination_volume)
    &&& after.others_unchanged(before, run_id)
}

/// What a store holds after a confirmed plan was executed and reconciled
/// as run `run_id`: the snapshot, every action planned before any other
/// event, every planned action settled, removals only after proof, and a
/// status reconciled from the journal.
pub open spec fn executed_run(
    before: RunEvidenceStore,
    after: RunEvidenceStore,
    run_id: RunId,
    profile: SyncProfile,
    authorizations: AuthorizationSnapshot,
    source_volume: Option<u64>,
    destination_volume: Option<u64>,
) -> bool {
    &&& !before.has_run(run_id)
    &&& after.has_run(run_id)
    &&& after.others_unchanged(before, run_id)
    &&& snapshot_fits(after.snapshot(run_id), run_id, profile, authorizations, source_volume, destination_volume)
    &&& after.blocked_reason(run_id).is_none()
    &&& ordered(after.journal(run_id))
    &&& all_planned_settled(after.journal(run_id))
    &&& exists|observed: bool| after.run_status(run_id) == #[trigger] reconciled_status(after.journal(run_id), observed)
}

/// In every run the workflow executed, the whole plan is journaled before
/// any work, and a source item is removed only after its transfer was
/// verified and a durable proof boundary recorded.
pub proof fn executed_runs_remove_only_after_proof(
    before: RunEvidenceStore,
    after: RunEvidenceStore,
    run_id: RunId,
    profile: SyncProfile,
    authorizations: AuthorizationSnapshot,
    source_volume: Option<u64>,
    destination_volume: Option<u64>,
)
    requires
        executed_run(before, after, run_id, profile, authorizations, source_volume, destination_volume),
    ensures
        planned_first(after.journal(run_id)),
        removal_after_proof(after.journal(run_id)),
{
    reveal(ordered);
}

/// Run `run_id` was new and now holds journaled work: something past the
/// precheck was recorded for it.
pub open spec fn journaled_new_run(before: RunEvidenceStore, after: RunEvidenceStore, run_id: RunId) -> bool {
    &&& !before.has_run(run_id)
    &&& after.has_run(run_id)
    &&& after.journal(run_id).len() > 0
}

/// The report is the store's record of `run_id`.
pub open spec fn report_of(report: RunReport, store: RunEvidenceStore, run_id: RunId) -> bool {
    &&& same_snapshot(report.snapshot, store.snapshot(run_id))
    &&& report.status == store.run_status(run_id)
    &&& report.journal@ == store.journal(run_id)
    &&& report.blocked_reason == store.blocked_reason(run_id)
}

/// A plan the workflow will execute: distinct action ids and at least one
/// transfer attempt.
pub open spec fn executable_plan(plan: OneWayPlan) -> bool {
    distinct_ids(action_ids(plan.actions@)) && plan.options.retry_policy.max_attempts >= 1
}

impl RunWorkflow {
    /// Executes a confirmed plan as run `run_id` and reconciles it.
    #[verifier::spinoff_prover]
    pub(crate) fn execute_confirmed<E: RunEnvironment, F: Fn() -> bool>(
        &self,
        run_id: RunId,
        profile: &SyncProfile,
        plan: &OneWayPlan,
        authorizations: AuthorizationSnapshot,
        store: &mut RunEvidenceStore,
        env: &E,
        should_cancel: &F,
        source_volume: Option<u64>,
        destination_volume: Option<u64>,
        calls: &mut Ghost<Seq<EnvCall>>,
    ) -> (result: Result<RunReport, WorkflowError>)
        requires
            old(store).consistent(),
            forall|| #[trigger] call_requires(*should_cancel, ()),
        ensures
            final(store).consistent(),
            appended(old(calls)@, final(calls)@),
            execution_only(added(old(calls)@, final(calls)@)),
            removals_follow_start(added(old(calls)@, final(calls)@)),
            result matches Err(error) ==> error is InvalidRun || error is Storage,
            !executable_plan(*plan) ==> result is Err && final(store).unchanged_from(*old(store)),
            executable_plan(*plan) && old(store).has_run(run_id) ==> result == Err::<RunReport, WorkflowError>(WorkflowError::Storage(StorageError::DuplicateRun))
                && final(store).unchanged_from(*old(store)),
            executable_plan(*plan) && !old(store).has_run(run_id) ==> (result matches Ok(report)
                && executed_run(*old(store), *final(store), run_id, *profile, authorizations, source_volume, destination_volume)
                && planned_ids(final(store).journal(run_id)) == action_ids(plan.actions@)
                && report_of(report, *final(store), run_id)),
            always_cancels(*should_cancel) && result is Ok ==> cancelled_run(final(store).journal(run_id), final(store).run_status(run_id)),
    {
        let ghost call_start = calls@;
        proof {
            lemma_added_refl(call_start);
        }
        if !plan_ids_distinct(&plan.actions) || plan.options.retry_policy.max_attempts < 1 {
            return Err(WorkflowError::InvalidRun(String::from_str("the reviewed plan has repeated action ids or no transfer attempt")));
        }
        let ghost start = *store;
        let snapshot = run_snapshot(run_id, profile, authorizations, source_volume, destination_volume);
        match store.begin_run(snapshot) {
            Ok(()) => {},
            Err(storage) => return Err(WorkflowError::Storage(storage)),
        }
        let ghost begun = *store;
        persist_plan(store, run_id, plan)?;
        let ghost planned = *store;
        self.execute_planned_actions(store, run_id, plan, env, should_cancel, calls)?;
        let ghost executed_calls = calls@;
        let ghost executed = *store;
        proof {
            lemma_journal_only_trans(begun, planned, executed, run_id);
        }
        let journal = match store.load_journal(run_id) {
            Ok(journal) => journal,
            Err(storage) => return Err(WorkflowError::Storage(storage)),
        };
        let observed = call_observe(env, profile, &journal, calls);
        proof {
            lemma_added_push(executed_calls, calls@.last());
            lemma_added_trans(call_start, executed_calls, calls@);
            lemma_calls_concat(added(call_start, executed_calls), added(executed_calls, calls@));
        }
        match store.record_reconciliation(run_id, observed) {
            Ok(()) => {},
            Err(storage) => return Err(WorkflowError::Storage(storage)),
        }
        let report = match store.load_report(run_id) {
            Ok(report) => report,
            Err(storage) => return Err(WorkflowError::Storage(storage)),
        };
        proof {
            reveal(frame_kept);
            assert(store.run_status(run_id) == reconciled_status(store.journal(run_id), observed));
            assert forall|other: RunId| other != run_id implies {
                &&& #[trigger] store.has_run(other) == start.has_run(other)
                &&& start.has_run(other) ==> {
                    &&& store.journal(other) == start.journal(other)
                    &&& store.run_status(other) == start.run_status(other)
                    &&& store.snapshot(other) == start.snapshot(other)
                    &&& store.blocked_reason(other) == start.blocked_reason(other)
                }
            } by {
                assert(begun.has_run(other) == start.has_run(other));
                assert(executed.has_run(other) == begun.has_run(other));
                assert(store.has_run(other) == executed.has_run(other));
            }
            assert(store.others_unchanged(start, run_id));
            assert(executed_run(start, *store, run_id, *profile, authorizations, source_volume, destination_volume));
            if always_cancels(*should_cancel) {
                lemma_cancelled_run(store.journal(run_id), plan.actions@, observed);
            }
        }
        Ok(report)
    }
}

/// A confirmation that never answers `true`, whatever plan it is shown.
pub open spec fn never_confirms<C: FnOnce(&OneWayPlan) -> bool>(confirm: C) -> bool {
    forall|plan: OneWayPlan| !#[trigger] call_ensures(confirm, (&plan,), true)
}

/// A cancellation check that answers `true` whenever it is asked.
pub open spec fn always_cancels<F: Fn() -> bool>(should_cancel: F) -> bool {
    forall|answer: bool| #[trigger] call_ensures(should_cancel, (), answer) ==> answer
}

/// A run whose every planned action settled as cancelled; with at least one
/// planned action its status is Cancelled.
pub open spec fn cancelled_run(journal: Seq<JournalEvent>, status: RunReportStatus) -> bool {
    &&& forall|i: int| 0 <= i < planned_ids(journal).len()
        ==> outcome_in(journal, #[trigger] planned_ids(journal)[i]) == ActionOutcome::Cancelled
    &&& planned_ids(journal).len() > 0 ==> status == RunReportStatus::Cancelled
}

proof fn lemma_rank_all_cancelled(journal: Seq<JournalEvent>, ids: Seq<u64>)
    requires
        forall|i: int| 0 <= i < ids.len() ==> outcome_in(journal, #[trigger] ids[i]) == ActionOutcome::Cancelled,
    ensures
        ids.len() > 0 ==> max_rank(journal, ids) == 3,
        ids.len() == 0 ==> max_rank(journal, ids) == 0,
    decreases ids.len(),
{
    if ids.len() > 0 {
        let rest = ids.drop_last();
        assert forall|i: int| 0 <= i < rest.len() implies outcome_in(journal, #[trigger] rest[i]) == ActionOutcome::Cancelled by {
            assert(rest[i] == ids[i]);
        }
        lemma_rank_all_cancelled(journal, rest);
        assert(outcome_in(journal, ids[ids.len() - 1]) == ActionOutcome::Cancelled);
    }
}

pub(crate) proof fn lemma_cancelled_run(journal: Seq<JournalEvent>, actions: Seq<PlanAction>, observed: bool)
    requires
        planned_ids(journal) == action_ids(actions),
        forall|i: int| 0 <= i < actions.len() ==>
            outcome_in(journal, #[trigger] actions[i].action_id) == ActionOutcome::Cancelled,
    ensures
        cancelled_run(journal, reconciled_status(journal, observed)),
{
    let ids = planned_ids(journal);
    assert forall|i: int| 0 <= i < ids.len() implies outcome_in(journal, #[trigger] ids[i]) == ActionOutcome::Cancelled by {
        assert(ids[i] == action_ids(actions)[i]);
        assert(outcome_in(journal, actions[i].action_id) == ActionOutcome::Cancelled);
    }
    lemma_rank_all_cancelled(journal, ids);
}

/// After a run, the registry holds nothing for the run and exactly what it
/// held before for every other run.
pub open spec fn locks_released(before: PeerScopeLockRegistry, after: PeerScopeLockRegistry, run_id: RunId) -> bool {
    &&& after.exclusive()
    &&& forall|i: int| 0 <= i < after.held_scopes().len() ==> (#[trigger] after.held_scopes()[i]).owner.run_id != run_id
    &&& forall|h: HeldScope| h.owner.run_id != run_id ==>
        (#[trigger] after.held_scopes().contains(h) <==> before.held_scopes().contains(h))
}

/// The two peer roots a profile's run locks.
pub open spec fn profile_scopes(profile: SyncProfile) -> Seq<Seq<char>> {
    seq![peer_root(profile.peer_a), peer_root(profile.peer_b)]
}

/// Another run holds a scope that overlaps one of the profile's peers.
pub open spec fn scope_held_elsewhere(registry: PeerScopeLockRegistry, run_id: RunId, profile: SyncProfile) -> bool {
    exists|i: int, k: int| 0 <= i < registry.held_scopes().len() && 0 <= k < 2
        && (#[trigger] registry.held_scopes()[i]).owner.run_id != run_id
        && scopes_overlap(registry.held_scopes()[i].scope.root@, #[trigger] profile_scopes(profile)[k])
}

pub(crate) fn profile_peer_scopes(profile: &SyncProfile) -> (scopes: Vec<PeerScope>)
    ensures
        scopes@.len() == 2,
        forall|k: int| 0 <= k < 2 ==> (#[trigger] scopes@[k]).root@ == profile_scopes(*profile)[k],
{
    let mut scopes: Vec<PeerScope> = Vec::new();
    scopes.push(PeerScope { root: String::from_str(profile.peer_a.root()) });
    scopes.push(PeerScope { root: String::from_str(profile.peer_b.root()) });
    scopes
}

pub(crate) proof fn lemma_acquire_then_release(
    before: PeerScopeLockRegistry,
    acquired: PeerScopeLockRegistry,
    after: PeerScopeLockRegistry,
    owner: ScopeLockOwner,
    scopes: Seq<PeerScope>,
)
    requires
        acquired.held_scopes().len() == before.held_scopes().len() + scopes.len(),
        acquired.held_scopes().subrange(0, before.held_scopes().len() as int) == before.held_scopes(),
        forall|k: int| 0 <= k < scopes.len() ==>
            #[trigger] acquired.held_scopes()[before.held_scopes().len() + k] == (HeldScope { owner: owner, scope: scopes[k] }),
        locks_released(acquired, after, owner.run_id),
    ensures
        locks_released(before, after, owner.run_id),
{
    assert forall|h: HeldScope| h.owner.run_id != owner.run_id implies
        (#[trigger] after.held_scopes().contains(h) <==> before.held_scopes().contains(h)) by {
        let b = before.held_scopes();
        let a = acquired.held_scopes();
        if before.held_scopes().contains(h) {
            let w = choose|w: int| 0 <= w < b.len() && b[w] == h;
            assert(a.subrange(0, b.len() as int)[w] == h);
            assert(a[w] == h);
        }
        if acquired.held_scopes().contains(h) {
            let w = choose|w: int| 0 <= w < a.len() && a[w] == h;
            if w >= b.len() {
                assert(a[b.len() + (w - b.len())].owner == owner);
            } else {
                assert(a.subrange(0, b.len() as int)[w] == a[w]);
                assert(b[w] == h);
            }
        }
    }
}

impl RunWorkflow {
    pub fn new(recovery_method: RecoveryMethod) -> (workflow: RunWorkflow)
        ensures
            workflow.recovery_method == recovery_method,
            workflow.supervisor == ProcessSupervisor::new_spec(),
            workflow.scope_locks.held_scopes() == Seq::<HeldScope>::empty(),
            workflow.scope_locks.exclusive(),
    {
        RunWorkflow { recovery_method, supervisor: ProcessSupervisor::standard(), scope_locks: PeerScopeLockRegistry::new(), calls: Ghost(Seq::empty()) }
    }

    pub fn with_supervisor(supervisor: ProcessSupervisor, recovery_method: RecoveryMethod) -> (workflow: RunWorkflow)
        ensures
            workflow.recovery_method == recovery_method,
            workflow.supervisor == supervisor,
            workflow.scope_locks.held_scopes() == Seq::<HeldScope>::empty(),
            workflow.scope_locks.exclusive(),
    {
        RunWorkflow { recovery_method, supervisor, scope_locks: PeerScopeLockRegistry::new(), calls: Ghost(Seq::empty()) }
    }

    /// A workflow that shares the Peer Scope Locks other workflows hold.
    pub fn with_scope_lock_registry(
        supervisor: ProcessSupervisor,
        recovery_method: RecoveryMethod,
        scope_locks: PeerScopeLockRegistry,
    ) -> (workflow: RunWorkflow)
        ensures
            workflow.recovery_method == recovery_method,
            workflow.supervisor == supervisor,
            workflow.scope_locks == scope_locks,
    {
        RunWorkflow { recovery_method, supervisor, scope_locks, calls: Ghost(Seq::empty()) }
    }

    /// Runs the complete safety lifecycle with no unattended authorization.
    pub fn execute<E: RunEnvironment, C: FnOnce(&OneWayPlan) -> bool, F: Fn() -> bool>(
        &mut self,
        run_id: RunId,
        profile: &SyncProfile,
        env: &E,
        confirm: C,
        store: &mut RunEvidenceStore,
        should_cancel: F,
    ) -> (result: Result<RunReport, WorkflowError>)
        requires
            old(self).scope_locks.exclusive(),
            old(store).consistent(),
            forall|plan: &OneWayPlan| #[trigger] call_requires(confirm, (plan,)),
            forall|| #[trigger] call_requires(should_cancel, ()),
        ensures
            lifecycle_outcome(*old(self), *final(self), *old(store), *final(store), run_id, *profile,
                AuthorizationSnapshot { allow_unattended_destructive: false, allow_unattended_permanent_removal: false }, result),
            result is Ok ==> exists|plan: OneWayPlan| #[trigger] call_ensures(confirm, (&plan,), true)
                && planned_ids(final(store).journal(run_id)) == action_ids(plan.actions@),
            result matches Err(WorkflowError::ConfirmationRequired)
                ==> exists|plan: OneWayPlan| #[trigger] call_ensures(confirm, (&plan,), false),
            journaled_new_run(*old(store), *final(store), run_id)
                ==> exists|plan: OneWayPlan| #[trigger] call_ensures(confirm, (&plan,), true)
                    && planned_ids(final(store).journal(run_id)) == action_ids(plan.actions@),
            result matches Ok(report) ==> (always_cancels(should_cancel) ==> cancelled_run(report.journal@, report.status)),
            never_confirms(confirm) ==> (result matches Err(error)
                && (error is Precheck || final(store).unchanged_from(*old(store)))),
            appended(old(self).calls@, final(self).calls@),
            lifecycle_calls(added(old(self).calls@, final(self).calls@)),
            !effect_free(added(old(self).calls@, final(self).calls@))
                ==> exists|plan: OneWayPlan| #[trigger] call_ensures(confirm, (&plan,), true),
            never_confirms(confirm) ==> effect_free(added(old(self).calls@, final(self).calls@)),
            never_confirms(confirm) && analysed(added(old(self).calls@, final(self).calls@))
                ==> result == Err::<RunReport, WorkflowError>(WorkflowError::ConfirmationRequired),
            scope_held_elsewhere(old(self).scope_locks, run_id, *profile) ==> added(old(self).calls@, final(self).calls@).len() == 1,
            added(old(self).calls@, final(self).calls@).len() > 2 ==> exists|plan: OneWayPlan| #[trigger] call_ensures(confirm, (&plan,), true),
            added(old(self).calls@, final(self).calls@).len() > 2
                ==> (added(old(self).calls@, final(self).calls@)[1] matches EnvCall::FreshAnalysis { answer: Ok(reviewed) }
                    && call_ensures(confirm, (&reviewed,), true)),
            result is Ok || journaled_new_run(*old(store), *final(store), run_id)
                ==> rechecked_at(added(old(self).calls@, final(self).calls@), 2),
    {
        self.execute_with_authorizations(run_id, profile, env, AuthorizationSnapshot::none(), confirm, store, should_cancel)
    }

    /// Runs the complete safety lifecycle: Run Precheck and the Peer Scope
    /// Lock, Fresh Analysis, explicit Execution Confirmation, a second
    /// precheck, and journaled execution with the authorization snapshot
    /// frozen into the run.
    pub fn execute_with_authorizations<E: RunEnvironment, C: FnOnce(&OneWayPlan) -> bool, F: Fn() -> bool>(
        &mut self,
        run_id: RunId,
        profile: &SyncProfile,
        env: &E,
        authorizations: AuthorizationSnapshot,
        confirm: C,
        store: &mut RunEvidenceStore,
        should_cancel: F,
    ) -> (result: Result<RunReport, WorkflowError>)
        requires
            old(self).scope_locks.exclusive(),
            old(store).consistent(),
            forall|plan: &OneWayPlan| #[trigger] call_requires(confirm, (plan,)),
            forall|| #[trigger] call_requires(should_cancel, ()),
        ensures
            lifecycle_outcome(*old(self), *final(self), *old(store), *final(store), run_id, *profile, authorizations, result),
            result is Ok ==> exists|plan: OneWayPlan| #[trigger] call_ensures(confirm, (&plan,), true)
                && planned_ids(final(store).journal(run_id)) == action_ids(plan.actions@),
            result matches Err(WorkflowError::ConfirmationRequired)
                ==> exists|plan: OneWayPlan| #[trigger] call_ensures(confirm, (&plan,), false),
            journaled_new_run(*old(store), *final(store), run_id)
                ==> exists|plan: OneWayPlan| #[trigger] call_ensures(confirm, (&plan,), true)
                    && planned_ids(final(store).journal(run_id)) == action_ids(plan.actions@),
            result matches Ok(report) ==> (always_cancels(should_cancel) ==> cancelled_run(report.journal@, report.status)),
            never_confirms(confirm) ==> (result matches Err(error)
                && (error is Precheck || final(store).unchanged_from(*old(store)))),
            appended(old(self).calls@, final(self).calls@),
            lifecycle_calls(added(old(self).calls@, final(self).calls@)),
            !effect_free(added(old(self).calls@, final(self).calls@))
                ==> exists|plan: OneWayPlan| #[trigger] call_ensures(confirm, (&plan,), true),
            never_confirms(confirm) ==> effect_free(added(old(self).calls@, final(self).calls@)),
            never_confirms(confirm) && analysed(added(old(self).calls@, final(self).calls@))
                ==> result == Err::<RunReport, WorkflowError>(WorkflowError::ConfirmationRequired),
            scope_held_elsewhere(old(self).scope_locks, run_id, *profile) ==> added(old(self).calls@, final(self).calls@).len() == 1,
            added(old(self).calls@, final(self).calls@).len() > 2 ==> exists|plan: OneWayPlan| #[trigger] call_ensures(confirm, (&plan,), true),
            added(old(self).calls@, final(self).calls@).len() > 2
                ==> (added(old(self).calls@, final(self).calls@)[1] matches EnvCall::FreshAnalysis { answer: Ok(reviewed) }
                    && call_ensures(confirm, (&reviewed,), true)),
            result is Ok || journaled_new_run(*old(store), *final(store), run_id)
                ==> rechecked_at(added(old(self).calls@, final(self).calls@), 2),
    {
        let ghost start = *store;
        let ghost call_start = self.calls@;
        let mut calls = self.calls;
        let scopes = profile_peer_scopes(profile);
        let owner = ScopeLockOwner { profile_name: profile.name.clone(), run_id };
        let initial = VolumeExpectation { source_volume: None, destination_volume: None, require_recorded: false, allow_replacement: false };
        let first = call_precheck(env, profile, &initial, &mut calls);
        let ghost registry_before = self.scope_locks;
        let ghost p0 = calls@.last();
        proof {
            lemma_added_push(call_start, p0);
        }
        let passed = match self.admit_run(store, run_id, profile, first, &owner, &scopes, authorizations) {
            Ok(passed) => passed,
            Err(error) => {
                self.calls = calls;
                proof {
                    lemma_lifecycle_without_effects(seq![p0]);
                }
                return Err(error);
            },
        };
        let ghost registry_locked = self.scope_locks;
        let ghost after_p0 = calls@;
        let analysis = call_fresh_analysis(env, profile, &mut calls);
        let ghost fa = calls@.last();
        let ghost after_fa = calls@;
        proof {
            lemma_added_push(after_p0, fa);
            lemma_added_trans(call_start, after_p0, calls@);
            assert(added(call_start, calls@) =~= seq![p0, fa]);
            lemma_lifecycle_without_effects(seq![p0, fa]);
        }
        let plan = match analysis {
            Ok(plan) => plan,
            Err(message) => {
                self.calls = calls;
                self.scope_locks.release(run_id);
                proof {
                    lemma_acquire_then_release(registry_before, registry_locked, self.scope_locks, owner, scopes@);
                }
                return Err(WorkflowError::Analysis(message));
            },
        };
        if !confirm(&plan) {
            assert(call_ensures(confirm, (&plan,), false));
            self.calls = calls;
            self.scope_locks.release(run_id);
            proof {
                lemma_acquire_then_release(registry_before, registry_locked, self.scope_locks, owner, scopes@);
            }
            return Err(WorkflowError::ConfirmationRequired);
        }
        assert(call_ensures(confirm, (&plan,), true));
        let recheck = VolumeExpectation {
            source_volume: passed.source_volume,
            destination_volume: passed.destination_volume,
            require_recorded: false,
            allow_replacement: false,
        };
        let rechecked = call_precheck(env, profile, &recheck, &mut calls);
        let ghost p1 = calls@.last();
        let ghost head = seq![p0, fa, p1];
        proof {
            lemma_added_push(after_fa, p1);
            lemma_added_trans(call_start, after_fa, calls@);
            assert(added(call_start, calls@) =~= head);
            lemma_lifecycle_without_effects(head);
        }
        match rechecked {
            Ok(_) => {},
            Err(failure) => {
                self.calls = calls;
                let error = WorkflowError::Precheck(failure);
                self.scope_locks.release(run_id);
                proof {
                    lemma_acquire_then_release(registry_before, registry_locked, self.scope_locks, owner, scopes@);
                }
                let persisted = persist_blocked(store, run_id, profile, &error, passed.source_volume, passed.destination_volume, authorizations);
                proof {
                    assert(!journaled_new_run(start, *store, run_id));
                }
                persisted?;
                return Err(error);
            },
        }
        let ghost checked = calls@;
        proof {
            assert(rechecked_at(head, 2)) by {
                assert(head[1] is FreshAnalysis);
            }
            assert(effect_free(head)) by {
                assert(!has_effect(head[0]) && !has_effect(head[1]) && !has_effect(head[2]));
            }
        }
        let outcome = self.execute_confirmed(
            run_id, profile, &plan, authorizations, store, env, &should_cancel, passed.source_volume, passed.destination_volume,
            &mut calls);
        let ghost executed = calls@;
        proof {
            lemma_added_trans(call_start, checked, executed);
            lemma_lifecycle_after_recheck(head, added(checked, executed));
            assert(added(call_start, executed)[1] == head[1]);
        }
        let report = match outcome {
            Ok(report) => report,
            Err(error) => {
                self.calls = calls;
                self.scope_locks.release(run_id);
                proof {
                    lemma_acquire_then_release(registry_before, registry_locked, self.scope_locks, owner, scopes@);
                }
                return Err(error);
            },
        };
        let cleaned = self.cleanup_partials_after_success(profile, &plan, &report, env, &mut calls);
        proof {
            lemma_added_trans(call_start, executed, calls@);
            let tail = added(checked, executed) + added(executed, calls@);
            assert forall|i: int| 0 <= i < added(executed, calls@).len()
                implies execution_call(#[trigger] added(executed, calls@)[i]) && removal_started(added(executed, calls@)[i]) by {}
            lemma_calls_concat(added(checked, executed), added(executed, calls@));
            lemma_lifecycle_after_recheck(head, tail);
            assert((head + tail)[1] == head[1]);
            assert(added(call_start, calls@) =~= head + tail);
        }
        self.calls = calls;
        self.scope_locks.release(run_id);
        proof {
            lemma_acquire_then_release(registry_before, registry_locked, self.scope_locks, owner, scopes@);
        }
        match cleaned {
            Ok(()) => Ok(report),
            Err(error) => Err(error),
        }
    }

    /// Admits a run once its first precheck has answered. A refused precheck
    /// is recorded as a Blocked run with an empty journal; a passed precheck
    /// whose peer scopes another run holds is refused in the same way with a
    /// `ScopeLocked` failure; otherwise the run's Peer Scope Locks are taken
    /// and the passed precheck is handed back.
    pub fn admit_run(
        &mut self,
        store: &mut RunEvidenceStore,
        run_id: RunId,
        profile: &SyncProfile,
        first_precheck: Result<PrecheckPassed, PrecheckFailure>,
        owner: &ScopeLockOwner,
        scopes: &Vec<PeerScope>,
        authorizations: AuthorizationSnapshot,
    ) -> (admitted: Result<PrecheckPassed, WorkflowError>)
        requires
            old(self).scope_locks.exclusive(),
            old(store).consistent(),
            owner.run_id == run_id,
            scopes@.len() == 2,
            forall|k: int| 0 <= k < 2 ==> (#[trigger] scopes@[k]).root@ == profile_scopes(*profile)[k],
        ensures
            final(self).recovery_method == old(self).recovery_method,
            final(self).supervisor == old(self).supervisor,
            final(self).calls == old(self).calls,
            final(store).consistent(),
            first_precheck matches Err(failure) ==> refused_run(*old(store), *final(store), run_id, *profile, authorizations,
                WorkflowError::Precheck(failure), failure_volumes(failure), admitted),
            first_precheck is Ok && scope_held_elsewhere(old(self).scope_locks, run_id, *profile) && old(store).has_run(run_id)
                ==> admitted == Err::<PrecheckPassed, WorkflowError>(WorkflowError::Storage(StorageError::DuplicateRun))
                    && final(store).unchanged_from(*old(store)),
            first_precheck is Ok && scope_held_elsewhere(old(self).scope_locks, run_id, *profile) && !old(store).has_run(run_id)
                ==> (admitted matches Err(WorkflowError::Precheck(PrecheckFailure::ScopeLocked(message)))
                    && message@ == "another Sync Run holds an overlapping Peer Scope Lock"@
                    && blocked_record(*old(store), *final(store), run_id, *profile, authorizations,
                        first_precheck->Ok_0.source_volume, first_precheck->Ok_0.destination_volume, workflow_error_text(admitted->Err_0))),
            first_precheck is Ok && !scope_held_elsewhere(old(self).scope_locks, run_id, *profile)
                ==> admitted == Ok::<PrecheckPassed, WorkflowError>(first_precheck->Ok_0) && *final(store) == *old(store),
            admitted is Err ==> locks_released(old(self).scope_locks, final(self).scope_locks, run_id),
            admitted is Ok ==> {
                &&& final(self).scope_locks.exclusive()
                &&& final(self).scope_locks.held_scopes().len() == old(self).scope_locks.held_scopes().len() + 2
                &&& final(self).scope_locks.held_scopes().subrange(0, old(self).scope_locks.held_scopes().len() as int)
                    == old(self).scope_locks.held_scopes()
                &&& forall|k: int| 0 <= k < 2 ==> #[trigger] final(self).scope_locks.held_scopes()[old(self).scope_locks.held_scopes().len() + k]
                    == (HeldScope { owner: *owner, scope: scopes@[k] })
            },
    {
        let ghost registry_before = self.scope_locks;
        let passed = match first_precheck {
            Ok(passed) => passed,
            Err(failure) => {
                let (source_volume, destination_volume) = match &failure {
                    PrecheckFailure::Blocked(blocked) => (blocked.source_volume, blocked.destination_volume),
                    _ => (None, None),
                };
                let error = WorkflowError::Precheck(failure);
                self.scope_locks.release(run_id);
                persist_blocked(store, run_id, profile, &error, source_volume, destination_volume, authorizations)?;
                return Err(error);
            },
        };
        if !self.scope_locks.acquire(owner, scopes) {
            proof {
                assert(scope_held_elsewhere(registry_before, run_id, *profile)) by {
                    let (k, i) = choose|k: int, i: int| 0 <= k < scopes@.len() && 0 <= i < registry_before.held_scopes().len()
                        && (#[trigger] registry_before.held_scopes()[i]).owner.run_id != owner.run_id
                        && scopes_overlap(registry_before.held_scopes()[i].scope.root@, (#[trigger] scopes@[k]).root@);
                    assert(scopes@[k].root@ == profile_scopes(*profile)[k]);
                }
            }
            let error = WorkflowError::Precheck(PrecheckFailure::ScopeLocked(String::from_str(
                "another Sync Run holds an overlapping Peer Scope Lock")));
            self.scope_locks.release(run_id);
            persist_blocked(store, run_id, profile, &error, passed.source_volume, passed.destination_volume, authorizations)?;
            return Err(error);
        }
        proof {
            assert(!scope_held_elsewhere(registry_before, run_id, *profile)) by {
                if scope_held_elsewhere(registry_before, run_id, *profile) {
                    let (i, k) = choose|i: int, k: int| 0 <= i < registry_before.held_scopes().len() && 0 <= k < 2
                        && (#[trigger] registry_before.held_scopes()[i]).owner.run_id != run_id
                        && scopes_overlap(registry_before.held_scopes()[i].scope.root@, #[trigger] profile_scopes(*profile)[k]);
                    assert(scopes@[k].root@ == profile_scopes(*profile)[k]);
                }
            }
        }
        Ok(passed)
    }

    /// Removes retained partial transfers once a run that kept them for
    /// resume has completed.
    pub(crate) fn cleanup_partials_after_success<E: RunEnvironment>(
        &self,
        profile: &SyncProfile,
        plan: &OneWayPlan,
        report: &RunReport,
        env: &E,
        calls: &mut Ghost<Seq<EnvCall>>,
    ) -> (result: Result<(), WorkflowError>)
        ensures
            appended(old(calls)@, final(calls)@),
            forall|i: int| 0 <= i < added(old(calls)@, final(calls)@).len()
                ==> (#[trigger] added(old(calls)@, final(calls)@)[i]) is CleanupPartials,
            !(plan.options.partial_transfer_policy == PartialTransferPolicy::KeepPartialForResume
                && report.status == RunReportStatus::Completed) ==> result is Ok,
            result matches Err(error) ==> error is Io,
    {
        let ghost call_start = calls@;
        proof {
            lemma_added_refl(call_start);
        }
        let keeps_partials = match plan.options.partial_transfer_policy {
            PartialTransferPolicy::KeepPartialForResume => true,
            _ => false,
        };
        let completed = match report.status {
            RunReportStatus::Completed => true,
            _ => false,
        };
        if keeps_partials && completed {
            let roots = partial_cleanup_roots(profile);
            let mut index: usize = 0;
            while index < roots.len()
                invariant
                    index <= roots@.len(),
                    plan.options.partial_transfer_policy == PartialTransferPolicy::KeepPartialForResume,
                    report.status == RunReportStatus::Completed,
                    appended(call_start, calls@),
                    call_start == old(calls)@,
                    forall|i: int| 0 <= i < added(call_start, calls@).len() ==> (#[trigger] added(call_start, calls@)[i]) is CleanupPartials,
                decreases roots@.len() - index,
            {
                let ghost before = calls@;
                let answer = call_cleanup_partials(env, roots[index], calls);
                proof {
                    lemma_added_push(before, calls@.last());
                    lemma_added_trans(call_start, before, calls@);
                    assert(added(call_start, calls@) =~= added(call_start, before).push(calls@.last()));
                }
                match answer {
                    Ok(()) => {},
                    Err(message) => return Err(WorkflowError::Io(message)),
                }
                index += 1;
            }
        }
        Ok(())
    }
}

impl ProcessSupervisor {
    pub open spec fn new_spec() -> ProcessSupervisor {
        ProcessSupervisor { termination_grace_millis: 5000 }
    }

    /// The supervisor used when none is given.
    pub fn standard() -> (supervisor: ProcessSupervisor)
        ensures
            supervisor == ProcessSupervisor::new_spec(),
    {
        ProcessSupervisor { termination_grace_millis: 5000 }
    }
}

/// The volume identities a refused precheck reported.
pub open spec fn failure_volumes(failure: PrecheckFailure) -> (Option<u64>, Option<u64>) {
    match failure {
        PrecheckFailure::Blocked(blocked) => (blocked.source_volume, blocked.destination_volume),
        _ => (None, None),
    }
}

/// A run refused with `error`: recorded as Blocked with the volumes
/// reported, or, where the run id is already taken, refused as a duplicate
/// with nothing recorded.
pub open spec fn refused_run(
    before: RunEvidenceStore,
    after: RunEvidenceStore,
    run_id: RunId,
    profile: SyncProfile,
    authorizations: AuthorizationSnapshot,
    error: WorkflowError,
    volumes: (Option<u64>, Option<u64>),
    admitted: Result<PrecheckPassed, WorkflowError>,
) -> bool {
    if before.has_run(run_id) {
        admitted == Err::<PrecheckPassed, WorkflowError>(WorkflowError::Storage(StorageError::DuplicateRun))
            && after.unchanged_from(before)
    } else {
        admitted == Err::<PrecheckPassed, WorkflowError>(error)
            && blocked_record(before, after, run_id, profile, authorizations, volumes.0, volumes.1, workflow_error_text(error))
    }
}

/// What the lifecycle promises whatever the precheck, analysis, transfer
/// and removal calls returned.
pub open spec fn lifecycle_outcome(
    before: RunWorkflow,
    after: RunWorkflow,
    store_before: RunEvidenceStore,
    store_after: RunEvidenceStore,
    run_id: RunId,
    profile: SyncProfile,
    authorizations: AuthorizationSnapshot,
    result: Result<RunReport, WorkflowError>,
) -> bool {
    &&& after.recovery_method == before.recovery_method
    &&& after.supervisor == before.supervisor
    &&& locks_released(before.scope_locks, after.scope_locks, run_id)
    &&& store_after.consistent()
    // Without explicit confirmation nothing is journaled or recorded.
    &&& (result matches Err(WorkflowError::ConfirmationRequired) ==> store_after.unchanged_from(store_before))
    &&& (result matches Err(WorkflowError::Analysis(_)) ==> store_after.unchanged_from(store_before))
    // A blocked precheck, including a Peer Scope Lock held by another run,
    // leaves a durable Blocked report with an empty journal.
    &&& (scope_held_elsewhere(before.scope_locks, run_id, profile) ==> result is Err)
    // With the scopes held by another run, the run is refused by a failed
    // precheck, and so leaves a Blocked record.
    &&& (scope_held_elsewhere(before.scope_locks, run_id, profile) && !store_before.has_run(run_id)
        ==> result matches Err(WorkflowError::Precheck(_)))
    &&& match result {
        Err(WorkflowError::Precheck(failure)) => exists|source_volume: Option<u64>, destination_volume: Option<u64>|
            blocked_record(store_before, store_after, run_id, profile, authorizations, source_volume, destination_volume,
                workflow_error_text(WorkflowError::Precheck(failure))),
        _ => true,
    }
    // A report is only returned for a run that executed a confirmed plan.
    &&& (result matches Ok(report) ==> report_of(report, store_after, run_id)
        && exists|source_volume: Option<u64>, destination_volume: Option<u64>|
            executed_run(store_before, store_after, run_id, profile, authorizations, source_volume, destination_volume))
}

} // verus!
