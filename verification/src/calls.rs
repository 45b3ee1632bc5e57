//! The record of the calls a run makes to its environment or SSH backend.
//!
//! Every call that the run lifecycles make to a `RunEnvironment` or an
//! `SshRunBackend` goes through one of the functions below, which make the
//! call and append what it was given and what it answered to a ghost record.
//! The run contracts state the order and arguments of the calls over that
//! record.
use vstd::prelude::*;

use crate::failure::{SafeDeleteError, SshRunError, TransferError};
use crate::journal::{JournalEvent, OneWayPlan, PlanAction};
use crate::mirror::PeerInventories;
use crate::model::ActionReason;
use crate::profile::{SshPeer, SyncProfile};
use crate::resolution::ConflictResolutionAction;
use crate::ssh::{RecoveryEvidence, RemotePrecheck, SshRunBackend, SshTransferAttempt, SshTransferEvidence, SshTransferRequest};
use crate::store::RunEvidenceStore;
use crate::model::RunId;
use crate::workflow::{PrecheckFailure, PrecheckPassed, RecoveryMethod, RunEnvironment, VolumeExpectation};

verus! {

/// One call to the environment or SSH backend: what it was given and what
/// it answered. A removal records the last event of the run's journal when
/// it was made.
pub enum EnvCall {
    Precheck { expectation: VolumeExpectation, answer: Result<PrecheckPassed, PrecheckFailure> },
    FreshAnalysis { answer: Result<OneWayPlan, String> },
    Transfer { action_id: u64, verify_only: bool, answer: Result<(), TransferError> },
    Wait { delay_millis: u64, continued: bool },
    RemoveSource { action_id: u64, last: Option<JournalEvent>, answer: Result<(), SafeDeleteError> },
    Observe { consistent: bool },
    CleanupPartials { answer: Result<(), String> },
    CurrentInventories { answer: Result<PeerInventories, String> },
    PrepareResolution { decisions: Seq<ConflictResolutionAction>, answer: Result<(), String> },
    ExecuteResolution { relative_path: String, answer: Result<(), ActionReason> },
    ProbeHost { answer: Result<String, String> },
    RemotePrecheck { answer: Result<RemotePrecheck, String> },
    SshTransfer { action_id: u64, answer: Result<SshTransferEvidence, SshRunError> },
    RecoverSource { action_id: u64, last: Option<JournalEvent>, answer: Result<RecoveryEvidence, SshRunError> },
}

/// A call that can change a peer.
pub open spec fn has_effect(call: EnvCall) -> bool {
    match call {
        EnvCall::Transfer { verify_only, .. } => !verify_only,
        EnvCall::RemoveSource { .. } => true,
        EnvCall::CleanupPartials { .. } => true,
        EnvCall::ExecuteResolution { .. } => true,
        EnvCall::SshTransfer { .. } => true,
        EnvCall::RecoverSource { .. } => true,
        _ => false,
    }
}

/// No call of `calls` can change a peer.
pub open spec fn effect_free(calls: Seq<EnvCall>) -> bool {
    forall|i: int| 0 <= i < calls.len() ==> !has_effect(#[trigger] calls[i])
}

/// A removal is made only when the run's journal ends with the start of
/// that very removal.
pub open spec fn removal_started(call: EnvCall) -> bool {
    match call {
        EnvCall::RemoveSource { action_id, last, .. } =>
            last matches Some(JournalEvent::RemovalStarted { action_id: started, .. }) && started == action_id,
        EnvCall::RecoverSource { action_id, last, .. } =>
            last matches Some(JournalEvent::RemovalStarted { action_id: started, .. }) && started == action_id,
        _ => true,
    }
}

pub open spec fn removals_follow_start(calls: Seq<EnvCall>) -> bool {
    forall|i: int| 0 <= i < calls.len() ==> removal_started(#[trigger] calls[i])
}

/// A call made once a plan is confirmed and rechecked: executing its
/// actions, observing the result, and cleaning up retained partials.
pub open spec fn execution_call(call: EnvCall) -> bool {
    call is Transfer || call is Wait || call is RemoveSource || call is SshTransfer || call is RecoverSource
        || call is Observe || call is CleanupPartials || call is PrepareResolution || call is ExecuteResolution
}

pub open spec fn execution_only(calls: Seq<EnvCall>) -> bool {
    forall|i: int| 0 <= i < calls.len() ==> execution_call(#[trigger] calls[i])
}

/// `after` is `before` with calls appended.
pub open spec fn appended(before: Seq<EnvCall>, after: Seq<EnvCall>) -> bool {
    before.len() <= after.len() && after.subrange(0, before.len() as int) == before
}

/// The calls appended to `before`.
pub open spec fn added(before: Seq<EnvCall>, after: Seq<EnvCall>) -> Seq<EnvCall> {
    after.subrange(before.len() as int, after.len() as int)
}

/// The per-call properties hold of two runs of calls exactly when they hold
/// of each.
pub proof fn lemma_calls_concat(a: Seq<EnvCall>, b: Seq<EnvCall>)
    ensures
        effect_free(a + b) <==> effect_free(a) && effect_free(b),
        removals_follow_start(a + b) <==> removals_follow_start(a) && removals_follow_start(b),
        execution_only(a + b) <==> execution_only(a) && execution_only(b),
{
    let c = a + b;
    assert forall|i: int| 0 <= i < a.len() implies #[trigger] a[i] == c[i] by {}
    assert forall|i: int| 0 <= i < b.len() implies #[trigger] b[i] == c[a.len() + i] by {}
    if effect_free(a) && effect_free(b) {
        assert forall|i: int| 0 <= i < c.len() implies !has_effect(#[trigger] c[i]) by {
            if i >= a.len() {
                assert(c[i] == b[i - a.len()]);
            }
        }
    }
    if removals_follow_start(a) && removals_follow_start(b) {
        assert forall|i: int| 0 <= i < c.len() implies removal_started(#[trigger] c[i]) by {
            if i >= a.len() {
                assert(c[i] == b[i - a.len()]);
            }
        }
    }
    if execution_only(a) && execution_only(b) {
        assert forall|i: int| 0 <= i < c.len() implies execution_call(#[trigger] c[i]) by {
            if i >= a.len() {
                assert(c[i] == b[i - a.len()]);
            }
        }
    }
}

/// Appending `b` after `a` and then `c` adds `b + c`.
pub proof fn lemma_added_trans(a: Seq<EnvCall>, b: Seq<EnvCall>, c: Seq<EnvCall>)
    requires
        appended(a, b),
        appended(b, c),
    ensures
        appended(a, c),
        added(a, c) == added(a, b) + added(b, c),
{
    assert(c.subrange(0, a.len() as int) =~= b.subrange(0, a.len() as int));
    assert(added(a, c) =~= added(a, b) + added(b, c));
}

pub proof fn lemma_added_refl(a: Seq<EnvCall>)
    ensures
        appended(a, a),
        added(a, a) == Seq::<EnvCall>::empty(),
{
    assert(a.subrange(0, a.len() as int) =~= a);
    assert(added(a, a) =~= Seq::<EnvCall>::empty());
}

pub proof fn lemma_added_push(a: Seq<EnvCall>, x: EnvCall)
    ensures
        appended(a, a.push(x)),
        added(a, a.push(x)) == seq![x],
{
    assert(a.push(x).subrange(0, a.len() as int) =~= a);
    assert(added(a, a.push(x)) =~= seq![x]);
}

/// Attempt `k` of a retry: the call at position `2k`.
pub open spec fn attempt_call(calls: Seq<EnvCall>, k: int) -> EnvCall {
    calls[2 * k]
}

/// The wait after attempt `k` of a retry: the call at position `2k + 1`.
pub open spec fn wait_call(calls: Seq<EnvCall>, k: int) -> EnvCall {
    calls[2 * k + 1]
}

pub open spec fn transfer_answer(call: EnvCall) -> Result<(), TransferError> {
    match call {
        EnvCall::Transfer { answer, .. } => answer,
        _ => Err(TransferError::Cancelled),
    }
}

/// Two answers of a transfer agree: both succeeded, or both failed with the
/// same error.
pub open spec fn same_answer(a: Result<(), TransferError>, b: Result<(), TransferError>) -> bool {
    match (a, b) {
        (Ok(_), Ok(_)) => true,
        (Err(x), Err(y)) => x == y,
        _ => false,
    }
}

pub open spec fn attempt_for(call: EnvCall, action_id: u64, verify_only: bool) -> bool {
    call matches EnvCall::Transfer { action_id: id, verify_only: v, .. } && id == action_id && v == verify_only
}

/// The calls of a bounded retry of one action that ran `attempts` attempts
/// and gave `result`: one transfer per attempt at even positions; every
/// transfer followed by a wait failed transiently; a wait before a later
/// attempt let the run go on; the result is the last transfer's answer, or
/// a cancellation when the calls end with a wait.
pub open spec fn retry_calls(
    calls: Seq<EnvCall>,
    action_id: u64,
    verify_only: bool,
    attempts: int,
    result: Result<(), TransferError>,
) -> bool {
    &&& attempts >= 0
    &&& (calls.len() == 2 * attempts - 1 || calls.len() == 2 * attempts)
    &&& forall|k: int| 0 <= k < attempts ==> attempt_for(#[trigger] attempt_call(calls, k), action_id, verify_only)
    &&& forall|k: int| 0 <= k && 2 * k + 1 < calls.len() ==>
        (transfer_answer(#[trigger] attempt_call(calls, k)) matches Err(error) && crate::failure::is_transient(error))
            && wait_call(calls, k) is Wait
    &&& forall|k: int| 0 <= k && 2 * k + 2 < calls.len() ==> ((#[trigger] wait_call(calls, k)) matches EnvCall::Wait { continued: true, .. })
    &&& calls.len() == 2 * attempts - 1 ==> same_answer(result, transfer_answer(attempt_call(calls, attempts - 1)))
    &&& calls.len() == 2 * attempts ==> result == Err::<(), TransferError>(TransferError::Cancelled)
}

pub open spec fn ssh_answer(call: EnvCall) -> Result<SshTransferEvidence, SshRunError> {
    match call {
        EnvCall::SshTransfer { answer, .. } => answer,
        _ => Err(SshRunError::Cancelled),
    }
}

pub open spec fn ssh_attempt_for(call: EnvCall, action_id: u64) -> bool {
    call matches EnvCall::SshTransfer { action_id: id, .. } && id == action_id
}

/// The calls of a bounded SSH transfer that ran `attempts` attempts and gave
/// `result`, laid out as for a local retry: one transfer per attempt at even
/// positions, each followed by a wait only after a retryable failure.
pub open spec fn ssh_retry_calls(
    calls: Seq<EnvCall>,
    action_id: u64,
    attempts: int,
    result: Result<SshTransferEvidence, SshRunError>,
) -> bool {
    &&& attempts >= 0
    &&& (calls.len() == 2 * attempts - 1 || calls.len() == 2 * attempts)
    &&& forall|k: int| 0 <= k < attempts ==> ssh_attempt_for(#[trigger] attempt_call(calls, k), action_id)
    &&& forall|k: int| 0 <= k && 2 * k + 1 < calls.len() ==>
        (ssh_answer(#[trigger] attempt_call(calls, k)) matches Err(error) && crate::failure::ssh_is_retryable(error))
            && wait_call(calls, k) is Wait
    &&& forall|k: int| 0 <= k && 2 * k + 2 < calls.len() ==> ((#[trigger] wait_call(calls, k)) matches EnvCall::Wait { continued: true, .. })
    &&& calls.len() == 2 * attempts - 1 ==> result == ssh_answer(attempt_call(calls, attempts - 1))
    &&& calls.len() == 2 * attempts ==> result == Err::<SshTransferEvidence, SshRunError>(SshRunError::Cancelled)
}

/// An SSH transfer makes transfers and waits only.
pub proof fn lemma_ssh_retry_execution_only(
    calls: Seq<EnvCall>,
    action_id: u64,
    attempts: int,
    result: Result<SshTransferEvidence, SshRunError>,
)
    requires
        ssh_retry_calls(calls, action_id, attempts, result),
    ensures
        execution_only(calls),
        removals_follow_start(calls),
{
    assert forall|i: int| 0 <= i < calls.len() implies execution_call(#[trigger] calls[i]) && removal_started(calls[i]) by {
        let k = i / 2;
        if i % 2 == 0 {
            assert(attempt_call(calls, k) == calls[i]);
            assert(ssh_attempt_for(attempt_call(calls, k), action_id));
        } else {
            assert(wait_call(calls, k) == calls[i]);
            assert(ssh_answer(attempt_call(calls, k)) matches Err(error) && crate::failure::ssh_is_retryable(error));
        }
    }
}

/// A retry makes transfers and waits only.
pub proof fn lemma_retry_execution_only(
    calls: Seq<EnvCall>,
    action_id: u64,
    verify_only: bool,
    attempts: int,
    result: Result<(), TransferError>,
)
    requires
        retry_calls(calls, action_id, verify_only, attempts, result),
    ensures
        execution_only(calls),
        removals_follow_start(calls),
        effect_free(calls) <==> (verify_only || attempts == 0),
{
    assert forall|i: int| 0 <= i < calls.len() implies execution_call(#[trigger] calls[i]) && removal_started(calls[i])
        && (has_effect(calls[i]) ==> !verify_only) by {
        let k = i / 2;
        if i % 2 == 0 {
            assert(i == 2 * k);
            assert(attempt_call(calls, k) == calls[i]);
            assert(attempt_for(attempt_call(calls, k), action_id, verify_only));
        } else {
            assert(i == 2 * k + 1);
            assert(wait_call(calls, k) == calls[i]);
            assert(transfer_answer(attempt_call(calls, k)) matches Err(error) && crate::failure::is_transient(error));
        }
    }
    if !verify_only && attempts > 0 {
        assert(attempt_for(attempt_call(calls, 0), action_id, verify_only));
        assert(has_effect(calls[0]));
    }
}

/// What the first precheck of a new run is given: nothing recorded is
/// expected and no replaced volume is accepted.
pub open spec fn first_expectation() -> VolumeExpectation {
    VolumeExpectation { source_volume: None, destination_volume: None, require_recorded: false, allow_replacement: false }
}

/// What the second precheck is given: the volumes the first one measured.
pub open spec fn recheck_expectation(first: PrecheckPassed) -> VolumeExpectation {
    VolumeExpectation {
        source_volume: first.source_volume,
        destination_volume: first.destination_volume,
        require_recorded: false,
        allow_replacement: false,
    }
}

/// Call `i` is a passed second precheck, made after a Fresh Analysis or a
/// fresh inventory, that expects the volumes the first precheck measured.
pub open spec fn rechecked_at(calls: Seq<EnvCall>, i: int) -> bool {
    &&& 0 < i < calls.len()
    &&& match calls[0] {
        EnvCall::Precheck { answer: Ok(first), .. } => (calls[i] matches EnvCall::Precheck { expectation, answer: Ok(_) }
            && expectation == recheck_expectation(first)),
        _ => false,
    }
    &&& exists|k: int| 0 < k < i && ((#[trigger] calls[k]) is FreshAnalysis || calls[k] is CurrentInventories)
}

/// The calls of a local run's lifecycle: the first is the first precheck;
/// every call that can change a peer comes after a passed second precheck
/// that follows a Fresh Analysis and expects the volumes the first
/// precheck measured; every removal is made right after its journaled start.
pub open spec fn lifecycle_calls(calls: Seq<EnvCall>) -> bool {
    &&& calls.len() > 0
    &&& (calls[0] matches EnvCall::Precheck { expectation, .. } && expectation == first_expectation())
    &&& forall|j: int| 0 <= j < calls.len() && has_effect(#[trigger] calls[j]) ==> exists|i: int| i < j && rechecked_at(calls, i)
    &&& removals_follow_start(calls)
}

/// The run passed its first precheck and its Fresh Analysis produced a plan.
pub open spec fn analysed(calls: Seq<EnvCall>) -> bool {
    &&& calls.len() >= 2
    &&& calls[0] matches EnvCall::Precheck { answer: Ok(_), .. }
    &&& calls[1] matches EnvCall::FreshAnalysis { answer: Ok(_) }
}

/// Calls that change nothing and start with the first precheck are the
/// calls of a lifecycle.
pub proof fn lemma_lifecycle_without_effects(calls: Seq<EnvCall>)
    requires
        calls.len() > 0,
        calls[0] matches EnvCall::Precheck { expectation, .. } && expectation == first_expectation(),
        effect_free(calls),
        forall|i: int| 0 <= i < calls.len() ==> !(#[trigger] calls[i] is RemoveSource) && !(calls[i] is RecoverSource),
    ensures
        lifecycle_calls(calls),
{
}

/// Calls that change nothing and end with a passed recheck, then calls of a
/// confirmed plan, are the calls of a lifecycle.
pub proof fn lemma_lifecycle_after_recheck(head: Seq<EnvCall>, rest: Seq<EnvCall>)
    requires
        head.len() >= 2,
        head[0] matches EnvCall::Precheck { expectation, .. } && expectation == first_expectation(),
        effect_free(head),
        rechecked_at(head, head.len() - 1),
        execution_only(rest),
        removals_follow_start(rest),
    ensures
        lifecycle_calls(head + rest),
        rechecked_at(head + rest, head.len() - 1),
{
    let c = head + rest;
    let r = head.len() - 1;
    assert forall|i: int| 0 <= i < head.len() implies #[trigger] c[i] == head[i] by {}
    let k = choose|k: int| 0 < k < r && ((#[trigger] head[k]) is FreshAnalysis || head[k] is CurrentInventories);
    assert(c[k] == head[k]);
    assert(rechecked_at(c, r));
    assert forall|j: int| 0 <= j < c.len() && has_effect(#[trigger] c[j]) implies exists|i: int| i < j && rechecked_at(c, i) by {
        if j < head.len() {
            assert(c[j] == head[j]);
            assert(!has_effect(head[j]));
        }
    }
    assert forall|i: int| 0 <= i < c.len() implies removal_started(#[trigger] c[i]) by {
        if i >= head.len() {
            assert(c[i] == rest[i - head.len()]);
        } else {
            assert(!has_effect(head[i]));
        }
    }
}

/// The last event of run `run_id`'s journal, if any.
pub open spec fn last_event(store: RunEvidenceStore, run_id: RunId) -> Option<JournalEvent> {
    if store.journal(run_id).len() == 0 {
        None
    } else {
        Some(store.journal(run_id).last())
    }
}

pub(crate) fn call_precheck<E: RunEnvironment>(
    env: &E,
    profile: &SyncProfile,
    expectation: &VolumeExpectation,
    calls: &mut Ghost<Seq<EnvCall>>,
) -> (answer: Result<PrecheckPassed, PrecheckFailure>)
    ensures
        final(calls)@ == old(calls)@.push(EnvCall::Precheck { expectation: *expectation, answer }),
{
    let answer = env.precheck(profile, expectation);
    *calls = Ghost(calls@.push(EnvCall::Precheck { expectation: *expectation, answer }));
    answer
}

pub(crate) fn call_fresh_analysis<E: RunEnvironment>(
    env: &E,
    profile: &SyncProfile,
    calls: &mut Ghost<Seq<EnvCall>>,
) -> (answer: Result<OneWayPlan, String>)
    ensures
        final(calls)@ == old(calls)@.push(EnvCall::FreshAnalysis { answer }),
{
    let answer = env.fresh_analysis(profile);
    *calls = Ghost(calls@.push(EnvCall::FreshAnalysis { answer }));
    answer
}

pub(crate) fn call_transfer<E: RunEnvironment>(
    env: &E,
    plan: &OneWayPlan,
    action: &PlanAction,
    verify_only: bool,
    calls: &mut Ghost<Seq<EnvCall>>,
) -> (answer: Result<(), TransferError>)
    ensures
        final(calls)@ == old(calls)@.push(EnvCall::Transfer { action_id: action.action_id, verify_only, answer }),
{
    let answer = if verify_only { env.verify_source(plan, action) } else { env.transfer(plan, action) };
    *calls = Ghost(calls@.push(EnvCall::Transfer { action_id: action.action_id, verify_only, answer }));
    answer
}

pub(crate) fn call_wait<E: RunEnvironment>(env: &E, delay_millis: u64, calls: &mut Ghost<Seq<EnvCall>>) -> (continued: bool)
    ensures
        final(calls)@ == old(calls)@.push(EnvCall::Wait { delay_millis, continued }),
{
    let continued = env.wait_before_retry(delay_millis);
    *calls = Ghost(calls@.push(EnvCall::Wait { delay_millis, continued }));
    continued
}

/// Removes the source of `action`; the record keeps the last event of the
/// run's journal in `store` at the time of the call.
pub(crate) fn call_remove_source<E: RunEnvironment>(
    env: &E,
    plan: &OneWayPlan,
    action: &PlanAction,
    method: &RecoveryMethod,
    store: &RunEvidenceStore,
    run_id: RunId,
    calls: &mut Ghost<Seq<EnvCall>>,
) -> (answer: Result<(), SafeDeleteError>)
    ensures
        final(calls)@ == old(calls)@.push(
            EnvCall::RemoveSource { action_id: action.action_id, last: last_event(*store, run_id), answer }),
{
    let answer = env.remove_source(plan, action, method);
    *calls = Ghost(calls@.push(EnvCall::RemoveSource { action_id: action.action_id, last: last_event(*store, run_id), answer }));
    answer
}

pub(crate) fn call_observe<E: RunEnvironment>(
    env: &E,
    profile: &SyncProfile,
    journal: &Vec<JournalEvent>,
    calls: &mut Ghost<Seq<EnvCall>>,
) -> (consistent: bool)
    ensures
        final(calls)@ == old(calls)@.push(EnvCall::Observe { consistent }),
{
    let consistent = env.observe_consistent(profile, journal);
    *calls = Ghost(calls@.push(EnvCall::Observe { consistent }));
    consistent
}

pub(crate) fn call_cleanup_partials<E: RunEnvironment>(env: &E, root: &str, calls: &mut Ghost<Seq<EnvCall>>) -> (answer: Result<(), String>)
    ensures
        final(calls)@ == old(calls)@.push(EnvCall::CleanupPartials { answer }),
{
    let answer = env.cleanup_partials(root);
    *calls = Ghost(calls@.push(EnvCall::CleanupPartials { answer }));
    answer
}

pub(crate) fn call_current_inventories<E: RunEnvironment>(
    env: &E,
    profile: &SyncProfile,
    calls: &mut Ghost<Seq<EnvCall>>,
) -> (answer: Result<PeerInventories, String>)
    ensures
        final(calls)@ == old(calls)@.push(EnvCall::CurrentInventories { answer }),
{
    let answer = env.current_inventories(profile);
    *calls = Ghost(calls@.push(EnvCall::CurrentInventories { answer }));
    answer
}

pub(crate) fn call_prepare_resolution<E: RunEnvironment>(
    env: &E,
    profile: &SyncProfile,
    actions: &Vec<ConflictResolutionAction>,
    calls: &mut Ghost<Seq<EnvCall>>,
) -> (answer: Result<(), String>)
    ensures
        final(calls)@ == old(calls)@.push(EnvCall::PrepareResolution { decisions: actions@, answer }),
{
    let answer = env.prepare_resolution(profile, actions);
    *calls = Ghost(calls@.push(EnvCall::PrepareResolution { decisions: actions@, answer }));
    answer
}

pub(crate) fn call_execute_resolution<E: RunEnvironment>(
    env: &E,
    action: &ConflictResolutionAction,
    calls: &mut Ghost<Seq<EnvCall>>,
) -> (answer: Result<(), ActionReason>)
    ensures
        final(calls)@ == old(calls)@.push(EnvCall::ExecuteResolution { relative_path: action.relative_path, answer }),
{
    let answer = env.execute_resolution(action);
    *calls = Ghost(calls@.push(EnvCall::ExecuteResolution { relative_path: action.relative_path, answer }));
    answer
}

pub(crate) fn call_probe_host<B: SshRunBackend>(backend: &B, peer: &SshPeer, calls: &mut Ghost<Seq<EnvCall>>) -> (answer: Result<String, String>)
    ensures
        final(calls)@ == old(calls)@.push(EnvCall::ProbeHost { answer }),
{
    let answer = backend.probe_host(peer);
    *calls = Ghost(calls@.push(EnvCall::ProbeHost { answer }));
    answer
}

pub(crate) fn call_remote_precheck<B: SshRunBackend>(
    backend: &B,
    peer: &SshPeer,
    calls: &mut Ghost<Seq<EnvCall>>,
) -> (answer: Result<RemotePrecheck, String>)
    ensures
        final(calls)@ == old(calls)@.push(EnvCall::RemotePrecheck { answer }),
{
    let answer = backend.remote_precheck(peer);
    *calls = Ghost(calls@.push(EnvCall::RemotePrecheck { answer }));
    answer
}

pub(crate) fn call_ssh_analysis<B: SshRunBackend>(
    backend: &B,
    profile: &SyncProfile,
    calls: &mut Ghost<Seq<EnvCall>>,
) -> (answer: Result<OneWayPlan, String>)
    ensures
        final(calls)@ == old(calls)@.push(EnvCall::FreshAnalysis { answer }),
{
    let answer = backend.fresh_analysis(profile);
    *calls = Ghost(calls@.push(EnvCall::FreshAnalysis { answer }));
    answer
}

pub(crate) fn call_ssh_transfer<B: SshRunBackend>(
    backend: &B,
    request: &SshTransferRequest,
    calls: &mut Ghost<Seq<EnvCall>>,
) -> (attempt: SshTransferAttempt)
    ensures
        final(calls)@ == old(calls)@.push(EnvCall::SshTransfer { action_id: request.action_id, answer: attempt.result }),
{
    let attempt = backend.transfer(request);
    *calls = Ghost(calls@.push(EnvCall::SshTransfer { action_id: request.action_id, answer: attempt.result }));
    attempt
}

pub(crate) fn call_ssh_wait<B: SshRunBackend>(backend: &B, delay_millis: u64, calls: &mut Ghost<Seq<EnvCall>>) -> (continued: bool)
    ensures
        final(calls)@ == old(calls)@.push(EnvCall::Wait { delay_millis, continued }),
{
    let continued = backend.wait_before_retry(delay_millis);
    *calls = Ghost(calls@.push(EnvCall::Wait { delay_millis, continued }));
    continued
}

/// Moves a verified remote source to the remote Trash; the record keeps the
/// last event of the run's journal in `store` at the time of the call.
pub(crate) fn call_recover_source<B: SshRunBackend>(
    backend: &B,
    request: &SshTransferRequest,
    transfer: &SshTransferEvidence,
    store: &RunEvidenceStore,
    run_id: RunId,
    calls: &mut Ghost<Seq<EnvCall>>,
) -> (answer: Result<RecoveryEvidence, SshRunError>)
    ensures
        final(calls)@ == old(calls)@.push(
            EnvCall::RecoverSource { action_id: request.action_id, last: last_event(*store, run_id), answer }),
{
    let answer = backend.recover_source(request, transfer);
    *calls = Ghost(calls@.push(EnvCall::RecoverSource { action_id: request.action_id, last: last_event(*store, run_id), answer }));
    answer
}

pub(crate) fn call_ssh_observe<B: SshRunBackend>(
    backend: &B,
    profile: &SyncProfile,
    journal: &Vec<JournalEvent>,
    calls: &mut Ghost<Seq<EnvCall>>,
) -> (consistent: bool)
    ensures
        final(calls)@ == old(calls)@.push(EnvCall::Observe { consistent }),
{
    let consistent = backend.observe_consistent(profile, journal);
    *calls = Ghost(calls@.push(EnvCall::Observe { consistent }));
    consistent
}

} // verus!
