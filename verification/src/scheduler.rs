//! One poll of the background scheduler: every due run is executed
//! unattended under the authorization frozen into its snapshot.
use vstd::prelude::*;

use crate::journal::{planned_ids, OneWayPlan, PlanAction};
use crate::model::{DeletionMethod, PlanActionKind, RunId};
use crate::profile::{AuthorizationSnapshot, SyncProfile};
use crate::resume::holds_no_new_locks;
use crate::scope_lock::{HeldScope, PeerScopeLockRegistry};
use crate::store::{RunEvidenceStore, RunReport, RunSnapshot};
use crate::text::{decimal, decimal_text};
use crate::workflow::{
    action_ids, join_lines, joined, journaled_new_run, lifecycle_outcome, locks_released, string_views, workflow_error_text, ProcessSupervisor, RecoveryMethod, RunEnvironment,
    RunWorkflow, WorkflowError,
};

verus! {

/// An action that removes an item from one of the peers.
pub open spec fn removes_items(action: PlanAction) -> bool {
    action.kind == PlanActionKind::RemoveSourceAfterVerification || action.kind == PlanActionKind::RemoveDestination
}

/// An unattended run may carry out a plan only within its authorization:
/// removals need unattended destructive authority, and Permanent Removal
/// its own separate authority.
pub open spec fn unattended_confirmation(plan: OneWayPlan, authorizations: AuthorizationSnapshot) -> bool {
    &&& (authorizations.allow_unattended_destructive || forall|i: int| 0 <= i < plan.actions@.len() ==> !removes_items(#[trigger] plan.actions@[i]))
    &&& (plan.options.deletion_method == Some(DeletionMethod::PermanentRemoval) ==> authorizations.allow_unattended_permanent_removal)
}

pub fn confirms_unattended(plan: &OneWayPlan, authorizations: AuthorizationSnapshot) -> (confirmed: bool)
    ensures
        confirmed == unattended_confirmation(*plan, authorizations),
{
    if plan.options.deletion_method == Some(DeletionMethod::PermanentRemoval) && !authorizations.allow_unattended_permanent_removal {
        return false;
    }
    if authorizations.allow_unattended_destructive {
        return true;
    }
    let mut index: usize = 0;
    while index < plan.actions.len()
        invariant
            index <= plan.actions@.len(),
            !authorizations.allow_unattended_destructive,
            plan.options.deletion_method == Some(DeletionMethod::PermanentRemoval) ==> authorizations.allow_unattended_permanent_removal,
            forall|i: int| 0 <= i < index ==> !removes_items(#[trigger] plan.actions@[i]),
        decreases plan.actions@.len() - index,
    {
        let kind = plan.actions[index].kind;
        if kind == PlanActionKind::RemoveSourceAfterVerification || kind == PlanActionKind::RemoveDestination {
            assert(removes_items(plan.actions@[index as int]));
            return false;
        }
        index += 1;
    }
    true
}

/// Where a scheduled run sends verified source removals: permanent removal
/// when the profile chose it, otherwise the desktop Trash under `data_home`.
pub fn scheduled_recovery_method(profile: &SyncProfile, data_home: &String) -> (method: RecoveryMethod)
    ensures
        profile.options.deletion_method == Some(DeletionMethod::PermanentRemoval) ==> method == RecoveryMethod::PermanentRemoval,
        profile.options.deletion_method != Some(DeletionMethod::PermanentRemoval) ==>
            (method matches RecoveryMethod::NativeTrash { data_home: home } && home@ == data_home@),
{
    if profile.options.deletion_method == Some(DeletionMethod::PermanentRemoval) {
        RecoveryMethod::permanent_removal()
    } else {
        RecoveryMethod::native_trash(data_home.clone())
    }
}

proof fn lemma_no_new_locks_trans(a: PeerScopeLockRegistry, b: PeerScopeLockRegistry, c: PeerScopeLockRegistry)
    requires
        holds_no_new_locks(a, b),
        holds_no_new_locks(b, c),
    ensures
        holds_no_new_locks(a, c),
{
}

proof fn lemma_released_is_no_new(before: PeerScopeLockRegistry, after: PeerScopeLockRegistry, run_id: crate::model::RunId)
    requires
        locks_released(before, after, run_id),
    ensures
        holds_no_new_locks(before, after),
{
    assert forall|h: HeldScope| #[trigger] after.held_scopes().contains(h) implies before.held_scopes().contains(h) by {
        let w = choose|w: int| 0 <= w < after.held_scopes().len() && after.held_scopes()[w] == h;
        assert(after.held_scopes()[w].owner.run_id != run_id);
    }
}

/// The line that reports one failed scheduled run.
pub open spec fn failure_line(run_id: RunId, error: WorkflowError) -> Seq<char> {
    "Sync Run "@ + decimal(run_id.value as nat) + ": "@ + workflow_error_text(error)
}

/// The failed runs, by their place among the due runs, in order, with why
/// each failed.
pub open spec fn failures_within(failed: Seq<(int, WorkflowError)>, count: int) -> bool {
    &&& forall|k: int| 0 <= k < failed.len() ==> 0 <= (#[trigger] failed[k]).0 < count
    &&& forall|k: int, l: int| 0 <= k < l < failed.len() ==> (#[trigger] failed[k]).0 < (#[trigger] failed[l]).0
}

pub open spec fn failure_lines(failed: Seq<(int, WorkflowError)>, due: Seq<RunSnapshot>) -> Seq<Seq<char>> {
    Seq::new(failed.len(), |k: int| failure_line(due[failed[k].0].run_id, failed[k].1))
}

/// One due run taken through the full safety lifecycle under its frozen
/// authorization: from store `before` to store `after`, ending in `result`;
/// any work it journaled is a plan that authorization allows unattended.
pub open spec fn scheduled_step(
    snapshot: RunSnapshot,
    before: RunEvidenceStore,
    after: RunEvidenceStore,
    workflows: (RunWorkflow, RunWorkflow),
    result: Result<RunReport, WorkflowError>,
) -> bool {
    &&& lifecycle_outcome(workflows.0, workflows.1, before, after, snapshot.run_id, snapshot.profile, snapshot.authorizations, result)
    &&& journaled_new_run(before, after, snapshot.run_id) ==> exists|plan: OneWayPlan|
        #[trigger] unattended_confirmation(plan, snapshot.authorizations)
        && planned_ids(after.journal(snapshot.run_id)) == action_ids(plan.actions@)
}

/// The due runs were executed once each, in order: run `i` took the store
/// from `stores[i]` to `stores[i + 1]` and ended in `results[i]`.
pub open spec fn ran_in_order(
    due: Seq<RunSnapshot>,
    stores: Seq<RunEvidenceStore>,
    workflows: Seq<(RunWorkflow, RunWorkflow)>,
    results: Seq<Result<RunReport, WorkflowError>>,
) -> bool {
    &&& stores.len() == due.len() + 1
    &&& workflows.len() == due.len()
    &&& results.len() == due.len()
    &&& forall|i: int| 0 <= i < due.len() ==> #[trigger] scheduled_step(due[i], stores[i], stores[i + 1], workflows[i], results[i])
}

/// `failed` lists exactly the runs whose execution returned an error, with
/// that error.
pub open spec fn failures_are(failed: Seq<(int, WorkflowError)>, results: Seq<Result<RunReport, WorkflowError>>) -> bool {
    &&& forall|k: int| 0 <= k < failed.len() ==> results[(#[trigger] failed[k]).0] == Err::<RunReport, WorkflowError>(failed[k].1)
    &&& forall|i: int| 0 <= i < results.len() && (#[trigger] results[i]) is Err ==> exists|k: int| 0 <= k < failed.len() && failed[k].0 == i
}

/// Runs every due run once, unattended, sharing the Peer Scope Locks of
/// `scope_locks`; the number of runs that settled, or, when any failed, one
/// line per failed run, in order, joined by "; ".
pub fn run_background_scheduler_once<E: RunEnvironment>(
    due: &Vec<RunSnapshot>,
    data_home: &String,
    scope_locks: &mut PeerScopeLockRegistry,
    env: &E,
    store: &mut RunEvidenceStore,
) -> (result: Result<usize, String>)
    requires
        old(scope_locks).exclusive(),
        old(store).consistent(),
    ensures
        holds_no_new_locks(*old(scope_locks), *final(scope_locks)),
        final(store).consistent(),
        exists|trace: (Seq<RunEvidenceStore>, Seq<(RunWorkflow, RunWorkflow)>, Seq<Result<RunReport, WorkflowError>>)| {
            &&& #[trigger] ran_in_order(due@, trace.0, trace.1, trace.2)
            &&& trace.0[0] == *old(store)
            &&& trace.0[due@.len() as int] == *final(store)
            &&& match result {
                Ok(launched) => launched == due@.len() && forall|i: int| 0 <= i < due@.len() ==> (#[trigger] trace.2[i]) is Ok,
                Err(message) => exists|failed: Seq<(int, WorkflowError)>| #[trigger] failures_within(failed, due@.len() as int)
                    && failures_are(failed, trace.2) && failed.len() > 0
                    && message@ == joined(failure_lines(failed, due@), "; "@),
            }
        },
{
    let mut registry = PeerScopeLockRegistry::new();
    std::mem::swap(&mut registry, scope_locks);
    let ghost initial = registry;
    let mut launched: usize = 0;
    let mut failures: Vec<String> = Vec::new();
    let ghost mut failed: Seq<(int, WorkflowError)> = Seq::empty();
    let ghost mut stores: Seq<RunEvidenceStore> = seq![*store];
    let ghost mut workflows: Seq<(RunWorkflow, RunWorkflow)> = Seq::empty();
    let ghost mut results: Seq<Result<RunReport, WorkflowError>> = Seq::empty();
    let mut index: usize = 0;
    assert(string_views(failures@) =~= failure_lines(failed, due@));
    while index < due.len()
        invariant
            index <= due@.len(),
            launched + failures@.len() == index,
            failed.len() == failures@.len(),
            failures_within(failed, index as int),
            string_views(failures@) == failure_lines(failed, due@),
            stores.len() == index + 1,
            workflows.len() == index,
            results.len() == index,
            stores[0] == *old(store),
            stores[index as int] == *store,
            forall|i: int| 0 <= i < index ==> #[trigger] scheduled_step(due@[i], stores[i], stores[i + 1], workflows[i], results[i]),
            failures_are(failed, results),
            registry.exclusive(),
            holds_no_new_locks(initial, registry),
            store.consistent(),
        decreases due@.len() - index,
    {
        let snapshot = &due[index];
        let method = scheduled_recovery_method(&snapshot.profile, data_home);
        let mut workflow = RunWorkflow::with_scope_lock_registry(ProcessSupervisor::standard(), method, registry);
        let authorizations = snapshot.authorizations;
        let confirm = |plan: &OneWayPlan| -> (confirmed: bool)
            ensures
                confirmed == unattended_confirmation(*plan, authorizations),
        { confirms_unattended(plan, authorizations) };
        let ghost before = workflow;
        let ghost store_before = *store;
        let outcome = workflow.execute_with_authorizations(
            snapshot.run_id, &snapshot.profile, env, authorizations, confirm, store, || false);
        proof {
            if journaled_new_run(store_before, *store, snapshot.run_id) {
                let plan = choose|plan: OneWayPlan| #[trigger] call_ensures(confirm, (&plan,), true)
                    && planned_ids(store.journal(snapshot.run_id)) == action_ids(plan.actions@);
                assert(unattended_confirmation(plan, authorizations));
            }
            assert(scheduled_step(due@[index as int], store_before, *store, (before, workflow), outcome));
            let ghost previous_results = results;
            stores = stores.push(*store);
            workflows = workflows.push((before, workflow));
            results = results.push(outcome);
            assert forall|i: int| 0 <= i <= index implies #[trigger] scheduled_step(due@[i], stores[i], stores[i + 1], workflows[i], results[i]) by {
                if i < index {
                    assert(results[i] == previous_results[i]);
                }
            }
            lemma_released_is_no_new(before.scope_locks, workflow.scope_locks, snapshot.run_id);
            lemma_no_new_locks_trans(initial, before.scope_locks, workflow.scope_locks);
        }
        match outcome {
            Ok(_) => {
                launched += 1;
                assert(failures_are(failed, results)) by {
                    assert forall|k: int| 0 <= k < failed.len() implies results[(#[trigger] failed[k]).0]
                        == Err::<RunReport, WorkflowError>(failed[k].1) by {
                        assert(failed[k].0 < index);
                    }
                    assert forall|i: int| 0 <= i < results.len() && (#[trigger] results[i]) is Err
                        implies exists|k: int| 0 <= k < failed.len() && failed[k].0 == i by {
                        assert(i != index);
                    }
                }
            },
            Err(error) => {
                let mut line = String::from_str("Sync Run ");
                line.append(decimal_text(snapshot.run_id.value).as_str());
                line.append(": ");
                line.append(error.message().as_str());
                let ghost previous = failed;
                let ghost old_failures = failures@;
                assert(line@ == failure_line(due@[index as int].run_id, error));
                proof {
                    failed = failed.push((index as int, error));
                }
                failures.push(line);
                assert forall|k: int| 0 <= k < failures@.len() implies
                    #[trigger] string_views(failures@)[k] == failure_lines(failed, due@)[k] by {
                    if k < previous.len() {
                        assert(failed[k] == previous[k]);
                        assert(string_views(failures@)[k] == string_views(failures@.drop_last())[k]);
                        assert(failures@.drop_last() == old_failures);
                    }
                }
                assert(string_views(failures@) =~= failure_lines(failed, due@));
                assert(failures_are(failed, results)) by {
                    assert forall|k: int| 0 <= k < failed.len() implies results[(#[trigger] failed[k]).0]
                        == Err::<RunReport, WorkflowError>(failed[k].1) by {
                        if k < previous.len() {
                            assert(failed[k] == previous[k]);
                            assert(previous[k].0 < index);
                        }
                    }
                    assert forall|i: int| 0 <= i < results.len() && (#[trigger] results[i]) is Err
                        implies exists|k: int| 0 <= k < failed.len() && failed[k].0 == i by {
                        if i == index {
                            assert(failed[previous.len() as int].0 == i);
                        } else {
                            let k = choose|k: int| 0 <= k < previous.len() && previous[k].0 == i;
                            assert(failed[k] == previous[k]);
                        }
                    }
                }
            },
        }
        registry = workflow.scope_locks;
        index += 1;
    }
    *scope_locks = registry;
    let ghost trace = (stores, workflows, results);
    assert(ran_in_order(due@, trace.0, trace.1, trace.2));
    if failures.len() == 0 {
        assert forall|i: int| 0 <= i < due@.len() implies (#[trigger] trace.2[i]) is Ok by {
            if results[i] is Err {
                let k = choose|k: int| 0 <= k < failed.len() && failed[k].0 == i;
            }
        }
        Ok(launched)
    } else {
        let message = join_lines(&failures, "; ");
        assert(failures_within(failed, due@.len() as int) && failures_are(failed, trace.2));
        Err(message)
    }
}

/// The scheduler events to notify after a poll: those listed now whose ids
/// were not known before the poll, each once, in the order listed.
pub open spec fn undelivered(known: Seq<u64>, listed: Seq<u64>) -> Seq<u64> {
    listed.filter(|id: u64| !known.contains(id))
}

pub fn undelivered_events(known: &Vec<u64>, listed: &Vec<u64>) -> (fresh: Vec<u64>)
    ensures
        fresh@ == undelivered(known@, listed@),
{
    let mut fresh: Vec<u64> = Vec::new();
    let mut index: usize = 0;
    while index < listed.len()
        invariant
            index <= listed@.len(),
            fresh@ == undelivered(known@, listed@.subrange(0, index as int)),
        decreases listed@.len() - index,
    {
        let id = listed[index];
        let mut seen = false;
        let mut k: usize = 0;
        while k < known.len()
            invariant
                k <= known@.len(),
                seen == exists|j: int| 0 <= j < k && known@[j] == id,
            decreases known@.len() - k,
        {
            if known[k] == id {
                seen = true;
            }
            k += 1;
        }
        proof {
            if seen {
                let j = choose|j: int| 0 <= j < k && known@[j] == id;
                assert(known@.contains(id));
            } else {
                assert(!known@.contains(id));
            }
        }
        if !seen {
            fresh.push(id);
        }
        proof {
            reveal(Seq::filter);
            let upto = listed@.subrange(0, index + 1);
            assert(upto.drop_last() =~= listed@.subrange(0, index as int));
            assert(upto.last() == id);
        }
        index += 1;
    }
    assert(listed@.subrange(0, index as int) =~= listed@);
    fresh
}

} // verus!
