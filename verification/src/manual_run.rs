//! A manual Sync Run: the run the user confirmed in the plan review,
//! executed through the full safety lifecycle.
use vstd::prelude::*;

use crate::journal::{planned_ids, OneWayPlan};
use crate::model::RunId;
use crate::profile::{AuthorizationSnapshot, SyncProfile};
use crate::scheduler::scheduled_recovery_method;
use crate::ssh::{plans_match, same_action, same_plan};
use crate::store::{RunEvidenceStore, RunReport};
use crate::workflow::{action_ids, executed_run, journaled_new_run, report_of, workflow_error_text, RunEnvironment, RunWorkflow, WorkflowError};

verus! {

/// Runs the confirmed manual run `run_id`. The workflow proceeds past Fresh
/// Analysis only when the fresh plan is the one the user confirmed;
/// verified source removals go to the desktop Trash under `data_home`
/// unless the profile chose Permanent Removal. A failure is returned as
/// the workflow error's message.
pub fn execute_manual_run<E: RunEnvironment, F: Fn() -> bool>(
    run_id: RunId,
    profile: &SyncProfile,
    expected: &OneWayPlan,
    data_home: &String,
    env: &E,
    store: &mut RunEvidenceStore,
    cancel: F,
) -> (result: Result<RunReport, String>)
    requires
        old(store).consistent(),
        forall|| #[trigger] call_requires(cancel, ()),
    ensures
        final(store).consistent(),
        result matches Err(message) ==> exists|error: WorkflowError| message@ == #[trigger] workflow_error_text(error),
        result matches Ok(report) ==> {
            &&& report_of(report, *final(store), run_id)
            &&& exists|source_volume: Option<u64>, destination_volume: Option<u64>| #[trigger]
                executed_run(*old(store), *final(store), run_id, *profile, AuthorizationSnapshot::none_spec(), source_volume,
                destination_volume)
            &&& planned_ids(final(store).journal(run_id)) == action_ids(expected.actions@)
        },
        journaled_new_run(*old(store), *final(store), run_id)
            ==> planned_ids(final(store).journal(run_id)) == action_ids(expected.actions@),
{
    let method = scheduled_recovery_method(profile, data_home);
    let mut workflow = RunWorkflow::new(method);
    let confirm = |fresh: &OneWayPlan| -> (same: bool)
        ensures
            same == same_plan(*fresh, *expected),
    { plans_match(fresh, expected) };
    let ghost start = *store;
    let outcome = workflow.execute(run_id, profile, env, confirm, store, cancel);
    proof {
        if journaled_new_run(start, *store, run_id) {
            let plan = choose|plan: OneWayPlan| #[trigger] call_ensures(confirm, (&plan,), true)
                && planned_ids(store.journal(run_id)) == action_ids(plan.actions@);
            lemma_same_plan_ids(plan, *expected);
        }
    }
    match outcome {
        Ok(report) => {
            proof {
                let plan = choose|plan: OneWayPlan| #[trigger] call_ensures(confirm, (&plan,), true)
                    && planned_ids(store.journal(run_id)) == action_ids(plan.actions@);
                lemma_same_plan_ids(plan, *expected);
                let none = AuthorizationSnapshot::none_spec();
                let (source_volume, destination_volume) = choose|source_volume: Option<u64>, destination_volume: Option<u64>|
                    executed_run(*old(store), *store, run_id, *profile, none, source_volume, destination_volume);
                assert(executed_run(*old(store), *store, run_id, *profile, none, source_volume, destination_volume));
            }
            Ok(report)
        },
        Err(error) => Err(error.message()),
    }
}

proof fn lemma_same_plan_ids(a: OneWayPlan, b: OneWayPlan)
    requires
        same_plan(a, b),
    ensures
        action_ids(a.actions@) == action_ids(b.actions@),
{
    assert(action_ids(a.actions@) =~= action_ids(b.actions@)) by {
        assert forall|i: int| 0 <= i < a.actions@.len() implies a.actions@[i].action_id == b.actions@[i].action_id by {
            assert(same_action(a.actions@[i], b.actions@[i]));
        }
    }
}

} // verus!
