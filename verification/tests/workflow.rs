use std::cell::{Cell, RefCell};
use std::collections::VecDeque;

use syncplus::failure::{
    MirrorResolutionOutcome, MirrorResolutionReviewState, ResolutionRunOutcome, SafeDeleteError, TransferError,
};
use syncplus::journal::{outcome_of, JournalEvent, OneWayPlan, PlanAction, PlanRecord};
use syncplus::mirror::{
    InventoryItem, MirrorDeletionOutcome, MirrorDeletionResult, PeerInventories,
};
use syncplus::resolution::{resolution_report_items, ConflictResolutionAction};
use syncplus::model::ConflictResolution;
use syncplus::ssh::ItemType;
use syncplus::manual_run::execute_manual_run;
use syncplus::scheduler::{confirms_unattended, run_background_scheduler_once, scheduled_recovery_method};
use syncplus::scope_lock::PeerScopeLockRegistry;
use syncplus::model::{
    ActionOutcome, ActionReason, DeletionMethod, OneWaySource, PartialTransferPolicy, PeerSide, PlanActionKind, RunId,
    SyncMode,
};
use syncplus::profile::{
    MetadataRequirements,
    AuthorizationSnapshot, Peer, PeerEndpoint, RetryPolicy, SyncOptions, SyncProfile,
};
use syncplus::scope_lock::{PeerScope, ScopeLockOwner};
use syncplus::status::RunReportStatus;
use syncplus::store::{RunEvidenceStore, RunSnapshot, StorageError};
use syncplus::workflow::{
    PrecheckBlocked, PrecheckFailure, PrecheckPassed, RecoveryMethod, RunEnvironment, RunWorkflow, VolumeExpectation,
    WorkflowError,
};

struct FakeEnv {
    plan: OneWayPlan,
    transfers: RefCell<VecDeque<Result<(), TransferError>>>,
    transfer_calls: Cell<u32>,
    removal: RefCell<Result<(), SafeDeleteError>>,
    precheck: RefCell<VecDeque<Result<PrecheckPassed, PrecheckFailure>>>,
    expectations: RefCell<Vec<VolumeExpectation>>,
    waits: RefCell<Vec<u64>>,
    inventory: PeerInventories,
    inventories: RefCell<VecDeque<Result<PeerInventories, String>>>,
    preparation: Result<(), String>,
    executed: RefCell<Vec<String>>,
}

impl FakeEnv {
    fn new(plan: OneWayPlan) -> Self {
        FakeEnv {
            plan,
            transfers: RefCell::new(VecDeque::new()),
            transfer_calls: Cell::new(0),
            removal: RefCell::new(Ok(())),
            precheck: RefCell::new(VecDeque::new()),
            expectations: RefCell::new(Vec::new()),
            waits: RefCell::new(Vec::new()),
            inventory: PeerInventories { peer_a: Vec::new(), peer_b: Vec::new() },
            inventories: RefCell::new(VecDeque::new()),
            preparation: Ok(()),
            executed: RefCell::new(Vec::new()),
        }
    }
}

impl RunEnvironment for FakeEnv {
    fn transfer(&self, _plan: &OneWayPlan, _action: &PlanAction) -> Result<(), TransferError> {
        self.transfer_calls.set(self.transfer_calls.get() + 1);
        self.transfers.borrow_mut().pop_front().unwrap_or(Ok(()))
    }

    fn verify_source(&self, _plan: &OneWayPlan, _action: &PlanAction) -> Result<(), TransferError> {
        Ok(())
    }

    fn remove_source(&self, _plan: &OneWayPlan, _action: &PlanAction, _method: &RecoveryMethod) -> Result<(), SafeDeleteError> {
        self.removal.borrow().clone()
    }

    fn wait_before_retry(&self, delay_millis: u64) -> bool {
        self.waits.borrow_mut().push(delay_millis);
        true
    }

    fn precheck(&self, _profile: &SyncProfile, expectation: &VolumeExpectation) -> Result<PrecheckPassed, PrecheckFailure> {
        self.expectations.borrow_mut().push(*expectation);
        self.precheck
            .borrow_mut()
            .pop_front()
            .unwrap_or(Ok(PrecheckPassed { source_volume: Some(11), destination_volume: Some(22) }))
    }

    fn fresh_analysis(&self, _profile: &SyncProfile) -> Result<OneWayPlan, String> {
        Ok(self.plan.clone())
    }

    fn observe_consistent(&self, _profile: &SyncProfile, _journal: &Vec<JournalEvent>) -> bool {
        true
    }

    fn cleanup_partials(&self, _root: &str) -> Result<(), String> {
        Ok(())
    }

    fn current_inventories(&self, _profile: &SyncProfile) -> Result<PeerInventories, String> {
        self.inventories.borrow_mut().pop_front().unwrap_or_else(|| Ok(self.inventory.clone()))
    }

    fn prepare_resolution(&self, _profile: &SyncProfile, _actions: &Vec<ConflictResolutionAction>) -> Result<(), String> {
        self.preparation.clone()
    }

    fn execute_resolution(&self, action: &ConflictResolutionAction) -> Result<(), ActionReason> {
        self.executed.borrow_mut().push(action.relative_path.clone());
        if action.relative_path.ends_with(".locked") {
            Err(ActionReason::TransferFailed)
        } else {
            Ok(())
        }
    }
}

fn local(name: &str, root: &str) -> Peer {
    Peer { name: name.to_owned(), endpoint: PeerEndpoint::Local { root: root.to_owned() } }
}

fn options(attempts: u8) -> SyncOptions {
    SyncOptions {
        metadata: MetadataRequirements {
            empty_directories: true,
            symlinks: true,
            executable_bits: true,
            timestamps: false,
            ownership: false,
            access_control_lists: false,
            extended_attributes: false,
        },
        safe_delete: true,
        destination_cleanup: false,
        deletion_method: Some(DeletionMethod::Trash),
        partial_transfer_policy: PartialTransferPolicy::Cleanup,
        retry_policy: RetryPolicy { max_attempts: attempts, initial_delay_millis: 100 },
    }
}

fn profile() -> SyncProfile {
    SyncProfile {
        name: "Documents backup".to_owned(),
        peer_a: local("Source", "/data/source"),
        peer_b: local("Backup disk", "/data/backup"),
        mode: SyncMode::OneWay,
        source: OneWaySource::PeerA,
        options: options(3),
        exclusions: Vec::new(),
    }
}

fn action(id: u64, path: &str, kind: PlanActionKind) -> PlanAction {
    PlanAction { action_id: id, relative_path: path.to_owned(), kind, source_side: PeerSide::PeerA, size: Some(4) }
}

fn plan(actions: Vec<PlanAction>) -> OneWayPlan {
    OneWayPlan { mode: SyncMode::OneWay, options: options(3), actions }
}

fn workflow() -> RunWorkflow {
    RunWorkflow::new(RecoveryMethod::native_trash("/home/user/.local/share".to_owned()))
}

#[test]
fn refused_confirmation_records_nothing() {
    let env = FakeEnv::new(plan(vec![action(1, "a.txt", PlanActionKind::CopyToDestination)]));
    let mut store = RunEvidenceStore::open_in_memory();
    let mut workflow = workflow();
    let result = workflow.execute(RunId::new(1), &profile(), &env, |_: &OneWayPlan| false, &mut store, || false);
    assert_eq!(result, Err(WorkflowError::ConfirmationRequired));
    assert_eq!(store.load_report(RunId::new(1)).unwrap_err(), StorageError::UnknownRun);
    assert_eq!(env.transfer_calls.get(), 0);
}

#[test]
fn confirmed_copy_run_plans_every_action_before_settling_it() {
    let env = FakeEnv::new(plan(vec![
        action(1, "a.txt", PlanActionKind::CopyToDestination),
        action(2, "b.txt", PlanActionKind::OverwriteDestination),
    ]));
    let mut store = RunEvidenceStore::open_in_memory();
    let mut workflow = workflow();
    let report = workflow
        .execute(RunId::new(1), &profile(), &env, |_: &OneWayPlan| true, &mut store, || false)
        .expect("run settles");
    assert_eq!(report.status(), RunReportStatus::Completed);
    assert_eq!(report.run_id(), RunId::new(1));
    assert!(matches!(report.journal[0], JournalEvent::Planned { .. }));
    assert!(matches!(report.journal[1], JournalEvent::Planned { .. }));
    assert_eq!(outcome_of(&report.journal, 1), ActionOutcome::Completed);
    assert_eq!(outcome_of(&report.journal, 2), ActionOutcome::Completed);
    assert_eq!(report.snapshot.peer_a_volume, Some(11));
    assert_eq!(report.snapshot.peer_b_volume, Some(22));
    assert!(workflow.scope_locks.acquire(
        &ScopeLockOwner { profile_name: "other".to_owned(), run_id: RunId::new(9) },
        &vec![PeerScope { root: "/data/source".to_owned() }]
    ));
}

#[test]
fn transient_failures_retry_only_up_to_the_policy() {
    let env = FakeEnv::new(plan(vec![action(1, "a.txt", PlanActionKind::CopyToDestination)]));
    for _ in 0..5 {
        env.transfers.borrow_mut().push_back(Err(TransferError::Transient("network".to_owned())));
    }
    let mut store = RunEvidenceStore::open_in_memory();
    let mut workflow = workflow();
    let report = workflow
        .execute(RunId::new(1), &profile(), &env, |_: &OneWayPlan| true, &mut store, || false)
        .expect("run settles");
    assert_eq!(env.transfer_calls.get(), 3);
    assert_eq!(*env.waits.borrow(), vec![100, 200]);
    assert_eq!(outcome_of(&report.journal, 1), ActionOutcome::Failed(ActionReason::TransferFailed));
    assert_eq!(report.status(), RunReportStatus::Failed);
}

#[test]
fn cancellation_settles_every_planned_action() {
    let env = FakeEnv::new(plan(vec![
        action(1, "a.txt", PlanActionKind::CopyToDestination),
        action(2, "b.txt", PlanActionKind::CopyToDestination),
    ]));
    let mut store = RunEvidenceStore::open_in_memory();
    let mut workflow = workflow();
    let report = workflow
        .execute(RunId::new(1), &profile(), &env, |_: &OneWayPlan| true, &mut store, || true)
        .expect("run settles");
    assert_eq!(outcome_of(&report.journal, 1), ActionOutcome::Cancelled);
    assert_eq!(outcome_of(&report.journal, 2), ActionOutcome::Cancelled);
    assert_eq!(report.status(), RunReportStatus::Cancelled);
    assert_eq!(env.transfer_calls.get(), 0);
}

#[test]
fn a_blocked_precheck_leaves_a_blocked_report_without_journal() {
    let env = FakeEnv::new(plan(vec![action(1, "a.txt", PlanActionKind::CopyToDestination)]));
    env.precheck.borrow_mut().push_back(Err(PrecheckFailure::Blocked(PrecheckBlocked {
        blockers: vec!["Backup disk is not mounted".to_owned()],
        replacement_only: false,
        source_volume: Some(11),
        destination_volume: None,
    })));
    let mut store = RunEvidenceStore::open_in_memory();
    let mut workflow = workflow();
    let result = workflow.execute(RunId::new(4), &profile(), &env, |_: &OneWayPlan| true, &mut store, || false);
    assert!(matches!(result, Err(WorkflowError::Precheck(PrecheckFailure::Blocked(_)))));
    let report = store.load_report(RunId::new(4)).expect("blocked report");
    assert_eq!(report.status(), RunReportStatus::Blocked);
    assert!(report.journal.is_empty());
    assert!(report.blocked_reason.expect("reason").contains("Backup disk is not mounted"));
    assert_eq!(env.transfer_calls.get(), 0);
}

#[test]
fn an_overlapping_scope_lock_blocks_a_second_run() {
    let env = FakeEnv::new(plan(vec![action(1, "a.txt", PlanActionKind::CopyToDestination)]));
    let mut store = RunEvidenceStore::open_in_memory();
    let mut workflow = workflow();
    assert!(workflow.scope_locks.acquire(
        &ScopeLockOwner { profile_name: "scheduled".to_owned(), run_id: RunId::new(99) },
        &vec![PeerScope { root: "/data/backup/photos".to_owned() }]
    ));
    let result = workflow.execute(RunId::new(1), &profile(), &env, |_: &OneWayPlan| true, &mut store, || false);
    assert!(matches!(result, Err(WorkflowError::Precheck(PrecheckFailure::ScopeLocked(_)))));
    let report = store.load_report(RunId::new(1)).unwrap();
    assert_eq!(report.status(), RunReportStatus::Blocked);
    assert!(report.blocked_reason.is_some());
    assert!(report.journal.is_empty());
    assert_eq!(env.transfer_calls.get(), 0);
}

#[test]
fn an_uncertain_recovery_stops_the_run_for_recovery_review() {
    let env = FakeEnv::new(plan(vec![
        action(1, "a.txt", PlanActionKind::CopyToDestination),
        action(2, "a.txt", PlanActionKind::RemoveSourceAfterVerification),
        action(3, "c.txt", PlanActionKind::CopyToDestination),
    ]));
    *env.removal.borrow_mut() = Err(SafeDeleteError::RecoveryUncertain);
    let mut store = RunEvidenceStore::open_in_memory();
    let mut workflow = workflow();
    let report = workflow
        .execute(RunId::new(1), &profile(), &env, |_: &OneWayPlan| true, &mut store, || false)
        .expect("run settles");
    assert_eq!(outcome_of(&report.journal, 1), ActionOutcome::Completed);
    assert_eq!(outcome_of(&report.journal, 2), ActionOutcome::RecoveryReview(ActionReason::InterruptedBoundary));
    assert_eq!(outcome_of(&report.journal, 3), ActionOutcome::Cancelled);
    assert_eq!(report.status(), RunReportStatus::RecoveryReview);
    let removal = report
        .journal
        .iter()
        .position(|event| matches!(event, JournalEvent::RemovalStarted { action_id: 2, .. }))
        .expect("removal started");
    assert!(matches!(report.journal[removal - 1], JournalEvent::ProofBoundary { action_id: 2, deletion_method: DeletionMethod::Trash }));
}

#[test]
fn a_completed_removal_reconciles_as_completed() {
    let env = FakeEnv::new(plan(vec![
        action(1, "a.txt", PlanActionKind::CopyToDestination),
        action(2, "a.txt", PlanActionKind::RemoveSourceAfterVerification),
    ]));
    let mut store = RunEvidenceStore::open_in_memory();
    let mut workflow = workflow();
    let report = workflow
        .execute(RunId::new(1), &profile(), &env, |_: &OneWayPlan| true, &mut store, || false)
        .expect("run settles");
    assert_eq!(outcome_of(&report.journal, 2), ActionOutcome::Completed);
    assert_eq!(report.status(), RunReportStatus::Completed);
}

fn interrupted_run(store: &mut RunEvidenceStore, status_completed: bool) -> RunId {
    let run_id = RunId::new(1);
    store
        .begin_run(RunSnapshot {
            run_id,
            profile: profile(),
            authorizations: AuthorizationSnapshot::none(),
            peer_a_volume: Some(11),
            peer_b_volume: Some(22),
        })
        .unwrap();
    let record = PlanRecord {
        action_id: 1,
        relative_path: "a.txt".to_owned(),
        kind: PlanActionKind::CopyToDestination,
        affected_side: PeerSide::PeerA,
        size: Some(4),
    };
    store.append_event(run_id, JournalEvent::Planned { action: record }).unwrap();
    store.append_event(run_id, JournalEvent::Started { action_id: 1 }).unwrap();
    if status_completed {
        store.append_event(run_id, JournalEvent::Completed { action_id: 1 }).unwrap();
        store.record_reconciliation(run_id, true).unwrap();
    }
    run_id
}

#[test]
fn resuming_a_completed_run_is_refused() {
    let env = FakeEnv::new(plan(vec![action(1, "a.txt", PlanActionKind::CopyToDestination)]));
    let mut store = RunEvidenceStore::open_in_memory();
    let run_id = interrupted_run(&mut store, true);
    let mut workflow = workflow();
    let result = workflow.resume(run_id, &env, |_: &OneWayPlan| true, &mut store, || false);
    assert!(matches!(result, Err(WorkflowError::InvalidRun(_))));
    assert_eq!(
        workflow.resume(RunId::new(42), &env, |_: &OneWayPlan| true, &mut store, || false),
        Err(WorkflowError::Storage(StorageError::UnknownRun))
    );
}

#[test]
fn resuming_classifies_open_actions_and_starts_a_new_run() {
    let env = FakeEnv::new(plan(vec![action(1, "a.txt", PlanActionKind::CopyToDestination)]));
    let mut store = RunEvidenceStore::open_in_memory();
    let run_id = interrupted_run(&mut store, false);
    let mut workflow = workflow();
    let report = workflow
        .resume(run_id, &env, |_: &OneWayPlan| true, &mut store, || false)
        .expect("resume runs");
    assert_eq!(report.run_id(), RunId::new(2));
    assert_eq!(report.status(), RunReportStatus::Completed);
    let old = store.load_report(run_id).unwrap();
    assert_eq!(outcome_of(&old.journal, 1), ActionOutcome::Interrupted);
    assert_eq!(old.status(), RunReportStatus::Interrupted);
    let expectations = env.expectations.borrow();
    assert_eq!(expectations[0].source_volume, Some(11));
    assert_eq!(expectations[0].destination_volume, Some(22));
    assert!(expectations[0].require_recorded);
    assert!(!expectations[0].allow_replacement);
}

#[test]
fn a_replaced_volume_needs_its_own_confirmation_to_resume() {
    let env = FakeEnv::new(plan(vec![action(1, "a.txt", PlanActionKind::CopyToDestination)]));
    let replaced = || {
        Err(PrecheckFailure::Blocked(PrecheckBlocked {
            blockers: vec!["the backup volume was replaced".to_owned()],
            replacement_only: true,
            source_volume: Some(11),
            destination_volume: Some(33),
        }))
    };
    env.precheck.borrow_mut().push_back(replaced());
    let mut store = RunEvidenceStore::open_in_memory();
    let run_id = interrupted_run(&mut store, false);
    let mut workflow = workflow();
    let refused = workflow.resume(run_id, &env, |_: &OneWayPlan| true, &mut store, || false);
    assert!(matches!(refused, Err(WorkflowError::Precheck(_))));

    env.precheck.borrow_mut().push_back(replaced());
    let accepted = workflow
        .resume_with_replacement_confirmation(run_id, &env, |_: &PrecheckBlocked| true, |_: &OneWayPlan| true, &mut store, || false)
        .expect("replacement confirmed");
    assert_eq!(accepted.status(), RunReportStatus::Completed);
    assert!(env.expectations.borrow().iter().any(|expectation| expectation.allow_replacement));
}

fn item(path: &str) -> InventoryItem {
    InventoryItem { relative_path: path.to_owned(), item_type: ItemType::RegularFile, size: 4 }
}

fn mirror_profile() -> SyncProfile {
    let mut profile = profile();
    profile.mode = SyncMode::Mirror;
    profile
}

fn decision(path: &str, resolution: ConflictResolution) -> ConflictResolutionAction {
    ConflictResolutionAction {
        relative_path: path.to_owned(),
        resolution,
        source_side: Some(PeerSide::PeerA),
        target_side: Some(PeerSide::PeerB),
    }
}

#[test]
fn a_resolution_run_journals_each_decision_and_defers_without_running() {
    let mut env = FakeEnv::new(plan(Vec::new()));
    env.inventory = PeerInventories { peer_a: vec![item("a.txt"), item("b.txt"), item("c.locked")], peer_b: Vec::new() };
    let actions = vec![
        decision("a.txt", ConflictResolution::KeepPeerA),
        decision("b.txt", ConflictResolution::Defer),
        decision("c.locked", ConflictResolution::KeepPeerA),
    ];
    let mut store = RunEvidenceStore::open_in_memory();
    let mut workflow = workflow();
    let report = workflow
        .execute_resolution_run(RunId::new(5), &actions, &mirror_profile(), &env,
            |_: &PeerInventories, _: &Vec<ConflictResolutionAction>| true, &mut store, || false)
        .expect("resolution run settles");
    assert_eq!(outcome_of(&report.journal, 1), ActionOutcome::Completed);
    assert_eq!(outcome_of(&report.journal, 2), ActionOutcome::Deferred);
    assert_eq!(outcome_of(&report.journal, 3), ActionOutcome::Unresolved(ActionReason::TransferFailed));
    assert_eq!(*env.executed.borrow(), vec!["a.txt".to_owned(), "c.locked".to_owned()]);
    assert_eq!(report.status(), RunReportStatus::CompletedWithReviewRequired);
}

#[test]
fn a_resolution_run_stops_when_the_reviewed_items_changed() {
    let mut env = FakeEnv::new(plan(Vec::new()));
    env.inventory = PeerInventories { peer_a: vec![item("a.txt")], peer_b: Vec::new() };
    env.inventories.borrow_mut().push_back(Ok(PeerInventories { peer_a: vec![item("a.txt")], peer_b: Vec::new() }));
    env.inventories.borrow_mut().push_back(Ok(PeerInventories { peer_a: vec![item("a.txt"), item("new.txt")], peer_b: Vec::new() }));
    let actions = vec![decision("a.txt", ConflictResolution::KeepPeerA)];
    let mut store = RunEvidenceStore::open_in_memory();
    let mut workflow = workflow();
    let result = workflow.execute_resolution_run(RunId::new(5), &actions, &mirror_profile(), &env,
        |_: &PeerInventories, _: &Vec<ConflictResolutionAction>| true, &mut store, || false);
    assert!(matches!(result, Err(WorkflowError::Resolution(_))));
    assert!(store.load_report(RunId::new(5)).is_err());
    assert!(env.executed.borrow().is_empty());
}

#[test]
fn an_unprepared_resolution_executor_settles_every_decision_without_running() {
    let mut env = FakeEnv::new(plan(Vec::new()));
    env.inventory = PeerInventories { peer_a: vec![item("a.txt"), item("b.txt")], peer_b: Vec::new() };
    env.preparation = Err("naming policy unavailable".to_owned());
    let actions = vec![decision("a.txt", ConflictResolution::KeepPeerA), decision("b.txt", ConflictResolution::Defer)];
    let mut store = RunEvidenceStore::open_in_memory();
    let mut workflow = workflow();
    let report = workflow
        .execute_resolution_run(RunId::new(6), &actions, &mirror_profile(), &env,
            |_: &PeerInventories, _: &Vec<ConflictResolutionAction>| true, &mut store, || false)
        .expect("settled");
    assert_eq!(outcome_of(&report.journal, 1), ActionOutcome::Unresolved(ActionReason::TransferFailed));
    assert_eq!(outcome_of(&report.journal, 2), ActionOutcome::Deferred);
    assert!(env.executed.borrow().is_empty());
}

#[test]
fn a_completed_mirror_deletion_counts_only_when_both_peers_lack_the_item() {
    let env = FakeEnv::new(plan(Vec::new()));
    let mut store = RunEvidenceStore::open_in_memory();
    let run_id = RunId::new(2);
    store
        .begin_run(RunSnapshot {
            run_id,
            profile: mirror_profile(),
            authorizations: AuthorizationSnapshot::none(),
            peer_a_volume: None,
            peer_b_volume: None,
        })
        .unwrap();
    let mut workflow = workflow();
    let deletions = vec![
        MirrorDeletionResult {
            relative_path: "gone.txt".to_owned(),
            affected_peer: PeerSide::PeerB,
            outcome: MirrorDeletionOutcome::Completed,
            requires_review: false,
        },
        MirrorDeletionResult {
            relative_path: "kept.txt".to_owned(),
            affected_peer: PeerSide::PeerB,
            outcome: MirrorDeletionOutcome::FailedPreserved,
            requires_review: false,
        },
    ];
    let report = workflow
        .record_mirror_deletion_results(run_id, &mirror_profile(), &Vec::new(), &vec![item("gone.txt"), item("kept.txt")],
            &deletions, &env, &mut store)
        .expect("recorded");
    assert!(matches!(&report.journal[0], JournalEvent::Planned { action } if action.action_id == 1 && action.kind == PlanActionKind::RemoveDestination));
    assert_eq!(outcome_of(&report.journal, 1), ActionOutcome::Completed);
    assert_eq!(outcome_of(&report.journal, 2), ActionOutcome::Unresolved(ActionReason::TransferFailed));
    assert_eq!(report.status(), RunReportStatus::CompletedWithReviewRequired);

    let outside = vec![MirrorDeletionResult {
        relative_path: "unknown.txt".to_owned(),
        affected_peer: PeerSide::PeerA,
        outcome: MirrorDeletionOutcome::Deferred,
        requires_review: false,
    }];
    assert_eq!(
        workflow.record_mirror_deletion_results(run_id, &mirror_profile(), &Vec::new(), &Vec::new(), &outside, &env, &mut store),
        Err(WorkflowError::InvalidRun("deletion result \"unknown.txt\" is outside the affected inventory".to_owned()))
    );
    assert_eq!(
        workflow.record_mirror_deletion_results(run_id, &profile(), &Vec::new(), &Vec::new(), &outside, &env, &mut store),
        Err(WorkflowError::InvalidRun("Mirror deletion results require Mirror Sync".to_owned()))
    );
    assert_eq!(
        workflow.reconcile_mirror_deletions(run_id, &profile(), &env, &mut store),
        Err(WorkflowError::InvalidRun("Mirror deletion reconciliation requires Mirror Sync".to_owned()))
    );
}

#[test]
fn unattended_runs_remove_only_with_their_authorization() {
    let copy_only = plan(vec![action(1, "a.txt", PlanActionKind::CopyToDestination)]);
    let removing = plan(vec![action(1, "a.txt", PlanActionKind::RemoveSourceAfterVerification)]);
    let none = AuthorizationSnapshot::none();
    let destructive = AuthorizationSnapshot { allow_unattended_destructive: true, allow_unattended_permanent_removal: false };
    assert!(confirms_unattended(&copy_only, none));
    assert!(!confirms_unattended(&removing, none));
    assert!(confirms_unattended(&removing, destructive));
    let mut permanent = removing.clone();
    permanent.options.deletion_method = Some(DeletionMethod::PermanentRemoval);
    assert!(!confirms_unattended(&permanent, destructive));
    let mut profile = profile();
    assert!(matches!(scheduled_recovery_method(&profile, &"/data".to_owned()), RecoveryMethod::NativeTrash { .. }));
    profile.options.deletion_method = Some(DeletionMethod::PermanentRemoval);
    assert_eq!(scheduled_recovery_method(&profile, &"/data".to_owned()), RecoveryMethod::PermanentRemoval);
}

#[test]
fn a_scheduler_poll_runs_every_due_run_and_reports_failures() {
    let env = FakeEnv::new(plan(vec![action(1, "a.txt", PlanActionKind::RemoveSourceAfterVerification)]));
    let snapshot = |id: u64, authorizations: AuthorizationSnapshot| RunSnapshot {
        run_id: RunId::new(id),
        profile: profile(),
        authorizations,
        peer_a_volume: None,
        peer_b_volume: None,
    };
    let destructive = AuthorizationSnapshot { allow_unattended_destructive: true, allow_unattended_permanent_removal: false };
    let mut registry = PeerScopeLockRegistry::new();
    let mut store = RunEvidenceStore::open_in_memory();
    assert_eq!(
        run_background_scheduler_once(&vec![snapshot(1, destructive)], &"/data".to_owned(), &mut registry, &env, &mut store),
        Ok(1)
    );
    let failed = run_background_scheduler_once(
        &vec![snapshot(2, AuthorizationSnapshot::none())], &"/data".to_owned(), &mut registry, &env, &mut store);
    assert_eq!(failed, Err("Sync Run 2: explicit Execution Confirmation was not given".to_owned()));
}

#[test]
fn a_manual_run_executes_only_the_plan_the_user_confirmed() {
    let confirmed = plan(vec![action(1, "a.txt", PlanActionKind::CopyToDestination)]);
    let env = FakeEnv::new(confirmed.clone());
    let mut store = RunEvidenceStore::open_in_memory();
    let data_home = "/home/user/.local/share".to_owned();
    let report = execute_manual_run(RunId::new(1), &profile(), &confirmed, &data_home, &env, &mut store, || false)
        .expect("the fresh plan is the confirmed one");
    assert_eq!(report.status(), RunReportStatus::Completed);
    assert_eq!(env.transfer_calls.get(), 1);

    let changed = plan(vec![action(1, "a.txt", PlanActionKind::CopyToDestination), action(2, "b.txt", PlanActionKind::CopyToDestination)]);
    let stale_env = FakeEnv::new(changed);
    let error = execute_manual_run(RunId::new(2), &profile(), &confirmed, &data_home, &stale_env, &mut store, || false)
        .expect_err("the fresh plan differs from the confirmed one");
    assert_eq!(error, WorkflowError::ConfirmationRequired.message());
    assert_eq!(stale_env.transfer_calls.get(), 0);
    assert_eq!(store.load_report(RunId::new(2)).unwrap_err(), StorageError::UnknownRun);
}

#[test]
fn executed_resolutions_report_their_outcome_and_keep_preserved_copies_for_review() {
    let actions = vec![
        decision("keep.txt", ConflictResolution::KeepPeerA),
        decision("both.txt", ConflictResolution::PreserveBoth),
        decision("later.txt", ConflictResolution::Defer),
        decision("locked.txt", ConflictResolution::KeepPeerB),
    ];
    let results = vec![
        ResolutionRunOutcome::Completed,
        ResolutionRunOutcome::Completed,
        ResolutionRunOutcome::Deferred,
        ResolutionRunOutcome::Unresolved(ActionReason::TransferFailed),
    ];
    let items = resolution_report_items(&actions, &results);
    assert_eq!(items.len(), 4);
    assert_eq!(items[0].relative_path, "keep.txt");
    assert_eq!(items[0].outcome, MirrorResolutionOutcome::Completed);
    assert_eq!(items[0].review, MirrorResolutionReviewState::Settled);
    assert_eq!(items[1].review, MirrorResolutionReviewState::ReviewLater);
    assert_eq!(items[2].outcome, MirrorResolutionOutcome::Deferred);
    assert_eq!(items[2].review, MirrorResolutionReviewState::Settled);
    assert_eq!(items[3].outcome, MirrorResolutionOutcome::Failed(ActionReason::TransferFailed));
}

#[test]
fn an_explicit_review_clears_a_run_and_keeps_its_evidence() {
    let mut store = RunEvidenceStore::open_in_memory();
    let run_id = interrupted_run(&mut store, false);
    let before = store.load_report(run_id).unwrap();
    store.mark_review_cleared(run_id).expect("known run");
    let after = store.load_report(run_id).unwrap();
    assert_eq!(after.status(), RunReportStatus::ReviewCleared);
    assert_eq!(after.journal, before.journal);
    assert_eq!(store.mark_review_cleared(RunId::new(42)), Err(StorageError::UnknownRun));
}
