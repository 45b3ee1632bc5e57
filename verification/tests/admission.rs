use syncplus::fonts::{regular_sans_candidates, regular_sans_choice};
use syncplus::forms::ProfileForm;
use syncplus::scheduler::undelivered_events;
use syncplus::model::{DeletionMethod, OneWaySource, PartialTransferPolicy, RunId, SyncMode};
use syncplus::profile::{
    AuthorizationSnapshot, MetadataRequirements, Peer, PeerEndpoint, RetryPolicy, SyncOptions, SyncProfile,
};
use syncplus::scope_lock::{PeerScope, ScopeLockOwner};
use syncplus::status::RunReportStatus;
use syncplus::store::{RunEvidenceStore, RunSnapshot, StorageError};
use syncplus::workflow::{PrecheckBlocked, PrecheckFailure, PrecheckPassed, RecoveryMethod, RunWorkflow, WorkflowError};

fn local(name: &str, root: &str) -> Peer {
    Peer { name: name.to_owned(), endpoint: PeerEndpoint::Local { root: root.to_owned() } }
}

fn profile() -> SyncProfile {
    SyncProfile {
        name: "Documents backup".to_owned(),
        peer_a: local("Source", "/data/source"),
        peer_b: local("Backup disk", "/data/backup"),
        mode: SyncMode::OneWay,
        source: OneWaySource::PeerA,
        options: SyncOptions {
            metadata: MetadataRequirements {
                empty_directories: true,
                symlinks: true,
                executable_bits: true,
                timestamps: false,
                ownership: false,
                access_control_lists: false,
                extended_attributes: false,
            },
            safe_delete: true,
            destination_cleanup: false,
            deletion_method: Some(DeletionMethod::Trash),
            partial_transfer_policy: PartialTransferPolicy::Cleanup,
            retry_policy: RetryPolicy { max_attempts: 3, initial_delay_millis: 100 },
        },
        exclusions: Vec::new(),
    }
}

fn scopes() -> Vec<PeerScope> {
    vec![PeerScope { root: "/data/source".to_owned() }, PeerScope { root: "/data/backup".to_owned() }]
}

fn owner(run: u64) -> ScopeLockOwner {
    ScopeLockOwner { profile_name: "Documents backup".to_owned(), run_id: RunId::new(run) }
}

fn workflow() -> RunWorkflow {
    RunWorkflow::new(RecoveryMethod::native_trash("/home/user/.local/share".to_owned()))
}

fn passed() -> PrecheckPassed {
    PrecheckPassed { source_volume: Some(11), destination_volume: Some(22) }
}

#[test]
fn a_passed_precheck_with_scopes_held_elsewhere_is_recorded_as_scope_locked() {
    let mut store = RunEvidenceStore::open_in_memory();
    let mut workflow = workflow();
    assert!(workflow.scope_locks.acquire(
        &ScopeLockOwner { profile_name: "other profile".to_owned(), run_id: RunId::new(99) },
        &vec![PeerScope { root: "/data/source".to_owned() }, PeerScope { root: "/data/backup".to_owned() }]
    ));
    let admitted = workflow.admit_run(&mut store, RunId::new(1), &profile(), Ok(passed()), &owner(1), &scopes(),
        AuthorizationSnapshot::none());
    match admitted {
        Err(WorkflowError::Precheck(PrecheckFailure::ScopeLocked(message))) => {
            assert_eq!(message, "another Sync Run holds an overlapping Peer Scope Lock");
        },
        other => panic!("unexpected admission: {:?}", other),
    }
    let report = store.load_report(RunId::new(1)).expect("blocked report");
    assert_eq!(report.status(), RunReportStatus::Blocked);
    assert!(report.journal.is_empty());
    assert_eq!(
        report.blocked_reason.as_deref(),
        Some("Run Precheck blocked: another Sync Run holds an overlapping Peer Scope Lock")
    );
    assert_eq!(report.snapshot.peer_a_volume, Some(11));
    assert!(!workflow.scope_locks.acquire(&owner(7), &scopes()));
}

#[test]
fn a_refused_first_precheck_is_recorded_with_its_own_failure() {
    let mut store = RunEvidenceStore::open_in_memory();
    let mut workflow = workflow();
    let failure = PrecheckFailure::Blocked(PrecheckBlocked {
        blockers: vec!["Backup disk is not mounted".to_owned()],
        replacement_only: false,
        source_volume: Some(5),
        destination_volume: None,
    });
    let admitted = workflow.admit_run(&mut store, RunId::new(3), &profile(), Err(failure.clone()), &owner(3), &scopes(),
        AuthorizationSnapshot::none());
    assert_eq!(admitted, Err(WorkflowError::Precheck(failure)));
    let report = store.load_report(RunId::new(3)).expect("blocked report");
    assert_eq!(report.status(), RunReportStatus::Blocked);
    assert_eq!(report.snapshot.peer_a_volume, Some(5));
    assert!(report.blocked_reason.expect("reason").contains("Backup disk is not mounted"));
    assert!(workflow.scope_locks.acquire(&owner(8), &scopes()));
}

#[test]
fn an_admitted_run_holds_its_scopes_and_records_nothing() {
    let mut store = RunEvidenceStore::open_in_memory();
    let mut workflow = workflow();
    let admitted = workflow.admit_run(&mut store, RunId::new(2), &profile(), Ok(passed()), &owner(2), &scopes(),
        AuthorizationSnapshot::none());
    assert_eq!(admitted, Ok(passed()));
    assert_eq!(store.load_report(RunId::new(2)).err(), Some(StorageError::UnknownRun));
    assert!(!workflow.scope_locks.acquire(
        &ScopeLockOwner { profile_name: "other profile".to_owned(), run_id: RunId::new(9) },
        &vec![PeerScope { root: "/data/backup".to_owned() }]
    ));
}

#[test]
fn a_taken_run_id_is_refused_as_a_duplicate() {
    let mut store = RunEvidenceStore::open_in_memory();
    store
        .begin_run(RunSnapshot {
            run_id: RunId::new(4),
            profile: profile(),
            authorizations: AuthorizationSnapshot::none(),
            peer_a_volume: None,
            peer_b_volume: None,
        })
        .unwrap();
    let mut workflow = workflow();
    let admitted = workflow.admit_run(&mut store, RunId::new(4), &profile(), Err(PrecheckFailure::Probe("offline".to_owned())),
        &owner(4), &scopes(), AuthorizationSnapshot::none());
    assert_eq!(admitted, Err(WorkflowError::Storage(StorageError::DuplicateRun)));
}

#[test]
fn the_next_run_id_follows_the_highest_recorded_one() {
    let mut store = RunEvidenceStore::open_in_memory();
    assert_eq!(store.next_run_id(), Ok(RunId::new(1)));
    for id in [2u64, 5, 3] {
        store
            .begin_run(RunSnapshot {
                run_id: RunId::new(id),
                profile: profile(),
                authorizations: AuthorizationSnapshot::none(),
                peer_a_volume: None,
                peer_b_volume: None,
            })
            .unwrap();
    }
    assert_eq!(store.next_run_id(), Ok(RunId::new(6)));
}

#[test]
fn the_font_choice_is_the_first_candidate_found() {
    let candidates = regular_sans_candidates();
    assert_eq!(regular_sans_choice(&[false, true, false, true]), Some(candidates[1].to_owned()));
    assert_eq!(regular_sans_choice(&[true, true, true, true]), Some(candidates[0].to_owned()));
    assert_eq!(regular_sans_choice(&[false, false, false, true]), Some(candidates[3].to_owned()));
    assert_eq!(regular_sans_choice(&[false, false, false, false]), None);
}

#[test]
fn only_events_new_since_the_poll_began_are_notified() {
    assert_eq!(undelivered_events(&vec![1, 2], &vec![2, 3, 1, 4]), vec![3, 4]);
    assert_eq!(undelivered_events(&Vec::new(), &vec![7, 8]), vec![7, 8]);
    assert!(undelivered_events(&vec![5], &vec![5]).is_empty());
}

#[test]
fn a_new_profile_form_starts_with_the_safe_defaults() {
    let form = ProfileForm::new_profile(RetryPolicy { max_attempts: 3, initial_delay_millis: 1000 });
    assert!(form.name.is_empty());
    assert_eq!(form.mode, SyncMode::OneWay);
    assert_eq!(form.source, OneWaySource::PeerA);
    assert!(!form.safe_delete);
    assert_eq!(form.deletion_method, None);
    assert!(!form.destination_cleanup);
    assert_eq!(form.partial_transfer_policy, PartialTransferPolicy::Cleanup);
    assert_eq!(form.retry_attempts, "3");
    assert_eq!(form.retry_delay_millis, "1000");
    assert!(!form.schedule_enabled);
    assert_eq!(form.schedule_interval_minutes, "60");
    assert_eq!(form.schedule_timezone, "UTC");
}
