use std::cell::{Cell, RefCell};
use std::collections::VecDeque;

use syncplus::failure::SshRunError;
use syncplus::journal::{outcome_of, JournalEvent, OneWayPlan, PlanAction};
use syncplus::model::{
    ActionOutcome, ActionReason, DeletionMethod, OneWaySource, PartialTransferPolicy, PeerSide, PlanActionKind, RunId,
    SyncMode,
};
use syncplus::profile::{
    MetadataRequirements,
    AuthorizationSnapshot, Peer, PeerEndpoint, RetryPolicy, SshAuthentication, SshPeer, SyncOptions, SyncProfile,
};
use syncplus::ssh::{
    join_path, ssh_peer_for_profile, validate_remote_recovery, ContentProof, FileIdentity, ItemType, RecoveryEvidence,
    RecoveryProvenance, RemotePrecheck, SshHostTrustPermit, SshRunBackend, SshTransferAttempt, SshTransferEvidence,
    SshTransferRequest,
};
use syncplus::status::RunReportStatus;
use syncplus::store::RunEvidenceStore;
use syncplus::workflow::{ProcessSupervisor, RecoveryMethod, RunWorkflow, WorkflowError};

fn remote_peer() -> SshPeer {
    SshPeer {
        server: "backup.example.com".to_owned(),
        username: "sync-user".to_owned(),
        port: 22,
        identity: None,
        authentication: SshAuthentication::Agent,
        remote_path: "/srv/backup".to_owned(),
    }
}

fn options(method: Option<DeletionMethod>) -> SyncOptions {
    SyncOptions {
        metadata: MetadataRequirements {
            empty_directories: true,
            symlinks: true,
            executable_bits: true,
            timestamps: false,
            ownership: false,
            access_control_lists: false,
            extended_attributes: false,
        },
        safe_delete: true,
        destination_cleanup: false,
        deletion_method: method,
        partial_transfer_policy: PartialTransferPolicy::Cleanup,
        retry_policy: RetryPolicy { max_attempts: 2, initial_delay_millis: 50 },
    }
}

/// Peer A is the remote source, Peer B a local folder.
fn profile(method: Option<DeletionMethod>) -> SyncProfile {
    SyncProfile {
        name: "Remote photos".to_owned(),
        peer_a: Peer { name: "Server".to_owned(), endpoint: PeerEndpoint::Ssh(remote_peer()) },
        peer_b: Peer { name: "Laptop".to_owned(), endpoint: PeerEndpoint::Local { root: "/home/user/photos".to_owned() } },
        mode: SyncMode::OneWay,
        source: OneWaySource::PeerA,
        options: options(method),
        exclusions: Vec::new(),
    }
}

fn content_proof() -> ContentProof {
    ContentProof { size: 4, sha256: vec![7; 32] }
}

fn evidence(path: &str) -> SshTransferEvidence {
    SshTransferEvidence {
        source_path: join_path("/srv/backup", path),
        destination_path: join_path("/home/user/photos", path),
        item_type: Some(ItemType::RegularFile),
        source: Some(content_proof()),
        destination: Some(content_proof()),
        metadata_verified: true,
        source_identity: Some(FileIdentity { device: 1, inode: 2 }),
        source_stability_verified: true,
    }
}

struct FakeBackend {
    plan: OneWayPlan,
    fingerprint: String,
    transfers: RefCell<VecDeque<Result<SshTransferEvidence, SshRunError>>>,
    transfer_calls: Cell<u32>,
    recovery_calls: Cell<u32>,
    tamper_recovery: bool,
    blockers: Vec<String>,
}

impl FakeBackend {
    fn new(plan: OneWayPlan) -> Self {
        FakeBackend {
            plan,
            fingerprint: "SHA256:trusted".to_owned(),
            transfers: RefCell::new(VecDeque::new()),
            transfer_calls: Cell::new(0),
            recovery_calls: Cell::new(0),
            tamper_recovery: false,
            blockers: Vec::new(),
        }
    }
}

impl SshRunBackend for FakeBackend {
    fn probe_host(&self, _peer: &SshPeer) -> Result<String, String> {
        Ok(self.fingerprint.clone())
    }

    fn remote_precheck(&self, _peer: &SshPeer) -> Result<RemotePrecheck, String> {
        Ok(RemotePrecheck { blockers: self.blockers.clone(), recovery_root: Some("/srv/.trash".to_owned()) })
    }

    fn fresh_analysis(&self, _profile: &SyncProfile) -> Result<OneWayPlan, String> {
        Ok(self.plan.clone())
    }

    fn transfer(&self, request: &SshTransferRequest) -> SshTransferAttempt {
        self.transfer_calls.set(self.transfer_calls.get() + 1);
        let result = self
            .transfers
            .borrow_mut()
            .pop_front()
            .unwrap_or_else(|| Ok(evidence(&request.relative_path)));
        SshTransferAttempt { result, progress: vec![4] }
    }

    fn wait_before_retry(&self, _delay_millis: u64) -> bool {
        true
    }

    fn recover_source(&self, request: &SshTransferRequest, transfer: &SshTransferEvidence) -> Result<RecoveryEvidence, SshRunError> {
        self.recovery_calls.set(self.recovery_calls.get() + 1);
        let source = transfer.source.clone().unwrap();
        Ok(RecoveryEvidence {
            recovery_target: request.remote_recovery_target.clone(),
            source_present: false,
            destination_present: true,
            recovery_present: true,
            source_size: Some(source.size),
            destination_size: transfer.destination.as_ref().map(|proof| proof.size),
            source_sha256: Some(source.sha256.clone()),
            destination_sha256: transfer.destination.as_ref().map(|proof| proof.sha256.clone()),
            recovery_size: Some(source.size),
            recovery_sha256: Some(source.sha256.clone()),
            provenance: Some(RecoveryProvenance {
                username: request.remote_peer.username.clone(),
                server: request.remote_peer.server.clone(),
                port: request.remote_peer.port,
                original_root: request.remote_peer.remote_path.clone(),
                relative_path: if self.tamper_recovery { "elsewhere".to_owned() } else { request.relative_path.clone() },
                run_id: request.run_id,
                item_type: ItemType::RegularFile,
                content: transfer.source.clone(),
                source_identity: transfer.source_identity,
            }),
        })
    }

    fn observe_consistent(&self, _profile: &SyncProfile, _journal: &Vec<JournalEvent>) -> bool {
        true
    }
}

fn action(id: u64, path: &str, kind: PlanActionKind) -> PlanAction {
    PlanAction { action_id: id, relative_path: path.to_owned(), kind, source_side: PeerSide::PeerA, size: Some(4) }
}

fn plan(method: Option<DeletionMethod>, actions: Vec<PlanAction>) -> OneWayPlan {
    OneWayPlan { mode: SyncMode::OneWay, options: options(method), actions }
}

fn permit() -> SshHostTrustPermit {
    SshHostTrustPermit { server: "backup.example.com".to_owned(), port: 22, fingerprint: "SHA256:trusted".to_owned() }
}

fn workflow() -> RunWorkflow {
    RunWorkflow::with_supervisor(ProcessSupervisor::new(2000), RecoveryMethod::permanent_removal())
}

#[test]
fn ssh_copy_and_trash_removal_settle_with_verified_evidence() {
    let method = Some(DeletionMethod::Trash);
    let backend = FakeBackend::new(plan(method, vec![
        action(1, "a.jpg", PlanActionKind::CopyToDestination),
        action(2, "a.jpg", PlanActionKind::RemoveSourceAfterVerification),
    ]));
    let mut store = RunEvidenceStore::open_in_memory();
    let mut workflow = workflow();
    let report = workflow
        .execute_ssh(RunId::new(1), &profile(method), &permit(), &backend, |_: &OneWayPlan| true, &mut store, || false)
        .expect("ssh run settles");
    assert_eq!(report.status(), RunReportStatus::Completed);
    assert_eq!(outcome_of(&report.journal, 1), ActionOutcome::Completed);
    assert_eq!(outcome_of(&report.journal, 2), ActionOutcome::Completed);
    assert_eq!(backend.transfer_calls.get(), 1, "the removal reuses the verified copy");
    assert_eq!(backend.recovery_calls.get(), 1);
    assert!(report.journal.iter().any(|event| matches!(event, JournalEvent::Progress { action_id: 1, completed_bytes: 4 })));
    assert!(report
        .journal
        .iter()
        .all(|event| !matches!(event, JournalEvent::RemovalStarted { deletion_method: DeletionMethod::PermanentRemoval, .. })));
}

#[test]
fn an_unproven_remote_recovery_needs_recovery_review() {
    let method = Some(DeletionMethod::Trash);
    let mut backend = FakeBackend::new(plan(method, vec![
        action(1, "a.jpg", PlanActionKind::RemoveSourceAfterVerification),
        action(2, "b.jpg", PlanActionKind::CopyToDestination),
    ]));
    backend.tamper_recovery = true;
    let mut store = RunEvidenceStore::open_in_memory();
    let mut workflow = workflow();
    let report = workflow
        .execute_ssh(RunId::new(1), &profile(method), &permit(), &backend, |_: &OneWayPlan| true, &mut store, || false)
        .expect("ssh run settles");
    assert_eq!(outcome_of(&report.journal, 1), ActionOutcome::RecoveryReview(ActionReason::InterruptedBoundary));
    assert_eq!(outcome_of(&report.journal, 2), ActionOutcome::Cancelled);
    assert_eq!(report.status(), RunReportStatus::RecoveryReview);
}

#[test]
fn ssh_permanent_removal_needs_its_own_authorization() {
    let method = Some(DeletionMethod::PermanentRemoval);
    let backend = FakeBackend::new(plan(method, vec![action(1, "a.jpg", PlanActionKind::RemoveSourceAfterVerification)]));
    let mut store = RunEvidenceStore::open_in_memory();
    let mut workflow = workflow();
    let refused = workflow.execute_ssh(RunId::new(1), &profile(method), &permit(), &backend, |_: &OneWayPlan| true, &mut store, || false);
    assert!(matches!(&refused, Err(WorkflowError::InvalidRun(message))
        if message.contains("separate explicit authorization")));
    assert!(store.load_report(RunId::new(1)).is_err());
    assert_eq!(backend.recovery_calls.get(), 0);
    assert_eq!(backend.transfer_calls.get(), 0);

    let authorized = AuthorizationSnapshot { allow_unattended_destructive: true, allow_unattended_permanent_removal: true };
    let report = workflow
        .execute_ssh_with_authorizations(RunId::new(2), &profile(method), &permit(), authorized, &backend,
            |_: &OneWayPlan| true, &mut store, || false)
        .expect("authorized run settles");
    assert_eq!(outcome_of(&report.journal, 1), ActionOutcome::Unresolved(ActionReason::DestinationUnavailable));
    assert_eq!(backend.recovery_calls.get(), 0);
}

#[test]
fn a_changed_host_fingerprint_stops_before_anything_is_recorded() {
    let method = Some(DeletionMethod::Trash);
    let mut backend = FakeBackend::new(plan(method, vec![action(1, "a.jpg", PlanActionKind::CopyToDestination)]));
    backend.fingerprint = "SHA256:someone-else".to_owned();
    let mut store = RunEvidenceStore::open_in_memory();
    let mut workflow = workflow();
    let result = workflow.execute_ssh(RunId::new(1), &profile(method), &permit(), &backend, |_: &OneWayPlan| true, &mut store, || false);
    assert!(matches!(result, Err(WorkflowError::Ssh(SshRunError::Precheck(_)))));
    assert!(store.load_report(RunId::new(1)).is_err());
    assert_eq!(backend.transfer_calls.get(), 0);
}

#[test]
fn a_retryable_ssh_failure_is_retried_then_recorded() {
    let method = Some(DeletionMethod::Trash);
    let backend = FakeBackend::new(plan(method, vec![action(1, "a.jpg", PlanActionKind::CopyToDestination)]));
    for _ in 0..3 {
        backend.transfers.borrow_mut().push_back(Err(SshRunError::Transport("connection reset".to_owned())));
    }
    let mut store = RunEvidenceStore::open_in_memory();
    let mut workflow = workflow();
    let report = workflow
        .execute_ssh(RunId::new(1), &profile(method), &permit(), &backend, |_: &OneWayPlan| true, &mut store, || false)
        .expect("run settles");
    assert_eq!(backend.transfer_calls.get(), 2);
    assert_eq!(outcome_of(&report.journal, 1), ActionOutcome::Failed(ActionReason::TransferFailed));
}

#[test]
fn a_mismatched_destination_is_left_unresolved() {
    let method = Some(DeletionMethod::Trash);
    let backend = FakeBackend::new(plan(method, vec![action(1, "a.jpg", PlanActionKind::CopyToDestination)]));
    let mut mismatched = evidence("a.jpg");
    mismatched.destination = Some(ContentProof { size: 4, sha256: vec![0; 32] });
    backend.transfers.borrow_mut().push_back(Ok(mismatched));
    let mut store = RunEvidenceStore::open_in_memory();
    let mut workflow = workflow();
    let report = workflow
        .execute_ssh(RunId::new(1), &profile(method), &permit(), &backend, |_: &OneWayPlan| true, &mut store, || false)
        .expect("run settles");
    assert_eq!(outcome_of(&report.journal, 1), ActionOutcome::Unresolved(ActionReason::VerificationMismatch));
    assert_eq!(report.status(), RunReportStatus::CompletedWithReviewRequired);
}

#[test]
fn ssh_runs_need_exactly_one_ssh_peer() {
    let mut both_local = profile(None);
    both_local.peer_a = Peer { name: "Disk".to_owned(), endpoint: PeerEndpoint::Local { root: "/mnt/disk".to_owned() } };
    assert!(matches!(ssh_peer_for_profile(&both_local), Err(WorkflowError::InvalidRun(message))
        if message == "SSH workflow requires one SSH peer"));
    let mut both_remote = profile(None);
    both_remote.peer_b = Peer { name: "Other".to_owned(), endpoint: PeerEndpoint::Ssh(remote_peer()) };
    assert!(matches!(ssh_peer_for_profile(&both_remote), Err(WorkflowError::InvalidRun(message))
        if message == "SSH workflow does not support two SSH peers"));
    let backend = FakeBackend::new(plan(None, Vec::new()));
    let mut store = RunEvidenceStore::open_in_memory();
    let refused = workflow().execute_ssh(RunId::new(1), &both_remote, &permit(), &backend, |_: &OneWayPlan| true,
        &mut store, || false);
    assert!(matches!(refused, Err(WorkflowError::InvalidRun(message))
        if message == "SSH workflow does not support two SSH peers"));
    assert_eq!(backend.recovery_calls.get(), 0);
    assert!(store.load_report(RunId::new(1)).is_err());
    let single = profile(None);
    let (side, peer) = ssh_peer_for_profile(&single).expect("one ssh peer");
    assert_eq!(side, PeerSide::PeerA);
    assert_eq!(peer.server, "backup.example.com");
}

#[test]
fn paths_join_with_one_separator() {
    assert_eq!(join_path("/srv/backup", "a/b.txt"), "/srv/backup/a/b.txt");
    assert_eq!(join_path("/srv/backup/", "a.txt"), "/srv/backup/a.txt");
    assert_eq!(join_path("/srv/backup", "/etc/passwd"), "/etc/passwd");
    assert_eq!(join_path("", "a.txt"), "a.txt");
}

fn request(target: &str) -> SshTransferRequest {
    SshTransferRequest {
        run_id: RunId::new(3),
        action_id: 1,
        relative_path: "a.jpg".to_owned(),
        source_path: "/srv/backup/a.jpg".to_owned(),
        destination_path: "/home/user/photos/a.jpg".to_owned(),
        remote_peer: remote_peer(),
        deletion_method: Some(DeletionMethod::Trash),
        remote_recovery_target: Some(target.to_owned()),
        supervisor: ProcessSupervisor::new(2000),
    }
}

fn recovery(target: &str) -> RecoveryEvidence {
    RecoveryEvidence {
        recovery_target: Some(target.to_owned()),
        source_present: false,
        destination_present: true,
        recovery_present: true,
        source_size: Some(4),
        destination_size: Some(4),
        source_sha256: Some(vec![7; 32]),
        destination_sha256: Some(vec![7; 32]),
        recovery_size: Some(4),
        recovery_sha256: Some(vec![7; 32]),
        provenance: Some(RecoveryProvenance {
            username: "sync-user".to_owned(),
            server: "backup.example.com".to_owned(),
            port: 22,
            original_root: "/srv/backup".to_owned(),
            relative_path: "a.jpg".to_owned(),
            run_id: RunId::new(3),
            item_type: ItemType::RegularFile,
            content: Some(content_proof()),
            source_identity: Some(FileIdentity { device: 1, inode: 2 }),
        }),
    }
}

#[test]
fn remote_recovery_must_prove_where_the_source_went() {
    let target = "/srv/.trash/a.jpg";
    assert!(validate_remote_recovery(&request(target), &evidence("a.jpg"), &recovery(target)));

    let mut still_there = recovery(target);
    still_there.source_present = true;
    assert!(!validate_remote_recovery(&request(target), &evidence("a.jpg"), &still_there));

    let inside_source = "/srv/backup/a.jpg/.trash";
    assert!(!validate_remote_recovery(&request(inside_source), &evidence("a.jpg"), &recovery(inside_source)));

    let mut other_run = recovery(target);
    other_run.provenance.as_mut().unwrap().run_id = RunId::new(4);
    assert!(!validate_remote_recovery(&request(target), &evidence("a.jpg"), &other_run));

    let mut unstable = evidence("a.jpg");
    unstable.source_stability_verified = false;
    assert!(!validate_remote_recovery(&request(target), &unstable, &recovery(target)));
}

#[test]
fn a_cancelled_ssh_run_resumes_as_a_new_confirmed_run() {
    let method = Some(DeletionMethod::Trash);
    let backend = FakeBackend::new(plan(method, vec![action(1, "a.jpg", PlanActionKind::CopyToDestination)]));
    let mut store = RunEvidenceStore::open_in_memory();
    let mut workflow = workflow();
    let cancelled = workflow
        .execute_ssh(RunId::new(1), &profile(method), &permit(), &backend, |_: &OneWayPlan| true, &mut store, || true)
        .expect("a cancelled run still reports");
    assert_eq!(outcome_of(&cancelled.journal, 1), ActionOutcome::Cancelled);
    assert_eq!(cancelled.status(), RunReportStatus::Cancelled);

    assert_eq!(
        workflow.resume_ssh(RunId::new(1), &permit(), &backend, |_: &OneWayPlan| false, &mut store, || false),
        Err(WorkflowError::ConfirmationRequired)
    );
    let resumed = workflow
        .resume_ssh(RunId::new(1), &permit(), &backend, |_: &OneWayPlan| true, &mut store, || false)
        .expect("the resumed run settles");
    assert_ne!(resumed.run_id(), RunId::new(1));
    assert_eq!(resumed.status(), RunReportStatus::Completed);
    assert_eq!(outcome_of(&resumed.journal, 1), ActionOutcome::Completed);
    assert!(matches!(
        workflow.resume_ssh(resumed.run_id(), &permit(), &backend, |_: &OneWayPlan| true, &mut store, || false),
        Err(WorkflowError::InvalidRun(_))
    ));
}

#[test]
fn an_unavailable_remote_trash_blocks_the_remote_precheck() {
    let method = Some(DeletionMethod::Trash);
    let mut backend = FakeBackend::new(plan(method, vec![action(1, "a.jpg", PlanActionKind::RemoveSourceAfterVerification)]));
    backend.blockers = vec!["remote Trash is unavailable".to_owned(), "quota \"home\" is full".to_owned()];
    let mut store = RunEvidenceStore::open_in_memory();
    let mut workflow = workflow();
    let result = workflow.execute_ssh(RunId::new(1), &profile(method), &permit(), &backend, |_: &OneWayPlan| true, &mut store, || false);
    assert_eq!(
        result,
        Err(WorkflowError::Ssh(SshRunError::Precheck(
            "remote precheck remained blocked: [\"remote Trash is unavailable\", \"quota \\\"home\\\" is full\"]".to_owned()
        )))
    );
    assert!(store.load_report(RunId::new(1)).is_err());
    assert_eq!(backend.transfer_calls.get(), 0);
    assert_eq!(backend.recovery_calls.get(), 0);
}
