use syncplus::failure::{preserved_copy_failure_reason, PreservedCopyExecutionError};
use syncplus::labels::{
    conflict_next_action, file_review_classification_label, peer_side_label, plan_action_label, resolution_consequence,
    run_execution_result_label_for_report, run_lifecycle_label, sync_mode_label, synchronise_enabled, workspace_phase,
    WorkspacePhase,
};
use syncplus::model::{
    ActionReason, ConflictKind, ConflictResolution, FileReviewClassification, PeerSide, PlanActionKind,
    RunExecutionResult, RunLifecycle, SyncMode,
};
use syncplus::resolution::{resolution_planned_report_items, resolution_setup_failure_items, ConflictResolutionAction};
use syncplus::failure::{MirrorResolutionOutcome, MirrorResolutionReviewState};
use syncplus::status::RunReportStatus;

#[test]
fn typed_values_read_as_fixed_labels() {
    assert_eq!(run_lifecycle_label(RunLifecycle::ReviewRequired), "Review required");
    assert_eq!(sync_mode_label(SyncMode::Mirror), "Mirror Sync");
    assert_eq!(sync_mode_label(SyncMode::OneWay), "One-Way Sync");
    assert_eq!(plan_action_label(PlanActionKind::RemoveSourceAfterVerification), "Verified source removal");
    assert_eq!(plan_action_label(PlanActionKind::OverwriteDestination), "Verified destination overwrite");
    assert_eq!(peer_side_label(PeerSide::PeerB), "Peer B");
    assert_eq!(
        resolution_consequence(ConflictResolution::Defer),
        "make no file change and keep this conflict unresolved"
    );
    assert_eq!(
        resolution_consequence(ConflictResolution::KeepPeerA),
        "copy Peer A's verified whole file to Peer B; Peer A is preserved"
    );
    assert_eq!(
        conflict_next_action(ConflictKind::PossibleDuplicateOrRename),
        "Next action: inspect both paths; equal hashes are evidence only and never authorize an automatic move or deletion."
    );
    assert_eq!(file_review_classification_label(FileReviewClassification::NonRegular), "non-regular item");
}

#[test]
fn a_report_that_needs_review_never_reads_as_its_raw_result() {
    assert_eq!(
        run_execution_result_label_for_report(RunReportStatus::CompletedWithReviewRequired, RunExecutionResult::Succeeded),
        "Pending review"
    );
    assert_eq!(
        run_execution_result_label_for_report(RunReportStatus::Completed, RunExecutionResult::Succeeded),
        "Succeeded"
    );
}

#[test]
fn preserved_copy_failures_map_to_action_reasons() {
    assert_eq!(
        preserved_copy_failure_reason(&PreservedCopyExecutionError::SourceChanged("a".to_owned())),
        ActionReason::SourceChanged
    );
    assert_eq!(
        preserved_copy_failure_reason(&PreservedCopyExecutionError::Verification("a".to_owned())),
        ActionReason::VerificationMismatch
    );
    assert_eq!(
        preserved_copy_failure_reason(&PreservedCopyExecutionError::DestinationOccupied("a".to_owned())),
        ActionReason::TransferFailed
    );
}

#[test]
fn an_unprepared_resolution_run_reports_deferred_and_failed_decisions() {
    let decision = |path: &str, resolution| ConflictResolutionAction {
        relative_path: path.to_owned(),
        resolution,
        source_side: Some(PeerSide::PeerA),
        target_side: Some(PeerSide::PeerB),
    };
    let actions = vec![decision("keep.txt", ConflictResolution::KeepPeerA), decision("later.txt", ConflictResolution::Defer)];
    let items = resolution_setup_failure_items(&actions, ActionReason::DestinationUnavailable);
    assert_eq!(items.len(), 2);
    assert_eq!(items[0].outcome, MirrorResolutionOutcome::Failed(ActionReason::DestinationUnavailable));
    assert_eq!(items[0].review, MirrorResolutionReviewState::Settled);
    assert_eq!(items[0].source_side, Some(PeerSide::PeerA));
    assert_eq!(items[1].outcome, MirrorResolutionOutcome::Deferred);
    assert_eq!(items[1].review, MirrorResolutionReviewState::ReviewLater);
}

#[test]
fn an_interrupted_resolution_run_reports_open_decisions() {
    let decision = |path: &str, resolution| ConflictResolutionAction {
        relative_path: path.to_owned(),
        resolution,
        source_side: None,
        target_side: None,
    };
    let actions = vec![decision("keep.txt", ConflictResolution::KeepPeerB), decision("later.txt", ConflictResolution::Defer)];
    let items = resolution_planned_report_items(&actions);
    assert_eq!(items[0].outcome, MirrorResolutionOutcome::Unresolved(ActionReason::InterruptedBoundary));
    assert_eq!(items[0].review, MirrorResolutionReviewState::Settled);
    assert_eq!(items[1].outcome, MirrorResolutionOutcome::Deferred);
    assert_eq!(items[1].review, MirrorResolutionReviewState::ReviewLater);
}

#[test]
fn the_workspace_phase_follows_analysis_run_and_review_state() {
    let analysing = workspace_phase(true, true, true, false, true);
    assert_eq!(analysing, WorkspacePhase::AnalysisInProgress);
    assert_eq!(analysing.label(), "Analysis in progress");
    assert!(!analysing.is_positive());
    let confirmed = workspace_phase(false, false, true, true, true);
    assert_eq!(confirmed.label(), "Ready to synchronise");
    assert_eq!(confirmed.description(), "Execution Confirmation is recorded for this exact reviewed scope.");
    assert!(confirmed.is_positive());
    assert_eq!(workspace_phase(false, false, false, true, true).label(), "Review blocked");
    assert_eq!(workspace_phase(false, false, false, false, true).label(), "Review required");
    let idle = workspace_phase(false, false, false, false, false);
    assert_eq!(idle.label(), "Ready for dry run");
    assert_eq!(idle.description(), "Dry run performs Fresh Analysis and Run Precheck. It does not change files.");
    assert!(synchronise_enabled(true, false, false));
    assert!(!synchronise_enabled(true, true, false));
    assert!(!synchronise_enabled(true, false, true));
}
