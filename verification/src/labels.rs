//! Short labels and explanations shown for typed values in reports and reviews.
use vstd::prelude::*;

use crate::model::{
    ApplicationMode, ConflictKind, ConflictResolution, FileReviewClassification, PeerSide,
    PlanActionKind, RunExecutionResult, RunLifecycle, SyncMode,
};
use crate::status::{run_report_status_phrase, status_phrase, RunReportStatus};

verus! {

pub open spec fn execution_result_text(result: RunExecutionResult) -> Seq<char> {
    match result {
        RunExecutionResult::NotStarted => "Not started"@,
        RunExecutionResult::InProgress => "In progress"@,
        RunExecutionResult::Succeeded => "Succeeded"@,
        RunExecutionResult::Failed => "Failed"@,
        RunExecutionResult::Cancelled => "Cancelled"@,
        RunExecutionResult::Interrupted => "Interrupted"@,
        RunExecutionResult::Blocked => "Blocked"@,
        RunExecutionResult::RecoveryReview => "Recovery Review"@,
    }
}

pub fn run_execution_result_label(result: RunExecutionResult) -> (label: &'static str)
    ensures
        label@ == execution_result_text(result),
{
    match result {
        RunExecutionResult::NotStarted => "Not started",
        RunExecutionResult::InProgress => "In progress",
        RunExecutionResult::Succeeded => "Succeeded",
        RunExecutionResult::Failed => "Failed",
        RunExecutionResult::Cancelled => "Cancelled",
        RunExecutionResult::Interrupted => "Interrupted",
        RunExecutionResult::Blocked => "Blocked",
        RunExecutionResult::RecoveryReview => "Recovery Review",
    }
}

pub open spec fn lifecycle_text(lifecycle: RunLifecycle) -> Seq<char> {
    match lifecycle {
        RunLifecycle::Open => "Open"@,
        RunLifecycle::ReviewRequired => "Review required"@,
        RunLifecycle::ReviewCleared => "Review cleared"@,
    }
}

pub fn run_lifecycle_label(lifecycle: RunLifecycle) -> (label: &'static str)
    ensures
        label@ == lifecycle_text(lifecycle),
{
    match lifecycle {
        RunLifecycle::Open => "Open",
        RunLifecycle::ReviewRequired => "Review required",
        RunLifecycle::ReviewCleared => "Review cleared",
    }
}

pub open spec fn sync_mode_text(mode: SyncMode) -> Seq<char> {
    match mode {
        SyncMode::OneWay => "One-Way Sync"@,
        SyncMode::Mirror => "Mirror Sync"@,
    }
}

pub fn sync_mode_label(mode: SyncMode) -> (label: &'static str)
    ensures
        label@ == sync_mode_text(mode),
{
    match mode {
        SyncMode::OneWay => "One-Way Sync",
        SyncMode::Mirror => "Mirror Sync",
    }
}

pub open spec fn plan_action_text(action: PlanActionKind) -> Seq<char> {
    match action {
        PlanActionKind::CopyToDestination => "Copy to destination"@,
        PlanActionKind::OverwriteDestination => "Verified destination overwrite"@,
        PlanActionKind::RemoveDestination => "Remove destination item"@,
        PlanActionKind::RemoveSourceAfterVerification => "Verified source removal"@,
    }
}

pub fn plan_action_label(action: PlanActionKind) -> (label: &'static str)
    ensures
        label@ == plan_action_text(action),
{
    match action {
        PlanActionKind::CopyToDestination => "Copy to destination",
        PlanActionKind::OverwriteDestination => "Verified destination overwrite",
        PlanActionKind::RemoveDestination => "Remove destination item",
        PlanActionKind::RemoveSourceAfterVerification => "Verified source removal",
    }
}

pub open spec fn application_mode_text(mode: ApplicationMode) -> Seq<char> {
    match mode {
        ApplicationMode::Simple => "Simple"@,
        ApplicationMode::Advanced => "Advanced"@,
    }
}

pub fn mode_label(mode: ApplicationMode) -> (label: &'static str)
    ensures
        label@ == application_mode_text(mode),
{
    match mode {
        ApplicationMode::Simple => "Simple",
        ApplicationMode::Advanced => "Advanced",
    }
}

pub open spec fn resolution_text(resolution: ConflictResolution) -> Seq<char> {
    match resolution {
        ConflictResolution::KeepPeerA => "Keep Peer A whole file"@,
        ConflictResolution::KeepPeerB => "Keep Peer B whole file"@,
        ConflictResolution::PreserveBoth => "Preserve both files"@,
        ConflictResolution::RenamePreserveForReview => "Rename/preserve for review"@,
        ConflictResolution::Defer => "Defer for later review"@,
    }
}

pub fn resolution_label(resolution: ConflictResolution) -> (label: &'static str)
    ensures
        label@ == resolution_text(resolution),
{
    match resolution {
        ConflictResolution::KeepPeerA => "Keep Peer A whole file",
        ConflictResolution::KeepPeerB => "Keep Peer B whole file",
        ConflictResolution::PreserveBoth => "Preserve both files",
        ConflictResolution::RenamePreserveForReview => "Rename/preserve for review",
        ConflictResolution::Defer => "Defer for later review",
    }
}

pub open spec fn resolution_consequence_text(resolution: ConflictResolution) -> Seq<char> {
    match resolution {
        ConflictResolution::KeepPeerA => "copy Peer A's verified whole file to Peer B; Peer A is preserved"@,
        ConflictResolution::KeepPeerB => "copy Peer B's verified whole file to Peer A; Peer B is preserved"@,
        ConflictResolution::PreserveBoth => "keep both existing peer versions without an implicit winner"@,
        ConflictResolution::RenamePreserveForReview => "preserve both versions for a later explicit review"@,
        ConflictResolution::Defer => "make no file change and keep this conflict unresolved"@,
    }
}

pub fn resolution_consequence(resolution: ConflictResolution) -> (label: &'static str)
    ensures
        label@ == resolution_consequence_text(resolution),
{
    match resolution {
        ConflictResolution::KeepPeerA => "copy Peer A's verified whole file to Peer B; Peer A is preserved",
        ConflictResolution::KeepPeerB => "copy Peer B's verified whole file to Peer A; Peer B is preserved",
        ConflictResolution::PreserveBoth => "keep both existing peer versions without an implicit winner",
        ConflictResolution::RenamePreserveForReview => "preserve both versions for a later explicit review",
        ConflictResolution::Defer => "make no file change and keep this conflict unresolved",
    }
}

pub open spec fn peer_side_text(side: PeerSide) -> Seq<char> {
    match side {
        PeerSide::PeerA => "Peer A"@,
        PeerSide::PeerB => "Peer B"@,
    }
}

pub fn peer_side_label(side: PeerSide) -> (label: &'static str)
    ensures
        label@ == peer_side_text(side),
{
    match side {
        PeerSide::PeerA => "Peer A",
        PeerSide::PeerB => "Peer B",
    }
}

pub open spec fn conflict_kind_text(kind: ConflictKind) -> Seq<char> {
    match kind {
        ConflictKind::SamePath => "same path differs"@,
        ConflictKind::PossibleDuplicateOrRename => "possible duplicate or rename"@,
        ConflictKind::DestinationCompatibility => "destination compatibility"@,
    }
}

pub fn conflict_kind_label(kind: ConflictKind) -> (label: &'static str)
    ensures
        label@ == conflict_kind_text(kind),
{
    match kind {
        ConflictKind::SamePath => "same path differs",
        ConflictKind::PossibleDuplicateOrRename => "possible duplicate or rename",
        ConflictKind::DestinationCompatibility => "destination compatibility",
    }
}

pub open spec fn classification_text(classification: FileReviewClassification) -> Seq<char> {
    match classification {
        FileReviewClassification::Text => "text file"@,
        FileReviewClassification::Binary => "binary file"@,
        FileReviewClassification::Large => "large file; metadata only"@,
        FileReviewClassification::Unreadable => "unreadable; content unavailable"@,
        FileReviewClassification::NonRegular => "non-regular item"@,
    }
}

pub fn file_review_classification_label(classification: FileReviewClassification) -> (label: &'static str)
    ensures
        label@ == classification_text(classification),
{
    match classification {
        FileReviewClassification::Text => "text file",
        FileReviewClassification::Binary => "binary file",
        FileReviewClassification::Large => "large file; metadata only",
        FileReviewClassification::Unreadable => "unreadable; content unavailable",
        FileReviewClassification::NonRegular => "non-regular item",
    }
}

pub open spec fn conflict_next_action_text(kind: ConflictKind) -> Seq<char> {
    match kind {
        ConflictKind::SamePath => "Next action: choose which complete peer file to keep, preserve both, rename for review, or defer."@,
        ConflictKind::PossibleDuplicateOrRename => "Next action: inspect both paths; equal hashes are evidence only and never authorize an automatic move or deletion."@,
        ConflictKind::DestinationCompatibility => "Next action: correct the naming conflict, exclude the item, or preserve it for review; compatibility blockers cannot be bypassed silently."@,
    }
}

pub fn conflict_next_action(kind: ConflictKind) -> (label: &'static str)
    ensures
        label@ == conflict_next_action_text(kind),
{
    match kind {
        ConflictKind::SamePath => "Next action: choose which complete peer file to keep, preserve both, rename for review, or defer.",
        ConflictKind::PossibleDuplicateOrRename => "Next action: inspect both paths; equal hashes are evidence only and never authorize an automatic move or deletion.",
        ConflictKind::DestinationCompatibility => "Next action: correct the naming conflict, exclude the item, or preserve it for review; compatibility blockers cannot be bypassed silently.",
    }
}

/// A Run Report status label: the same phrase the Overview uses, so a
/// pending review is never presented as completed.
pub fn run_report_status_label(status: RunReportStatus) -> (label: &'static str)
    ensures
        label@ == status_phrase(status),
{
    run_report_status_phrase(status)
}

/// The execution result shown for a report; a report that still needs a
/// review reads as pending rather than as its raw execution result.
pub fn run_execution_result_label_for_report(status: RunReportStatus, result: RunExecutionResult) -> (label: &'static str)
    ensures
        status == RunReportStatus::CompletedWithReviewRequired ==> label@ == "Pending review"@,
        status != RunReportStatus::CompletedWithReviewRequired ==> label@ == execution_result_text(result),
{
    if status == RunReportStatus::CompletedWithReviewRequired {
        "Pending review"
    } else {
        run_execution_result_label(result)
    }
}

pub open spec fn recovery_message(status: RunReportStatus) -> Seq<char> {
    match status {
        RunReportStatus::Cancelled => "Cancellation was recorded. Unfinished work remains open; affected source items remain preserved when safety cannot prove removal. Inspect the durable action evidence before taking an explicit review action."@,
        RunReportStatus::Interrupted => "The run was interrupted by a crash, disconnect, or process stop. The last durable boundary is shown below and unresolved work requires Recovery Review."@,
        RunReportStatus::RecoveryReview => "Filesystem state crossed an uncertain boundary. The recorded source, destination, and recovery observations must be reviewed before this run can be cleared."@,
        RunReportStatus::CompletedWithReviewRequired => "Actions settled, but completion is withheld because unexplained, failed, unavailable, or otherwise unverified items remain."@,
        RunReportStatus::Failed => "At least one action failed. The report remains open so the failure, verification state, and preserved data can be reviewed."@,
        RunReportStatus::Blocked => "The run did not start because a safety precheck or scope blocker prevented mutation."@,
        _ => "This run requires review before it can be treated as cleared."@,
    }
}

pub fn run_recovery_message(status: RunReportStatus) -> (message: &'static str)
    ensures
        message@ == recovery_message(status),
{
    match status {
        RunReportStatus::Cancelled => "Cancellation was recorded. Unfinished work remains open; affected source items remain preserved when safety cannot prove removal. Inspect the durable action evidence before taking an explicit review action.",
        RunReportStatus::Interrupted => "The run was interrupted by a crash, disconnect, or process stop. The last durable boundary is shown below and unresolved work requires Recovery Review.",
        RunReportStatus::RecoveryReview => "Filesystem state crossed an uncertain boundary. The recorded source, destination, and recovery observations must be reviewed before this run can be cleared.",
        RunReportStatus::CompletedWithReviewRequired => "Actions settled, but completion is withheld because unexplained, failed, unavailable, or otherwise unverified items remain.",
        RunReportStatus::Failed => "At least one action failed. The report remains open so the failure, verification state, and preserved data can be reviewed.",
        RunReportStatus::Blocked => "The run did not start because a safety precheck or scope blocker prevented mutation.",
        _ => "This run requires review before it can be treated as cleared.",
    }
}

/// The phases the Sync workspace can be in, from the state of its review,
/// Fresh Analysis and manual run.
#[derive(Debug, Clone, Copy, PartialEq, Eq, Structural)]
pub enum WorkspacePhase {
    AnalysisInProgress,
    RunActive,
    ReadyToSynchronise,
    ReviewBlocked,
    ReviewRequired,
    ReadyForDryRun,
}

/// A running analysis comes first, then a running Sync Run, then a confirmed
/// review, a blocked review, and any other review.
pub open spec fn phase_of(analysis_active: bool, run_active: bool, confirmed: bool, blocked: bool, review_exists: bool) -> WorkspacePhase {
    if analysis_active {
        WorkspacePhase::AnalysisInProgress
    } else if run_active {
        WorkspacePhase::RunActive
    } else if confirmed {
        WorkspacePhase::ReadyToSynchronise
    } else if blocked {
        WorkspacePhase::ReviewBlocked
    } else if review_exists {
        WorkspacePhase::ReviewRequired
    } else {
        WorkspacePhase::ReadyForDryRun
    }
}

pub fn workspace_phase(analysis_active: bool, run_active: bool, confirmed: bool, blocked: bool, review_exists: bool) -> (phase: WorkspacePhase)
    ensures
        phase == phase_of(analysis_active, run_active, confirmed, blocked, review_exists),
{
    if analysis_active {
        WorkspacePhase::AnalysisInProgress
    } else if run_active {
        WorkspacePhase::RunActive
    } else if confirmed {
        WorkspacePhase::ReadyToSynchronise
    } else if blocked {
        WorkspacePhase::ReviewBlocked
    } else if review_exists {
        WorkspacePhase::ReviewRequired
    } else {
        WorkspacePhase::ReadyForDryRun
    }
}

pub open spec fn phase_text(phase: WorkspacePhase) -> Seq<char> {
    match phase {
        WorkspacePhase::AnalysisInProgress => "Analysis in progress"@,
        WorkspacePhase::RunActive => "Sync Run active"@,
        WorkspacePhase::ReadyToSynchronise => "Ready to synchronise"@,
        WorkspacePhase::ReviewBlocked => "Review blocked"@,
        WorkspacePhase::ReviewRequired => "Review required"@,
        WorkspacePhase::ReadyForDryRun => "Ready for dry run"@,
    }
}

pub open spec fn phase_description_text(phase: WorkspacePhase) -> Seq<char> {
    match phase {
        WorkspacePhase::AnalysisInProgress =>
            "Fresh Analysis is hashing the selected scope in the background. The workspace remains available."@,
        WorkspacePhase::RunActive =>
            "The reviewed Sync Run is executing. Progress and durable evidence are shown below."@,
        WorkspacePhase::ReadyToSynchronise => "Execution Confirmation is recorded for this exact reviewed scope."@,
        WorkspacePhase::ReviewBlocked => "Correct the named profile or endpoint problem, then run the dry run again."@,
        WorkspacePhase::ReviewRequired =>
            "The read-only plan is ready. Inspect it, resolve any blockers, and confirm the exact scope."@,
        WorkspacePhase::ReadyForDryRun => "Dry run performs Fresh Analysis and Run Precheck. It does not change files."@,
    }
}

impl WorkspacePhase {
    pub fn label(self) -> (label: &'static str)
        ensures
            label@ == phase_text(self),
    {
        match self {
            WorkspacePhase::AnalysisInProgress => "Analysis in progress",
            WorkspacePhase::RunActive => "Sync Run active",
            WorkspacePhase::ReadyToSynchronise => "Ready to synchronise",
            WorkspacePhase::ReviewBlocked => "Review blocked",
            WorkspacePhase::ReviewRequired => "Review required",
            WorkspacePhase::ReadyForDryRun => "Ready for dry run",
        }
    }

    pub fn description(self) -> (description: &'static str)
        ensures
            description@ == phase_description_text(self),
    {
        match self {
            WorkspacePhase::AnalysisInProgress =>
                "Fresh Analysis is hashing the selected scope in the background. The workspace remains available.",
            WorkspacePhase::RunActive => "The reviewed Sync Run is executing. Progress and durable evidence are shown below.",
            WorkspacePhase::ReadyToSynchronise => "Execution Confirmation is recorded for this exact reviewed scope.",
            WorkspacePhase::ReviewBlocked => "Correct the named profile or endpoint problem, then run the dry run again.",
            WorkspacePhase::ReviewRequired =>
                "The read-only plan is ready. Inspect it, resolve any blockers, and confirm the exact scope.",
            WorkspacePhase::ReadyForDryRun => "Dry run performs Fresh Analysis and Run Precheck. It does not change files.",
        }
    }

    /// Only a running Sync Run and a confirmed review are shown as positive.
    pub fn is_positive(self) -> (positive: bool)
        ensures
            positive == (self == WorkspacePhase::RunActive || self == WorkspacePhase::ReadyToSynchronise),
    {
        match self {
            WorkspacePhase::RunActive | WorkspacePhase::ReadyToSynchronise => true,
            _ => false,
        }
    }
}

/// Synchronise is offered only for a confirmed review while neither a Fresh
/// Analysis nor a manual run is under way.
pub fn synchronise_enabled(confirmed: bool, run_active: bool, analysis_active: bool) -> (enabled: bool)
    ensures
        enabled == (confirmed && !run_active && !analysis_active),
{
    confirmed && !run_active && !analysis_active
}

/// Synchronise is offered exactly when the workspace shows that it is ready
/// to synchronise.
pub proof fn synchronise_offered_exactly_when_ready(
    analysis_active: bool,
    run_active: bool,
    confirmed: bool,
    blocked: bool,
    review_exists: bool,
)
    ensures
        (confirmed && !run_active && !analysis_active)
            <==> phase_of(analysis_active, run_active, confirmed, blocked, review_exists) == WorkspacePhase::ReadyToSynchronise,
{
}

} // verus!
