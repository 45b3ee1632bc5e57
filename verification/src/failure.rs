//! Classification of transfer, removal, copy and SSH failures into journal
//! reasons and into what the run does next.
use vstd::prelude::*;

use crate::model::{ActionReason, ConflictResolution};

verus! {

/// Why a local transfer or verification did not produce a verified
/// replacement.
#[derive(Debug, Clone, PartialEq, Eq)]
pub enum TransferError {
    /// The run was cancelled before the replacement was installed.
    Cancelled,
    /// The source changed between analysis and verification.
    SourceChanged,
    /// The destination's content did not match the source.
    VerificationMismatch,
    /// The destination's metadata did not match what the profile requires.
    MetadataMismatch,
    /// The replacement crossed a filesystem boundary that cannot be proven.
    RecoveryUncertain,
    /// The transfer process group was lost or orphaned.
    ProcessGroupLost,
    /// A transport-level failure that may succeed when retried.
    Transient(String),
    /// The plan or process specification was invalid.
    InvalidPlan(String),
    /// Any other permanent failure.
    Failed(String),
}

pub open spec fn is_transient(error: TransferError) -> bool {
    error is Transient
}

/// A transfer failure that leaves the filesystem at an unproven boundary.
pub open spec fn transfer_needs_recovery_review(error: TransferError) -> bool {
    error is RecoveryUncertain || error is ProcessGroupLost
}

pub open spec fn transfer_failure_reason(error: TransferError) -> ActionReason {
    match error {
        TransferError::SourceChanged => ActionReason::SourceChanged,
        TransferError::VerificationMismatch | TransferError::MetadataMismatch => ActionReason::VerificationMismatch,
        TransferError::RecoveryUncertain | TransferError::ProcessGroupLost => ActionReason::InterruptedBoundary,
        _ => ActionReason::TransferFailed,
    }
}

impl TransferError {
    pub fn is_transient(&self) -> (transient: bool)
        ensures
            transient == is_transient(*self),
    {
        match self {
            TransferError::Transient(_) => true,
            _ => false,
        }
    }

    pub fn requires_recovery_review(&self) -> (review: bool)
        ensures
            review == transfer_needs_recovery_review(*self),
    {
        match self {
            TransferError::RecoveryUncertain | TransferError::ProcessGroupLost => true,
            _ => false,
        }
    }
}

pub fn transfer_reason(error: &TransferError) -> (reason: ActionReason)
    ensures
        reason == transfer_failure_reason(*error),
{
    match error {
        TransferError::SourceChanged => ActionReason::SourceChanged,
        TransferError::VerificationMismatch | TransferError::MetadataMismatch => ActionReason::VerificationMismatch,
        TransferError::RecoveryUncertain | TransferError::ProcessGroupLost => ActionReason::InterruptedBoundary,
        _ => ActionReason::TransferFailed,
    }
}

/// Why a verified source removal did not settle.
#[derive(Debug, Clone, PartialEq, Eq)]
pub enum SafeDeleteError {
    SourceChanged,
    VerificationMismatch,
    /// The removal crossed an unproven boundary; the run needs Recovery Review.
    RecoveryUncertain,
    /// The recovery location (Trash) is unavailable; nothing was removed.
    RecoveryUnavailable,
    Failed(String),
}

pub open spec fn safe_delete_failure_reason(error: SafeDeleteError) -> ActionReason {
    match error {
        SafeDeleteError::SourceChanged => ActionReason::SourceChanged,
        SafeDeleteError::VerificationMismatch => ActionReason::VerificationMismatch,
        SafeDeleteError::RecoveryUncertain => ActionReason::InterruptedBoundary,
        SafeDeleteError::RecoveryUnavailable => ActionReason::DestinationUnavailable,
        SafeDeleteError::Failed(_) => ActionReason::TransferFailed,
    }
}

pub fn safe_delete_reason(error: &SafeDeleteError) -> (reason: ActionReason)
    ensures
        reason == safe_delete_failure_reason(*error),
{
    match error {
        SafeDeleteError::SourceChanged => ActionReason::SourceChanged,
        SafeDeleteError::VerificationMismatch => ActionReason::VerificationMismatch,
        SafeDeleteError::RecoveryUncertain => ActionReason::InterruptedBoundary,
        SafeDeleteError::RecoveryUnavailable => ActionReason::DestinationUnavailable,
        SafeDeleteError::Failed(_) => ActionReason::TransferFailed,
    }
}

/// Why a preserved copy of a Mirror conflict could not be made.
#[derive(Debug, Clone, PartialEq, Eq)]
pub enum PreservedCopyExecutionError {
    SourceChanged(String),
    Verification(String),
    UnsafePath(String),
    SourceUnavailable(String),
    UnsupportedItem(String),
    DestinationOccupied(String),
    Io(String),
}

pub open spec fn preserved_copy_reason(error: PreservedCopyExecutionError) -> ActionReason {
    match error {
        PreservedCopyExecutionError::SourceChanged(_) => ActionReason::SourceChanged,
        PreservedCopyExecutionError::Verification(_) => ActionReason::VerificationMismatch,
        _ => ActionReason::TransferFailed,
    }
}

pub fn preserved_copy_failure_reason(error: &PreservedCopyExecutionError) -> (reason: ActionReason)
    ensures
        reason == preserved_copy_reason(*error),
{
    match error {
        PreservedCopyExecutionError::SourceChanged(_) => ActionReason::SourceChanged,
        PreservedCopyExecutionError::Verification(_) => ActionReason::VerificationMismatch,
        PreservedCopyExecutionError::UnsafePath(_)
        | PreservedCopyExecutionError::SourceUnavailable(_)
        | PreservedCopyExecutionError::UnsupportedItem(_)
        | PreservedCopyExecutionError::DestinationOccupied(_)
        | PreservedCopyExecutionError::Io(_) => ActionReason::TransferFailed,
    }
}

/// The result of executing one resolution action.
#[derive(Debug, Clone, Copy, PartialEq, Eq, Structural)]
pub enum ResolutionRunOutcome {
    Completed,
    Deferred,
    Unresolved(ActionReason),
}

/// How a resolution appears in the Run Report.
#[derive(Debug, Clone, Copy, PartialEq, Eq, Structural)]
pub enum MirrorResolutionOutcome {
    Completed,
    Deferred,
    Failed(ActionReason),
    Unresolved(ActionReason),
}

#[derive(Debug, Clone, Copy, PartialEq, Eq, Structural)]
pub enum MirrorResolutionReviewState {
    Settled,
    ReviewLater,
}

pub open spec fn report_outcome(outcome: ResolutionRunOutcome) -> MirrorResolutionOutcome {
    match outcome {
        ResolutionRunOutcome::Completed => MirrorResolutionOutcome::Completed,
        ResolutionRunOutcome::Deferred => MirrorResolutionOutcome::Deferred,
        ResolutionRunOutcome::Unresolved(reason) => MirrorResolutionOutcome::Failed(reason),
    }
}

pub fn mirror_resolution_outcome(outcome: ResolutionRunOutcome) -> (report: MirrorResolutionOutcome)
    ensures
        report == report_outcome(outcome),
{
    match outcome {
        ResolutionRunOutcome::Completed => MirrorResolutionOutcome::Completed,
        ResolutionRunOutcome::Deferred => MirrorResolutionOutcome::Deferred,
        ResolutionRunOutcome::Unresolved(reason) => MirrorResolutionOutcome::Failed(reason),
    }
}

/// After execution, preserving decisions keep a conflict open for a later
/// review; every other decision is settled.
pub open spec fn resolution_review_state(resolution: ConflictResolution) -> MirrorResolutionReviewState {
    match resolution {
        ConflictResolution::PreserveBoth | ConflictResolution::RenamePreserveForReview => MirrorResolutionReviewState::ReviewLater,
        _ => MirrorResolutionReviewState::Settled,
    }
}

/// Why an SSH transfer, verification or remote recovery did not settle.
#[derive(Debug, Clone, PartialEq, Eq)]
pub enum SshRunError {
    Cancelled,
    /// A transport failure that may succeed when retried.
    Transport(String),
    RemoteVerificationUnavailable,
    RemoteVerificationMismatch,
    SourceChanged,
    MetadataMismatch,
    /// The remote Trash is unavailable; nothing was removed.
    RemoteRecoveryUnavailable,
    /// The remote recovery failed after the removal boundary.
    RemoteRecoveryFailed,
    /// The remote recovery result does not prove where the source went.
    RemoteRecoveryAmbiguous,
    Precheck(String),
    Failed(String),
}

pub open spec fn ssh_is_retryable(error: SshRunError) -> bool {
    error is Transport
}

pub open spec fn ssh_needs_recovery_review(error: SshRunError) -> bool {
    error is RemoteRecoveryFailed || error is RemoteRecoveryAmbiguous
}

/// An SSH failure that leaves the action reviewable rather than failed.
pub open spec fn ssh_leaves_unresolved(error: SshRunError) -> bool {
    error is RemoteVerificationUnavailable || error is RemoteVerificationMismatch || error is SourceChanged
        || error is MetadataMismatch
}

pub open spec fn ssh_failure_reason(error: SshRunError) -> ActionReason {
    match error {
        SshRunError::RemoteVerificationUnavailable | SshRunError::RemoteRecoveryUnavailable =>
            ActionReason::DestinationUnavailable,
        SshRunError::RemoteVerificationMismatch | SshRunError::MetadataMismatch => ActionReason::VerificationMismatch,
        SshRunError::SourceChanged => ActionReason::SourceChanged,
        SshRunError::RemoteRecoveryFailed | SshRunError::RemoteRecoveryAmbiguous | SshRunError::Cancelled =>
            ActionReason::InterruptedBoundary,
        _ => ActionReason::TransferFailed,
    }
}

impl SshRunError {
    pub fn is_retryable(&self) -> (retryable: bool)
        ensures
            retryable == ssh_is_retryable(*self),
    {
        match self {
            SshRunError::Transport(_) => true,
            _ => false,
        }
    }

    pub fn requires_recovery_review(&self) -> (review: bool)
        ensures
            review == ssh_needs_recovery_review(*self),
    {
        match self {
            SshRunError::RemoteRecoveryFailed | SshRunError::RemoteRecoveryAmbiguous => true,
            _ => false,
        }
    }

    pub fn leaves_unresolved(&self) -> (unresolved: bool)
        ensures
            unresolved == ssh_leaves_unresolved(*self),
    {
        match self {
            SshRunError::RemoteVerificationUnavailable
            | SshRunError::RemoteVerificationMismatch
            | SshRunError::SourceChanged
            | SshRunError::MetadataMismatch => true,
            _ => false,
        }
    }

    pub fn action_reason(&self) -> (reason: ActionReason)
        ensures
            reason == ssh_failure_reason(*self),
    {
        match self {
            SshRunError::RemoteVerificationUnavailable | SshRunError::RemoteRecoveryUnavailable =>
                ActionReason::DestinationUnavailable,
            SshRunError::RemoteVerificationMismatch | SshRunError::MetadataMismatch => ActionReason::VerificationMismatch,
            SshRunError::SourceChanged => ActionReason::SourceChanged,
            SshRunError::RemoteRecoveryFailed | SshRunError::RemoteRecoveryAmbiguous | SshRunError::Cancelled =>
                ActionReason::InterruptedBoundary,
            _ => ActionReason::TransferFailed,
        }
    }
}

/// Wait before retry attempt `attempt + 1`: the initial delay times the
/// attempt number, saturating at the largest delay.
pub open spec fn retry_delay(initial_delay_millis: u64, attempt: u8) -> u64 {
    if initial_delay_millis * (attempt + 1) <= u64::MAX {
        (initial_delay_millis * (attempt + 1)) as u64
    } else {
        u64::MAX
    }
}

pub fn retry_delay_millis(initial_delay_millis: u64, attempt: u8) -> (delay: u64)
    ensures
        delay == retry_delay(initial_delay_millis, attempt),
{
    let factor: u64 = attempt as u64 + 1;
    match initial_delay_millis.checked_mul(factor) {
        Some(delay) => delay,
        None => u64::MAX,
    }
}

} // verus!
