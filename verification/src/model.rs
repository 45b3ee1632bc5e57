//! The shared vocabulary of Sync Profiles, plans and action outcomes.
use vstd::prelude::*;

verus! {

/// Identifier of one Sync Run.
#[derive(Clone, Copy, Debug, PartialEq, Eq, Structural)]
pub struct RunId {
    pub value: u64,
}

impl RunId {
    pub fn new(value: u64) -> (id: RunId)
        ensures
            id.value == value,
    {
        RunId { value }
    }

    pub fn value(self) -> (value: u64)
        ensures
            value == self.value,
    {
        self.value
    }
}

#[derive(Clone, Copy, Debug, PartialEq, Eq, Structural)]
pub enum SyncMode {
    OneWay,
    Mirror,
}

/// Which peer is the authoritative source of a One-Way Sync.
#[derive(Clone, Copy, Debug, PartialEq, Eq, Structural)]
pub enum OneWaySource {
    PeerA,
    PeerB,
}

#[derive(Clone, Copy, Debug, PartialEq, Eq, Structural)]
pub enum PeerSide {
    PeerA,
    PeerB,
}

pub open spec fn opposite_side(side: PeerSide) -> PeerSide {
    match side {
        PeerSide::PeerA => PeerSide::PeerB,
        PeerSide::PeerB => PeerSide::PeerA,
    }
}

pub open spec fn source_side(source: OneWaySource) -> PeerSide {
    match source {
        OneWaySource::PeerA => PeerSide::PeerA,
        OneWaySource::PeerB => PeerSide::PeerB,
    }
}

impl PeerSide {
    pub fn opposite(self) -> (side: PeerSide)
        ensures
            side == opposite_side(self),
    {
        match self {
            PeerSide::PeerA => PeerSide::PeerB,
            PeerSide::PeerB => PeerSide::PeerA,
        }
    }

    pub fn from_source(source: OneWaySource) -> (side: PeerSide)
        ensures
            side == source_side(source),
    {
        match source {
            OneWaySource::PeerA => PeerSide::PeerA,
            OneWaySource::PeerB => PeerSide::PeerB,
        }
    }
}

#[derive(Clone, Copy, Debug, PartialEq, Eq, Structural)]
pub enum ApplicationMode {
    Simple,
    Advanced,
}

#[derive(Clone, Copy, Debug, PartialEq, Eq, Structural)]
pub enum DeletionMethod {
    Trash,
    PermanentRemoval,
}

#[derive(Clone, Copy, Debug, PartialEq, Eq, Structural)]
pub enum PartialTransferPolicy {
    Cleanup,
    KeepPartialForResume,
}

#[derive(Clone, Copy, Debug, PartialEq, Eq, Structural)]
pub enum PlanActionKind {
    CopyToDestination,
    OverwriteDestination,
    RemoveDestination,
    RemoveSourceAfterVerification,
}

/// Why an action did not settle as completed.
#[derive(Clone, Copy, Debug, PartialEq, Eq, Structural)]
pub enum ActionReason {
    TransferFailed,
    VerificationMismatch,
    SourceChanged,
    InterruptedBoundary,
    DestinationUnavailable,
    FilesystemUncertain,
}

/// The settled or open state of one journaled action.
#[derive(Clone, Copy, Debug, PartialEq, Eq, Structural)]
pub enum ActionOutcome {
    InProgress,
    Completed,
    Failed(ActionReason),
    Cancelled,
    Interrupted,
    Deferred,
    Unresolved(ActionReason),
    RecoveryReview(ActionReason),
}

#[derive(Clone, Copy, Debug, PartialEq, Eq, Structural)]
pub enum RunExecutionResult {
    NotStarted,
    InProgress,
    Succeeded,
    Failed,
    Cancelled,
    Interrupted,
    Blocked,
    RecoveryReview,
}

#[derive(Clone, Copy, Debug, PartialEq, Eq, Structural)]
pub enum RunLifecycle {
    Open,
    ReviewRequired,
    ReviewCleared,
}

/// A whole-file decision for one Mirror conflict.
#[derive(Clone, Copy, Debug, PartialEq, Eq, Structural)]
pub enum ConflictResolution {
    KeepPeerA,
    KeepPeerB,
    PreserveBoth,
    RenamePreserveForReview,
    Defer,
}

#[derive(Clone, Copy, Debug, PartialEq, Eq, Structural)]
pub enum ConflictKind {
    SamePath,
    PossibleDuplicateOrRename,
    DestinationCompatibility,
}

#[derive(Clone, Copy, Debug, PartialEq, Eq, Structural)]
pub enum FileReviewClassification {
    Text,
    Binary,
    Large,
    Unreadable,
    NonRegular,
}

} // verus!
