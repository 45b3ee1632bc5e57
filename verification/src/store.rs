//! In-memory evidence store: the snapshot, journal, blocker and reconciled
//! status of every Sync Run.
use vstd::prelude::*;

use crate::journal::{copy_journal, JournalEvent, reconcile_status, reconciled_status};
use crate::profile::copy_optional_string;
use crate::model::RunId;
use crate::profile::{same_profile, AuthorizationSnapshot, SyncProfile};
use crate::status::RunReportStatus;

verus! {

/// The frozen inputs of one run.
#[derive(Debug, Clone, PartialEq, Eq)]
pub struct RunSnapshot {
    pub run_id: RunId,
    pub profile: SyncProfile,
    pub authorizations: AuthorizationSnapshot,
    pub peer_a_volume: Option<u64>,
    pub peer_b_volume: Option<u64>,
}

#[derive(Debug, Clone, Copy, PartialEq, Eq, Structural)]
pub enum StorageError {
    UnknownRun,
    DuplicateRun,
    RunIdsExhausted,
}

/// The persisted view of one run.
#[derive(Debug, Clone, PartialEq, Eq)]
pub struct RunReport {
    pub snapshot: RunSnapshot,
    pub status: RunReportStatus,
    pub journal: Vec<JournalEvent>,
    pub blocked_reason: Option<String>,
}

impl RunReport {
    pub fn status(&self) -> (status: RunReportStatus)
        ensures
            status == self.status,
    {
        self.status
    }

    pub fn run_id(&self) -> (run_id: RunId)
        ensures
            run_id == self.snapshot.run_id,
    {
        self.snapshot.run_id
    }
}

/// Two snapshots hold the same values.
pub open spec fn same_snapshot(a: RunSnapshot, b: RunSnapshot) -> bool {
    &&& a.run_id == b.run_id
    &&& same_profile(a.profile, b.profile)
    &&& a.authorizations == b.authorizations
    &&& a.peer_a_volume == b.peer_a_volume
    &&& a.peer_b_volume == b.peer_b_volume
}

impl RunSnapshot {
    pub fn duplicate(&self) -> (copy: RunSnapshot)
        ensures
            same_snapshot(copy, *self),
    {
        RunSnapshot {
            run_id: self.run_id,
            profile: self.profile.duplicate(),
            authorizations: self.authorizations,
            peer_a_volume: self.peer_a_volume,
            peer_b_volume: self.peer_b_volume,
        }
    }
}

pub struct RunEvidenceStore {
    snapshots: Vec<RunSnapshot>,
    journals: Vec<Vec<JournalEvent>>,
    statuses: Vec<RunReportStatus>,
    blocked: Vec<Option<String>>,
}

impl RunEvidenceStore {
    /// The parallel tables agree and no run id appears twice.
    pub closed spec fn consistent(&self) -> bool {
        &&& self.journals@.len() == self.snapshots@.len()
        &&& self.statuses@.len() == self.snapshots@.len()
        &&& self.blocked@.len() == self.snapshots@.len()
        &&& forall|i: int, j: int|
            0 <= i < self.snapshots@.len() && 0 <= j < self.snapshots@.len() && i != j
                ==> self.snapshots@[i].run_id != self.snapshots@[j].run_id
    }

    closed spec fn slot(&self, id: RunId) -> int {
        choose|i: int| 0 <= i < self.snapshots@.len() && self.snapshots@[i].run_id == id
    }

    pub closed spec fn has_run(&self, id: RunId) -> bool {
        exists|i: int| 0 <= i < self.snapshots@.len() && self.snapshots@[i].run_id == id
    }

    pub closed spec fn journal(&self, id: RunId) -> Seq<JournalEvent> {
        self.journals@[self.slot(id)]@
    }

    pub closed spec fn run_status(&self, id: RunId) -> RunReportStatus {
        self.statuses@[self.slot(id)]
    }

    pub closed spec fn snapshot(&self, id: RunId) -> RunSnapshot {
        self.snapshots@[self.slot(id)]
    }

    pub closed spec fn blocked_reason(&self, id: RunId) -> Option<String> {
        self.blocked@[self.slot(id)]
    }

    /// Every run other than `id` is exactly as it was in `before`.
    pub open spec fn others_unchanged(&self, before: RunEvidenceStore, id: RunId) -> bool {
        forall|other: RunId| other != id ==> {
            &&& #[trigger] self.has_run(other) == before.has_run(other)
            &&& before.has_run(other) ==> {
                &&& self.journal(other) == before.journal(other)
                &&& self.run_status(other) == before.run_status(other)
                &&& self.snapshot(other) == before.snapshot(other)
                &&& self.blocked_reason(other) == before.blocked_reason(other)
            }
        }
    }

    /// No run changed at all.
    pub open spec fn unchanged_from(&self, before: RunEvidenceStore) -> bool {
        forall|other: RunId| {
            &&& #[trigger] self.has_run(other) == before.has_run(other)
            &&& before.has_run(other) ==> {
                &&& self.journal(other) == before.journal(other)
                &&& self.run_status(other) == before.run_status(other)
                &&& self.snapshot(other) == before.snapshot(other)
                &&& self.blocked_reason(other) == before.blocked_reason(other)
            }
        }
    }

    proof fn lemma_slot(&self, id: RunId)
        requires
            self.consistent(),
            self.has_run(id),
        ensures
            0 <= self.slot(id) < self.snapshots@.len(),
            self.snapshots@[self.slot(id)].run_id == id,
            forall|i: int| 0 <= i < self.snapshots@.len() && self.snapshots@[i].run_id == id ==> i == self.slot(id),
    {
    }

    pub fn open_in_memory() -> (store: RunEvidenceStore)
        ensures
            store.consistent(),
            forall|id: RunId| !#[trigger] store.has_run(id),
    {
        RunEvidenceStore { snapshots: Vec::new(), journals: Vec::new(), statuses: Vec::new(), blocked: Vec::new() }
    }

    fn find(&self, id: RunId) -> (slot: Option<usize>)
        requires
            self.consistent(),
        ensures
            match slot {
                Some(i) => self.has_run(id) && i == self.slot(id) && i < self.snapshots@.len(),
                None => !self.has_run(id),
            },
    {
        let mut index: usize = 0;
        while index < self.snapshots.len()
            invariant
                self.consistent(),
                index <= self.snapshots@.len(),
                forall|j: int| 0 <= j < index ==> self.snapshots@[j].run_id != id,
            decreases self.snapshots@.len() - index,
        {
            if self.snapshots[index].run_id == id {
                proof {
                    self.lemma_slot(id);
                }
                return Some(index);
            }
            index += 1;
        }
        None
    }

    /// Starts the durable record of a run with an empty journal.
    pub fn begin_run(&mut self, snapshot: RunSnapshot) -> (result: Result<(), StorageError>)
        requires
            old(self).consistent(),
        ensures
            final(self).consistent(),
            old(self).has_run(snapshot.run_id) ==> result == Err::<(), StorageError>(StorageError::DuplicateRun)
                && final(self).unchanged_from(*old(self)),
            !old(self).has_run(snapshot.run_id) ==> {
                &&& result is Ok
                &&& final(self).has_run(snapshot.run_id)
                &&& final(self).journal(snapshot.run_id) == Seq::<JournalEvent>::empty()
                &&& final(self).run_status(snapshot.run_id) == RunReportStatus::InProgress
                &&& final(self).snapshot(snapshot.run_id) == snapshot
                &&& final(self).blocked_reason(snapshot.run_id).is_none()
                &&& final(self).others_unchanged(*old(self), snapshot.run_id)
            },
    {
        if self.find(snapshot.run_id).is_some() {
            return Err(StorageError::DuplicateRun);
        }
        let ghost before = *self;
        let id = snapshot.run_id;
        self.snapshots.push(snapshot);
        self.journals.push(Vec::new());
        self.statuses.push(RunReportStatus::InProgress);
        self.blocked.push(None);
        proof {
            let n = before.snapshots@.len();
            assert(self.snapshots@[n as int].run_id == id);
            assert(self.consistent()) by {
                assert forall|i: int| 0 <= i < n implies self.snapshots@[i].run_id != id by {}
            }
            assert(self.has_run(id));
            self.lemma_slot(id);
            assert forall|other: RunId| other != id implies {
                &&& #[trigger] self.has_run(other) == before.has_run(other)
                &&& before.has_run(other) ==> {
                    &&& self.journal(other) == before.journal(other)
                    &&& self.run_status(other) == before.run_status(other)
                    &&& self.snapshot(other) == before.snapshot(other)
                    &&& self.blocked_reason(other) == before.blocked_reason(other)
                }
            } by {
                if before.has_run(other) {
                    before.lemma_slot(other);
                    let i = before.slot(other);
                    assert(self.snapshots@[i].run_id == other);
                    self.lemma_slot(other);
                }
                if self.has_run(other) {
                    self.lemma_slot(other);
                    let i = self.slot(other);
                    assert(i != n);
                    assert(before.snapshots@[i].run_id == other);
                }
            }
        }
        Ok(())
    }

    /// Only the slot of `id` changed, and only its journal, status or blocker.
    proof fn lemma_slot_update_frame(before: RunEvidenceStore, after: RunEvidenceStore, id: RunId)
        requires
            before.consistent(),
            before.has_run(id),
            after.snapshots@ == before.snapshots@,
            after.journals@.len() == before.journals@.len(),
            after.statuses@.len() == before.statuses@.len(),
            after.blocked@.len() == before.blocked@.len(),
            forall|j: int| 0 <= j < before.snapshots@.len() && j != before.slot(id) ==> {
                &&& after.journals@[j] == before.journals@[j]
                &&& after.statuses@[j] == before.statuses@[j]
                &&& after.blocked@[j] == before.blocked@[j]
            },
        ensures
            after.consistent(),
            after.has_run(id),
            after.slot(id) == before.slot(id),
            after.others_unchanged(before, id),
    {
        before.lemma_slot(id);
        assert(after.has_run(id));
        after.lemma_slot(id);
        assert forall|other: RunId| other != id implies {
            &&& #[trigger] after.has_run(other) == before.has_run(other)
            &&& before.has_run(other) ==> {
                &&& after.journal(other) == before.journal(other)
                &&& after.run_status(other) == before.run_status(other)
                &&& after.snapshot(other) == before.snapshot(other)
                &&& after.blocked_reason(other) == before.blocked_reason(other)
            }
        } by {
            if before.has_run(other) {
                before.lemma_slot(other);
                assert(after.has_run(other));
                after.lemma_slot(other);
            }
        }
    }

    /// Appends one event to the journal of a run.
    pub fn append_event(&mut self, run_id: RunId, event: JournalEvent) -> (result: Result<(), StorageError>)
        requires
            old(self).consistent(),
        ensures
            final(self).consistent(),
            !old(self).has_run(run_id) ==> result == Err::<(), StorageError>(StorageError::UnknownRun)
                && final(self).unchanged_from(*old(self)),
            old(self).has_run(run_id) ==> {
                &&& result is Ok
                &&& final(self).has_run(run_id)
                &&& final(self).journal(run_id) == old(self).journal(run_id).push(event)
                &&& final(self).run_status(run_id) == old(self).run_status(run_id)
                &&& final(self).snapshot(run_id) == old(self).snapshot(run_id)
                &&& final(self).blocked_reason(run_id) == old(self).blocked_reason(run_id)
                &&& final(self).others_unchanged(*old(self), run_id)
            },
    {
        let slot = match self.find(run_id) {
            Some(slot) => slot,
            None => return Err(StorageError::UnknownRun),
        };
        let ghost before = *self;
        let mut journal: Vec<JournalEvent> = Vec::new();
        self.journals.set_and_swap(slot, &mut journal);
        journal.push(event);
        self.journals.set_and_swap(slot, &mut journal);
        proof {
            Self::lemma_slot_update_frame(before, *self, run_id);
        }
        Ok(())
    }

    /// Records that the run was blocked before any mutation.
    pub fn mark_blocked(&mut self, run_id: RunId, reason: String) -> (result: Result<(), StorageError>)
        requires
            old(self).consistent(),
        ensures
            final(self).consistent(),
            !old(self).has_run(run_id) ==> result == Err::<(), StorageError>(StorageError::UnknownRun)
                && final(self).unchanged_from(*old(self)),
            old(self).has_run(run_id) ==> {
                &&& result is Ok
                &&& final(self).has_run(run_id)
                &&& final(self).journal(run_id) == old(self).journal(run_id)
                &&& final(self).run_status(run_id) == RunReportStatus::Blocked
                &&& final(self).snapshot(run_id) == old(self).snapshot(run_id)
                &&& final(self).blocked_reason(run_id) == Some(reason)
                &&& final(self).others_unchanged(*old(self), run_id)
            },
    {
        let slot = match self.find(run_id) {
            Some(slot) => slot,
            None => return Err(StorageError::UnknownRun),
        };
        let ghost before = *self;
        self.statuses.set(slot, RunReportStatus::Blocked);
        self.blocked.set(slot, Some(reason));
        proof {
            Self::lemma_slot_update_frame(before, *self, run_id);
        }
        Ok(())
    }

    /// Settles the run's status from its journal and a fresh observation of
    /// the peers.
    pub fn record_reconciliation(&mut self, run_id: RunId, observed_consistent: bool) -> (result: Result<(), StorageError>)
        requires
            old(self).consistent(),
        ensures
            final(self).consistent(),
            !old(self).has_run(run_id) ==> result == Err::<(), StorageError>(StorageError::UnknownRun)
                && final(self).unchanged_from(*old(self)),
            old(self).has_run(run_id) ==> {
                &&& result is Ok
                &&& final(self).has_run(run_id)
                &&& final(self).journal(run_id) == old(self).journal(run_id)
                &&& final(self).run_status(run_id) == reconciled_status(old(self).journal(run_id), observed_consistent)
                &&& final(self).snapshot(run_id) == old(self).snapshot(run_id)
                &&& final(self).blocked_reason(run_id) == old(self).blocked_reason(run_id)
                &&& final(self).others_unchanged(*old(self), run_id)
            },
    {
        let slot = match self.find(run_id) {
            Some(slot) => slot,
            None => return Err(StorageError::UnknownRun),
        };
        let ghost before = *self;
        let status = reconcile_status(&self.journals[slot], observed_consistent);
        self.statuses.set(slot, status);
        proof {
            Self::lemma_slot_update_frame(before, *self, run_id);
        }
        Ok(())
    }

    /// Records an explicit, completed review of a run that needed one.
    pub fn mark_review_cleared(&mut self, run_id: RunId) -> (result: Result<(), StorageError>)
        requires
            old(self).consistent(),
        ensures
            final(self).consistent(),
            !old(self).has_run(run_id) ==> result == Err::<(), StorageError>(StorageError::UnknownRun)
                && final(self).unchanged_from(*old(self)),
            old(self).has_run(run_id) ==> {
                &&& result is Ok
                &&& final(self).has_run(run_id)
                &&& final(self).journal(run_id) == old(self).journal(run_id)
                &&& final(self).run_status(run_id) == RunReportStatus::ReviewCleared
                &&& final(self).snapshot(run_id) == old(self).snapshot(run_id)
                &&& final(self).blocked_reason(run_id) == old(self).blocked_reason(run_id)
                &&& final(self).others_unchanged(*old(self), run_id)
            },
    {
        let slot = match self.find(run_id) {
            Some(slot) => slot,
            None => return Err(StorageError::UnknownRun),
        };
        let ghost before = *self;
        self.statuses.set(slot, RunReportStatus::ReviewCleared);
        proof {
            Self::lemma_slot_update_frame(before, *self, run_id);
        }
        Ok(())
    }

    /// A copy of the journal of a run.
    pub fn load_journal(&self, run_id: RunId) -> (journal: Result<Vec<JournalEvent>, StorageError>)
        requires
            self.consistent(),
        ensures
            !self.has_run(run_id) ==> journal == Err::<Vec<JournalEvent>, StorageError>(StorageError::UnknownRun),
            self.has_run(run_id) ==> (journal matches Ok(events) && events@ == self.journal(run_id)),
    {
        match self.find(run_id) {
            Some(slot) => Ok(copy_journal(&self.journals[slot])),
            None => Err(StorageError::UnknownRun),
        }
    }

    /// The persisted report of a run.
    pub fn load_report(&self, run_id: RunId) -> (report: Result<RunReport, StorageError>)
        requires
            self.consistent(),
        ensures
            !self.has_run(run_id) ==> report == Err::<RunReport, StorageError>(StorageError::UnknownRun),
            self.has_run(run_id) ==> (report matches Ok(report) && {
                &&& same_snapshot(report.snapshot, self.snapshot(run_id))
                &&& report.status == self.run_status(run_id)
                &&& report.journal@ == self.journal(run_id)
                &&& report.blocked_reason == self.blocked_reason(run_id)
            }),
    {
        match self.find(run_id) {
            Some(slot) => Ok(RunReport {
                snapshot: self.snapshots[slot].duplicate(),
                status: self.statuses[slot],
                journal: copy_journal(&self.journals[slot]),
                blocked_reason: copy_optional_string(&self.blocked[slot]),
            }),
            None => Err(StorageError::UnknownRun),
        }
    }

    /// A run id one past every id already recorded.
    pub fn next_run_id(&self) -> (next: Result<RunId, StorageError>)
        requires
            self.consistent(),
        ensures
            next matches Ok(id) ==> !self.has_run(id),
            next matches Ok(id) ==> forall|other: RunId| #[trigger] self.has_run(other) ==> other.value < id.value,
            next matches Ok(id) ==> id.value == 1 || self.has_run(RunId { value: (id.value - 1) as u64 }),
            next is Err ==> next == Err::<RunId, StorageError>(StorageError::RunIdsExhausted),
    {
        let mut highest: u64 = 0;
        let mut index: usize = 0;
        while index < self.snapshots.len()
            invariant
                index <= self.snapshots@.len(),
                forall|j: int| 0 <= j < index ==> self.snapshots@[j].run_id.value <= highest,
                highest == 0 || exists|j: int| 0 <= j < index && self.snapshots@[j].run_id.value == highest,
            decreases self.snapshots@.len() - index,
        {
            if self.snapshots[index].run_id.value > highest {
                highest = self.snapshots[index].run_id.value;
            }
            index += 1;
        }
        if highest == u64::MAX {
            return Err(StorageError::RunIdsExhausted);
        }
        let next = RunId { value: highest + 1 };
        assert forall|j: int| 0 <= j < self.snapshots@.len() implies self.snapshots@[j].run_id != next by {}
        assert forall|other: RunId| #[trigger] self.has_run(other) implies other.value < next.value by {
            let j = choose|j: int| 0 <= j < self.snapshots@.len() && self.snapshots@[j].run_id == other;
        }
        if highest > 0 {
            let ghost j = choose|j: int| 0 <= j < self.snapshots@.len() && self.snapshots@[j].run_id.value == highest;
            assert(self.snapshots@[j].run_id == RunId { value: highest });
        }
        Ok(next)
    }
}

} // verus!
