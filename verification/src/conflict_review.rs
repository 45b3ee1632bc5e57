//! Conflict Review of a Mirror Sync: the whole-file decision the user picked
//! for each reviewed conflict, the Resolution Run started from them, and
//! its explicit confirmation.
use vstd::prelude::*;

use crate::forms::UiValidationError;
use crate::labels::{conflict_kind_label, conflict_kind_text, resolution_label, resolution_text};
use crate::model::{ConflictKind, ConflictResolution};
use crate::resolution::ConflictResolutionAction;
use crate::text::same_text;

verus! {

/// One conflict that Fresh Analysis found, and the decisions that are safe
/// for it.
#[derive(Debug, Clone, PartialEq, Eq)]
pub struct ConflictEntry {
    pub key: u64,
    pub relative_path: String,
    pub kind: ConflictKind,
    pub available_resolutions: Vec<ConflictResolution>,
}

/// The decisions taken so far in a Conflict Review, one slot per entry, and
/// the Resolution Run under review.
#[derive(Debug, Clone, PartialEq, Eq)]
pub struct ConflictReviewState {
    entries: Vec<ConflictEntry>,
    decisions: Vec<Option<ConflictResolution>>,
    resolution_run: Option<Vec<ConflictResolutionAction>>,
    confirmed: bool,
    error: Option<String>,
}

pub open spec fn offers(entry: ConflictEntry, resolution: ConflictResolution) -> bool {
    entry.available_resolutions@.contains(resolution)
}

/// The index of the first entry with `key`, if any.
pub open spec fn entry_index(entries: Seq<ConflictEntry>, key: u64) -> Option<int>
    decreases entries.len(),
{
    if entries.len() == 0 {
        None
    } else {
        match entry_index(entries.drop_last(), key) {
            Some(index) => Some(index),
            None => if entries.last().key == key { Some(entries.len() - 1) } else { None },
        }
    }
}

/// The indices of the entries for one relative path.
pub open spec fn path_entries(entries: Seq<ConflictEntry>, path: Seq<char>) -> Set<int> {
    Set::new(|i: int| 0 <= i < entries.len() && entries[i].relative_path@ == path)
}

impl ConflictReviewState {
    pub closed spec fn entries_spec(&self) -> Seq<ConflictEntry> {
        self.entries@
    }

    /// The decision taken for each entry, in entry order.
    pub closed spec fn decisions_spec(&self) -> Seq<Option<ConflictResolution>> {
        self.decisions@
    }

    pub closed spec fn run_spec(&self) -> Option<Seq<ConflictResolutionAction>> {
        match self.resolution_run {
            Some(run) => Some(run@),
            None => None,
        }
    }

    pub closed spec fn confirmed_spec(&self) -> bool {
        self.confirmed
    }

    pub closed spec fn error_spec(&self) -> Option<Seq<char>> {
        match self.error {
            Some(message) => Some(message@),
            None => None,
        }
    }

    /// Every entry has one decision slot; a decision is always one that its
    /// entry offers; a confirmation is always of a started Resolution Run.
    pub closed spec fn well_formed(&self) -> bool {
        &&& self.decisions@.len() == self.entries@.len()
        &&& forall|i: int| 0 <= i < self.decisions@.len() ==> match #[trigger] self.decisions@[i] {
            Some(resolution) => offers(self.entries@[i], resolution),
            None => true,
        }
        &&& self.confirmed ==> self.resolution_run is Some
    }

    /// Every entry that offers a decision has one.
    pub open spec fn all_decided(&self) -> bool {
        forall|i: int| 0 <= i < self.entries_spec().len() && (#[trigger] self.entries_spec()[i]).available_resolutions@.len() > 0
            ==> self.decisions_spec()[i] is Some
    }

    /// A new review of the conflicts of a Fresh Analysis: nothing decided,
    /// no Resolution Run, nothing confirmed.
    pub fn new(entries: Vec<ConflictEntry>) -> (state: ConflictReviewState)
        ensures
            state.well_formed(),
            state.entries_spec() == entries@,
            state.decisions_spec() == Seq::new(entries@.len(), |i: int| None::<ConflictResolution>),
            state.run_spec() is None,
            !state.confirmed_spec(),
            state.error_spec() is None,
    {
        let mut decisions: Vec<Option<ConflictResolution>> = Vec::new();
        let mut index: usize = 0;
        while index < entries.len()
            invariant
                index <= entries@.len(),
                decisions@ == Seq::new(index as nat, |i: int| None::<ConflictResolution>),
            decreases entries@.len() - index,
        {
            decisions.push(None);
            index += 1;
            assert(decisions@ =~= Seq::new(index as nat, |i: int| None::<ConflictResolution>));
        }
        ConflictReviewState { entries, decisions, resolution_run: None, confirmed: false, error: None }
    }

    pub fn entries(&self) -> (entries: &Vec<ConflictEntry>)
        ensures
            entries@ == self.entries_spec(),
    {
        &self.entries
    }

    pub fn has_all_decisions(&self) -> (decided: bool)
        requires
            self.well_formed(),
        ensures
            decided == self.all_decided(),
    {
        let mut index: usize = 0;
        while index < self.entries.len()
            invariant
                self.well_formed(),
                index <= self.entries@.len(),
                forall|i: int| 0 <= i < index && (#[trigger] self.entries@[i]).available_resolutions@.len() > 0
                    ==> self.decisions@[i] is Some,
            decreases self.entries@.len() - index,
        {
            if self.entries[index].available_resolutions.len() > 0 && self.decisions[index].is_none() {
                assert(self.entries@[index as int].available_resolutions@.len() > 0);
                return false;
            }
            index += 1;
        }
        true
    }

    fn find_key(&self, key: u64) -> (found: Option<usize>)
        requires
            self.well_formed(),
        ensures
            match found {
                Some(index) => entry_index(self.entries@, key) == Some(index as int) && index < self.entries@.len(),
                None => entry_index(self.entries@, key) is None,
            },
    {
        proof {
            lemma_entry_index_bounds(self.entries@, key);
        }
        let mut index: usize = 0;
        while index < self.entries.len()
            invariant
                index <= self.entries@.len(),
                entry_index(self.entries@.subrange(0, index as int), key) is None,
            decreases self.entries@.len() - index,
        {
            let ghost prefix = self.entries@.subrange(0, index + 1);
            assert(prefix.drop_last() =~= self.entries@.subrange(0, index as int));
            if self.entries[index].key == key {
                proof {
                    lemma_entry_index_prefix(self.entries@, index + 1, key);
                }
                return Some(index);
            }
            index += 1;
        }
        assert(self.entries@.subrange(0, index as int) =~= self.entries@);
        None
    }

    /// The decision taken for the entry with `key`.
    pub fn entry_resolution(&self, key: u64) -> (resolution: Option<ConflictResolution>)
        requires
            self.well_formed(),
        ensures
            resolution == match entry_index(self.entries_spec(), key) {
                Some(index) => self.decisions_spec()[index],
                None => None,
            },
    {
        match self.find_key(key) {
            Some(index) => self.decisions[index],
            None => None,
        }
    }

    /// How many entries use `path`, and the first of them when there is one.
    fn find_path(&self, path: &str) -> (found: (usize, usize))
        requires
            self.well_formed(),
        ensures
            found.1 == path_entries(self.entries@, path@).len(),
            found.1 > 0 ==> path_entries(self.entries@, path@).contains(found.0 as int),
            path_entries(self.entries@, path@).finite(),
    {
        let ghost entries = self.entries@;
        let mut first: usize = 0;
        let mut count: usize = 0;
        let mut index: usize = 0;
        assert(Set::new(|i: int| 0 <= i < 0 && entries[i].relative_path@ == path@) =~= Set::<int>::empty());
        while index < self.entries.len()
            invariant
                entries == self.entries@,
                index <= entries.len(),
                count <= index,
                count == Set::new(|i: int| 0 <= i < index && entries[i].relative_path@ == path@).len(),
                Set::new(|i: int| 0 <= i < index && entries[i].relative_path@ == path@).finite(),
                count > 0 ==> first < index && entries[first as int].relative_path@ == path@,
            decreases entries.len() - index,
        {
            let ghost before = Set::new(|i: int| 0 <= i < index && entries[i].relative_path@ == path@);
            let ghost after = Set::new(|i: int| 0 <= i < index + 1 && entries[i].relative_path@ == path@);
            if same_text(self.entries[index].relative_path.as_str(), path) {
                assert(after =~= before.insert(index as int));
                assert(!before.contains(index as int));
                if count == 0 {
                    first = index;
                }
                count += 1;
            } else {
                assert(after =~= before);
            }
            index += 1;
        }
        assert(Set::new(|i: int| 0 <= i < index && entries[i].relative_path@ == path@) =~= path_entries(entries, path@));
        (first, count)
    }

    /// The decision taken for the one entry at `path`; nothing when no entry
    /// or several entries use that path.
    pub fn resolution_for_path(&self, path: &str) -> (resolution: Option<ConflictResolution>)
        requires
            self.well_formed(),
        ensures
            path_entries(self.entries_spec(), path@).len() != 1 ==> resolution is None,
            path_entries(self.entries_spec(), path@).len() == 1 ==> exists|index: int|
                #[trigger] path_entries(self.entries_spec(), path@).contains(index) && resolution == self.decisions_spec()[index],
    {
        let (first, count) = self.find_path(path);
        if count != 1 {
            return None;
        }
        self.decisions[first]
    }

    /// Records a decision for the entry at `index`, which withdraws any
    /// Resolution Run and confirmation taken before it.
    fn decide_at(&mut self, index: usize, resolution: ConflictResolution) -> (result: Result<(), UiValidationError>)
        requires
            old(self).well_formed(),
            index < old(self).entries@.len(),
        ensures
            final(self).well_formed(),
            decision_outcome(*old(self), *final(self), index as int, resolution, result),
    {
        let entry = &self.entries[index];
        let mut offered = false;
        let mut k: usize = 0;
        while k < entry.available_resolutions.len()
            invariant
                k <= entry.available_resolutions@.len(),
                offered == exists|j: int| 0 <= j < k && entry.available_resolutions@[j] == resolution,
            decreases entry.available_resolutions@.len() - k,
        {
            if entry.available_resolutions[k] == resolution {
                offered = true;
            }
            k += 1;
        }
        if !offered {
            let mut message = String::from_str(resolution_label(resolution));
            message.append(" is not a safe decision for a ");
            message.append(conflict_kind_label(entry.kind));
            message.append(" conflict; preserve or defer it for review");
            return Err(UiValidationError::Resolution(message));
        }
        assert(offers(self.entries@[index as int], resolution));
        self.decisions.set(index, Some(resolution));
        self.resolution_run = None;
        self.confirmed = false;
        self.error = None;
        Ok(())
    }

    /// Records the decision for the entry with `key`.
    pub fn set_entry_resolution(&mut self, key: u64, resolution: ConflictResolution) -> (result: Result<(), UiValidationError>)
        requires
            old(self).well_formed(),
        ensures
            final(self).well_formed(),
            match entry_index(old(self).entries_spec(), key) {
                None => *final(self) == *old(self) && result matches Err(UiValidationError::Resolution(_)),
                Some(index) => decision_outcome(*old(self), *final(self), index, resolution, result),
            },
    {
        match self.find_key(key) {
            None => Err(UiValidationError::Resolution(String::from_str(
                "no reviewed conflict exists for the selected conflict row"))),
            Some(index) => self.decide_at(index, resolution),
        }
    }

    /// Records the decision for the one entry at `path`; a path that no
    /// entry or several entries use is refused.
    pub fn set_resolution_for_path(&mut self, path: &str, resolution: ConflictResolution) -> (result: Result<(), UiValidationError>)
        requires
            old(self).well_formed(),
        ensures
            final(self).well_formed(),
            path_entries(old(self).entries_spec(), path@).len() == 0 ==> (result matches Err(UiValidationError::Resolution(message))
                && message@ == "no reviewed conflict exists for "@ + path@
                && *final(self) == *old(self)),
            path_entries(old(self).entries_spec(), path@).len() > 1 ==> (result matches Err(UiValidationError::Resolution(message))
                && message@ == "multiple reviewed conflicts use "@ + path@ + "; select the typed conflict row"@
                && *final(self) == *old(self)),
            path_entries(old(self).entries_spec(), path@).len() == 1 ==> exists|index: int|
                #[trigger] path_entries(old(self).entries_spec(), path@).contains(index)
                && decision_outcome(*old(self), *final(self), index, resolution, result),
    {
        let (first, count) = self.find_path(path);
        if count == 0 {
            let mut message = String::from_str("no reviewed conflict exists for ");
            message.append(path);
            return Err(UiValidationError::Resolution(message));
        }
        if count > 1 {
            let mut message = String::from_str("multiple reviewed conflicts use ");
            message.append(path);
            message.append("; select the typed conflict row");
            return Err(UiValidationError::Resolution(message));
        }
        self.decide_at(first, resolution)
    }

    /// A Resolution Run was prepared from the current decisions; it awaits
    /// its own confirmation.
    pub fn start_resolution_run(&mut self, run: Vec<ConflictResolutionAction>)
        requires
            old(self).well_formed(),
        ensures
            final(self).well_formed(),
            final(self).entries_spec() == old(self).entries_spec(),
            final(self).decisions_spec() == old(self).decisions_spec(),
            final(self).run_spec() == Some(run@),
            !final(self).confirmed_spec(),
            final(self).error_spec() is None,
    {
        self.resolution_run = Some(run);
        self.confirmed = false;
        self.error = None;
    }

    /// A fresh check found the reviewed conflicts changed: the confirmation
    /// is withdrawn and the reason kept.
    pub fn reject_stale(&mut self, message: String)
        requires
            old(self).well_formed(),
        ensures
            final(self).well_formed(),
            final(self).entries_spec() == old(self).entries_spec(),
            final(self).decisions_spec() == old(self).decisions_spec(),
            final(self).run_spec() == old(self).run_spec(),
            !final(self).confirmed_spec(),
            final(self).error_spec() == Some(message@),
    {
        self.confirmed = false;
        self.error = Some(message);
    }

    /// Confirms the started Resolution Run once a fresh check of its exact
    /// scope passed; a failed check withdraws the confirmation.
    pub fn confirm_resolution_run(&mut self, fresh_check: Result<(), String>) -> (result: Result<(), UiValidationError>)
        requires
            old(self).well_formed(),
        ensures
            final(self).well_formed(),
            final(self).entries_spec() == old(self).entries_spec(),
            final(self).decisions_spec() == old(self).decisions_spec(),
            final(self).run_spec() == old(self).run_spec(),
            old(self).run_spec() is None ==> *final(self) == *old(self)
                && result == Err::<(), UiValidationError>(UiValidationError::ConflictReviewNotReady),
            old(self).run_spec() is Some ==> match fresh_check {
                Ok(()) => result is Ok && final(self).confirmed_spec() && final(self).error_spec() is None,
                Err(message) => result == Err::<(), UiValidationError>(UiValidationError::Resolution(message))
                    && !final(self).confirmed_spec() && final(self).error_spec() == Some(message@),
            },
    {
        if self.resolution_run.is_none() {
            return Err(UiValidationError::ConflictReviewNotReady);
        }
        match fresh_check {
            Ok(()) => {
                self.confirmed = true;
                self.error = None;
                Ok(())
            },
            Err(message) => {
                self.confirmed = false;
                self.error = Some(message.clone());
                Err(UiValidationError::Resolution(message))
            },
        }
    }

    pub fn resolution_is_confirmed(&self) -> (confirmed: bool)
        ensures
            confirmed == self.confirmed_spec(),
    {
        self.confirmed
    }
}

/// What recording a decision for the entry at `index` does: a decision the
/// entry offers is stored for that entry alone and withdraws the Resolution
/// Run and its confirmation; any other decision is refused and changes
/// nothing.
pub open spec fn decision_outcome(
    before: ConflictReviewState,
    after: ConflictReviewState,
    index: int,
    resolution: ConflictResolution,
    result: Result<(), UiValidationError>,
) -> bool {
    let entry = before.entries_spec()[index];
    if offers(entry, resolution) {
        &&& result is Ok
        &&& after.entries_spec() == before.entries_spec()
        &&& after.decisions_spec() == before.decisions_spec().update(index, Some(resolution))
        &&& after.run_spec() is None
        &&& !after.confirmed_spec()
        &&& after.error_spec() is None
    } else {
        &&& after == before
        &&& result matches Err(UiValidationError::Resolution(message))
        &&& message@ == resolution_text(resolution) + " is not a safe decision for a "@ + conflict_kind_text(entry.kind)
            + " conflict; preserve or defer it for review"@
    }
}

proof fn lemma_entry_index_bounds(entries: Seq<ConflictEntry>, key: u64)
    ensures
        entry_index(entries, key) matches Some(index) ==> 0 <= index < entries.len(),
    decreases entries.len(),
{
    if entries.len() > 0 {
        lemma_entry_index_bounds(entries.drop_last(), key);
    }
}

proof fn lemma_entry_index_prefix(entries: Seq<ConflictEntry>, n: int, key: u64)
    requires
        0 < n <= entries.len(),
        entries[n - 1].key == key,
        entry_index(entries.subrange(0, n - 1), key) is None,
    ensures
        entry_index(entries, key) == Some(n - 1),
    decreases entries.len() - n,
{
    if n == entries.len() {
        assert(entries.drop_last() =~= entries.subrange(0, n - 1));
    } else {
        let shorter = entries.drop_last();
        assert(shorter.subrange(0, n - 1) =~= entries.subrange(0, n - 1));
        lemma_entry_index_prefix(shorter, n, key);
    }
}

/// After a decision the review accepted, reading the decision of that
/// entry gives it back, and a confirmation taken before is gone.
pub proof fn decision_read_after_write(
    before: ConflictReviewState,
    after: ConflictReviewState,
    key: u64,
    resolution: ConflictResolution,
    result: Result<(), UiValidationError>,
)
    requires
        before.well_formed(),
        entry_index(before.entries_spec(), key) matches Some(index) && decision_outcome(before, after, index, resolution, result),
        result is Ok,
    ensures
        entry_index(after.entries_spec(), key) matches Some(index) && after.decisions_spec()[index] == Some(resolution),
        !after.confirmed_spec(),
        after.run_spec() is None,
{
    lemma_entry_index_bounds(before.entries_spec(), key);
}

} // verus!
