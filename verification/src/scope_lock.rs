//! Peer Scope Locks: two runs never work on overlapping folders at once.
use vstd::prelude::*;

use crate::model::RunId;
use crate::text::chars_of;

verus! {

/// A folder a run works in.
#[derive(Debug, Clone, PartialEq, Eq)]
pub struct PeerScope {
    pub root: String,
}

/// The run that holds a scope.
#[derive(Debug, Clone, PartialEq, Eq)]
pub struct ScopeLockOwner {
    pub profile_name: String,
    pub run_id: RunId,
}

#[derive(Debug, Clone, PartialEq, Eq)]
pub struct HeldScope {
    pub owner: ScopeLockOwner,
    pub scope: PeerScope,
}

/// `outer` is a folder strictly above `inner`.
pub open spec fn is_ancestor(outer: Seq<char>, inner: Seq<char>) -> bool {
    &&& outer.len() < inner.len()
    &&& inner.subrange(0, outer.len() as int) == outer
    &&& (inner[outer.len() as int] == '/' || (outer.len() > 0 && outer.last() == '/'))
}

/// Two scopes overlap when they are the same folder or one contains the other.
pub open spec fn scopes_overlap(a: Seq<char>, b: Seq<char>) -> bool {
    a == b || is_ancestor(a, b) || is_ancestor(b, a)
}

fn prefix_matches(outer: &Vec<char>, inner: &Vec<char>) -> (matches: bool)
    requires
        outer@.len() <= inner@.len(),
    ensures
        matches == (inner@.subrange(0, outer@.len() as int) == outer@),
{
    let mut index: usize = 0;
    while index < outer.len()
        invariant
            outer@.len() <= inner@.len(),
            index <= outer@.len(),
            inner@.subrange(0, index as int) == outer@.subrange(0, index as int),
        decreases outer@.len() - index,
    {
        if outer[index] != inner[index] {
            assert(inner@.subrange(0, outer@.len() as int)[index as int] != outer@[index as int]);
            return false;
        }
        index += 1;
        assert(inner@.subrange(0, index as int) =~= outer@.subrange(0, index as int));
    }
    assert(outer@.subrange(0, index as int) =~= outer@);
    true
}

pub(crate) fn ancestor_exec(outer: &Vec<char>, inner: &Vec<char>) -> (ancestor: bool)
    ensures
        ancestor == is_ancestor(outer@, inner@),
{
    if outer.len() >= inner.len() {
        return false;
    }
    if !prefix_matches(outer, inner) {
        return false;
    }
    inner[outer.len()] == '/' || (outer.len() > 0 && outer[outer.len() - 1] == '/')
}

pub fn scopes_conflict(a: &PeerScope, b: &PeerScope) -> (conflict: bool)
    ensures
        conflict == scopes_overlap(a.root@, b.root@),
{
    let left = chars_of(a.root.as_str());
    let right = chars_of(b.root.as_str());
    if left.len() == right.len() && prefix_matches(&left, &right) {
        assert(right@.subrange(0, left@.len() as int) =~= right@);
        return true;
    }
    proof {
        if left@ == right@ {
            assert(right@.subrange(0, left@.len() as int) =~= right@);
        }
    }
    ancestor_exec(&left, &right) || ancestor_exec(&right, &left)
}

/// The registry of scopes held by running Sync Runs.
pub struct PeerScopeLockRegistry {
    held: Vec<HeldScope>,
}

/// No requested scope overlaps a scope that a run other than `run_id` holds.
pub open spec fn acquire_allowed(registry: PeerScopeLockRegistry, run_id: RunId, scopes: Seq<PeerScope>) -> bool {
    forall|k: int, i: int| 0 <= k < scopes.len() && 0 <= i < registry.held_scopes().len()
        ==> !((#[trigger] registry.held_scopes()[i]).owner.run_id != run_id
            && scopes_overlap(registry.held_scopes()[i].scope.root@, (#[trigger] scopes[k]).root@))
}

/// Workflows that share a registry block one another: while one run holds a
/// scope, no other run can acquire a scope that overlaps it.
pub proof fn held_scope_blocks_other_runs(
    registry: PeerScopeLockRegistry,
    held: HeldScope,
    run_id: RunId,
    scopes: Seq<PeerScope>,
    k: int,
)
    requires
        registry.held_scopes().contains(held),
        held.owner.run_id != run_id,
        0 <= k < scopes.len(),
        scopes_overlap(held.scope.root@, scopes[k].root@),
    ensures
        !acquire_allowed(registry, run_id, scopes),
{
    let i = choose|i: int| 0 <= i < registry.held_scopes().len() && registry.held_scopes()[i] == held;
    assert(registry.held_scopes()[i].owner.run_id != run_id && scopes_overlap(registry.held_scopes()[i].scope.root@, scopes[k].root@));
}

impl PeerScopeLockRegistry {
    pub closed spec fn held_scopes(&self) -> Seq<HeldScope> {
        self.held@
    }

    /// Held scopes of different runs never overlap.
    pub open spec fn exclusive(&self) -> bool {
        forall|i: int, j: int|
            0 <= i < self.held_scopes().len() && 0 <= j < self.held_scopes().len()
                && #[trigger] self.held_scopes()[i].owner.run_id != #[trigger] self.held_scopes()[j].owner.run_id
                ==> !scopes_overlap(self.held_scopes()[i].scope.root@, self.held_scopes()[j].scope.root@)
    }

    pub fn new() -> (registry: PeerScopeLockRegistry)
        ensures
            registry.held_scopes() == Seq::<HeldScope>::empty(),
            registry.exclusive(),
    {
        PeerScopeLockRegistry { held: Vec::new() }
    }

    /// Whether `scope` overlaps any scope held by a run other than `run_id`.
    fn conflicts_with_held(&self, run_id: RunId, scope: &PeerScope) -> (conflict: bool)
        ensures
            conflict == exists|i: int| 0 <= i < self.held_scopes().len()
                && (#[trigger] self.held_scopes()[i]).owner.run_id != run_id
                && scopes_overlap(self.held_scopes()[i].scope.root@, scope.root@),
    {
        let mut index: usize = 0;
        while index < self.held.len()
            invariant
                index <= self.held@.len(),
                forall|j: int| 0 <= j < index ==> !((#[trigger] self.held@[j]).owner.run_id != run_id
                    && scopes_overlap(self.held@[j].scope.root@, scope.root@)),
            decreases self.held@.len() - index,
        {
            if self.held[index].owner.run_id != run_id && scopes_conflict(&self.held[index].scope, scope) {
                assert(self.held_scopes()[index as int].owner.run_id != run_id
                    && scopes_overlap(self.held_scopes()[index as int].scope.root@, scope.root@));
                return true;
            }
            index += 1;
        }
        false
    }

    /// Acquires every requested scope for `owner`, or none of them when any
    /// overlaps a scope another run holds.
    pub fn acquire(&mut self, owner: &ScopeLockOwner, scopes: &Vec<PeerScope>) -> (acquired: bool)
        requires
            old(self).exclusive(),
        ensures
            final(self).exclusive(),
            acquired == acquire_allowed(*old(self), owner.run_id, scopes@),
            !acquired ==> final(self).held_scopes() == old(self).held_scopes(),
            acquired ==> final(self).held_scopes().len() == old(self).held_scopes().len() + scopes@.len(),
            acquired ==> final(self).held_scopes().subrange(0, old(self).held_scopes().len() as int) == old(self).held_scopes(),
            acquired ==> forall|k: int| 0 <= k < scopes@.len() ==>
                #[trigger] final(self).held_scopes()[old(self).held_scopes().len() + k] == (HeldScope { owner: *owner, scope: scopes@[k] }),
    {
        let mut k: usize = 0;
        while k < scopes.len()
            invariant
                k <= scopes@.len(),
                self.held_scopes() == old(self).held_scopes(),
                self.exclusive(),
                forall|kk: int, i: int| 0 <= kk < k && 0 <= i < self.held_scopes().len()
                    ==> !((#[trigger] self.held_scopes()[i]).owner.run_id != owner.run_id
                        && scopes_overlap(self.held_scopes()[i].scope.root@, (#[trigger] scopes@[kk]).root@)),
            decreases scopes@.len() - k,
        {
            if self.conflicts_with_held(owner.run_id, &scopes[k]) {
                return false;
            }
            k += 1;
        }
        let ghost before = self.held@;
        let mut index: usize = 0;
        while index < scopes.len()
            invariant
                index <= scopes@.len(),
                self.held@.len() == before.len() + index,
                self.held@.subrange(0, before.len() as int) == before,
                forall|kk: int| 0 <= kk < index ==> #[trigger] self.held@[before.len() + kk] == (HeldScope { owner: *owner, scope: scopes@[kk] }),
                forall|i: int, j: int|
                    0 <= i < self.held@.len() && 0 <= j < self.held@.len()
                        && #[trigger] self.held@[i].owner.run_id != #[trigger] self.held@[j].owner.run_id
                        ==> !scopes_overlap(self.held@[i].scope.root@, self.held@[j].scope.root@),
                forall|kk: int, i: int| 0 <= kk < scopes@.len() && 0 <= i < before.len()
                    ==> !((#[trigger] before[i]).owner.run_id != owner.run_id
                        && scopes_overlap(before[i].scope.root@, (#[trigger] scopes@[kk]).root@)),
            decreases scopes@.len() - index,
        {
            let held = HeldScope {
                owner: ScopeLockOwner { profile_name: owner.profile_name.clone(), run_id: owner.run_id },
                scope: PeerScope { root: scopes[index].root.clone() },
            };
            let ghost prior = self.held@;
            self.held.push(held);
            proof {
                assert(self.held@.subrange(0, before.len() as int) =~= before) by {
                    assert(prior.subrange(0, before.len() as int) == before);
                }
                assert forall|i: int, j: int|
                    0 <= i < self.held@.len() && 0 <= j < self.held@.len()
                        && #[trigger] self.held@[i].owner.run_id != #[trigger] self.held@[j].owner.run_id
                        implies !scopes_overlap(self.held@[i].scope.root@, self.held@[j].scope.root@) by {
                    let last = prior.len() as int;
                    if i == last && j < last {
                        if j < before.len() {
                            assert(before[j] == self.held@[j]);
                            assert(scopes@[index as int] == self.held@[i].scope);
                        } else {
                            let kk = j - before.len();
                            assert(self.held@[j] == prior[j]);
                            assert(prior[before.len() + kk].owner == *owner);
                        }
                    } else if j == last && i < last {
                        if i < before.len() {
                            assert(before[i] == self.held@[i]);
                            assert(scopes@[index as int] == self.held@[j].scope);
                        } else {
                            let kk = i - before.len();
                            assert(prior[before.len() + kk].owner == *owner);
                        }
                    } else if i < last && j < last {
                        assert(self.held@[i] == prior[i]);
                        assert(self.held@[j] == prior[j]);
                    }
                }
            }
            index += 1;
        }
        true
    }

    /// Releases every scope held by `run_id`.
    pub fn release(&mut self, run_id: RunId)
        requires
            old(self).exclusive(),
        ensures
            final(self).exclusive(),
            forall|i: int| 0 <= i < final(self).held_scopes().len() ==> (#[trigger] final(self).held_scopes()[i]).owner.run_id != run_id,
            forall|h: HeldScope| h.owner.run_id != run_id ==>
                (final(self).held_scopes().contains(h) <==> old(self).held_scopes().contains(h)),
    {
        let mut kept: Vec<HeldScope> = Vec::new();
        let mut index: usize = 0;
        while index < self.held.len()
            invariant
                index <= self.held@.len(),
                self.exclusive(),
                forall|i: int| 0 <= i < kept@.len() ==> (#[trigger] kept@[i]).owner.run_id != run_id,
                forall|i: int| 0 <= i < kept@.len() ==> self.held@.subrange(0, index as int).contains(#[trigger] kept@[i]),
                forall|h: HeldScope| h.owner.run_id != run_id && #[trigger] self.held@.subrange(0, index as int).contains(h)
                    ==> kept@.contains(h),
            decreases self.held@.len() - index,
        {
            let ghost old_prefix = self.held@.subrange(0, index as int);
            let ghost old_kept = kept@;
            if self.held[index].owner.run_id != run_id {
                let item = HeldScope {
                    owner: ScopeLockOwner {
                        profile_name: self.held[index].owner.profile_name.clone(),
                        run_id: self.held[index].owner.run_id,
                    },
                    scope: PeerScope { root: self.held[index].scope.root.clone() },
                };
                kept.push(item);
            }
            proof {
                let new_prefix = self.held@.subrange(0, index + 1);
                assert(new_prefix =~= old_prefix.push(self.held@[index as int]));
                assert forall|i: int| 0 <= i < kept@.len() implies new_prefix.contains(#[trigger] kept@[i]) by {
                    if i == kept@.len() - 1 && self.held@[index as int].owner.run_id != run_id {
                        assert(new_prefix[index as int] == kept@[i]);
                    } else {
                        let w = choose|w: int| 0 <= w < old_prefix.len() && old_prefix[w] == kept@[i];
                        assert(new_prefix[w] == kept@[i]);
                    }
                }
                assert forall|h: HeldScope| h.owner.run_id != run_id && #[trigger] new_prefix.contains(h) implies kept@.contains(h) by {
                    let w = choose|w: int| 0 <= w < new_prefix.len() && new_prefix[w] == h;
                    if w == index as int {
                        assert(kept@[kept@.len() - 1] == h);
                    } else {
                        assert(old_prefix[w] == h);
                        assert(old_prefix.contains(h));
                        assert(old_kept.contains(h));
                        let v = choose|v: int| 0 <= v < old_kept.len() && old_kept[v] == h;
                        assert(kept@[v] == h);
                    }
                }
            }
            index += 1;
        }
        let ghost before = self.held@;
        proof {
            assert(before.subrange(0, before.len() as int) =~= before);
            assert forall|i: int, j: int|
                0 <= i < before.len() && 0 <= j < before.len()
                    && #[trigger] before[i].owner.run_id != #[trigger] before[j].owner.run_id
                    implies !scopes_overlap(before[i].scope.root@, before[j].scope.root@) by {
                assert(self.held_scopes()[i] == before[i]);
                assert(self.held_scopes()[j] == before[j]);
            }
        }
        self.held = kept;
        proof {
            assert forall|i: int, j: int|
                0 <= i < self.held@.len() && 0 <= j < self.held@.len()
                    && #[trigger] self.held@[i].owner.run_id != #[trigger] self.held@[j].owner.run_id
                    implies !scopes_overlap(self.held@[i].scope.root@, self.held@[j].scope.root@) by {
                let wi = choose|w: int| 0 <= w < before.len() && before[w] == self.held@[i];
                let wj = choose|w: int| 0 <= w < before.len() && before[w] == self.held@[j];
                assert(before[wi].owner.run_id != before[wj].owner.run_id);
            }
            assert forall|h: HeldScope| h.owner.run_id != run_id implies
                (self.held@.contains(h) <==> before.contains(h)) by {
                if self.held@.contains(h) {
                    let w = choose|w: int| 0 <= w < self.held@.len() && self.held@[w] == h;
                    assert(before.subrange(0, before.len() as int).contains(self.held@[w]));
                }
                if before.contains(h) {
                    assert(before.subrange(0, before.len() as int).contains(h));
                }
            }
        }
    }
}

} // verus!
