use vstd::prelude::*;

use crate::entry::EscrowAccount;

verus! {

/// The outcome of locating the entry for a seed: the entry was freshly
/// created at its derived address, or one already existed there.
#[derive(Clone, Copy, Debug, PartialEq, Eq, Structural)]
pub enum Located {
    /// The address was vacant; a fresh entry now sits at this position.
    Created(usize),
    /// An entry already sat at this position.
    AlreadyExists(usize),
}

/// The entries a deployment holds, keyed by seed: a model of the
/// deterministic address space, in which distinct seeds derive distinct
/// addresses and each seed locates at most one entry.
#[derive(Debug, PartialEq, Eq)]
pub struct EscrowRegistry {
    pub entries: Vec<(u32, EscrowAccount)>,
}

impl EscrowRegistry {
    /// At most one entry per seed, as collision-free derivation guarantees.
    pub open spec fn well_formed(self) -> bool {
        forall|i: int, j: int|
            0 <= i < j < self.entries@.len() ==> self.entries@[i].0 != self.entries@[j].0
    }

    /// Whether some entry is keyed by `seed`.
    pub open spec fn contains_seed(self, seed: u32) -> bool {
        exists|i: int| 0 <= i < self.entries@.len() && self.entries@[i].0 == seed
    }

    /// An empty registry.
    pub fn new() -> (r: EscrowRegistry)
        ensures
            r.entries@.len() == 0,
            r.well_formed(),
    {
        EscrowRegistry { entries: Vec::new() }
    }

    /// Locate the entry for `seed`, creating a fresh, uninitialized one at
    /// the end of the address space if none exists. Exactly one entry per
    /// seed ever exists, so a second call with the same seed finds the
    /// first call's entry.
    pub fn find_or_create(&mut self, seed: u32) -> (r: Located)
        requires
            old(self).well_formed(),
        ensures
            final(self).well_formed(),
            match r {
                Located::Created(i) => !old(self).contains_seed(seed) && i == old(
                    self,
                ).entries@.len() && final(self).entries@ == old(self).entries@.push(
                    (seed, EscrowAccount::spec_fresh()),
                ),
                Located::AlreadyExists(i) => old(self).contains_seed(seed) && i < old(
                    self,
                ).entries@.len() && old(self).entries@[i as int].0 == seed && *final(self) == *old(
                    self,
                ),
            },
    {
        let mut i: usize = 0;
        while i < self.entries.len()
            invariant
                *self == *old(self),
                self.well_formed(),
                i <= self.entries@.len(),
                forall|j: int| 0 <= j < i ==> self.entries@[j].0 != seed,
            decreases self.entries@.len() - i,
        {
            if self.entries[i].0 == seed {
                return Located::AlreadyExists(i);
            }
            i += 1;
        }
        let i = self.entries.len();
        self.entries.push((seed, EscrowAccount::fresh()));
        Located::Created(i)
    }

    /// The number of entries.
    pub fn len(&self) -> (r: usize)
        ensures
            r == self.entries@.len(),
    {
        self.entries.len()
    }

    /// The entry at position `i`.
    pub fn entry_at(&self, i: usize) -> (r: EscrowAccount)
        requires
            i < self.entries@.len(),
        ensures
            r == self.entries@[i as int].1,
    {
        self.entries[i].1
    }

    /// Store back the entry at position `i`, after an operation has moved
    /// it; the seed keying the position does not change.
    pub fn set_entry(&mut self, i: usize, entry: EscrowAccount)
        requires
            i < old(self).entries@.len(),
        ensures
            final(self).entries@ == old(self).entries@.update(
                i as int,
                (old(self).entries@[i as int].0, entry),
            ),
            old(self).well_formed() ==> final(self).well_formed(),
    {
        let seed = self.entries[i].0;
        self.entries[i] = (seed, entry);
        proof {
            assert forall|a: int, b: int|
                0 <= a < b < self.entries@.len() && old(self).well_formed() implies self.entries@[a].0
                != self.entries@[b].0 by {
                assert(old(self).entries@[a].0 != old(self).entries@[b].0);
            }
        }
    }
}

} // verus!
