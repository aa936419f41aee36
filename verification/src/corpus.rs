use crate::candidate::Candidate;
use vstd::prelude::*;

verus! {

/// The retained set of interesting candidates: an ordered collection keyed
/// by insertion index. Insertion order is significant — it is the traversal
/// domain for the scheduler — and entries are never reordered, compacted or
/// removed; the corpus only grows.
pub struct Corpus {
    entries: Vec<Candidate>,
}

impl View for Corpus {
    type V = Seq<Seq<u8>>;

    closed spec fn view(&self) -> Seq<Seq<u8>> {
        self.entries@.map_values(|c: Candidate| c@)
    }
}

impl Corpus {
    pub fn new() -> (c: Corpus)
        ensures
            c@ == Seq::<Seq<u8>>::empty(),
    {
        let c = Corpus { entries: Vec::new() };
        proof {
            assert(c@ =~= Seq::<Seq<u8>>::empty());
        }
        c
    }

    /// Append-only insertion; returns the new entry's index. No
    /// deduplication and no size cap: bounding the corpus is an extension
    /// point, not part of this core.
    pub fn insert(&mut self, c: Candidate) -> (idx: usize)
        ensures
            final(self)@ == old(self)@.push(c@),
            idx == old(self)@.len(),
            final(self)@.len() == old(self)@.len() + 1,
    {
        let idx = self.entries.len();
        let ghost pre = self.entries@;
        self.entries.push(c);
        proof {
            assert(self@ =~= pre.map_values(|x: Candidate| x@).push(c@));
        }
        idx
    }

    /// Retrieval by index: O(1), and total for every index returned by a
    /// prior insert or by the scheduler.
    pub fn get(&self, idx: usize) -> (c: &Candidate)
        requires
            idx < self@.len(),
        ensures
            c@ == self@[idx as int],
    {
        &self.entries[idx]
    }

    pub fn len(&self) -> (n: usize)
        ensures
            n == self@.len(),
    {
        self.entries.len()
    }
}

/// The separate, persisted collection for candidates that satisfy an
/// objective predicate — a terminal condition distinct from "interesting".
/// In this core objective detection never fires, but the storage slot and
/// its write path exist for extensibility; the surrounding program persists
/// the entries.
pub struct SolutionsStore {
    entries: Vec<Candidate>,
}

impl View for SolutionsStore {
    type V = Seq<Seq<u8>>;

    closed spec fn view(&self) -> Seq<Seq<u8>> {
        self.entries@.map_values(|c: Candidate| c@)
    }
}

impl SolutionsStore {
    pub fn new() -> (s: SolutionsStore)
        ensures
            s@ == Seq::<Seq<u8>>::empty(),
    {
        let s = SolutionsStore { entries: Vec::new() };
        proof {
            assert(s@ =~= Seq::<Seq<u8>>::empty());
        }
        s
    }

    pub fn insert(&mut self, c: Candidate) -> (idx: usize)
        ensures
            final(self)@ == old(self)@.push(c@),
            idx == old(self)@.len(),
    {
        let idx = self.entries.len();
        let ghost pre = self.entries@;
        self.entries.push(c);
        proof {
            assert(self@ =~= pre.map_values(|x: Candidate| x@).push(c@));
        }
        idx
    }

    pub fn get(&self, idx: usize) -> (c: &Candidate)
        requires
            idx < self@.len(),
        ensures
            c@ == self@[idx as int],
    {
        &self.entries[idx]
    }

    pub fn len(&self) -> (n: usize)
        ensures
            n == self@.len(),
    {
        self.entries.len()
    }
}

} // verus!
