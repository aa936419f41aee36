use crate::candidate::Candidate;
use crate::candidate::MutationResult;
use vstd::prelude::*;

verus! {

/// A mutation strategy produces a new candidate from a parent and reports
/// whether it actually changed anything. A strategy that skips must still
/// yield a usable child — the parent's bytes unchanged — so the search loop
/// never stalls waiting for a "real" mutation.
pub trait MutationStrategy {
    /// Whether this strategy is the identity: it never changes a candidate
    /// and always reports `Skipped`, and mutating keeps it so.
    spec fn is_identity(&self) -> bool;

    fn mutate(&mut self, parent: &Candidate) -> (r: (Candidate, MutationResult))
        ensures
            r.1 is Skipped ==> r.0@ == parent@,
            old(self).is_identity() ==> r.1 is Skipped && final(self).is_identity(),
    ;
}

/// The identity strategy: it always skips and hands the parent's bytes back
/// unchanged. It is a first-class strategy of its own, used to exercise the
/// loop's retention and scheduling behavior independently of any mutation.
pub struct NopMutator {}

impl NopMutator {
    pub fn new() -> (m: NopMutator)
        ensures
            m.is_identity(),
    {
        NopMutator {  }
    }
}

impl MutationStrategy for NopMutator {
    open spec fn is_identity(&self) -> bool {
        true
    }

    fn mutate(&mut self, parent: &Candidate) -> (r: (Candidate, MutationResult))
        ensures
            r.1 is Skipped,
            r.0@ == parent@,
    {
        (parent.duplicate(), MutationResult::Skipped)
    }
}

/// A byte-mutating strategy: a deterministic xorshift stream picks a
/// position and an odd mask, and the child differs from the parent in
/// exactly that byte. An empty parent has no byte to change and is skipped.
pub struct ByteFlipMutator {
    state: u64,
}

impl ByteFlipMutator {
    pub fn new(seed: u64) -> (m: ByteFlipMutator)
        ensures
            !m.is_identity(),
    {
        ByteFlipMutator {
            state: if seed == 0 {
                0x9E3779B97F4A7C15
            } else {
                seed
            },
        }
    }

    /// The next word of the xorshift stream.
    fn next_word(&mut self) -> u64 {
        let mut x = self.state;
        x = x ^ (x << 13);
        x = x ^ (x >> 7);
        x = x ^ (x << 17);
        self.state = if x == 0 {
            0x9E3779B97F4A7C15
        } else {
            x
        };
        self.state
    }
}

impl MutationStrategy for ByteFlipMutator {
    open spec fn is_identity(&self) -> bool {
        false
    }

    fn mutate(&mut self, parent: &Candidate) -> (r: (Candidate, MutationResult))
        ensures
            r.0@.len() == parent@.len(),
            r.1 is Skipped <==> parent@.len() == 0,
            r.1 is Skipped ==> r.0@ == parent@,
            r.1 is Mutated ==> exists|k: int|
                0 <= k < parent@.len() && r.0@[k] != parent@[k] && (forall|j: int|
                    0 <= j < parent@.len() && j != k ==> r.0@[j] == parent@[j]),
    {
        if parent.len() == 0 {
            (parent.duplicate(), MutationResult::Skipped)
        } else {
            let w = self.next_word();
            let pos = (w % (parent.len() as u64)) as usize;
            let base = ((w >> 32) & 0xFF) as u8;
            let mask = base | 1;
            let mut bytes: Vec<u8> = Vec::new();
            let mut i: usize = 0;
            while i < parent.len()
                invariant
                    pos < parent@.len(),
                    i <= parent@.len(),
                    bytes@.len() == i,
                    mask == base | 1,
                    forall|j: int|
                        0 <= j < i ==> bytes@[j] == (if j == pos {
                            parent@[j] ^ mask
                        } else {
                            parent@[j]
                        }),
                decreases parent@.len() - i,
            {
                let b = parent.byte_at(i);
                if i == pos {
                    bytes.push(b ^ mask);
                } else {
                    bytes.push(b);
                }
                i = i + 1;
            }
            proof {
                let p = parent@[pos as int];
                assert(p ^ (base | 1) != p) by (bit_vector);
                assert(bytes@[pos as int] != parent@[pos as int]);
            }
            (Candidate::new(bytes), MutationResult::Mutated)
        }
    }
}

} // verus!
