use vstd::prelude::*;

verus! {

/// A byte-sequence input considered by the search.
///
/// A candidate is immutable once stored in the corpus: a mutation strategy
/// produces a new `Candidate` rather than editing one in place. No uniqueness
/// constraint is imposed; duplicate byte sequences may coexist as distinct
/// corpus entries.
pub struct Candidate {
    bytes: Vec<u8>,
}

impl View for Candidate {
    type V = Seq<u8>;

    closed spec fn view(&self) -> Seq<u8> {
        self.bytes@
    }
}

impl Candidate {
    pub fn new(bytes: Vec<u8>) -> (c: Candidate)
        ensures
            c@ == bytes@,
    {
        Candidate { bytes }
    }

    pub fn bytes(&self) -> (b: &Vec<u8>)
        ensures
            b@ == self@,
    {
        &self.bytes
    }

    pub fn len(&self) -> (n: usize)
        ensures
            n == self@.len(),
    {
        self.bytes.len()
    }

    pub fn byte_at(&self, i: usize) -> (b: u8)
        requires
            i < self@.len(),
        ensures
            b == self@[i as int],
    {
        self.bytes[i]
    }

    /// A fresh candidate holding the same bytes.
    pub fn duplicate(&self) -> (c: Candidate)
        ensures
            c@ == self@,
    {
        let mut out: Vec<u8> = Vec::new();
        let mut i: usize = 0;
        while i < self.bytes.len()
            invariant
                i <= self.bytes.len(),
                out@ == self@.take(i as int),
            decreases self.bytes.len() - i,
        {
            out.push(self.bytes[i]);
            proof {
                assert(self@.take(i + 1) =~= self@.take(i as int).push(self@[i as int]));
            }
            i = i + 1;
        }
        proof {
            assert(out@ =~= self@);
        }
        Candidate { bytes: out }
    }
}

/// Coarse result of applying a candidate to the target: the target behaved
/// normally, crashed, or timed out. Target misbehavior is reported as a value,
/// never as an error that escapes the loop.
#[derive(Clone, Copy, PartialEq, Eq, Structural, Debug)]
pub enum ExecutionOutcome {
    Normal,
    Crashed,
    TimedOut,
}

/// Whether a mutation strategy actually changed the candidate or skipped.
#[derive(Clone, Copy, PartialEq, Eq, Structural, Debug)]
pub enum MutationResult {
    Mutated,
    Skipped,
}

} // verus!
