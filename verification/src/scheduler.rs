use vstd::prelude::*;

verus! {

/// The corpus index a queue scheduler with cursor `cursor` picks from a
/// corpus of length `len`: the next unvisited index, wrapping to the front
/// once the cursor has run past the last entry.
pub open spec fn queue_pick(cursor: usize, len: usize) -> usize {
    if cursor < len {
        cursor
    } else {
        0
    }
}

/// The queue scheduling policy: it visits corpus indices in strict insertion
/// order, wrapping to the first index after the last. Scheduling over an
/// empty corpus is undefined, so callers must retain at least one seed
/// before asking for a parent; the engine's bootstrap hand-over guarantees
/// that precondition before iteration starts.
pub struct QueueScheduler {
    cursor: usize,
}

impl QueueScheduler {
    /// The position of the next unvisited entry.
    pub closed spec fn cursor_spec(&self) -> usize {
        self.cursor
    }

    pub fn new() -> (s: QueueScheduler)
        ensures
            s.cursor_spec() == 0,
    {
        QueueScheduler { cursor: 0 }
    }

    /// Pick the next mutation parent's index from a corpus of `corpus_len`
    /// entries and advance the cursor past it.
    pub fn next(&mut self, corpus_len: usize) -> (idx: usize)
        requires
            corpus_len > 0,
        ensures
            idx == queue_pick(old(self).cursor_spec(), corpus_len),
            idx < corpus_len,
            final(self).cursor_spec() == idx + 1,
    {
        let idx = if self.cursor < corpus_len {
            self.cursor
        } else {
            0
        };
        self.cursor = idx + 1;
        idx
    }
}

} // verus!
