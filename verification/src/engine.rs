use crate::candidate::Candidate;
use crate::candidate::ExecutionOutcome;
use crate::candidate::MutationResult;
use crate::corpus::Corpus;
use crate::corpus::SolutionsStore;
use crate::feedback::MeasureError;
use crate::feedback::ScalarFeedback;
use crate::feedback::SCALAR_FLOOR;
use crate::feedback::best_after;
use crate::feedback::improves;
use crate::feedback::retained_after;
use crate::feedback::sample_scalar;
use crate::feedback::step_best;
use crate::mutator::MutationStrategy;
use crate::scheduler::QueueScheduler;
use crate::scheduler::queue_pick;
use vstd::prelude::*;

verus! {

/// Where a run stands: seeding the corpus, mutating retained candidates, or
/// finished. Bootstrapping counts down the configured seed attempts.
#[derive(Clone, Copy, PartialEq, Eq, Structural, Debug)]
pub enum Phase {
    Bootstrapping { remaining: usize },
    Iterating,
    Stopped,
}

/// A fatal setup failure: a run whose bootstrap retained no candidate has no
/// parent to schedule and cannot proceed.
#[derive(Clone, Copy, PartialEq, Eq, Structural, Debug)]
pub enum EngineError {
    StalledBootstrap,
}

/// Objective detection: a terminal condition distinct from "interesting",
/// whose hits are persisted separately from the corpus. In this core it is a
/// no-op collaborator that never fires; the write path it guards exists for
/// extensibility.
pub fn objective_hit(outcome: &ExecutionOutcome) -> (hit: bool)
    ensures
        !hit,
{
    let _ = outcome;
    false
}

/// The search loop's state: the generate → select → mutate → execute →
/// evaluate → retain cycle around the corpus, the queue scheduler and the
/// scalar-feedback evaluator.
///
/// Applying a candidate to the target and sampling the measurement are the
/// caller's side of the boundary: the caller performs them between the
/// engine calls of a cycle and hands back the outcome and the sampled
/// scalar. The engine owns every retention and ordering decision.
pub struct Engine {
    feedback: ScalarFeedback,
    corpus: Corpus,
    solutions: SolutionsStore,
    scheduler: QueueScheduler,
    phase: Phase,
    pending: Option<Candidate>,
    samples: Ghost<Seq<i64>>,
}

impl Engine {
    /// The running best-observed scalar.
    pub closed spec fn best_spec(&self) -> i64 {
        self.feedback.best_spec()
    }

    /// The retained candidates, in insertion order.
    pub closed spec fn corpus_view(&self) -> Seq<Seq<u8>> {
        self.corpus@
    }

    /// The objective-satisfying candidates, in insertion order.
    pub closed spec fn solutions_view(&self) -> Seq<Seq<u8>> {
        self.solutions@
    }

    pub closed spec fn phase_spec(&self) -> Phase {
        self.phase
    }

    /// Every scalar evaluated so far, in evaluation order, with failed
    /// measurements already mapped to the sentinel.
    pub closed spec fn samples_view(&self) -> Seq<i64> {
        self.samples@
    }

    /// The child candidate handed out for execution and not yet evaluated.
    pub closed spec fn pending_view(&self) -> Option<Seq<u8>> {
        match self.pending {
            Some(c) => Some(c@),
            None => None,
        }
    }

    /// The scheduler's position among the corpus indices.
    pub closed spec fn cursor_spec(&self) -> usize {
        self.scheduler.cursor_spec()
    }

    /// The seed attempts bootstrapping has still to make.
    pub open spec fn seeds_remaining(&self) -> usize {
        self.phase_spec()->remaining
    }

    /// The engine's invariant. The running best is exactly the fold of every
    /// evaluated scalar over the floor; the corpus holds exactly one entry
    /// per evaluation judged interesting; iteration never starts on an empty
    /// corpus; and a child is pending only mid-cycle while iterating.
    pub open spec fn wf(&self) -> bool {
        &&& self.best_spec() == best_after(SCALAR_FLOOR, self.samples_view())
        &&& self.corpus_view().len() == retained_after(SCALAR_FLOOR, self.samples_view())
        &&& (self.phase_spec() is Iterating ==> self.corpus_view().len() > 0)
        &&& (!(self.phase_spec() is Iterating) ==> self.pending_view() is None)
    }

    /// A fresh engine about to make `seed_target` bootstrap attempts.
    pub fn new(seed_target: usize) -> (e: Engine)
        ensures
            e.wf(),
            e.phase_spec() == (Phase::Bootstrapping { remaining: seed_target }),
            e.samples_view() == Seq::<i64>::empty(),
            e.corpus_view() == Seq::<Seq<u8>>::empty(),
            e.solutions_view() == Seq::<Seq<u8>>::empty(),
            e.best_spec() == SCALAR_FLOOR,
            e.cursor_spec() == 0,
    {
        Engine {
            feedback: ScalarFeedback::new(),
            corpus: Corpus::new(),
            solutions: SolutionsStore::new(),
            scheduler: QueueScheduler::new(),
            phase: Phase::Bootstrapping { remaining: seed_target },
            pending: None,
            samples: Ghost(Seq::empty()),
        }
    }

    /// One bootstrap attempt: the freshly generated `seed` has been applied
    /// to the target and measured; evaluate the sample and retain the seed
    /// in the corpus exactly when it is interesting.
    pub fn bootstrap_step(
        &mut self,
        seed: Candidate,
        outcome: &ExecutionOutcome,
        sample: Result<i64, MeasureError>,
    ) -> (interesting: bool)
        requires
            old(self).wf(),
            old(self).phase_spec() is Bootstrapping,
            old(self).seeds_remaining() > 0,
        ensures
            final(self).wf(),
            interesting == improves(old(self).best_spec(), sample_scalar(sample)),
            final(self).best_spec() == step_best(old(self).best_spec(), sample_scalar(sample)),
            final(self).samples_view() == old(self).samples_view().push(sample_scalar(sample)),
            final(self).corpus_view() == (if interesting {
                old(self).corpus_view().push(seed@)
            } else {
                old(self).corpus_view()
            }),
            final(self).phase_spec() == (Phase::Bootstrapping {
                remaining: (old(self).seeds_remaining() - 1) as usize,
            }),
            final(self).solutions_view() == old(self).solutions_view(),
            final(self).cursor_spec() == old(self).cursor_spec(),
    {
        let interesting = self.feedback.evaluate(outcome, sample);
        proof {
            let s = old(self).samples@;
            let v = sample_scalar(sample);
            assert(s.push(v).drop_last() =~= s);
        }
        self.samples = Ghost(self.samples@.push(sample_scalar(sample)));
        if objective_hit(outcome) {
            let kept = seed.duplicate();
            let _ = self.solutions.insert(kept);
        }
        if interesting {
            let _ = self.corpus.insert(seed);
        }
        match self.phase {
            Phase::Bootstrapping { remaining } => {
                self.phase = Phase::Bootstrapping { remaining: remaining - 1 };
            },
            _ => {},
        }
        interesting
    }

    /// Leave bootstrapping: hand over to the iterating phase, or report the
    /// stalled-bootstrap setup failure — and stop — when none of the seed
    /// attempts was retained. Success is owed exactly when the corpus is
    /// non-empty.
    pub fn begin_iterating(&mut self) -> (r: Result<(), EngineError>)
        requires
            old(self).wf(),
            old(self).phase_spec() is Bootstrapping,
            old(self).seeds_remaining() == 0,
        ensures
            final(self).wf(),
            r is Ok <==> old(self).corpus_view().len() > 0,
            r is Err ==> r == Result::<(), EngineError>::Err(EngineError::StalledBootstrap),
            final(self).phase_spec() == (if old(self).corpus_view().len() > 0 {
                Phase::Iterating
            } else {
                Phase::Stopped
            }),
            final(self).best_spec() == old(self).best_spec(),
            final(self).samples_view() == old(self).samples_view(),
            final(self).corpus_view() == old(self).corpus_view(),
            final(self).solutions_view() == old(self).solutions_view(),
            final(self).cursor_spec() == old(self).cursor_spec(),
            final(self).pending_view() is None,
    {
        if self.corpus.len() > 0 {
            self.phase = Phase::Iterating;
            Ok(())
        } else {
            self.phase = Phase::Stopped;
            Err(EngineError::StalledBootstrap)
        }
    }

    /// Start one iterating cycle: ask the scheduler for the parent index,
    /// fetch the parent, and run it through the mutation strategy. The child
    /// is handed out for execution and kept pending, so the following
    /// `complete_cycle` retains exactly the candidate that was measured.
    /// A skipping strategy's child is the scheduled parent unchanged, and an
    /// identity strategy always skips, so its cycles hand out exactly the
    /// corpus entries in queue order.
    pub fn begin_cycle<M: MutationStrategy>(&mut self, strategy: &mut M) -> (r: (
        Candidate,
        MutationResult,
    ))
        requires
            old(self).wf(),
            old(self).phase_spec() is Iterating,
            old(self).pending_view() is None,
        ensures
            final(self).wf(),
            final(self).phase_spec() is Iterating,
            final(self).pending_view() == Some(r.0@),
            final(self).cursor_spec() == queue_pick(
                old(self).cursor_spec(),
                old(self).corpus_view().len() as usize,
            ) + 1,
            r.1 is Skipped ==> r.0@ == old(self).corpus_view()[queue_pick(
                old(self).cursor_spec(),
                old(self).corpus_view().len() as usize,
            ) as int],
            old(strategy).is_identity() ==> r.1 is Skipped && final(strategy).is_identity(),
            final(self).best_spec() == old(self).best_spec(),
            final(self).samples_view() == old(self).samples_view(),
            final(self).corpus_view() == old(self).corpus_view(),
            final(self).solutions_view() == old(self).solutions_view(),
    {
        let len = self.corpus.len();
        let idx = self.scheduler.next(len);
        let parent = self.corpus.get(idx);
        let (child, result) = strategy.mutate(parent);
        self.pending = Some(child.duplicate());
        (child, result)
    }

    /// Finish the cycle: the pending child has been applied to the target
    /// and measured; evaluate the sample and retain the child in the corpus
    /// exactly when it is interesting. The parent is never removed — the
    /// corpus only grows.
    pub fn complete_cycle(
        &mut self,
        outcome: &ExecutionOutcome,
        sample: Result<i64, MeasureError>,
    ) -> (interesting: bool)
        requires
            old(self).wf(),
            old(self).phase_spec() is Iterating,
            old(self).pending_view() is Some,
        ensures
            final(self).wf(),
            final(self).phase_spec() is Iterating,
            interesting == improves(old(self).best_spec(), sample_scalar(sample)),
            final(self).best_spec() == step_best(old(self).best_spec(), sample_scalar(sample)),
            final(self).samples_view() == old(self).samples_view().push(sample_scalar(sample)),
            final(self).corpus_view() == (if interesting {
                old(self).corpus_view().push(old(self).pending_view()->Some_0)
            } else {
                old(self).corpus_view()
            }),
            final(self).pending_view() is None,
            final(self).solutions_view() == old(self).solutions_view(),
            final(self).cursor_spec() == old(self).cursor_spec(),
    {
        let child = self.pending.take().unwrap();
        let interesting = self.feedback.evaluate(outcome, sample);
        proof {
            let s = old(self).samples@;
            let v = sample_scalar(sample);
            assert(s.push(v).drop_last() =~= s);
        }
        self.samples = Ghost(self.samples@.push(sample_scalar(sample)));
        if objective_hit(outcome) {
            let kept = child.duplicate();
            let _ = self.solutions.insert(kept);
        }
        if interesting {
            let _ = self.corpus.insert(child);
        }
        interesting
    }

    /// The external stop condition was reached: the run becomes terminal and
    /// no further candidates are generated. The running best and the corpus
    /// are the run's output.
    pub fn stop(&mut self)
        requires
            old(self).wf(),
        ensures
            final(self).wf(),
            final(self).phase_spec() is Stopped,
            final(self).best_spec() == old(self).best_spec(),
            final(self).samples_view() == old(self).samples_view(),
            final(self).corpus_view() == old(self).corpus_view(),
            final(self).solutions_view() == old(self).solutions_view(),
            final(self).cursor_spec() == old(self).cursor_spec(),
    {
        self.pending = None;
        self.phase = Phase::Stopped;
    }

    pub fn current_phase(&self) -> (p: Phase)
        ensures
            p == self.phase_spec(),
    {
        self.phase
    }

    pub fn best(&self) -> (b: i64)
        ensures
            b == self.best_spec(),
    {
        self.feedback.best()
    }

    pub fn corpus_len(&self) -> (n: usize)
        ensures
            n == self.corpus_view().len(),
    {
        self.corpus.len()
    }

    pub fn corpus_entry(&self, idx: usize) -> (c: &Candidate)
        requires
            idx < self.corpus_view().len(),
        ensures
            c@ == self.corpus_view()[idx as int],
    {
        self.corpus.get(idx)
    }

    pub fn solutions_len(&self) -> (n: usize)
        ensures
            n == self.solutions_view().len(),
    {
        self.solutions.len()
    }

    pub fn solutions_entry(&self, idx: usize) -> (c: &Candidate)
        requires
            idx < self.solutions_view().len(),
        ensures
            c@ == self.solutions_view()[idx as int],
    {
        self.solutions.get(idx)
    }
}

/// Corpus accounting law: in every reachable engine state the corpus holds
/// exactly one entry per evaluation that returned true — seeds retained in
/// bootstrapping and children retained while iterating alike.
pub proof fn lemma_corpus_accounting(e: &Engine)
    requires
        e.wf(),
    ensures
        e.corpus_view().len() == retained_after(SCALAR_FLOOR, e.samples_view()),
{
}

/// Running-best law at the engine: in every reachable state the running best
/// never lies below the floor or below any scalar evaluated so far, and it
/// is exactly one of those — the maximum of the floor and every evaluated
/// scalar.
pub proof fn lemma_engine_best_is_maximum(e: &Engine)
    requires
        e.wf(),
    ensures
        e.best_spec() >= SCALAR_FLOOR,
        forall|i: int| 0 <= i < e.samples_view().len() ==> e.best_spec() >= e.samples_view()[i],
        e.best_spec() == SCALAR_FLOOR || exists|i: int|
            0 <= i < e.samples_view().len() && e.best_spec() == e.samples_view()[i],
{
    crate::feedback::lemma_running_best(SCALAR_FLOOR, e.samples_view());
}

/// Bootstrap bounds at the engine: the corpus never holds more entries than
/// evaluations made, and it holds at least one as soon as the first
/// evaluated scalar lay strictly above the floor.
pub proof fn lemma_engine_retention_bounds(e: &Engine)
    requires
        e.wf(),
    ensures
        e.corpus_view().len() <= e.samples_view().len(),
        e.samples_view().len() > 0 && e.samples_view()[0] > SCALAR_FLOOR
            ==> e.corpus_view().len() >= 1,
{
    crate::feedback::lemma_retained_bounds(SCALAR_FLOOR, e.samples_view());
}

/// Scheduling-safety law: once bootstrapping has handed over a non-empty
/// corpus, every iterating state keeps a parent available for the scheduler
/// — whatever the mutation strategy returns, a strategy that always skips
/// included, since the corpus never shrinks.
pub proof fn lemma_iterating_has_parent(e: &Engine)
    requires
        e.wf(),
        e.phase_spec() is Iterating,
    ensures
        e.corpus_view().len() > 0,
{
}

} // verus!
