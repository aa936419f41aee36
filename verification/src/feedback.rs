use vstd::prelude::*;

verus! {

/// The lowest scalar key. The running best starts here, so every reading
/// that lies strictly above the floor improves on an untouched evaluator.
pub const SCALAR_FLOOR: i64 = i64::MIN;

/// The key a failed measurement is scored as. A caller embedding real
/// readings into keys places the zero reading here, so a broken measurement
/// channel degrades the search to "never improves" instead of aborting it.
pub const SCALAR_SENTINEL: i64 = 0;

/// Why the measurement source produced no scalar: the channel could not be
/// read, or what it delivered could not be parsed as a reading.
#[derive(Clone, Copy, PartialEq, Eq, Structural, Debug)]
pub enum MeasureError {
    Unreadable,
    Unparsable,
}

/// The scalar an evaluation scores: the delivered key, with every failed
/// measurement mapped to the sentinel rather than surfaced as an error.
pub open spec fn sample_scalar(sample: Result<i64, MeasureError>) -> i64 {
    match sample {
        Ok(v) => v,
        Err(_) => SCALAR_SENTINEL,
    }
}

/// A scalar is interesting exactly when it strictly exceeds the running
/// best; ties do not count.
pub open spec fn improves(best: i64, v: i64) -> bool {
    v > best
}

/// The running best after one evaluation of scalar `v`.
pub open spec fn step_best(best: i64, v: i64) -> i64 {
    if improves(best, v) {
        v
    } else {
        best
    }
}

/// The running best after evaluating the scalars `vs` in order, starting
/// from `init`.
pub open spec fn best_after(init: i64, vs: Seq<i64>) -> i64
    decreases vs.len(),
{
    if vs.len() == 0 {
        init
    } else {
        step_best(best_after(init, vs.drop_last()), vs.last())
    }
}

/// How many of the scalars `vs`, evaluated in order from `init`, were judged
/// interesting — that is, how many evaluations returned true.
pub open spec fn retained_after(init: i64, vs: Seq<i64>) -> nat
    decreases vs.len(),
{
    if vs.len() == 0 {
        0
    } else {
        retained_after(init, vs.drop_last()) + (if improves(
            best_after(init, vs.drop_last()),
            vs.last(),
        ) {
            1nat
        } else {
            0nat
        })
    }
}

/// The scalar-feedback evaluator. It owns the running best-observed scalar;
/// given a freshly sampled value it decides whether the triggering candidate
/// is interesting and, when it is, raises the running best to that value.
pub struct ScalarFeedback {
    best: i64,
}

impl ScalarFeedback {
    /// The running best this evaluator has seen.
    pub closed spec fn best_spec(&self) -> i64 {
        self.best
    }

    /// A fresh evaluator, with the running best at the floor.
    pub fn new() -> (r: ScalarFeedback)
        ensures
            r.best_spec() == SCALAR_FLOOR,
    {
        ScalarFeedback { best: i64::MIN }
    }

    pub fn best(&self) -> (b: i64)
        ensures
            b == self.best_spec(),
    {
        self.best
    }

    /// Decide whether the candidate that triggered `sample` is interesting.
    ///
    /// The comparison is strictly greater-than against the running best; on
    /// an improvement the running best is overwritten with the new scalar.
    /// A failed measurement is scored as the sentinel, never retried and
    /// never surfaced: evaluation always returns a verdict. The execution
    /// outcome is received but does not gate scoring — the default policy
    /// scores every outcome alike.
    pub fn evaluate(
        &mut self,
        outcome: &crate::candidate::ExecutionOutcome,
        sample: Result<i64, MeasureError>,
    ) -> (interesting: bool)
        ensures
            interesting == improves(old(self).best_spec(), sample_scalar(sample)),
            final(self).best_spec() == step_best(old(self).best_spec(), sample_scalar(sample)),
    {
        let _ = outcome;
        let value = match sample {
            Ok(v) => v,
            Err(_) => SCALAR_SENTINEL,
        };
        if value > self.best {
            self.best = value;
            true
        } else {
            false
        }
    }
}

/// Running-best law: over any sequence of evaluations the running best never
/// falls below its starting point, never falls below any scalar seen, and is
/// exactly one of those two — the maximum of the start value and every
/// scalar evaluated.
pub proof fn lemma_running_best(init: i64, vs: Seq<i64>)
    ensures
        best_after(init, vs) >= init,
        forall|i: int| 0 <= i < vs.len() ==> best_after(init, vs) >= vs[i],
        best_after(init, vs) == init || exists|i: int|
            0 <= i < vs.len() && best_after(init, vs) == vs[i],
    decreases vs.len(),
{
    if vs.len() > 0 {
        lemma_running_best(init, vs.drop_last());
        let prev = best_after(init, vs.drop_last());
        assert(forall|i: int|
            0 <= i < vs.len() - 1 ==> vs.drop_last()[i] == vs[i]);
        if best_after(init, vs) == vs.last() {
            assert(best_after(init, vs) == vs[vs.len() - 1]);
        }
    }
}

/// Running-best monotonicity: evaluating further scalars can only raise the
/// running best, so it is non-decreasing along every prefix of a run.
pub proof fn lemma_running_best_monotone(init: i64, vs: Seq<i64>, n: int)
    requires
        0 <= n <= vs.len(),
    ensures
        best_after(init, vs.take(n)) <= best_after(init, vs),
    decreases vs.len(),
{
    if n == vs.len() {
        assert(vs.take(n) =~= vs);
    } else {
        assert(vs.drop_last() =~= vs.take(vs.len() - 1));
        assert(vs.take(n) =~= vs.drop_last().take(n));
        lemma_running_best_monotone(init, vs.drop_last(), n);
    }
}

/// Failed-measurement law: a failed reading is scored as the sentinel, so it
/// is interesting exactly when the running best still lies below the
/// sentinel — in particular when it is still at the floor — and otherwise
/// leaves the running best unchanged.
pub proof fn lemma_error_sample(best: i64, e: MeasureError)
    ensures
        sample_scalar(Err(e)) == SCALAR_SENTINEL,
        improves(best, sample_scalar(Err(e))) <==> best < SCALAR_SENTINEL,
        best >= SCALAR_SENTINEL ==> step_best(best, sample_scalar(Err(e))) == best,
        best == SCALAR_FLOOR ==> improves(best, sample_scalar(Err(e))),
{
}

/// Bootstrap retention bounds: a run of `vs.len()` evaluations retains at
/// most one candidate per evaluation, and when the first scalar lies
/// strictly above the start value the first evaluation already retains one.
pub proof fn lemma_retained_bounds(init: i64, vs: Seq<i64>)
    ensures
        retained_after(init, vs) <= vs.len(),
        vs.len() > 0 && improves(init, vs[0]) ==> retained_after(init, vs) >= 1,
    decreases vs.len(),
{
    if vs.len() > 0 {
        lemma_retained_bounds(init, vs.drop_last());
        if vs.len() > 1 {
            assert(vs.drop_last()[0] == vs[0]);
        }
    }
}

} // verus!
