use scalar_search::candidate::{Candidate, ExecutionOutcome, MutationResult};
use scalar_search::corpus::{Corpus, SolutionsStore};
use scalar_search::engine::{objective_hit, Engine, EngineError, Phase};
use scalar_search::feedback::{MeasureError, ScalarFeedback, SCALAR_FLOOR, SCALAR_SENTINEL};
use scalar_search::mutator::{ByteFlipMutator, MutationStrategy, NopMutator};
use scalar_search::scheduler::QueueScheduler;

/// Embed an `f64` reading into the `i64` key space so that integer order on
/// keys agrees with the standard total order on readings.
fn scalar_key(x: f64) -> i64 {
    let b = x.to_bits() as i64;
    if b < 0 {
        b ^ 0x7FFF_FFFF_FFFF_FFFF
    } else {
        b
    }
}

fn seed(bytes: &[u8]) -> Candidate {
    Candidate::new(bytes.to_vec())
}

#[test]
fn key_embedding_is_order_preserving() {
    assert_eq!(scalar_key(0.0), SCALAR_SENTINEL);
    assert!(scalar_key(2.0) < scalar_key(3.5));
    assert!(scalar_key(3.5) < scalar_key(9.0));
    assert!(scalar_key(-1.5) < scalar_key(0.0));
    assert!(SCALAR_FLOOR < scalar_key(f64::MIN));
    assert_eq!(scalar_key(3.5), scalar_key(3.5));
}

#[test]
fn running_best_scenario() {
    let mut e = Engine::new(4);
    let normal = ExecutionOutcome::Normal;

    let first = e.bootstrap_step(seed(b"a"), &normal, Ok(scalar_key(3.5)));
    assert!(first);
    assert_eq!(e.best(), scalar_key(3.5));
    assert_eq!(e.corpus_len(), 1);

    let second = e.bootstrap_step(seed(b"b"), &normal, Ok(scalar_key(2.0)));
    assert!(!second);
    assert_eq!(e.best(), scalar_key(3.5));
    assert_eq!(e.corpus_len(), 1);

    let third = e.bootstrap_step(seed(b"c"), &normal, Ok(scalar_key(3.5)));
    assert!(!third);
    assert_eq!(e.best(), scalar_key(3.5));
    assert_eq!(e.corpus_len(), 1);

    let fourth = e.bootstrap_step(seed(b"d"), &normal, Ok(scalar_key(9.0)));
    assert!(fourth);
    assert_eq!(e.best(), scalar_key(9.0));
    assert_eq!(e.corpus_len(), 2);
}

#[test]
fn running_best_is_non_decreasing() {
    let mut f = ScalarFeedback::new();
    let normal = ExecutionOutcome::Normal;
    let samples: [i64; 6] = [4, -7, 4, 11, 0, 11];
    let mut previous = f.best();
    for v in samples {
        f.evaluate(&normal, Ok(v));
        assert!(f.best() >= previous);
        previous = f.best();
    }
    assert_eq!(f.best(), 11);
}

#[test]
fn scheduler_queue_wraps() {
    let mut s = QueueScheduler::new();
    assert_eq!(s.next(3), 0);
    assert_eq!(s.next(3), 1);
    assert_eq!(s.next(3), 2);
    assert_eq!(s.next(3), 0);
}

#[test]
fn scheduler_wraps_when_corpus_shorter_than_cursor() {
    let mut s = QueueScheduler::new();
    assert_eq!(s.next(2), 0);
    assert_eq!(s.next(2), 1);
    assert_eq!(s.next(1), 0);
    assert_eq!(s.next(2), 1);
}

#[test]
fn error_sample_scores_as_sentinel() {
    let mut f = ScalarFeedback::new();
    let normal = ExecutionOutcome::Normal;
    assert_eq!(f.best(), SCALAR_FLOOR);

    // At the floor the sentinel still improves.
    let verdict = f.evaluate(&normal, Err(MeasureError::Unreadable));
    assert!(verdict);
    assert_eq!(f.best(), SCALAR_SENTINEL);

    // Once the best is at or above the sentinel, failures never raise it.
    assert!(!f.evaluate(&normal, Err(MeasureError::Unreadable)));
    assert_eq!(f.best(), SCALAR_SENTINEL);

    assert!(f.evaluate(&normal, Ok(scalar_key(1.25))));
    assert!(!f.evaluate(&normal, Err(MeasureError::Unparsable)));
    assert_eq!(f.best(), scalar_key(1.25));
}

#[test]
fn evaluation_scores_every_outcome_alike() {
    let mut a = ScalarFeedback::new();
    let mut b = ScalarFeedback::new();
    let mut c = ScalarFeedback::new();
    assert!(a.evaluate(&ExecutionOutcome::Normal, Ok(5)));
    assert!(b.evaluate(&ExecutionOutcome::Crashed, Ok(5)));
    assert!(c.evaluate(&ExecutionOutcome::TimedOut, Ok(5)));
    assert_eq!(a.best(), 5);
    assert_eq!(b.best(), 5);
    assert_eq!(c.best(), 5);
}

#[test]
fn bootstrap_retention_bounds() {
    let mut e = Engine::new(8);
    let normal = ExecutionOutcome::Normal;
    let readings: [f64; 8] = [1.0, 0.5, 2.0, 2.0, 1.75, 8.25, 3.0, 9.5];
    let mut retained: usize = 0;
    for r in readings {
        if e.bootstrap_step(seed(b"s"), &normal, Ok(scalar_key(r))) {
            retained += 1;
        }
    }
    assert!(e.corpus_len() >= 1);
    assert!(e.corpus_len() <= 8);
    assert_eq!(e.corpus_len(), retained);
    assert_eq!(retained, 4);
    assert!(e.begin_iterating().is_ok());
}

#[test]
fn corpus_length_counts_interesting_evaluations() {
    let mut e = Engine::new(2);
    let normal = ExecutionOutcome::Normal;
    assert!(e.bootstrap_step(seed(b"p"), &normal, Ok(10)));
    assert!(!e.bootstrap_step(seed(b"q"), &normal, Ok(3)));
    assert!(e.begin_iterating().is_ok());

    let mut strategy = NopMutator::new();
    let mut true_evaluations: usize = 1;
    let samples: [i64; 5] = [3, 15, 15, 2, 40];
    for v in samples {
        let _ = e.begin_cycle(&mut strategy);
        if e.complete_cycle(&normal, Ok(v)) {
            true_evaluations += 1;
        }
    }
    assert_eq!(e.corpus_len(), true_evaluations);
    assert_eq!(e.corpus_len(), 3);
}

#[test]
fn skipping_strategy_keeps_loop_sound() {
    let mut e = Engine::new(1);
    let normal = ExecutionOutcome::Normal;
    assert!(e.bootstrap_step(seed(b"only"), &normal, Ok(7)));
    assert!(e.begin_iterating().is_ok());

    let mut strategy = NopMutator::new();
    for _ in 0..5 {
        let (child, result) = e.begin_cycle(&mut strategy);
        assert_eq!(result, MutationResult::Skipped);
        assert_eq!(child.bytes().as_slice(), b"only");
        // A non-improving sample must not grow the corpus.
        assert!(!e.complete_cycle(&normal, Ok(7)));
        assert_eq!(e.corpus_len(), 1);
    }

    // Only a genuinely improving child is retained.
    let (_, _) = e.begin_cycle(&mut strategy);
    assert!(e.complete_cycle(&normal, Ok(8)));
    assert_eq!(e.corpus_len(), 2);
    assert_eq!(e.best(), 8);
}

#[test]
fn stalled_bootstrap_is_fatal() {
    let mut e = Engine::new(2);
    let normal = ExecutionOutcome::Normal;
    // A reading at the floor ties the initial best and is not interesting.
    assert!(!e.bootstrap_step(seed(b"x"), &normal, Ok(SCALAR_FLOOR)));
    assert!(!e.bootstrap_step(seed(b"y"), &normal, Ok(SCALAR_FLOOR)));
    assert_eq!(e.corpus_len(), 0);
    let r = e.begin_iterating();
    assert_eq!(r, Err(EngineError::StalledBootstrap));
    assert_eq!(e.current_phase(), Phase::Stopped);
}

#[test]
fn corpus_insert_get_len() {
    let mut c = Corpus::new();
    assert_eq!(c.len(), 0);
    assert_eq!(c.insert(seed(b"first")), 0);
    assert_eq!(c.insert(seed(b"second")), 1);
    assert_eq!(c.insert(seed(b"first")), 2);
    assert_eq!(c.len(), 3);
    assert_eq!(c.get(0).bytes().as_slice(), b"first");
    assert_eq!(c.get(1).bytes().as_slice(), b"second");
    assert_eq!(c.get(2).bytes().as_slice(), b"first");
}

#[test]
fn solutions_store_write_path() {
    let mut s = SolutionsStore::new();
    assert_eq!(s.len(), 0);
    assert_eq!(s.insert(seed(b"objective")), 0);
    assert_eq!(s.len(), 1);
    assert_eq!(s.get(0).bytes().as_slice(), b"objective");
}

#[test]
fn objective_never_fires() {
    assert!(!objective_hit(&ExecutionOutcome::Normal));
    assert!(!objective_hit(&ExecutionOutcome::Crashed));
    assert!(!objective_hit(&ExecutionOutcome::TimedOut));

    let mut e = Engine::new(1);
    assert!(e.bootstrap_step(seed(b"s"), &ExecutionOutcome::Crashed, Ok(1)));
    assert!(e.begin_iterating().is_ok());
    let mut strategy = NopMutator::new();
    let _ = e.begin_cycle(&mut strategy);
    let _ = e.complete_cycle(&ExecutionOutcome::Crashed, Ok(2));
    assert_eq!(e.solutions_len(), 0);
}

#[test]
fn candidate_duplicate_preserves_bytes() {
    let c = seed(b"\x00\xffpayload");
    let d = c.duplicate();
    assert_eq!(d.bytes().as_slice(), c.bytes().as_slice());
    assert_eq!(d.len(), 9);
    assert_eq!(d.byte_at(1), 0xff);
}

#[test]
fn byte_flip_mutates_exactly_one_byte() {
    let mut m = ByteFlipMutator::new(42);
    let parent = seed(b"abcdefgh");
    let (child, result) = m.mutate(&parent);
    assert_eq!(result, MutationResult::Mutated);
    assert_eq!(child.len(), parent.len());
    let differing = child
        .bytes()
        .iter()
        .zip(parent.bytes().iter())
        .filter(|(a, b)| a != b)
        .count();
    assert_eq!(differing, 1);
}

#[test]
fn byte_flip_skips_empty_parent() {
    let mut m = ByteFlipMutator::new(0);
    let parent = seed(b"");
    let (child, result) = m.mutate(&parent);
    assert_eq!(result, MutationResult::Skipped);
    assert_eq!(child.len(), 0);
}

#[test]
fn full_run_with_byte_flips() {
    let mut e = Engine::new(3);
    let normal = ExecutionOutcome::Normal;
    let mut best = 0.5f64;
    assert!(e.bootstrap_step(seed(b"genesis0"), &normal, Ok(scalar_key(best))));
    assert!(!e.bootstrap_step(seed(b"genesis1"), &normal, Ok(scalar_key(0.25))));
    assert!(!e.bootstrap_step(seed(b"genesis2"), &normal, Ok(scalar_key(0.5))));
    assert!(e.begin_iterating().is_ok());
    assert_eq!(e.current_phase(), Phase::Iterating);

    let mut strategy = ByteFlipMutator::new(7);
    for i in 0..10 {
        let (child, result) = e.begin_cycle(&mut strategy);
        assert_eq!(result, MutationResult::Mutated);
        assert_eq!(child.len(), 8);
        let reading = if i % 2 == 0 { best + 1.0 } else { best };
        let interesting = e.complete_cycle(&normal, Ok(scalar_key(reading)));
        assert_eq!(interesting, reading > best);
        if interesting {
            best = reading;
        }
    }
    assert_eq!(e.best(), scalar_key(best));
    assert_eq!(e.corpus_len(), 6);

    e.stop();
    assert_eq!(e.current_phase(), Phase::Stopped);
    assert_eq!(e.corpus_len(), 6);
    assert_eq!(e.corpus_entry(0).bytes().as_slice(), b"genesis0");
}
