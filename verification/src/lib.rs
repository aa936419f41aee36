//! A feedback-guided search engine: it repeatedly synthesizes candidate byte
//! strings, applies each to an external target, observes a scalar measurement
//! produced as a side effect, and retains the candidates that improve the best
//! measurement seen so far.
//!
//! The crate covers the search loop and its collaborating abstractions: the
//! candidate corpus, the queue scheduling policy, the scalar-feedback
//! evaluator that decides retention, and the mutation-strategy interface.
//! Applying a candidate to the target and sampling the measurement are
//! external collaborators: the surrounding program performs them and hands
//! their results to the engine as plain values.
//!
//! Scalars are carried as `i64` order keys: any total order on measurements
//! (such as the standard total order on floating-point readings) can be
//! embedded into `i64` by the caller, with `SCALAR_FLOOR` below every real
//! reading and `SCALAR_SENTINEL` the image of a failed reading.

pub mod candidate;
pub mod corpus;
pub mod engine;
pub mod feedback;
pub mod mutator;
pub mod scheduler;
