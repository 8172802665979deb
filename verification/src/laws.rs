//! What holds of calls and their results.
//!
//! Each law takes calls, as arguments and results that a function's contract allows, and
//! says how they relate. None goes through the vocabulary of the contracts: spans and
//! clock readings are counted in nanoseconds, cancellations are known by what the registry
//! answers, jobs and caches by their fields.

pub mod cache;
pub mod cancellation;
pub mod generator;
pub mod job;
pub mod time;
