//! The job side of a block builder: payload jobs, their deadlines, their
//! cancellation and the state they start from, as verified values.

pub mod cache;
pub mod cancellation;
pub mod channel;
pub mod error;
pub mod generator;
pub mod hash;
pub mod job;
pub mod laws;
pub mod resolve;
pub mod runtime_ext;
mod shared;
pub mod time;
