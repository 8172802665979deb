//! Errors of payload jobs.

use crate::hash::BlockHash;
use vstd::prelude::*;

verus! {

/// Why no payload could be built or handed out.
#[derive(Debug)]
pub enum PayloadBuilderError {
    /// The parent block of the job, named by its hash, is not known.
    MissingParentBlock(BlockHash),
    /// The job has no payload yet.
    MissingPayload,
    /// Any other reason, in words.
    Other(String),
}

impl PayloadBuilderError {
    /// Whether this is the reason that `words` give.
    pub open spec fn says(self, words: Seq<char>) -> bool {
        self matches PayloadBuilderError::Other(message) && message@ == words
    }
}

} // verus!
