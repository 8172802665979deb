//! Results of work that another thread did.

use tokio::task::JoinError;
use vstd::prelude::*;

verus! {

/// `tokio::task::JoinError`, carried and never looked into.
#[verifier::external_type_specification]
#[verifier::external_body]
pub struct ExJoinError(tokio::task::JoinError);

/// Why a blocking task has no result. `E` is the error of the task itself.
#[derive(Debug)]
pub enum BlockingTaskError<E> {
    /// The task returned this error.
    Returned(E),
    /// The task did not run to its end.
    NotJoined(JoinError),
}

/// What a caller gets of a blocking task once its thread has been joined: what the task
/// returned, or why it did not run to its end.
pub fn blocking_task_outcome<T, E>(joined: Result<Result<T, E>, JoinError>) -> (outcome: Result<
    T,
    BlockingTaskError<E>,
>)
    ensures
        match joined {
            Ok(Ok(value)) => outcome == Ok::<T, BlockingTaskError<E>>(value),
            Ok(Err(error)) => outcome == Err::<T, BlockingTaskError<E>>(
                BlockingTaskError::Returned(error),
            ),
            Err(failure) => outcome == Err::<T, BlockingTaskError<E>>(
                BlockingTaskError::NotJoined(failure),
            ),
        },
{
    match joined {
        Ok(Ok(value)) => Ok(value),
        Ok(Err(error)) => Err(BlockingTaskError::Returned(error)),
        Err(failure) => Err(BlockingTaskError::NotJoined(failure)),
    }
}

} // verus!
