//! The channel on which a build task publishes payloads.

use tokio::sync::watch::{Receiver, Sender};
use vstd::prelude::*;

verus! {

/// `tokio::sync::watch::Sender`, carried and never looked into.
#[verifier::external_type_specification]
#[verifier::external_body]
#[verifier::reject_recursive_types(T)]
pub struct ExSender<T>(tokio::sync::watch::Sender<T>);

/// `tokio::sync::watch::Receiver`, carried and never looked into.
#[verifier::external_type_specification]
#[verifier::external_body]
#[verifier::reject_recursive_types(T)]
pub struct ExReceiver<T>(tokio::sync::watch::Receiver<T>);

/// `tokio::sync::watch::error::RecvError`, carried and never looked into.
#[verifier::external_type_specification]
#[verifier::external_body]
pub struct ExRecvError(tokio::sync::watch::error::RecvError);

/// `tokio::sync::watch::channel`, the two ends of a new channel that holds `init`. That
/// two ends came out of one such call is [`ends_of_one_channel`]. What stands in the
/// channel later changes as others send, so nothing is claimed of that.
pub assume_specification<T>[ tokio::sync::watch::channel::<T> ](init: T) -> (ends: (
    Sender<T>,
    Receiver<T>,
));

/// A sender and a receiver are the two ends of one channel, which was opened with `init`.
pub open spec fn ends_of_one_channel<T>(init: T, sender: Sender<T>, receiver: Receiver<T>) -> bool {
    call_ensures(tokio::sync::watch::channel::<T>, (init,), (sender, receiver))
}

/// Calls `tokio::sync::watch::Receiver::borrow` and clones what it refers to: the
/// value that was sent last, or the first value of the channel. Which one that is
/// depends on what others have sent by now, so nothing is claimed of it but that this
/// receiver gave it, which is [`seen_in`].
#[verifier::external_body]
fn latest<T: Clone>(receiver: &Receiver<T>) -> (value: T) {
    receiver.borrow().clone()
}

/// A look into `receiver` found `value`.
pub closed spec fn seen_in<T: Clone>(receiver: Receiver<T>, value: T) -> bool {
    call_ensures(latest::<T>, (&receiver,), value)
}

/// Looks into a channel, which stays as it is.
pub fn look<T: Clone>(receiver: &Receiver<T>) -> (value: T)
    ensures
        seen_in(*receiver, value),
{
    latest(receiver)
}

} // verus!
