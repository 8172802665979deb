//! Handing out the payload of a job.

use crate::cancellation::{CancelReasons, CancellationRegistry, PayloadJobCancellation};
use crate::channel::{look, seen_in};
use crate::error::PayloadBuilderError;
use tokio::sync::watch::error::RecvError;
use tokio::sync::watch::Receiver;
use vstd::prelude::*;

verus! {

/// What to do next to hand out a payload.
#[derive(Debug)]
pub enum ResolveStep<T> {
    /// Return this.
    Ready(Result<T, PayloadBuilderError>),
    /// Wait until the channel changes or closes.
    AwaitChange,
}

/// Resolves with the latest payload of a job and waits for the first one if there is
/// none yet.
#[verifier::reject_recursive_types(T)]
pub struct ResolvePayload<T> {
    /// The channel on which payloads are published, if the job still had it.
    pub payload_rx: Option<Receiver<Option<T>>>,
    /// The cancellation of the job.
    pub cancellation: PayloadJobCancellation,
}

/// What to do next when `value` stands in the channel: hand a payload out, and wait where
/// there is none.
pub open spec fn step_for<T>(value: Option<T>) -> ResolveStep<T> {
    match value {
        Some(payload) => ResolveStep::Ready(Ok(payload)),
        None => ResolveStep::AwaitChange,
    }
}

/// Where a [`ResolvePayload`] with a channel stands.
pub enum Resolution<T> {
    /// It waits for a change of the channel.
    Waiting,
    /// It handed out a payload.
    Resolved(T),
    /// It failed because the channel closed before there was a payload.
    BuilderExited,
}

/// Where it stands after it has looked into the channel and found `looks`, one after
/// the other with a wait between any two, and after a last wait that found the channel
/// closed if `closed`; and the reasons for which its job is cancelled then, if it was
/// for `reasons` before.
pub open spec fn resolution<T>(looks: Seq<Option<T>>, closed: bool, reasons: CancelReasons) -> (
    Resolution<T>,
    CancelReasons,
)
    decreases looks.len(),
{
    if looks.len() == 0 {
        (
            if closed {
                Resolution::BuilderExited
            } else {
                Resolution::Waiting
            },
            reasons,
        )
    } else {
        match looks[0] {
            Some(payload) => (Resolution::Resolved(payload), reasons.with_resolved()),
            None => resolution(looks.drop_first(), closed, reasons),
        }
    }
}

/// Where a look into the channel leads that ends in `step`. A step that fails comes of no
/// look: there was no channel to look into.
pub open spec fn reached<T>(step: ResolveStep<T>) -> Option<Resolution<T>> {
    match step {
        ResolveStep::Ready(Ok(payload)) => Some(Resolution::Resolved(payload)),
        ResolveStep::Ready(Err(_)) => None,
        ResolveStep::AwaitChange => Some(Resolution::Waiting),
    }
}

impl<T> ResolvePayload<T> {
    /// Prepares to hand out what is published on `payload_rx`.
    pub fn new(
        payload_rx: Option<Receiver<Option<T>>>,
        cancellation: PayloadJobCancellation,
    ) -> (resolve: ResolvePayload<T>)
        ensures
            resolve.payload_rx == payload_rx,
            resolve.cancellation == cancellation,
    {
        ResolvePayload { payload_rx, cancellation }
    }

    /// Goes on with the value that stands in the channel: a payload is handed out and
    /// its job cancelled as resolved; without one there is nothing but to wait.
    pub fn on_value(&self, registry: &mut CancellationRegistry, value: Option<T>) -> (step:
        ResolveStep<T>)
        requires
            old(registry).well_formed(),
            old(registry).holds(self.cancellation),
        ensures
            final(registry).well_formed(),
            final(registry).issued() == old(registry).issued(),
            final(registry)@ == (if value is Some {
                old(registry)@.insert(
                    self.cancellation@,
                    old(registry).reasons(self.cancellation).with_resolved(),
                )
            } else {
                old(registry)@
            }),
            step == step_for(value),
            ({
                let (resolution, reasons) = resolution(
                    seq![value],
                    false,
                    old(registry).reasons(self.cancellation),
                );
                &&& reached(step) == Some(resolution)
                &&& final(registry).reasons(self.cancellation) == reasons
            }),
    {
        proof {
            reveal_with_fuel(resolution, 2);
        }
        match value {
            Some(payload) => {
                registry.cancel_resolved(self.cancellation);
                ResolveStep::Ready(Ok(payload))
            },
            None => ResolveStep::AwaitChange,
        }
    }

    /// Goes on after the wait for a change of the channel: a channel that closed will
    /// never hold a payload.
    pub fn on_changed(&self, changed: Result<(), RecvError>) -> (outcome: Result<
        (),
        PayloadBuilderError,
    >)
        ensures
            changed is Ok <==> outcome is Ok,
            outcome matches Err(error) ==> error.says("builder exited before producing payload"@),
            forall|reasons: CancelReasons|
                (#[trigger] resolution(Seq::<Option<T>>::empty(), changed is Err, reasons)) == (
                    if outcome is Err {
                        Resolution::<T>::BuilderExited
                    } else {
                        Resolution::<T>::Waiting
                    },
                    reasons,
                ),
    {
        match changed {
            Ok(()) => Ok(()),
            Err(_) => Err(
                PayloadBuilderError::Other("builder exited before producing payload".to_owned()),
            ),
        }
    }
}

impl<T: Clone> ResolvePayload<T> {
    /// Looks into the channel and goes on with what stands there. Without a channel
    /// there is no payload to hand out.
    pub fn step(&self, registry: &mut CancellationRegistry) -> (step: ResolveStep<T>)
        requires
            old(registry).well_formed(),
            old(registry).holds(self.cancellation),
        ensures
            final(registry).well_formed(),
            final(registry).issued() == old(registry).issued(),
            self.payload_rx is None ==> {
                &&& step matches ResolveStep::Ready(Err(error))
                &&& error.says("payload receiver missing"@)
                &&& final(registry)@ == old(registry)@
            },
            self.payload_rx matches Some(receiver) ==> {
                &&& exists|value: Option<T>| #[trigger]
                    seen_in(receiver, value) && step == step_for(value)
                &&& final(registry)@ == (if step is Ready {
                    old(registry)@.insert(
                        self.cancellation@,
                        old(registry).reasons(self.cancellation).with_resolved(),
                    )
                } else {
                    old(registry)@
                })
            },
    {
        match &self.payload_rx {
            None => ResolveStep::Ready(
                Err(PayloadBuilderError::Other("payload receiver missing".to_owned())),
            ),
            Some(receiver) => {
                let value: Option<T> = look(receiver);
                self.on_value(registry, value)
            },
        }
    }
}

/// To go on with further looks is to go on from where the looks so far have led.
pub proof fn law_looks_compose<T>(
    so_far: Seq<Option<T>>,
    further: Seq<Option<T>>,
    closed: bool,
    reasons: CancelReasons,
)
    ensures
        resolution(so_far + further, closed, reasons) == (match resolution(so_far, false, reasons) {
            (Resolution::Waiting, _) => resolution(further, closed, reasons),
            (reached, then) => (reached, then),
        }),
    decreases so_far.len(),
{
    if so_far.len() == 0 {
        assert(so_far + further =~= further);
    } else {
        assert((so_far + further).drop_first() =~= so_far.drop_first() + further);
        law_looks_compose(so_far.drop_first(), further, closed, reasons);
    }
}

/// The first payload that is seen is handed out, and the job is cancelled as resolved,
/// whatever happens to the channel later.
pub proof fn law_first_payload_resolves<T>(
    looks: Seq<Option<T>>,
    first: int,
    closed: bool,
    reasons: CancelReasons,
)
    requires
        0 <= first < looks.len(),
        looks[first] is Some,
        forall|i: int| 0 <= i < first ==> looks[i] is None,
    ensures
        resolution(looks, closed, reasons) == (
            Resolution::Resolved(looks[first]->0),
            reasons.with_resolved(),
        ),
    decreases first,
{
    if first > 0 {
        assert(looks[0] is None);
        law_first_payload_resolves(looks.drop_first(), first - 1, closed, reasons);
    }
}

/// As long as no payload is seen none is handed out and the job is not cancelled; the
/// wait ends in an error exactly if the channel closes.
pub proof fn law_no_payload_no_resolution<T>(
    looks: Seq<Option<T>>,
    closed: bool,
    reasons: CancelReasons,
)
    requires
        forall|i: int| 0 <= i < looks.len() ==> looks[i] is None,
    ensures
        resolution(looks, closed, reasons) == (
            if closed {
                Resolution::<T>::BuilderExited
            } else {
                Resolution::<T>::Waiting
            },
            reasons,
        ),
    decreases looks.len(),
{
    if looks.len() > 0 {
        assert(looks[0] is None);
        law_no_payload_no_resolution(looks.drop_first(), closed, reasons);
    }
}

} // verus!
