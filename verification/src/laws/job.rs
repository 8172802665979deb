//! Laws of jobs, of handing out their payloads and of work on other threads.

use crate::cancellation::{CancellationRegistry, PayloadJobCancellation};
use crate::channel::seen_in;
use crate::error::PayloadBuilderError;
use crate::job::{
    published_payload, BlockPayloadJob, BuildTask, JobStatus, KeepPayloadJobAlive, PayloadConfig,
    PayloadKind,
};
use crate::resolve::{ResolvePayload, ResolveStep};
use crate::runtime_ext::{blocking_task_outcome, BlockingTaskError};
use tokio::sync::watch::error::RecvError;
use tokio::sync::watch::Receiver;
use tokio::task::JoinError;
use vstd::prelude::*;

verus! {

// The end of a job

/// A job has ended exactly if its deadline is reached or it was cancelled before, and then
/// it is cancelled. A payload that was not handed out is not handed out by this.
pub proof fn law_job_ends_when_cancelled<A, H, P, I>(
    job: BlockPayloadJob<A, H, P, I>,
    registry: &mut CancellationRegistry,
    deadline_reached: bool,
    status: JobStatus,
    cancelled_before: bool,
    resolved_before: bool,
    cancelled: bool,
    resolved: bool,
)
    requires
        call_ensures(
            BlockPayloadJob::<A, H, P, I>::poll,
            (&job, registry, deadline_reached),
            status,
        ),
        call_ensures(
            CancellationRegistry::is_cancelled,
            (&*old(registry), job.cancel),
            cancelled_before,
        ),
        call_ensures(
            CancellationRegistry::is_resolved,
            (&*old(registry), job.cancel),
            resolved_before,
        ),
        call_ensures(
            CancellationRegistry::is_cancelled,
            (&*final(registry), job.cancel),
            cancelled,
        ),
        call_ensures(CancellationRegistry::is_resolved, (&*final(registry), job.cancel), resolved),
    ensures
        status == JobStatus::Finished <==> deadline_reached || cancelled_before,
        status == JobStatus::Finished <==> cancelled,
        resolved == resolved_before,
{
}

/// To poll a job notes that its deadline is reached, and changes nothing else, of this job
/// or of another.
pub proof fn law_poll_notes_the_deadline<A, H, P, I>(
    job: BlockPayloadJob<A, H, P, I>,
    registry: &mut CancellationRegistry,
    deadline_reached: bool,
    status: JobStatus,
    id: u64,
)
    requires
        call_ensures(
            BlockPayloadJob::<A, H, P, I>::poll,
            (&job, registry, deadline_reached),
            status,
        ),
    ensures
        final(registry)@.contains_key(job.cancel@),
        final(registry)@[job.cancel@].deadline == (old(registry)@[job.cancel@].deadline
            || deadline_reached),
        final(registry)@[job.cancel@].new_fcu == old(registry)@[job.cancel@].new_fcu,
        final(registry)@[job.cancel@].resolved == old(registry)@[job.cancel@].resolved,
        id != job.cancel@ ==> {
            &&& final(registry)@.contains_key(id) <==> old(registry)@.contains_key(id)
            &&& final(registry)@[id] == old(registry)@[id]
        },
{
}

/// A job that has ended has ended at every later poll; one that goes on goes on until its
/// deadline is reached.
pub proof fn law_two_polls<A, H, P, I>(
    job: BlockPayloadJob<A, H, P, I>,
    first_registry: &mut CancellationRegistry,
    second_registry: &mut CancellationRegistry,
    reached_first: bool,
    reached_second: bool,
    first: JobStatus,
    second: JobStatus,
)
    requires
        call_ensures(
            BlockPayloadJob::<A, H, P, I>::poll,
            (&job, first_registry, reached_first),
            first,
        ),
        *old(second_registry) == *final(first_registry),
        call_ensures(
            BlockPayloadJob::<A, H, P, I>::poll,
            (&job, second_registry, reached_second),
            second,
        ),
    ensures
        first == JobStatus::Finished ==> second == JobStatus::Finished,
        first == JobStatus::Running ==> (second == JobStatus::Finished <==> reached_second),
{
}

// The payload of a job

/// The payload that was published is the payload of the job; without one it is missing.
pub proof fn law_published_is_the_payload<P>(
    published: Option<P>,
    payload: Result<P, PayloadBuilderError>,
)
    requires
        call_ensures(published_payload::<P>, (published,), payload),
    ensures
        published matches Some(p) ==> payload == Ok::<P, PayloadBuilderError>(p),
        published is None ==> payload matches Err(PayloadBuilderError::MissingPayload),
{
}

/// The best payload is what a look into the channel found. Where nothing stood there, or
/// there is no channel, it is missing.
pub proof fn law_best_payload_is_seen<A, H, P: Clone, I>(
    job: BlockPayloadJob<A, H, P, I>,
    payload: Result<P, PayloadBuilderError>,
)
    requires
        call_ensures(BlockPayloadJob::<A, H, P, I>::best_payload, (&job,), payload),
    ensures
        payload matches Ok(p) ==> (job.payload_rx matches Some(receiver) && seen_in(
            receiver,
            Some(p),
        )),
        payload matches Err(error) ==> {
            &&& error == PayloadBuilderError::MissingPayload
            &&& job.payload_rx matches Some(receiver) ==> seen_in(receiver, None)
        },
{
}

/// The attributes of a job are a clone of those it was made with.
pub proof fn law_attributes_are_those_asked_for<A: Clone, H, P, I>(
    job: BlockPayloadJob<A, H, P, I>,
    attributes: Result<A, PayloadBuilderError>,
)
    requires
        call_ensures(BlockPayloadJob::<A, H, P, I>::payload_attributes, (&job,), attributes),
    ensures
        attributes is Ok && cloned(job.config.attributes, attributes->Ok_0),
{
}

/// The clone of a configuration has the same parent and a clone of the attributes.
pub proof fn law_configurations_are_cloned<A: Clone, H>(
    config: PayloadConfig<A, H>,
    clone: PayloadConfig<A, H>,
)
    requires
        call_ensures(PayloadConfig::<A, H>::clone, (&config,), clone),
    ensures
        *clone.parent_header == *config.parent_header,
        cloned(config.attributes, clone.attributes),
{
}

/// A build task builds what its job asks for, under the cancellation of the job, and
/// publishes on the channel into which the job looks. It takes the reads of the job.
pub proof fn law_task_builds_for_its_job<A: Clone, H, P, I>(
    job: &mut BlockPayloadJob<A, H, P, I>,
    task: BuildTask<A, H, P, I>,
)
    requires
        call_ensures(BlockPayloadJob::<A, H, P, I>::spawn_build_job, (job,), task),
    ensures
        *task.args.config.parent_header == *old(job).config.parent_header,
        cloned(old(job).config.attributes, task.args.config.attributes),
        task.args.cancel == old(job).cancel,
        *task.args.cached_reads == *old(job).cached_reads,
        final(job).payload_rx matches Some(receiver) && call_ensures(
            tokio::sync::watch::channel::<Option<P>>,
            (None,),
            (task.best_payload_tx, receiver),
        ),
        final(job).cached_reads.accounts@.len() == 0,
        final(job).config == old(job).config,
        final(job).cancel == old(job).cancel,
        final(job).deadline == old(job).deadline,
{
    assert(final(job).cached_reads@.len() == final(job).cached_reads.accounts@.len());
}

// Handing a payload out

/// Whatever kind of payload is asked for, the channel and the cancellation of the job are
/// handed out, and the job need not be kept. It has lost its channel and nothing else.
pub proof fn law_channel_is_handed_out<A, H, P, I>(
    job: &mut BlockPayloadJob<A, H, P, I>,
    kind: PayloadKind,
    resolved: (ResolvePayload<P>, KeepPayloadJobAlive),
)
    requires
        call_ensures(BlockPayloadJob::<A, H, P, I>::resolve_kind, (job, kind), resolved),
    ensures
        resolved.0.payload_rx == old(job).payload_rx,
        resolved.0.cancellation == old(job).cancel,
        resolved.1 == KeepPayloadJobAlive::No,
        final(job).payload_rx is None,
        final(job).config == old(job).config,
        final(job).cancel == old(job).cancel,
        final(job).deadline == old(job).deadline,
        final(job).cached_reads == old(job).cached_reads,
{
}

/// Once its payload was asked for, a job has no best payload, and whoever asks again is
/// told that the receiver is missing, while the cancellations stay as they are.
pub proof fn law_payload_is_handed_out_once<A, H, P: Clone, I>(
    job: &mut BlockPayloadJob<A, H, P, I>,
    again: &mut BlockPayloadJob<A, H, P, I>,
    registry: &mut CancellationRegistry,
    kinds: (PayloadKind, PayloadKind),
    first: (ResolvePayload<P>, KeepPayloadJobAlive),
    second: (ResolvePayload<P>, KeepPayloadJobAlive),
    best: Result<P, PayloadBuilderError>,
    step: ResolveStep<P>,
)
    requires
        call_ensures(BlockPayloadJob::<A, H, P, I>::resolve_kind, (job, kinds.0), first),
        call_ensures(BlockPayloadJob::<A, H, P, I>::best_payload, (&*final(job),), best),
        *old(again) == *final(job),
        call_ensures(BlockPayloadJob::<A, H, P, I>::resolve_kind, (again, kinds.1), second),
        call_ensures(ResolvePayload::<P>::step, (&second.0, registry), step),
    ensures
        best matches Err(PayloadBuilderError::MissingPayload),
        step matches ResolveStep::Ready(Err(PayloadBuilderError::Other(words))) && words@
            == "payload receiver missing"@,
        final(registry)@ == old(registry)@,
{
}

/// What prepares to hand a payload out holds the channel and the cancellation it was given.
pub proof fn law_resolver_holds_its_channel<T>(
    payload_rx: Option<Receiver<Option<T>>>,
    cancellation: PayloadJobCancellation,
    resolve: ResolvePayload<T>,
)
    requires
        call_ensures(ResolvePayload::<T>::new, (payload_rx, cancellation), resolve),
    ensures
        resolve.payload_rx == payload_rx,
        resolve.cancellation == cancellation,
{
}

/// A payload that is found is handed out, and its job is then cancelled as resolved. No
/// other reason is added, and no other job is touched.
pub proof fn law_found_payload_is_handed_out<T>(
    resolve: ResolvePayload<T>,
    registry: &mut CancellationRegistry,
    payload: T,
    step: ResolveStep<T>,
    cancelled: bool,
    resolved: bool,
    id: u64,
)
    requires
        call_ensures(ResolvePayload::<T>::on_value, (&resolve, registry, Some(payload)), step),
        call_ensures(
            CancellationRegistry::is_cancelled,
            (&*final(registry), resolve.cancellation),
            cancelled,
        ),
        call_ensures(
            CancellationRegistry::is_resolved,
            (&*final(registry), resolve.cancellation),
            resolved,
        ),
    ensures
        step == ResolveStep::Ready(Ok::<T, PayloadBuilderError>(payload)),
        cancelled && resolved,
        final(registry)@[resolve.cancellation@].new_fcu == old(registry)@[resolve.cancellation@].new_fcu,
        final(registry)@[resolve.cancellation@].deadline == old(registry)@[resolve.cancellation@].deadline,
        id != resolve.cancellation@ ==> {
            &&& final(registry)@.contains_key(id) <==> old(registry)@.contains_key(id)
            &&& final(registry)@[id] == old(registry)@[id]
        },
{
}

/// Where no payload is found there is a wait, and nothing has changed.
pub proof fn law_no_payload_is_waited_for<T>(
    resolve: ResolvePayload<T>,
    registry: &mut CancellationRegistry,
    step: ResolveStep<T>,
)
    requires
        call_ensures(ResolvePayload::<T>::on_value, (&resolve, registry, None), step),
    ensures
        step is AwaitChange,
        final(registry)@ == old(registry)@,
{
}

/// A wait goes on as long as the channel is open; where it closes, the builder exited.
pub proof fn law_closed_channel_ends_the_wait<T>(
    resolve: ResolvePayload<T>,
    changed: Result<(), RecvError>,
    outcome: Result<(), PayloadBuilderError>,
)
    requires
        call_ensures(ResolvePayload::<T>::on_changed, (&resolve, changed), outcome),
    ensures
        changed is Ok ==> outcome is Ok,
        changed is Err ==> (outcome matches Err(PayloadBuilderError::Other(words)) && words@
            == "builder exited before producing payload"@),
{
}

/// A step with a channel looks into it: a payload that it finds is handed out and its job
/// is cancelled as resolved; where it finds none it waits and changes nothing. A step
/// without a channel fails and changes nothing.
pub proof fn law_step_looks_into_the_channel<T: Clone>(
    resolve: ResolvePayload<T>,
    registry: &mut CancellationRegistry,
    step: ResolveStep<T>,
    id: u64,
)
    requires
        call_ensures(ResolvePayload::<T>::step, (&resolve, registry), step),
    ensures
        match (resolve.payload_rx, step) {
            (Some(receiver), ResolveStep::Ready(Ok(payload))) => {
                &&& seen_in(receiver, Some(payload))
                &&& final(registry)@.contains_key(resolve.cancellation@)
                &&& final(registry)@[resolve.cancellation@].resolved
                &&& final(registry)@[resolve.cancellation@].new_fcu == old(registry)@[resolve.cancellation@].new_fcu
                &&& final(registry)@[resolve.cancellation@].deadline == old(registry)@[resolve.cancellation@].deadline
            },
            (Some(receiver), ResolveStep::AwaitChange) => {
                &&& seen_in(receiver, None)
                &&& final(registry)@ == old(registry)@
            },
            (None, ResolveStep::Ready(Err(PayloadBuilderError::Other(words)))) => {
                &&& words@ == "payload receiver missing"@
                &&& final(registry)@ == old(registry)@
            },
            _ => false,
        },
        id != resolve.cancellation@ ==> {
            &&& final(registry)@.contains_key(id) <==> old(registry)@.contains_key(id)
            &&& final(registry)@[id] == old(registry)@[id]
        },
{
}

/// A job whose payload was handed out has ended at its next poll, whether or not its
/// deadline is reached.
pub proof fn law_handed_out_job_has_ended<A, H, P, I>(
    job: &mut BlockPayloadJob<A, H, P, I>,
    kind: PayloadKind,
    resolved: (ResolvePayload<P>, KeepPayloadJobAlive),
    registry: &mut CancellationRegistry,
    payload: P,
    step: ResolveStep<P>,
    then: &mut CancellationRegistry,
    deadline_reached: bool,
    status: JobStatus,
)
    requires
        call_ensures(BlockPayloadJob::<A, H, P, I>::resolve_kind, (job, kind), resolved),
        call_ensures(ResolvePayload::<P>::on_value, (&resolved.0, registry, Some(payload)), step),
        *old(then) == *final(registry),
        call_ensures(
            BlockPayloadJob::<A, H, P, I>::poll,
            (&*final(job), then, deadline_reached),
            status,
        ),
    ensures
        status == JobStatus::Finished,
{
}

// Work on other threads

/// What a blocking task returned comes back as it is; an error is told apart from a task
/// that did not run to its end.
pub proof fn law_blocking_task_outcome<T, E>(
    joined: Result<Result<T, E>, JoinError>,
    outcome: Result<T, BlockingTaskError<E>>,
)
    requires
        call_ensures(blocking_task_outcome::<T, E>, (joined,), outcome),
    ensures
        match outcome {
            Ok(value) => joined == Ok::<Result<T, E>, JoinError>(Ok(value)),
            Err(BlockingTaskError::Returned(error)) => joined == Ok::<Result<T, E>, JoinError>(
                Err(error),
            ),
            Err(BlockingTaskError::NotJoined(failure)) => joined == Err::<
                Result<T, E>,
                JoinError,
            >(failure),
        },
{
}

} // verus!
