//! Payload jobs: what one builds on, its build task, and when it ends.

use crate::cache::{CachedEntry, CachedReads};
use crate::cancellation::{CancelReasons, CancellationRegistry, PayloadJobCancellation};
use crate::channel::{ends_of_one_channel, look, seen_in};
use crate::error::PayloadBuilderError;
use crate::hash::BlockHash;
use crate::resolve::{law_no_payload_no_resolution, resolution, Resolution, ResolvePayload};
use crate::shared::share;
use crate::time::TimeSpan;
use std::sync::Arc;
use tokio::sync::watch::{Receiver, Sender};
use vstd::prelude::*;

verus! {

/// A block header and its hash.
#[derive(Debug)]
pub struct SealedHeader<H> {
    /// The hash of the header.
    pub hash: BlockHash,
    /// The header.
    pub header: H,
}

/// How a payload is to be built: on which block, and with which attributes.
#[derive(Debug)]
pub struct PayloadConfig<A, H> {
    /// The block to build on.
    pub parent_header: Arc<SealedHeader<H>>,
    /// What was asked for.
    pub attributes: A,
}

impl<A: Clone, H> Clone for PayloadConfig<A, H> {
    fn clone(&self) -> (config: PayloadConfig<A, H>)
        ensures
            config.parent_header == self.parent_header,
            cloned(self.attributes, config.attributes),
    {
        PayloadConfig {
            parent_header: share(&self.parent_header),
            attributes: self.attributes.clone(),
        }
    }
}

/// What a build task starts with.
#[derive(Debug)]
pub struct BuildArguments<A, H, I> {
    /// Reads that need not go to the database.
    pub cached_reads: Arc<CachedReads<I>>,
    /// How the payload is to be built.
    pub config: PayloadConfig<A, H>,
    /// The cancellation of the job.
    pub cancel: PayloadJobCancellation,
}

/// A build task that is to be started.
#[verifier::reject_recursive_types(P)]
pub struct BuildTask<A, H, P, I> {
    /// What the task starts with.
    pub args: BuildArguments<A, H, I>,
    /// Where it publishes its payloads.
    pub best_payload_tx: Sender<Option<P>>,
}

/// Which payload a caller is content with.
#[derive(Clone, Copy, Debug, PartialEq, Eq, Structural)]
pub enum PayloadKind {
    /// The first that there is.
    Earliest,
    /// The one that is being built.
    WaitForPending,
}

/// Whether a job goes on after its payload was asked for.
#[derive(Clone, Copy, Debug, PartialEq, Eq, Structural)]
pub enum KeepPayloadJobAlive {
    /// It does.
    Yes,
    /// It does not.
    No,
}

/// Whether a job is at its end.
#[derive(Clone, Copy, Debug, PartialEq, Eq, Structural)]
pub enum JobStatus {
    /// The job has ended.
    Finished,
    /// The job goes on.
    Running,
}

/// A job that builds one block. `A` are the attributes of the payload, `H` is the
/// header of a block, `P` a payload and `I` what is known of an account.
#[verifier::reject_recursive_types(P)]
pub struct BlockPayloadJob<A, H, P, I> {
    /// How the payload is to be built.
    pub config: PayloadConfig<A, H>,
    /// Where the build task publishes its payloads.
    pub payload_rx: Option<Receiver<Option<P>>>,
    /// The cancellation of the job.
    pub cancel: PayloadJobCancellation,
    /// How long after its start the job is cancelled.
    pub deadline: TimeSpan,
    /// Reads for the build task, until it is started.
    pub cached_reads: Arc<CachedReads<I>>,
}

/// What a job answers when it is asked for its best payload and `published` stands in its
/// channel.
pub open spec fn answer_for<P>(published: Option<P>) -> Result<P, PayloadBuilderError> {
    match published {
        Some(payload) => Ok(payload),
        None => Err(PayloadBuilderError::MissingPayload),
    }
}

/// What a job makes of the payload that was published last, if one was.
pub fn published_payload<P>(published: Option<P>) -> (payload: Result<P, PayloadBuilderError>)
    ensures
        payload == answer_for(published),
{
    published.ok_or(PayloadBuilderError::MissingPayload)
}

/// How a job stands that is cancelled for `reasons`, once it has seen whether its
/// deadline is reached.
pub open spec fn status_after(deadline_reached: bool, reasons: CancelReasons) -> JobStatus {
    if deadline_reached || reasons.cancelled() {
        JobStatus::Finished
    } else {
        JobStatus::Running
    }
}

/// For which reasons a job is cancelled that was for `reasons`, once it has seen
/// whether its deadline is reached.
pub open spec fn reasons_after(deadline_reached: bool, reasons: CancelReasons) -> CancelReasons {
    if deadline_reached {
        reasons.with_deadline()
    } else {
        reasons
    }
}

impl<A, H, P, I> BlockPayloadJob<A, H, P, I> {
    /// The job once its payload was asked for.
    pub open spec fn after_resolve(self) -> BlockPayloadJob<A, H, P, I> {
        BlockPayloadJob { payload_rx: None, ..self }
    }

    /// Sees whether the job is at its end: a job whose deadline is reached is cancelled,
    /// and a job that is cancelled, for whatever reason, has ended.
    pub fn poll(&self, registry: &mut CancellationRegistry, deadline_reached: bool) -> (status:
        JobStatus)
        requires
            old(registry).well_formed(),
            old(registry).holds(self.cancel),
        ensures
            final(registry).well_formed(),
            final(registry).issued() == old(registry).issued(),
            status == status_after(deadline_reached, old(registry).reasons(self.cancel)),
            final(registry)@ == old(registry)@.insert(
                self.cancel@,
                reasons_after(deadline_reached, old(registry).reasons(self.cancel)),
            ),
    {
        if deadline_reached {
            registry.cancel_deadline(self.cancel);
            return JobStatus::Finished;
        }
        assert(registry@.insert(self.cancel@, registry.reasons(self.cancel)) =~= registry@);
        if registry.is_cancelled(self.cancel) {
            return JobStatus::Finished;
        }
        JobStatus::Running
    }

    /// Hands the payload of the job out, of whatever kind is asked for. The channel goes
    /// with it, and the job need not be kept.
    pub fn resolve_kind(&mut self, _kind: PayloadKind) -> (resolved: (
        ResolvePayload<P>,
        KeepPayloadJobAlive,
    ))
        ensures
            resolved.0.payload_rx == old(self).payload_rx,
            resolved.0.cancellation == old(self).cancel,
            resolved.1 == KeepPayloadJobAlive::No,
            *final(self) == old(self).after_resolve(),
    {
        let payload_rx = self.payload_rx.take();
        (ResolvePayload::new(payload_rx, self.cancel), KeepPayloadJobAlive::No)
    }
}

impl<A, H, P: Clone, I> BlockPayloadJob<A, H, P, I> {
    /// The payload that was published last. There is none before the first, nor after
    /// the channel was handed out.
    pub fn best_payload(&self) -> (payload: Result<P, PayloadBuilderError>)
        ensures
            match self.payload_rx {
                Some(receiver) => exists|published: Option<P>| #[trigger]
                    seen_in(receiver, published) && payload == answer_for(published),
                None => payload == answer_for(None::<P>),
            },
    {
        match &self.payload_rx {
            Some(receiver) => published_payload(look(receiver)),
            None => published_payload(None),
        }
    }
}

impl<A: Clone, H, P, I> BlockPayloadJob<A, H, P, I> {
    /// What was asked for.
    pub fn payload_attributes(&self) -> (attributes: Result<A, PayloadBuilderError>)
        ensures
            attributes matches Ok(a) && cloned(self.config.attributes, a),
    {
        Ok(self.config.attributes.clone())
    }

    /// Opens the channel of the job and makes up its build task, which publishes on that
    /// channel and takes the cached reads of the job with it.
    pub fn spawn_build_job(&mut self) -> (task: BuildTask<A, H, P, I>)
        ensures
            task.args.cached_reads == old(self).cached_reads,
            task.args.config.parent_header == old(self).config.parent_header,
            cloned(old(self).config.attributes, task.args.config.attributes),
            task.args.cancel == old(self).cancel,
            final(self).payload_rx matches Some(receiver) && ends_of_one_channel(
                None,
                task.best_payload_tx,
                receiver,
            ),
            final(self).cached_reads@ == Seq::<CachedEntry<I>>::empty(),
            final(self).config == old(self).config,
            final(self).cancel == old(self).cancel,
            final(self).deadline == old(self).deadline,
    {
        let config = self.config.clone();
        let (best_payload_tx, payload_rx) = tokio::sync::watch::channel(None);
        self.payload_rx = Some(payload_rx);
        let mut cached_reads = Arc::new(CachedReads::new());
        std::mem::swap(&mut self.cached_reads, &mut cached_reads);
        BuildTask {
            args: BuildArguments { cached_reads, config, cancel: self.cancel },
            best_payload_tx,
        }
    }
}

/// A job runs exactly as long as its deadline is not reached and nothing cancelled it.
pub proof fn law_job_runs_until_cancelled(deadline_reached: bool, reasons: CancelReasons)
    ensures
        status_after(deadline_reached, reasons) == JobStatus::Running <==> !deadline_reached
            && reasons == CancelReasons::none(),
        deadline_reached ==> reasons_after(deadline_reached, reasons).deadline,
        reasons.within(reasons_after(deadline_reached, reasons)),
{
}

/// A job that has ended stays ended, though it is polled and cancelled again.
pub proof fn law_ended_job_stays_ended(
    deadline_reached: bool,
    reasons: CancelReasons,
    later: CancelReasons,
    reached_later: bool,
)
    requires
        status_after(deadline_reached, reasons) == JobStatus::Finished,
        reasons_after(deadline_reached, reasons).within(later),
    ensures
        status_after(reached_later, later) == JobStatus::Finished,
{
}

/// A job whose payload was handed out has ended when it is next polled.
pub proof fn law_resolved_job_ends<P>(
    looks: Seq<Option<P>>,
    closed: bool,
    reasons: CancelReasons,
    deadline_reached: bool,
)
    requires
        resolution(looks, closed, reasons).0 is Resolved,
    ensures
        resolution(looks, closed, reasons).1 == reasons.with_resolved(),
        status_after(deadline_reached, resolution(looks, closed, reasons).1)
            == JobStatus::Finished,
    decreases looks.len(),
{
    if looks.len() > 0 && looks[0] is None {
        law_resolved_job_ends(looks.drop_first(), closed, reasons, deadline_reached);
    }
}

/// What stands in a channel that was opened with nothing after `published` was published
/// on it: the latest publication, as such a channel keeps the last value alone.
pub open spec fn standing<P>(published: Seq<P>) -> Option<P> {
    if published.len() == 0 {
        None
    } else {
        Some(published.last())
    }
}

/// The best payload is the latest publication, and again so at each further look until the
/// next publication. What is handed out then is the latest publication too, also where the
/// channel has closed, and the job is cancelled as resolved.
pub proof fn law_best_payload_is_the_latest<P>(
    published: Seq<P>,
    latest: P,
    looks: Seq<Option<P>>,
    closed: bool,
    reasons: CancelReasons,
)
    requires
        forall|i: int|
            0 <= i < looks.len() ==> #[trigger] looks[i] == standing(published.push(latest)),
    ensures
        forall|i: int|
            0 <= i < looks.len() ==> answer_for(#[trigger] looks[i]) == Ok::<
                P,
                PayloadBuilderError,
            >(latest),
        resolution(seq![standing(published.push(latest))], closed, reasons) == (
            Resolution::Resolved(latest),
            reasons.with_resolved(),
        ),
{
    reveal_with_fuel(resolution, 2);
}

/// What the best payload is and what is handed out agree, whatever is found in the channel:
/// there is a best payload exactly if there is one to hand out, and it is that one.
pub proof fn law_best_payload_is_what_resolves<P>(
    found: Option<P>,
    payload: P,
    closed: bool,
    reasons: CancelReasons,
)
    ensures
        answer_for(found) == Ok::<P, PayloadBuilderError>(payload) <==> resolution(
            seq![found],
            closed,
            reasons,
        ).0 == Resolution::Resolved(payload),
        answer_for(found) is Err <==> answer_for(found) == Err::<P, PayloadBuilderError>(
            PayloadBuilderError::MissingPayload,
        ),
{
    reveal_with_fuel(resolution, 2);
}

/// A build task that ends without a publication does not end its job: there is no best
/// payload, whoever waits for one learns that the builder exited, and the job runs on until
/// its deadline or until something else cancels it.
pub proof fn law_failed_build_leaves_job_running<P>(
    looks: Seq<Option<P>>,
    reasons: CancelReasons,
    deadline_reached: bool,
)
    requires
        forall|i: int| 0 <= i < looks.len() ==> looks[i] == standing(Seq::<P>::empty()),
    ensures
        answer_for(standing(Seq::<P>::empty())) == Err::<P, PayloadBuilderError>(
            PayloadBuilderError::MissingPayload,
        ),
        resolution(looks, true, reasons).0 is BuilderExited,
        resolution(looks, true, reasons).1 == reasons,
        status_after(deadline_reached, resolution(looks, true, reasons).1) == status_after(
            deadline_reached,
            reasons,
        ),
{
    law_no_payload_no_resolution(looks, true, reasons);
}

/// A job whose payload was asked for has no channel any more: asking again hands out no
/// payload, and nothing else of the job has changed.
pub proof fn law_channel_goes_once<A, H, P, I>(job: BlockPayloadJob<A, H, P, I>)
    ensures
        job.after_resolve().payload_rx is None,
        job.after_resolve().after_resolve() == job.after_resolve(),
        job.after_resolve().cancel == job.cancel,
        job.after_resolve().config == job.config,
{
}

} // verus!
