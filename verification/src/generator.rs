//! The generator of payload jobs.

use crate::cache::{entries_of, BundleAccount, CachedEntry, CachedReads, PrecachedState};
use crate::cancellation::{CancelReasons, CancellationRegistry, PayloadJobCancellation};
use crate::channel::ends_of_one_channel;
use crate::error::PayloadBuilderError;
use crate::hash::{all_zero, is_zero, same_hash, BlockHash};
use crate::job::{
    status_after, BlockPayloadJob, BuildTask, JobStatus, PayloadConfig, SealedHeader,
};
use crate::shared::share;
use crate::time::{
    clock_showed, deadline_secs, fcu_arrival, fcu_delay, job_deadline_at, read_clock, whole_secs,
    ClockReading, FcuArrival, TimeSpan, MAX_SPAN_NANOS, MAX_SYSTEM_SECS, NANOS_PER_SEC,
};
use alloy_primitives::Address;
use std::sync::Arc;
use vstd::prelude::*;

verus! {

/// Which header is the parent of a new payload.
#[derive(Clone, Copy, Debug, PartialEq, Eq)]
pub enum ParentLookup {
    /// That of the latest block.
    Latest,
    /// That of the block with this hash.
    ByHash(BlockHash),
}

/// Which header to look up for a payload whose parent is `parent_hash`: a hash of zeros
/// stands for the latest block.
pub fn parent_lookup(parent_hash: BlockHash) -> (lookup: ParentLookup)
    ensures
        lookup == (if all_zero(parent_hash) {
            ParentLookup::Latest
        } else {
            ParentLookup::ByHash(parent_hash)
        }),
{
    if is_zero(&parent_hash) {
        ParentLookup::Latest
    } else {
        ParentLookup::ByHash(parent_hash)
    }
}

/// Why no job was made. `E` is the error of a header lookup.
#[derive(Debug)]
pub enum NewPayloadJobError<E> {
    /// The parent header could not be looked up.
    Provider(E),
    /// The payload cannot be built.
    Builder(PayloadBuilderError),
    /// The system clock shows a time before the Unix epoch.
    ClockBeforeEpoch,
    /// The deadline of the job is longer than the longest span.
    DeadlineOverflow,
}

/// Makes a job for each fork choice update that asks for a payload. `I` is what is known
/// of an account.
#[derive(Debug)]
pub struct BlockPayloadJobGenerator<I> {
    /// The cancellation of the last job.
    last_payload_cancel: PayloadJobCancellation,
    /// What every job gets on top of the time until its block.
    extra_block_deadline: TimeSpan,
    /// Reads for jobs on top of the last committed block.
    pre_cached: Option<PrecachedState<I>>,
    /// The time between two blocks.
    block_time: TimeSpan,
}

impl<I> BlockPayloadJobGenerator<I> {
    /// The cancellation of the last job.
    pub closed spec fn last(&self) -> PayloadJobCancellation {
        self.last_payload_cancel
    }

    /// What every job gets on top of the time until its block, in nanoseconds.
    pub closed spec fn extra(&self) -> nat {
        self.extra_block_deadline@
    }

    /// The time between two blocks.
    pub closed spec fn interval(&self) -> TimeSpan {
        self.block_time
    }

    /// The block for which reads are cached and the reads, if there are any.
    pub closed spec fn precached(&self) -> Option<(BlockHash, Seq<CachedEntry<I>>)> {
        match self.pre_cached {
            Some(state) => Some((state.block, state.cached@)),
            None => None,
        }
    }

    /// The reads that a job on top of `parent` starts with, if any are cached for it.
    pub open spec fn cached_for(&self, parent: BlockHash) -> Option<Seq<CachedEntry<I>>> {
        match self.precached() {
            Some((block, cached)) => if block@ == parent@ {
                Some(cached)
            } else {
                None
            },
            None => None,
        }
    }

    /// A generator that has made no job and has nothing cached.
    pub fn with_builder(
        registry: &mut CancellationRegistry,
        extra_block_deadline: TimeSpan,
        block_time: TimeSpan,
    ) -> (generator: BlockPayloadJobGenerator<I>)
        requires
            old(registry).well_formed(),
            old(registry).issued() < u64::MAX,
        ensures
            final(registry).well_formed(),
            final(registry).issued() == old(registry).issued() + 1,
            generator.last()@ == old(registry).issued(),
            !old(registry).holds(generator.last()),
            final(registry)@ == old(registry)@.insert(generator.last()@, CancelReasons::none()),
            generator.extra() == extra_block_deadline@,
            generator.interval() == block_time,
            generator.precached() is None,
    {
        BlockPayloadJobGenerator {
            last_payload_cancel: registry.register(),
            extra_block_deadline,
            pre_cached: None,
            block_time,
        }
    }

    /// The cancellation of the last job. Whoever keeps the registry must keep it there.
    pub fn last_payload_cancel(&self) -> (cancellation: PayloadJobCancellation)
        ensures
            cancellation == self.last(),
    {
        self.last_payload_cancel
    }

    /// Notes the arrival, just now, of the fork choice update for a block of time
    /// `timestamp`. It is due one block time before the block.
    pub fn fcu_arrival(&self, timestamp: u64) -> (arrival: FcuArrival)
        requires
            timestamp <= MAX_SYSTEM_SECS,
        ensures
            clock_showed(arrival.at),
            arrival.delay_nanos == fcu_delay(timestamp, self.interval()@, arrival.at.unix_nanos()),
    {
        fcu_arrival(timestamp, self.block_time)
    }

    /// The cached reads for jobs on top of `parent`, if that is the block they were
    /// cached for.
    pub fn maybe_pre_cached(&self, parent: BlockHash) -> (cached: Option<Arc<CachedReads<I>>>)
        ensures
            match self.cached_for(parent) {
                Some(entries) => cached matches Some(c) && c@ == entries,
                None => cached is None,
            },
    {
        match &self.pre_cached {
            Some(state) => if same_hash(&state.block, &parent) {
                Some(share(&state.cached))
            } else {
                None
            },
            None => None,
        }
    }

    /// Caches what the blocks up to `tip` changed, in place of what was cached before.
    pub fn on_new_state(&mut self, tip: BlockHash, changes: Vec<(Address, BundleAccount<I>)>)
        ensures
            final(self).precached() == Some((tip, entries_of(changes@))),
            final(self).last() == old(self).last(),
            final(self).extra() == old(self).extra(),
            final(self).interval() == old(self).interval(),
    {
        let cached = CachedReads::from_changes(changes);
        self.pre_cached = Some(PrecachedState { block: tip, cached: Arc::new(cached) });
    }
}

/// What a job on top of `parent` starts with: the reads that are cached for it, and
/// nothing where none are.
pub open spec fn initial_reads<I>(generator: &BlockPayloadJobGenerator<I>, parent: BlockHash) -> Seq<
    CachedEntry<I>,
> {
    match generator.cached_for(parent) {
        Some(entries) => entries,
        None => Seq::empty(),
    }
}

/// The cancellations once the job `next` has taken the place of the job `last`: the last
/// job is cancelled by the new fork choice update, the next one is not cancelled, and
/// all others are as before.
pub open spec fn superseded(
    cancellations: Map<u64, CancelReasons>,
    last: PayloadJobCancellation,
    next: PayloadJobCancellation,
) -> Map<u64, CancelReasons> {
    cancellations.insert(last@, cancellations[last@].with_new_fcu()).insert(
        next@,
        CancelReasons::none(),
    )
}

/// A job is as it was asked for: on top of `header`, with `attributes` and a deadline of
/// `deadline` nanoseconds. Its build task is made up: it shares the cancellation of the
/// job, starts with `reads` and publishes on the channel of the job.
pub open spec fn made_for<A: Clone, H, P, I>(
    job: BlockPayloadJob<A, H, P, I>,
    task: BuildTask<A, H, P, I>,
    header: SealedHeader<H>,
    attributes: A,
    deadline: int,
    reads: Seq<CachedEntry<I>>,
) -> bool {
    &&& *job.config.parent_header == header
    &&& job.config.attributes == attributes
    &&& job.deadline@ == deadline
    &&& job.payload_rx matches Some(receiver) && ends_of_one_channel(
        None,
        task.best_payload_tx,
        receiver,
    )
    &&& job.cached_reads@ == Seq::<CachedEntry<I>>::empty()
    &&& *task.args.config.parent_header == header
    &&& cloned(attributes, task.args.config.attributes)
    &&& task.args.cancel == job.cancel
    &&& task.args.cached_reads@ == reads
}

/// The parent header of a payload whose parent is `parent_hash`, or why there is none,
/// from the reply to its lookup.
pub open spec fn parent_of<H, E>(
    parent_hash: BlockHash,
    reply: Result<Option<SealedHeader<H>>, E>,
) -> Result<SealedHeader<H>, NewPayloadJobError<E>> {
    match reply {
        Err(error) => Err(NewPayloadJobError::Provider(error)),
        Ok(None) => Err(
            NewPayloadJobError::Builder(PayloadBuilderError::MissingParentBlock(parent_hash)),
        ),
        Ok(Some(header)) => Ok(header),
    }
}

/// The parent header of a payload, from the reply to the lookup that
/// [`parent_lookup`] asks for.
fn found_parent<H, E>(
    parent_hash: BlockHash,
    reply: Result<Option<SealedHeader<H>>, E>,
) -> (parent: Result<SealedHeader<H>, NewPayloadJobError<E>>)
    ensures
        parent == parent_of(parent_hash, reply),
{
    match reply {
        Err(error) => Err(NewPayloadJobError::Provider(error)),
        Ok(None) => Err(
            NewPayloadJobError::Builder(PayloadBuilderError::MissingParentBlock(parent_hash)),
        ),
        Ok(Some(header)) => Ok(header),
    }
}

impl<I> BlockPayloadJobGenerator<I> {
    /// How long, in nanoseconds, a job for a block of time `timestamp` may run when the
    /// clock shows `now` seconds.
    pub open spec fn deadline_at(&self, timestamp: u64, now: nat) -> int {
        deadline_secs(timestamp, now) * NANOS_PER_SEC + self.extra()
    }

    /// This generator has made its next job, which is `job`, and has become `after`; the
    /// cancellations have become `registry_after`.
    pub open spec fn made_next<A, H, P>(
        &self,
        registry: CancellationRegistry,
        job: BlockPayloadJob<A, H, P, I>,
        after: BlockPayloadJobGenerator<I>,
        registry_after: CancellationRegistry,
    ) -> bool {
        &&& after.last() == job.cancel
        &&& after.extra() == self.extra()
        &&& after.interval() == self.interval()
        &&& after.precached() == self.precached()
        &&& job.cancel@ == registry.issued()
        &&& !registry.holds(job.cancel)
        &&& registry_after.issued() == registry.issued() + 1
        &&& registry_after@ == superseded(registry@, self.last(), job.cancel)
    }

    /// What comes of a request for a job when the clock shows `now`: why there is none,
    /// and then nothing has changed; or the job and its build task.
    pub open spec fn answered<A: Clone, H, P, E>(
        &self,
        registry: CancellationRegistry,
        request: (BlockHash, u64, A, Result<Option<SealedHeader<H>>, E>),
        now: ClockReading,
        made: Result<
            (BlockPayloadJob<A, H, P, I>, BuildTask<A, H, P, I>),
            NewPayloadJobError<E>,
        >,
        after: BlockPayloadJobGenerator<I>,
        registry_after: CancellationRegistry,
    ) -> bool {
        let (parent_hash, timestamp, attributes, reply) = request;
        &&& made is Err ==> after == *self && registry_after == registry
        &&& match parent_of(parent_hash, reply) {
            Err(error) => made matches Err(e) && e == error,
            Ok(header) => match now {
                ClockReading::BeforeEpoch(_) => made matches Err(e) && e
                    == NewPayloadJobError::<E>::ClockBeforeEpoch,
                ClockReading::SinceEpoch(since) => {
                    let deadline = self.deadline_at(timestamp, whole_secs(since@));
                    if deadline > MAX_SPAN_NANOS {
                        made matches Err(e) && e == NewPayloadJobError::<E>::DeadlineOverflow
                    } else {
                        made matches Ok((job, task)) && {
                            &&& made_for(
                                job,
                                task,
                                header,
                                attributes,
                                deadline,
                                initial_reads(self, header.hash),
                            )
                            &&& self.made_next(registry, job, after, registry_after)
                        }
                    }
                },
            },
        }
    }

    /// Puts a new job in the place of the last one, which is cancelled.
    fn start_job<A: Clone, H, P>(
        &mut self,
        registry: &mut CancellationRegistry,
        parent_header: SealedHeader<H>,
        attributes: A,
        deadline: TimeSpan,
    ) -> (made: (BlockPayloadJob<A, H, P, I>, BuildTask<A, H, P, I>))
        requires
            old(registry).well_formed(),
            old(registry).holds(old(self).last()),
            old(registry).issued() < u64::MAX,
        ensures
            final(registry).well_formed(),
            made_for(
                made.0,
                made.1,
                parent_header,
                attributes,
                deadline@ as int,
                initial_reads(old(self), parent_header.hash),
            ),
            old(self).made_next(*old(registry), made.0, *final(self), *final(registry)),
    {
        registry.cancel_new_fcu(self.last_payload_cancel);
        let cancel = registry.register();
        self.last_payload_cancel = cancel;
        let cached_reads = match self.maybe_pre_cached(parent_header.hash) {
            Some(cached) => cached,
            None => Arc::new(CachedReads::new()),
        };
        let mut job: BlockPayloadJob<A, H, P, I> = BlockPayloadJob {
            config: PayloadConfig { parent_header: Arc::new(parent_header), attributes },
            payload_rx: None,
            cancel,
            deadline,
            cached_reads,
        };
        let task = job.spawn_build_job();
        (job, task)
    }

    /// Makes a job when the clock shows `now`; see
    /// [`new_payload_job`](Self::new_payload_job).
    pub fn new_payload_job_at<A: Clone, H, P, E>(
        &mut self,
        registry: &mut CancellationRegistry,
        parent_hash: BlockHash,
        timestamp: u64,
        attributes: A,
        reply: Result<Option<SealedHeader<H>>, E>,
        now: ClockReading,
    ) -> (made: Result<
        (BlockPayloadJob<A, H, P, I>, BuildTask<A, H, P, I>),
        NewPayloadJobError<E>,
    >)
        requires
            old(registry).well_formed(),
            old(registry).holds(old(self).last()),
            old(registry).issued() < u64::MAX,
        ensures
            final(registry).well_formed(),
            old(self).answered(
                *old(registry),
                (parent_hash, timestamp, attributes, reply),
                now,
                made,
                *final(self),
                *final(registry),
            ),
    {
        let header = match found_parent(parent_hash, reply) {
            Ok(header) => header,
            Err(error) => return Err(error),
        };
        let until_block = match job_deadline_at(timestamp, now) {
            Ok(span) => span,
            Err(_) => return Err(NewPayloadJobError::ClockBeforeEpoch),
        };
        match until_block.checked_add(self.extra_block_deadline) {
            Some(deadline) => Ok(self.start_job(registry, header, attributes, deadline)),
            None => Err(NewPayloadJobError::DeadlineOverflow),
        }
    }

    /// Makes a job for a fork choice update that asks for a payload on top of
    /// `parent_hash`, for a block of time `timestamp`, with `attributes`. `reply` is the
    /// reply to the lookup that [`parent_lookup`] asks for. The job takes the place of the
    /// last one, which is cancelled. Where there is no job there is no change either: the
    /// last job goes on.
    pub fn new_payload_job<A: Clone, H, P, E>(
        &mut self,
        registry: &mut CancellationRegistry,
        parent_hash: BlockHash,
        timestamp: u64,
        attributes: A,
        reply: Result<Option<SealedHeader<H>>, E>,
    ) -> (made: Result<
        (BlockPayloadJob<A, H, P, I>, BuildTask<A, H, P, I>),
        NewPayloadJobError<E>,
    >)
        requires
            old(registry).well_formed(),
            old(registry).holds(old(self).last()),
            old(registry).issued() < u64::MAX,
        ensures
            final(registry).well_formed(),
            exists|now: ClockReading| #[trigger]
                clock_showed(now) && old(self).answered(
                    *old(registry),
                    (parent_hash, timestamp, attributes, reply),
                    now,
                    made,
                    *final(self),
                    *final(registry),
                ),
    {
        let now = read_clock();
        self.new_payload_job_at(registry, parent_hash, timestamp, attributes, reply, now)
    }
}

/// A new job ends the last one: whatever becomes of its deadline, the last job has ended
/// when it is next polled. The new one goes on until its deadline, and no other job is
/// touched. The generator can then make its next job.
pub proof fn law_new_job_ends_the_last<A, H, P, I>(
    generator: BlockPayloadJobGenerator<I>,
    registry: CancellationRegistry,
    job: BlockPayloadJob<A, H, P, I>,
    after: BlockPayloadJobGenerator<I>,
    registry_after: CancellationRegistry,
    deadline_reached: bool,
    other: PayloadJobCancellation,
)
    requires
        registry.holds(generator.last()),
        generator.made_next(registry, job, after, registry_after),
    ensures
        registry_after.holds(generator.last()),
        registry_after.reasons(generator.last()) == registry.reasons(
            generator.last(),
        ).with_new_fcu(),
        status_after(deadline_reached, registry_after.reasons(generator.last()))
            == JobStatus::Finished,
        status_after(false, registry_after.reasons(job.cancel)) == JobStatus::Running,
        other@ != generator.last()@ && other@ != job.cancel@ ==> {
            &&& registry_after.holds(other) <==> registry.holds(other)
            &&& registry_after.reasons(other) == registry.reasons(other)
        },
        registry_after.holds(after.last()),
{
}

/// Of the jobs `made`, all but the last are cancelled.
pub open spec fn only_last_runs(
    cancellations: Map<u64, CancelReasons>,
    made: Seq<PayloadJobCancellation>,
) -> bool {
    forall|i: int|
        0 <= i < made.len() - 1 ==> #[trigger] cancellations[made[i]@].cancelled()
}

/// At most one job of a generator is not cancelled: where that holds of the jobs `made` so
/// far, it holds with the next one too.
pub proof fn law_one_job_runs<A, H, P, I>(
    generator: BlockPayloadJobGenerator<I>,
    registry: CancellationRegistry,
    made: Seq<PayloadJobCancellation>,
    job: BlockPayloadJob<A, H, P, I>,
    after: BlockPayloadJobGenerator<I>,
    registry_after: CancellationRegistry,
)
    requires
        made.len() > 0,
        made.last() == generator.last(),
        forall|i: int| 0 <= i < made.len() ==> (#[trigger] made[i])@ < registry.issued(),
        only_last_runs(registry@, made),
        generator.made_next(registry, job, after, registry_after),
    ensures
        made.push(job.cancel).last() == after.last(),
        forall|i: int|
            0 <= i < made.push(job.cancel).len() ==> (#[trigger] made.push(job.cancel)[i])@
                < registry_after.issued(),
        only_last_runs(registry_after@, made.push(job.cancel)),
{
    let jobs = made.push(job.cancel);
    assert forall|i: int| 0 <= i < jobs.len() - 1 implies (
    #[trigger] registry_after@[jobs[i]@]).cancelled() by {
        assert(jobs[i] == made[i]);
        if made[i]@ != made.last()@ {
            assert(registry@[made[i]@].cancelled());
        }
    }
}

/// Whatever else is cancelled, at most one job of a generator is not: that the others are
/// cancelled stays true as long as no reason is taken away.
pub proof fn law_ended_jobs_stay_ended(
    cancellations: Map<u64, CancelReasons>,
    later: Map<u64, CancelReasons>,
    made: Seq<PayloadJobCancellation>,
)
    requires
        only_last_runs(cancellations, made),
        forall|i: int|
            0 <= i < made.len() ==> (#[trigger] cancellations[made[i]@]).within(later[made[i]@]),
    ensures
        only_last_runs(later, made),
{
    assert forall|i: int| 0 <= i < made.len() - 1 implies (
    #[trigger] later[made[i]@]).cancelled() by {
        assert(cancellations[made[i]@].within(later[made[i]@]));
    }
}

/// After a commit, the cached reads are those of the committed block, and they are there
/// for jobs on top of that block alone.
pub proof fn law_reads_are_for_their_block<I>(
    generator: BlockPayloadJobGenerator<I>,
    tip: BlockHash,
    changes: Seq<(Address, BundleAccount<I>)>,
    parent: BlockHash,
)
    requires
        generator.precached() == Some((tip, entries_of(changes))),
    ensures
        parent@ == tip@ ==> generator.cached_for(parent) == Some(entries_of(changes)),
        parent@ == tip@ ==> initial_reads(&generator, parent) == entries_of(changes),
        parent@ != tip@ ==> generator.cached_for(parent) is None,
        parent@ != tip@ ==> initial_reads(&generator, parent) == Seq::<CachedEntry<I>>::empty(),
{
}

/// A request that is refused leaves the last job as it was, whatever the reason; a request
/// whose parent is not known is answered with the hash of the parent that it named.
pub proof fn law_refused_request_changes_nothing<A: Clone, H, P, E, I>(
    generator: BlockPayloadJobGenerator<I>,
    registry: CancellationRegistry,
    request: (BlockHash, u64, A, Result<Option<SealedHeader<H>>, E>),
    now: ClockReading,
    made: Result<(BlockPayloadJob<A, H, P, I>, BuildTask<A, H, P, I>), NewPayloadJobError<E>>,
    after: BlockPayloadJobGenerator<I>,
    registry_after: CancellationRegistry,
)
    requires
        generator.answered(registry, request, now, made, after, registry_after),
    ensures
        made is Err ==> after == generator && registry_after == registry,
        request.3 is Err ==> made == Err::<
            (BlockPayloadJob<A, H, P, I>, BuildTask<A, H, P, I>),
            NewPayloadJobError<E>,
        >(NewPayloadJobError::Provider(request.3->Err_0)),
        request.3 == Ok::<Option<SealedHeader<H>>, E>(None) ==> made == Err::<
            (BlockPayloadJob<A, H, P, I>, BuildTask<A, H, P, I>),
            NewPayloadJobError<E>,
        >(NewPayloadJobError::Builder(PayloadBuilderError::MissingParentBlock(request.0))),
{
}

/// A parent that was found is the parent, whatever its hash and that of the request; one
/// that was not found is missing under the hash of the request.
pub proof fn law_found_parent_is_taken<H, E>(
    parent_hash: BlockHash,
    header: SealedHeader<H>,
    error: E,
)
    ensures
        parent_of(parent_hash, Ok::<Option<SealedHeader<H>>, E>(Some(header))) == Ok::<
            SealedHeader<H>,
            NewPayloadJobError<E>,
        >(header),
        parent_of(parent_hash, Ok::<Option<SealedHeader<H>>, E>(None)) == Err::<
            SealedHeader<H>,
            NewPayloadJobError<E>,
        >(NewPayloadJobError::Builder(PayloadBuilderError::MissingParentBlock(parent_hash))),
        parent_of(parent_hash, Err::<Option<SealedHeader<H>>, E>(error)) == Err::<
            SealedHeader<H>,
            NewPayloadJobError<E>,
        >(NewPayloadJobError::Provider(error)),
{
}

/// Whatever its deadline, a job that is made takes the place of the last one, which is
/// cancelled for the newer update and for no reason beside those it was cancelled for
/// before. Its deadline comes with its block and the extra time.
pub proof fn law_job_takes_the_place_of_the_last<A: Clone, H, P, E, I>(
    generator: BlockPayloadJobGenerator<I>,
    registry: CancellationRegistry,
    request: (BlockHash, u64, A, Result<Option<SealedHeader<H>>, E>),
    now: ClockReading,
    job: BlockPayloadJob<A, H, P, I>,
    task: BuildTask<A, H, P, I>,
    after: BlockPayloadJobGenerator<I>,
    registry_after: CancellationRegistry,
)
    requires
        registry.holds(generator.last()),
        generator.answered(
            registry,
            request,
            now,
            Ok::<(BlockPayloadJob<A, H, P, I>, BuildTask<A, H, P, I>), NewPayloadJobError<E>>(
                (job, task),
            ),
            after,
            registry_after,
        ),
    ensures
        generator.made_next(registry, job, after, registry_after),
        registry_after.reasons(generator.last()) == registry.reasons(
            generator.last(),
        ).with_new_fcu(),
        registry_after.reasons(generator.last()).new_fcu,
        request.3 == Ok::<Option<SealedHeader<H>>, E>(Some(*job.config.parent_header)),
        now matches ClockReading::SinceEpoch(since) && {
            &&& request.1 * 1_000_000_000 > since@ ==> since@ / 1_000_000_000 * 1_000_000_000
                + job.deadline@ == request.1 * 1_000_000_000 + generator.extra()
            &&& request.1 * 1_000_000_000 <= since@ ==> job.deadline@ == 1_000_000_000
                + generator.extra()
        },
{
}

/// Every job gets at least one second and the extra time.
pub proof fn law_job_gets_extra_time<I>(
    generator: BlockPayloadJobGenerator<I>,
    timestamp: u64,
    now: nat,
)
    ensures
        generator.deadline_at(timestamp, now) >= NANOS_PER_SEC + generator.extra(),
        timestamp <= now ==> generator.deadline_at(timestamp, now) == NANOS_PER_SEC
            + generator.extra(),
        timestamp > now ==> now * NANOS_PER_SEC + generator.deadline_at(timestamp, now)
            == timestamp * NANOS_PER_SEC + generator.extra(),
{
}

} // verus!
