//! Laws of the generator of jobs.

use crate::cache::{BundleAccount, CachedReads};
use crate::cancellation::{CancellationRegistry, PayloadJobCancellation};
use crate::error::PayloadBuilderError;
use crate::generator::{
    parent_lookup, BlockPayloadJobGenerator, NewPayloadJobError, ParentLookup,
};
use crate::hash::BlockHash;
use crate::job::{BlockPayloadJob, BuildTask, JobStatus, SealedHeader};
use crate::laws::cache::{holds_present_state, lemma_view_is_present_state};
use crate::time::{
    clock_showed, expected_fcu_arrival, reading_of, system_clock_gave, ClockReading, FcuArrival,
    TimeSpan,
};
use alloy_primitives::Address;
use std::sync::Arc;
use vstd::prelude::*;

verus! {

// The generator between requests

/// A new generator has nothing cached. The cancellation that it holds was not held before
/// and is not cancelled, and all others are as they were. The registry has given out one
/// number more.
pub proof fn law_new_generator_is_blank<I>(
    registry: &mut CancellationRegistry,
    extra_block_deadline: TimeSpan,
    block_time: TimeSpan,
    generator: BlockPayloadJobGenerator<I>,
    parent: BlockHash,
    cached: Option<Arc<CachedReads<I>>>,
    last: PayloadJobCancellation,
    held_before: bool,
    held: bool,
    cancelled: bool,
    id: u64,
)
    requires
        call_ensures(
            BlockPayloadJobGenerator::<I>::with_builder,
            (registry, extra_block_deadline, block_time),
            generator,
        ),
        call_ensures(
            BlockPayloadJobGenerator::<I>::maybe_pre_cached,
            (&generator, parent),
            cached,
        ),
        call_ensures(BlockPayloadJobGenerator::<I>::last_payload_cancel, (&generator,), last),
        call_ensures(CancellationRegistry::contains, (&*old(registry), last), held_before),
        call_ensures(CancellationRegistry::contains, (&*final(registry), last), held),
        call_ensures(CancellationRegistry::is_cancelled, (&*final(registry), last), cancelled),
    ensures
        cached is None,
        !held_before && held && !cancelled,
        final(registry).issued() == old(registry).issued() + 1,
        generator.extra() == extra_block_deadline@,
        generator.interval() == block_time,
        id != last@ ==> {
            &&& final(registry)@.contains_key(id) <==> old(registry)@.contains_key(id)
            &&& final(registry)@[id] == old(registry)@[id]
        },
{
}

/// After a commit the reads that are cached for its tip are the present state of what it
/// changed, and for no other block is anything cached. Nothing else of the generator
/// changes.
pub proof fn law_commit_is_cached_for_its_tip<I>(
    generator: &mut BlockPayloadJobGenerator<I>,
    tip: BlockHash,
    changes: Vec<(Address, BundleAccount<I>)>,
    parent: BlockHash,
    cached: Option<Arc<CachedReads<I>>>,
)
    requires
        call_ensures(
            BlockPayloadJobGenerator::<I>::on_new_state,
            (generator, tip, changes),
            (),
        ),
        call_ensures(
            BlockPayloadJobGenerator::<I>::maybe_pre_cached,
            (&*final(generator), parent),
            cached,
        ),
    ensures
        cached is Some <==> parent@ == tip@,
        cached matches Some(reads) ==> holds_present_state(reads.accounts@, changes@),
        final(generator).last() == old(generator).last(),
        final(generator).extra() == old(generator).extra(),
        final(generator).interval() == old(generator).interval(),
{
    if let Some(reads) = cached {
        lemma_view_is_present_state(&*reads, changes@);
    }
}

/// A later commit takes the place of an earlier one, of which nothing is left.
pub proof fn law_later_commit_replaces_earlier<I>(
    first: &mut BlockPayloadJobGenerator<I>,
    second: &mut BlockPayloadJobGenerator<I>,
    tips: (BlockHash, BlockHash),
    earlier: Vec<(Address, BundleAccount<I>)>,
    later: Vec<(Address, BundleAccount<I>)>,
    parent: BlockHash,
    cached: Option<Arc<CachedReads<I>>>,
)
    requires
        call_ensures(BlockPayloadJobGenerator::<I>::on_new_state, (first, tips.0, earlier), ()),
        *old(second) == *final(first),
        call_ensures(BlockPayloadJobGenerator::<I>::on_new_state, (second, tips.1, later), ()),
        call_ensures(
            BlockPayloadJobGenerator::<I>::maybe_pre_cached,
            (&*final(second), parent),
            cached,
        ),
    ensures
        parent@ != tips.1@ ==> cached is None,
        cached matches Some(reads) ==> holds_present_state(reads.accounts@, later@),
{
    law_commit_is_cached_for_its_tip(second, tips.1, later, parent, cached);
}

/// The parent of a payload is looked up by its hash, unless every byte of that is zero:
/// then the latest block is meant.
pub proof fn law_parent_is_looked_up(hash: BlockHash, lookup: ParentLookup)
    requires
        call_ensures(parent_lookup, (hash,), lookup),
    ensures
        lookup is Latest <==> (forall|i: int| 0 <= i < 32 ==> #[trigger] hash@[i] == 0),
        lookup matches ParentLookup::ByHash(asked) ==> asked@ == hash@,
{
}

/// The arrival of an update is noted by the clock, and its delay is its distance, to the
/// nanosecond, from the time it was due: one block time before its block.
pub proof fn law_arrival_is_noted<I>(
    generator: BlockPayloadJobGenerator<I>,
    timestamp: u64,
    arrival: FcuArrival,
    due: i128,
)
    requires
        call_ensures(
            BlockPayloadJobGenerator::<I>::fcu_arrival,
            (&generator, timestamp),
            arrival,
        ),
        call_ensures(expected_fcu_arrival, (timestamp, generator.interval()), due),
    ensures
        timestamp * 1_000_000_000 - generator.interval()@ >= i64::MIN * 1_000_000_000 ==> due
            + generator.interval()@ == timestamp * 1_000_000_000,
        match arrival.at {
            ClockReading::SinceEpoch(since) => {
                &&& due + arrival.delay_nanos == since@
                &&& exists|nanos: u128| #[trigger]
                    system_clock_gave(Ok::<u128, u128>(nanos)) && since@ == nanos
            },
            ClockReading::BeforeEpoch(before) => {
                &&& due + arrival.delay_nanos == -before@
                &&& exists|nanos: u128| #[trigger]
                    system_clock_gave(Err::<u128, u128>(nanos)) && before@ == nanos
            },
        },
{
    let given = choose|given: Result<u128, u128>| #[trigger]
        system_clock_gave(given) && reading_of(given, arrival.at);
    match given {
        Ok(nanos) => {
            assert(system_clock_gave(Ok::<u128, u128>(nanos)));
        },
        Err(nanos) => {
            assert(system_clock_gave(Err::<u128, u128>(nanos)));
        },
    }
}

// Requests that are refused

/// A lookup that failed is answered with its error, whatever the clock shows.
pub proof fn law_failed_lookup_is_passed_on<A: Clone, H, P, E, I>(
    generator: &mut BlockPayloadJobGenerator<I>,
    registry: &mut CancellationRegistry,
    parent_hash: BlockHash,
    timestamp: u64,
    attributes: A,
    reply: Result<Option<SealedHeader<H>>, E>,
    now: ClockReading,
    made: Result<(BlockPayloadJob<A, H, P, I>, BuildTask<A, H, P, I>), NewPayloadJobError<E>>,
)
    requires
        call_ensures(
            BlockPayloadJobGenerator::<I>::new_payload_job_at::<A, H, P, E>,
            (generator, registry, parent_hash, timestamp, attributes, reply, now),
            made,
        ),
    ensures
        reply is Err <==> made matches Err(NewPayloadJobError::Provider(_)),
        made matches Err(NewPayloadJobError::Provider(error)) ==> reply->Err_0 == error,
{
}

/// A parent is missing exactly if its lookup found none, and then the answer names the
/// hash of the request.
pub proof fn law_missing_parent_is_named<A: Clone, H, P, E, I>(
    generator: &mut BlockPayloadJobGenerator<I>,
    registry: &mut CancellationRegistry,
    parent_hash: BlockHash,
    timestamp: u64,
    attributes: A,
    reply: Result<Option<SealedHeader<H>>, E>,
    now: ClockReading,
    made: Result<(BlockPayloadJob<A, H, P, I>, BuildTask<A, H, P, I>), NewPayloadJobError<E>>,
)
    requires
        call_ensures(
            BlockPayloadJobGenerator::<I>::new_payload_job_at::<A, H, P, E>,
            (generator, registry, parent_hash, timestamp, attributes, reply, now),
            made,
        ),
    ensures
        (reply is Ok && reply->Ok_0 is None) <==> made matches Err(NewPayloadJobError::Builder(_)),
        made matches Err(NewPayloadJobError::Builder(error)) ==> error
            == PayloadBuilderError::MissingParentBlock(parent_hash),
{
}

/// A parent that was found gives a job, unless the clock is before the epoch or the
/// deadline would be longer than any span. Each of these has its error.
pub proof fn law_found_parent_gives_a_job<A: Clone, H, P, E, I>(
    generator: &mut BlockPayloadJobGenerator<I>,
    registry: &mut CancellationRegistry,
    parent_hash: BlockHash,
    timestamp: u64,
    attributes: A,
    header: SealedHeader<H>,
    now: ClockReading,
    now_secs: nat,
    made: Result<(BlockPayloadJob<A, H, P, I>, BuildTask<A, H, P, I>), NewPayloadJobError<E>>,
)
    requires
        call_ensures(
            BlockPayloadJobGenerator::<I>::new_payload_job_at::<A, H, P, E>,
            (generator, registry, parent_hash, timestamp, attributes, Ok(Some(header)), now),
            made,
        ),
        now matches ClockReading::SinceEpoch(since) ==> now_secs * 1_000_000_000 <= since@ < (
        now_secs + 1) * 1_000_000_000,
    ensures
        now is BeforeEpoch <==> made matches Err(NewPayloadJobError::ClockBeforeEpoch),
        now is SinceEpoch && timestamp > now_secs ==> {
            made is Ok <==> (timestamp - now_secs) * 1_000_000_000 + old(generator).extra()
                <= u64::MAX * 1_000_000_000 + 999_999_999
        },
        now is SinceEpoch && timestamp <= now_secs ==> {
            made is Ok <==> 1_000_000_000 + old(generator).extra() <= u64::MAX * 1_000_000_000
                + 999_999_999
        },
        now is SinceEpoch && made is Err ==> made matches Err(
            NewPayloadJobError::DeadlineOverflow,
        ),
        made matches Ok((job, _)) ==> *job.config.parent_header == header,
{
}

/// Where there is no job there is no change.
pub proof fn law_refusal_changes_nothing<A: Clone, H, P, E, I>(
    generator: &mut BlockPayloadJobGenerator<I>,
    registry: &mut CancellationRegistry,
    parent_hash: BlockHash,
    timestamp: u64,
    attributes: A,
    reply: Result<Option<SealedHeader<H>>, E>,
    now: ClockReading,
    made: Result<(BlockPayloadJob<A, H, P, I>, BuildTask<A, H, P, I>), NewPayloadJobError<E>>,
)
    requires
        call_ensures(
            BlockPayloadJobGenerator::<I>::new_payload_job_at::<A, H, P, E>,
            (generator, registry, parent_hash, timestamp, attributes, reply, now),
            made,
        ),
        made is Err,
    ensures
        *final(generator) == *old(generator),
        *final(registry) == *old(registry),
{
}

// Requests that give a job

/// The deadline of a job comes with its block and the extra time of the generator, counted
/// from the whole second that the clock shows. Where the block is past, it comes after one
/// second and the extra time.
pub proof fn law_job_ends_with_its_block<A: Clone, H, P, E, I>(
    generator: &mut BlockPayloadJobGenerator<I>,
    registry: &mut CancellationRegistry,
    parent_hash: BlockHash,
    timestamp: u64,
    attributes: A,
    reply: Result<Option<SealedHeader<H>>, E>,
    now: ClockReading,
    now_secs: nat,
    made: Result<(BlockPayloadJob<A, H, P, I>, BuildTask<A, H, P, I>), NewPayloadJobError<E>>,
)
    requires
        call_ensures(
            BlockPayloadJobGenerator::<I>::new_payload_job_at::<A, H, P, E>,
            (generator, registry, parent_hash, timestamp, attributes, reply, now),
            made,
        ),
        now matches ClockReading::SinceEpoch(since) ==> now_secs * 1_000_000_000 <= since@ < (
        now_secs + 1) * 1_000_000_000,
        made is Ok,
    ensures
        timestamp > now_secs ==> now_secs * 1_000_000_000 + made->Ok_0.0.deadline@ == timestamp
            * 1_000_000_000 + old(generator).extra(),
        timestamp <= now_secs ==> made->Ok_0.0.deadline@ == 1_000_000_000 + old(generator).extra(),
{
}

/// The first job of a generator gets the extra time with which the generator was made.
pub proof fn law_extra_time_is_given<A: Clone, H, P, E, I>(
    before: &mut CancellationRegistry,
    extra_block_deadline: TimeSpan,
    block_time: TimeSpan,
    generator: &mut BlockPayloadJobGenerator<I>,
    registry: &mut CancellationRegistry,
    parent_hash: BlockHash,
    timestamp: u64,
    attributes: A,
    reply: Result<Option<SealedHeader<H>>, E>,
    now: ClockReading,
    now_secs: nat,
    made: Result<(BlockPayloadJob<A, H, P, I>, BuildTask<A, H, P, I>), NewPayloadJobError<E>>,
)
    requires
        call_ensures(
            BlockPayloadJobGenerator::<I>::with_builder,
            (before, extra_block_deadline, block_time),
            *old(generator),
        ),
        *old(registry) == *final(before),
        call_ensures(
            BlockPayloadJobGenerator::<I>::new_payload_job_at::<A, H, P, E>,
            (generator, registry, parent_hash, timestamp, attributes, reply, now),
            made,
        ),
        now matches ClockReading::SinceEpoch(since) ==> now_secs * 1_000_000_000 <= since@ < (
        now_secs + 1) * 1_000_000_000,
        made is Ok,
    ensures
        timestamp > now_secs ==> now_secs * 1_000_000_000 + made->Ok_0.0.deadline@ == timestamp
            * 1_000_000_000 + extra_block_deadline@,
        timestamp <= now_secs ==> made->Ok_0.0.deadline@ == 1_000_000_000 + extra_block_deadline@,
{
}

/// A job is what was asked for: on top of the parent that was found, with the attributes of
/// the request. Its build task builds the same, under the same cancellation, and publishes
/// on the channel into which the job looks.
pub proof fn law_job_is_what_was_asked_for<A: Clone, H, P, E, I>(
    generator: &mut BlockPayloadJobGenerator<I>,
    registry: &mut CancellationRegistry,
    parent_hash: BlockHash,
    timestamp: u64,
    attributes: A,
    reply: Result<Option<SealedHeader<H>>, E>,
    now: ClockReading,
    made: Result<(BlockPayloadJob<A, H, P, I>, BuildTask<A, H, P, I>), NewPayloadJobError<E>>,
)
    requires
        call_ensures(
            BlockPayloadJobGenerator::<I>::new_payload_job_at::<A, H, P, E>,
            (generator, registry, parent_hash, timestamp, attributes, reply, now),
            made,
        ),
        made is Ok,
    ensures
        reply == Ok::<Option<SealedHeader<H>>, E>(Some(*made->Ok_0.0.config.parent_header)),
        *made->Ok_0.1.args.config.parent_header == *made->Ok_0.0.config.parent_header,
        made->Ok_0.0.config.attributes == attributes,
        cloned(attributes, made->Ok_0.1.args.config.attributes),
        made->Ok_0.1.args.cancel == made->Ok_0.0.cancel,
        made->Ok_0.0.payload_rx matches Some(receiver) && call_ensures(
            tokio::sync::watch::channel::<Option<P>>,
            (None,),
            (made->Ok_0.1.best_payload_tx, receiver),
        ),
{
}

/// A build task starts with the reads that were cached for its parent when the job was
/// asked for, and with none where none were. The job itself keeps none.
pub proof fn law_task_starts_with_cached_reads<A: Clone, H, P, E, I>(
    generator: &mut BlockPayloadJobGenerator<I>,
    registry: &mut CancellationRegistry,
    parent_hash: BlockHash,
    timestamp: u64,
    attributes: A,
    header: SealedHeader<H>,
    now: ClockReading,
    made: Result<(BlockPayloadJob<A, H, P, I>, BuildTask<A, H, P, I>), NewPayloadJobError<E>>,
    cached: Option<Arc<CachedReads<I>>>,
)
    requires
        call_ensures(
            BlockPayloadJobGenerator::<I>::new_payload_job_at::<A, H, P, E>,
            (generator, registry, parent_hash, timestamp, attributes, Ok(Some(header)), now),
            made,
        ),
        call_ensures(
            BlockPayloadJobGenerator::<I>::maybe_pre_cached,
            (&*old(generator), header.hash),
            cached,
        ),
        made is Ok,
    ensures
        cached matches Some(reads) ==> made->Ok_0.1.args.cached_reads@ == reads@,
        cached is None ==> made->Ok_0.1.args.cached_reads.accounts@.len() == 0,
        made->Ok_0.0.cached_reads.accounts@.len() == 0,
{
    let task_reads = made->Ok_0.1.args.cached_reads;
    let job_reads = made->Ok_0.0.cached_reads;
    assert(task_reads@.len() == task_reads.accounts@.len());
    assert(job_reads@.len() == job_reads.accounts@.len());
}

/// A job on top of the block that was committed last starts with the present state of what
/// that commit changed; a job on top of any other block starts with nothing.
pub proof fn law_job_on_the_tip_knows_its_changes<A: Clone, H, P, E, I>(
    before: &mut BlockPayloadJobGenerator<I>,
    tip: BlockHash,
    changes: Vec<(Address, BundleAccount<I>)>,
    generator: &mut BlockPayloadJobGenerator<I>,
    registry: &mut CancellationRegistry,
    parent_hash: BlockHash,
    timestamp: u64,
    attributes: A,
    header: SealedHeader<H>,
    now: ClockReading,
    made: Result<(BlockPayloadJob<A, H, P, I>, BuildTask<A, H, P, I>), NewPayloadJobError<E>>,
)
    requires
        call_ensures(BlockPayloadJobGenerator::<I>::on_new_state, (before, tip, changes), ()),
        *old(generator) == *final(before),
        call_ensures(
            BlockPayloadJobGenerator::<I>::new_payload_job_at::<A, H, P, E>,
            (generator, registry, parent_hash, timestamp, attributes, Ok(Some(header)), now),
            made,
        ),
        made is Ok,
    ensures
        header.hash@ == tip@ ==> holds_present_state(
            made->Ok_0.1.args.cached_reads.accounts@,
            changes@,
        ),
        header.hash@ != tip@ ==> made->Ok_0.1.args.cached_reads.accounts@.len() == 0,
{
    let reads = made->Ok_0.1.args.cached_reads;
    assert(reads@.len() == reads.accounts@.len());
    if header.hash@ == tip@ {
        lemma_view_is_present_state(&*reads, changes@);
    }
}

/// With every new job the last one is cancelled for the newer update, whatever the deadline
/// of the new job. Its other reasons stay as they were.
pub proof fn law_last_job_is_cancelled<A: Clone, H, P, E, I>(
    generator: &mut BlockPayloadJobGenerator<I>,
    registry: &mut CancellationRegistry,
    parent_hash: BlockHash,
    timestamp: u64,
    attributes: A,
    reply: Result<Option<SealedHeader<H>>, E>,
    now: ClockReading,
    made: Result<(BlockPayloadJob<A, H, P, I>, BuildTask<A, H, P, I>), NewPayloadJobError<E>>,
    last: PayloadJobCancellation,
    cancelled: bool,
)
    requires
        call_ensures(
            BlockPayloadJobGenerator::<I>::new_payload_job_at::<A, H, P, E>,
            (generator, registry, parent_hash, timestamp, attributes, reply, now),
            made,
        ),
        call_ensures(
            BlockPayloadJobGenerator::<I>::last_payload_cancel,
            (&*old(generator),),
            last,
        ),
        old(registry)@.contains_key(last@),
        call_ensures(CancellationRegistry::is_cancelled, (&*final(registry), last), cancelled),
        made is Ok,
    ensures
        cancelled,
        final(registry)@.contains_key(last@),
        final(registry)@[last@].new_fcu,
        final(registry)@[last@].resolved == old(registry)@[last@].resolved,
        final(registry)@[last@].deadline == old(registry)@[last@].deadline,
{
}

/// A new job has a cancellation of its own, which nobody held before and which is not
/// cancelled. It is then the last job of the generator, and the registry has given out one
/// number more.
pub proof fn law_new_job_runs<A: Clone, H, P, E, I>(
    generator: &mut BlockPayloadJobGenerator<I>,
    registry: &mut CancellationRegistry,
    parent_hash: BlockHash,
    timestamp: u64,
    attributes: A,
    reply: Result<Option<SealedHeader<H>>, E>,
    now: ClockReading,
    made: Result<(BlockPayloadJob<A, H, P, I>, BuildTask<A, H, P, I>), NewPayloadJobError<E>>,
    last: PayloadJobCancellation,
    held_before: bool,
    held: bool,
    cancelled: bool,
    resolved: bool,
)
    requires
        call_ensures(
            BlockPayloadJobGenerator::<I>::new_payload_job_at::<A, H, P, E>,
            (generator, registry, parent_hash, timestamp, attributes, reply, now),
            made,
        ),
        made is Ok,
        call_ensures(
            BlockPayloadJobGenerator::<I>::last_payload_cancel,
            (&*final(generator),),
            last,
        ),
        call_ensures(
            CancellationRegistry::contains,
            (&*old(registry), made->Ok_0.0.cancel),
            held_before,
        ),
        call_ensures(
            CancellationRegistry::contains,
            (&*final(registry), made->Ok_0.0.cancel),
            held,
        ),
        call_ensures(
            CancellationRegistry::is_cancelled,
            (&*final(registry), made->Ok_0.0.cancel),
            cancelled,
        ),
        call_ensures(
            CancellationRegistry::is_resolved,
            (&*final(registry), made->Ok_0.0.cancel),
            resolved,
        ),
    ensures
        last == made->Ok_0.0.cancel,
        !held_before && held && !cancelled && !resolved,
        final(registry).issued() == old(registry).issued() + 1,
{
}

/// A request touches no cancellation but those of the last job and of the new one.
pub proof fn law_other_jobs_stay<A: Clone, H, P, E, I>(
    generator: &mut BlockPayloadJobGenerator<I>,
    registry: &mut CancellationRegistry,
    parent_hash: BlockHash,
    timestamp: u64,
    attributes: A,
    reply: Result<Option<SealedHeader<H>>, E>,
    now: ClockReading,
    made: Result<(BlockPayloadJob<A, H, P, I>, BuildTask<A, H, P, I>), NewPayloadJobError<E>>,
    other: PayloadJobCancellation,
    held_before: bool,
    held: bool,
)
    requires
        call_ensures(
            BlockPayloadJobGenerator::<I>::new_payload_job_at::<A, H, P, E>,
            (generator, registry, parent_hash, timestamp, attributes, reply, now),
            made,
        ),
        other@ != old(generator).last()@,
        made matches Ok((job, _)) ==> other@ != job.cancel@,
        call_ensures(CancellationRegistry::contains, (&*old(registry), other), held_before),
        call_ensures(CancellationRegistry::contains, (&*final(registry), other), held),
    ensures
        held == held_before,
        final(registry)@[other@] == old(registry)@[other@],
{
}

/// A request changes neither the settings of the generator nor what is cached, for any
/// block.
pub proof fn law_generator_keeps_its_settings<A: Clone, H, P, E, I>(
    generator: &mut BlockPayloadJobGenerator<I>,
    registry: &mut CancellationRegistry,
    parent_hash: BlockHash,
    timestamp: u64,
    attributes: A,
    reply: Result<Option<SealedHeader<H>>, E>,
    now: ClockReading,
    made: Result<(BlockPayloadJob<A, H, P, I>, BuildTask<A, H, P, I>), NewPayloadJobError<E>>,
    block: BlockHash,
    cached_before: Option<Arc<CachedReads<I>>>,
    cached: Option<Arc<CachedReads<I>>>,
)
    requires
        call_ensures(
            BlockPayloadJobGenerator::<I>::new_payload_job_at::<A, H, P, E>,
            (generator, registry, parent_hash, timestamp, attributes, reply, now),
            made,
        ),
        call_ensures(
            BlockPayloadJobGenerator::<I>::maybe_pre_cached,
            (&*old(generator), block),
            cached_before,
        ),
        call_ensures(
            BlockPayloadJobGenerator::<I>::maybe_pre_cached,
            (&*final(generator), block),
            cached,
        ),
    ensures
        final(generator).extra() == old(generator).extra(),
        final(generator).interval() == old(generator).interval(),
        match (cached_before, cached) {
            (Some(reads_before), Some(reads)) => reads@ == reads_before@,
            (None, None) => true,
            _ => false,
        },
{
}

/// Of two jobs made one after the other, the first has ended when it is next polled, though
/// its deadline is not reached, and the second has not.
pub proof fn law_second_job_ends_the_first<A: Clone, H, P, E, I>(
    generators: (&mut BlockPayloadJobGenerator<I>, &mut BlockPayloadJobGenerator<I>),
    registries: (&mut CancellationRegistry, &mut CancellationRegistry),
    parents: (BlockHash, BlockHash),
    timestamps: (u64, u64),
    attributes: (A, A),
    replies: (Result<Option<SealedHeader<H>>, E>, Result<Option<SealedHeader<H>>, E>),
    clock: (ClockReading, ClockReading),
    first: (BlockPayloadJob<A, H, P, I>, BuildTask<A, H, P, I>),
    second: (BlockPayloadJob<A, H, P, I>, BuildTask<A, H, P, I>),
    polled_first: &mut CancellationRegistry,
    polled_second: &mut CancellationRegistry,
    first_status: JobStatus,
    second_status: JobStatus,
)
    requires
        call_ensures(
            BlockPayloadJobGenerator::<I>::new_payload_job_at::<A, H, P, E>,
            (
                generators.0,
                registries.0,
                parents.0,
                timestamps.0,
                attributes.0,
                replies.0,
                clock.0,
            ),
            Ok(first),
        ),
        *generators.1 == *final(generators.0),
        *registries.1 == *final(registries.0),
        call_ensures(
            BlockPayloadJobGenerator::<I>::new_payload_job_at::<A, H, P, E>,
            (
                generators.1,
                registries.1,
                parents.1,
                timestamps.1,
                attributes.1,
                replies.1,
                clock.1,
            ),
            Ok(second),
        ),
        *old(polled_first) == *final(registries.1),
        *old(polled_second) == *final(registries.1),
        call_ensures(
            BlockPayloadJob::<A, H, P, I>::poll,
            (&first.0, polled_first, false),
            first_status,
        ),
        call_ensures(
            BlockPayloadJob::<A, H, P, I>::poll,
            (&second.0, polled_second, false),
            second_status,
        ),
    ensures
        first_status == JobStatus::Finished,
        second_status == JobStatus::Running,
{
}

// Requests by the clock of the system

/// By the clock of the system a request is answered as at any time: a failed lookup with
/// its error, a missing parent with its hash, and neither changes anything.
pub proof fn law_refused_by_the_clock<A: Clone, H, P, E, I>(
    generator: &mut BlockPayloadJobGenerator<I>,
    registry: &mut CancellationRegistry,
    parent_hash: BlockHash,
    timestamp: u64,
    attributes: A,
    reply: Result<Option<SealedHeader<H>>, E>,
    made: Result<(BlockPayloadJob<A, H, P, I>, BuildTask<A, H, P, I>), NewPayloadJobError<E>>,
)
    requires
        call_ensures(
            BlockPayloadJobGenerator::<I>::new_payload_job::<A, H, P, E>,
            (generator, registry, parent_hash, timestamp, attributes, reply),
            made,
        ),
    ensures
        reply is Err <==> made matches Err(NewPayloadJobError::Provider(_)),
        made matches Err(NewPayloadJobError::Provider(error)) ==> reply->Err_0 == error,
        (reply is Ok && reply->Ok_0 is None) <==> made matches Err(NewPayloadJobError::Builder(_)),
        made matches Err(NewPayloadJobError::Builder(error)) ==> error
            == PayloadBuilderError::MissingParentBlock(parent_hash),
        made is Err ==> *final(generator) == *old(generator) && *final(registry) == *old(registry),
{
}

/// By the clock of the system a parent that was found gives a job that ends with its block
/// and the extra time, counted from a whole second that the clock gave. There is none only
/// if the clock gave a time before the epoch, or if the deadline would be longer than any
/// span.
pub proof fn law_job_by_the_clock<A: Clone, H, P, E, I>(
    generator: &mut BlockPayloadJobGenerator<I>,
    registry: &mut CancellationRegistry,
    parent_hash: BlockHash,
    timestamp: u64,
    attributes: A,
    header: SealedHeader<H>,
    made: Result<(BlockPayloadJob<A, H, P, I>, BuildTask<A, H, P, I>), NewPayloadJobError<E>>,
)
    requires
        call_ensures(
            BlockPayloadJobGenerator::<I>::new_payload_job::<A, H, P, E>,
            (generator, registry, parent_hash, timestamp, attributes, Ok(Some(header))),
            made,
        ),
    ensures
        match made {
            Ok((job, task)) => exists|nanos: u128| #[trigger]
                system_clock_gave(Ok::<u128, u128>(nanos)) && job.deadline@ == old(generator).extra() + (if timestamp > nanos / 1_000_000_000 {
                    (timestamp - nanos / 1_000_000_000) * 1_000_000_000
                } else {
                    1_000_000_000
                }),
            Err(NewPayloadJobError::ClockBeforeEpoch) => exists|nanos: u128| #[trigger]
                system_clock_gave(Err::<u128, u128>(nanos)),
            Err(NewPayloadJobError::DeadlineOverflow) => exists|nanos: u128| #[trigger]
                system_clock_gave(Ok::<u128, u128>(nanos)) && old(generator).extra() + (
                if timestamp > nanos / 1_000_000_000 {
                    (timestamp - nanos / 1_000_000_000) * 1_000_000_000
                } else {
                    1_000_000_000
                }) > u64::MAX * 1_000_000_000 + 999_999_999,
            Err(_) => false,
        },
{
    let now = choose|now: ClockReading| #[trigger]
        clock_showed(now) && old(generator).answered(
            *old(registry),
            (parent_hash, timestamp, attributes, Ok::<Option<SealedHeader<H>>, E>(Some(header))),
            now,
            made,
            *final(generator),
            *final(registry),
        );
    let given = choose|given: Result<u128, u128>| #[trigger]
        system_clock_gave(given) && reading_of(given, now);
    match given {
        Ok(nanos) => {
            assert(system_clock_gave(Ok::<u128, u128>(nanos)));
        },
        Err(nanos) => {
            assert(system_clock_gave(Err::<u128, u128>(nanos)));
        },
    }
}

/// By the clock of the system too a job is what was asked for and starts with the reads
/// that are cached for its parent; the last job is cancelled for the newer update, the new
/// one is not cancelled and is the last of the generator, and no other is touched.
pub proof fn law_job_by_the_clock_takes_the_place_of_the_last<A: Clone, H, P, E, I>(
    generator: &mut BlockPayloadJobGenerator<I>,
    registry: &mut CancellationRegistry,
    parent_hash: BlockHash,
    timestamp: u64,
    attributes: A,
    header: SealedHeader<H>,
    made: Result<(BlockPayloadJob<A, H, P, I>, BuildTask<A, H, P, I>), NewPayloadJobError<E>>,
    cached: Option<Arc<CachedReads<I>>>,
    last: PayloadJobCancellation,
    id: u64,
)
    requires
        call_ensures(
            BlockPayloadJobGenerator::<I>::new_payload_job::<A, H, P, E>,
            (generator, registry, parent_hash, timestamp, attributes, Ok(Some(header))),
            made,
        ),
        call_ensures(
            BlockPayloadJobGenerator::<I>::maybe_pre_cached,
            (&*old(generator), header.hash),
            cached,
        ),
        call_ensures(
            BlockPayloadJobGenerator::<I>::last_payload_cancel,
            (&*old(generator),),
            last,
        ),
        old(registry)@.contains_key(last@),
        made is Ok,
    ensures
        *made->Ok_0.0.config.parent_header == header,
        *made->Ok_0.1.args.config.parent_header == header,
        made->Ok_0.0.config.attributes == attributes,
        cloned(attributes, made->Ok_0.1.args.config.attributes),
        made->Ok_0.1.args.cancel == made->Ok_0.0.cancel,
        made->Ok_0.0.payload_rx matches Some(receiver) && call_ensures(
            tokio::sync::watch::channel::<Option<P>>,
            (None,),
            (made->Ok_0.1.best_payload_tx, receiver),
        ),
        cached matches Some(reads) ==> made->Ok_0.1.args.cached_reads@ == reads@,
        cached is None ==> made->Ok_0.1.args.cached_reads.accounts@.len() == 0,
        made->Ok_0.0.cached_reads.accounts@.len() == 0,
        final(generator).last() == made->Ok_0.0.cancel,
        final(generator).extra() == old(generator).extra(),
        final(generator).interval() == old(generator).interval(),
        final(generator).precached() == old(generator).precached(),
        !old(registry)@.contains_key(made->Ok_0.0.cancel@),
        final(registry)@.contains_key(made->Ok_0.0.cancel@),
        !final(registry)@[made->Ok_0.0.cancel@].new_fcu,
        !final(registry)@[made->Ok_0.0.cancel@].resolved,
        !final(registry)@[made->Ok_0.0.cancel@].deadline,
        final(registry)@.contains_key(last@),
        final(registry)@[last@].new_fcu,
        final(registry)@[last@].resolved == old(registry)@[last@].resolved,
        final(registry)@[last@].deadline == old(registry)@[last@].deadline,
        id != last@ && id != made->Ok_0.0.cancel@ ==> {
            &&& final(registry)@.contains_key(id) <==> old(registry)@.contains_key(id)
            &&& final(registry)@[id] == old(registry)@[id]
        },
{
    let task_reads = made->Ok_0.1.args.cached_reads;
    let job_reads = made->Ok_0.0.cached_reads;
    assert(task_reads@.len() == task_reads.accounts@.len());
    assert(job_reads@.len() == job_reads.accounts@.len());
}

// What is accepted

/// A new generator accepts every request while the registry has room.
pub proof fn law_first_request_is_accepted<A: Clone, H, P, E, I>(
    before: &mut CancellationRegistry,
    extra_block_deadline: TimeSpan,
    block_time: TimeSpan,
    generator: &mut BlockPayloadJobGenerator<I>,
    registry: &mut CancellationRegistry,
    parent_hash: BlockHash,
    timestamp: u64,
    attributes: A,
    reply: Result<Option<SealedHeader<H>>, E>,
    now: ClockReading,
)
    requires
        call_ensures(
            BlockPayloadJobGenerator::<I>::with_builder,
            (before, extra_block_deadline, block_time),
            *old(generator),
        ),
        *old(registry) == *final(before),
        call_ensures(CancellationRegistry::has_room, (&*old(registry),), true),
    ensures
        call_requires(
            BlockPayloadJobGenerator::<I>::new_payload_job_at::<A, H, P, E>,
            (generator, registry, parent_hash, timestamp, attributes, reply, now),
        ),
        call_requires(
            BlockPayloadJobGenerator::<I>::new_payload_job::<A, H, P, E>,
            (generator, registry, parent_hash, timestamp, attributes, reply),
        ),
{
}

/// After a job was made the next request is accepted too while the registry has room, and
/// the job can be polled.
pub proof fn law_next_request_is_accepted<A: Clone, H, P, E, I>(
    generator: &mut BlockPayloadJobGenerator<I>,
    registry: &mut CancellationRegistry,
    parent_hash: BlockHash,
    timestamp: u64,
    attributes: A,
    reply: Result<Option<SealedHeader<H>>, E>,
    now: ClockReading,
    made: (BlockPayloadJob<A, H, P, I>, BuildTask<A, H, P, I>),
    then: &mut BlockPayloadJobGenerator<I>,
    registry_then: &mut CancellationRegistry,
    next_parent: BlockHash,
    next_timestamp: u64,
    next_attributes: A,
    next_reply: Result<Option<SealedHeader<H>>, E>,
    next_now: ClockReading,
    deadline_reached: bool,
)
    requires
        call_ensures(
            BlockPayloadJobGenerator::<I>::new_payload_job_at::<A, H, P, E>,
            (generator, registry, parent_hash, timestamp, attributes, reply, now),
            Ok(made),
        ),
        *old(then) == *final(generator),
        *old(registry_then) == *final(registry),
    ensures
        call_requires(
            BlockPayloadJob::<A, H, P, I>::poll,
            (&made.0, registry_then, deadline_reached),
        ),
        call_ensures(CancellationRegistry::has_room, (&*old(registry_then),), true)
            ==> call_requires(
            BlockPayloadJobGenerator::<I>::new_payload_job_at::<A, H, P, E>,
            (
                then,
                registry_then,
                next_parent,
                next_timestamp,
                next_attributes,
                next_reply,
                next_now,
            ),
        ),
{
}

} // verus!
