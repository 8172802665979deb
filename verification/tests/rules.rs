use alloy_primitives::{Address, U256};
use op_rbuilder::cache::{BundleAccount, CachedReads, StorageSlot};
use op_rbuilder::cancellation::CancellationRegistry;
use op_rbuilder::channel::look;
use op_rbuilder::error::PayloadBuilderError;
use op_rbuilder::generator::{
    parent_lookup, BlockPayloadJobGenerator, NewPayloadJobError, ParentLookup,
};
use op_rbuilder::job::{
    published_payload, BlockPayloadJob, BuildTask, JobStatus, KeepPayloadJobAlive, PayloadKind,
    SealedHeader,
};
use op_rbuilder::resolve::{ResolvePayload, ResolveStep};
use op_rbuilder::runtime_ext::{blocking_task_outcome, BlockingTaskError};
use op_rbuilder::time::{
    expected_fcu_arrival, fcu_arrival_delay_at, job_deadline_at, read_clock, ClockBeforeEpoch,
    ClockReading, TimeSpan, MAX_SPAN_NANOS, MAX_SYSTEM_SECS,
};
use std::sync::Arc;
use std::time::{SystemTime, UNIX_EPOCH};
use tokio::runtime::Builder;
use tokio::sync::watch;

type Job = BlockPayloadJob<String, &'static str, u64, u32>;
type Task = BuildTask<String, &'static str, u64, u32>;
type Generator = BlockPayloadJobGenerator<u32>;

const TIP: [u8; 32] = [7; 32];

fn span(nanos: u128) -> TimeSpan {
    TimeSpan::from_nanos(nanos).unwrap()
}

fn at(secs: u64) -> ClockReading {
    ClockReading::SinceEpoch(TimeSpan::from_secs(secs))
}

fn deadline(timestamp: u64, now: u64) -> TimeSpan {
    job_deadline_at(timestamp, at(now)).unwrap()
}

fn generator(registry: &mut CancellationRegistry) -> Generator {
    Generator::with_builder(registry, TimeSpan::from_secs(20), TimeSpan::from_secs(2))
}

fn header(hash: [u8; 32]) -> SealedHeader<&'static str> {
    SealedHeader { hash, header: "header" }
}

fn start(
    generator: &mut Generator,
    registry: &mut CancellationRegistry,
    parent: [u8; 32],
) -> (Job, Task) {
    generator
        .new_payload_job_at::<String, &'static str, u64, u8>(
            registry,
            parent,
            100,
            "attributes".to_string(),
            Ok(Some(header(parent))),
            at(90),
        )
        .unwrap()
}

fn changes() -> Vec<(Address, BundleAccount<u32>)> {
    let slot = |before: u64, now: u64| StorageSlot {
        previous_or_original_value: U256::from(before),
        present_value: U256::from(now),
    };
    vec![
        (
            Address::repeat_byte(1),
            BundleAccount {
                info: Some(11),
                storage: vec![
                    (U256::from(1), slot(10, 100)),
                    (U256::from(2), slot(20, 200)),
                ],
            },
        ),
        (
            Address::repeat_byte(2),
            BundleAccount { info: None, storage: vec![(U256::from(3), slot(30, 300))] },
        ),
        (Address::repeat_byte(3), BundleAccount { info: Some(33), storage: vec![] }),
    ]
}

#[test]
fn deadline_is_the_time_until_the_block() {
    assert_eq!(deadline(100, 90), TimeSpan::from_secs(10));
    assert_eq!(deadline(100, 99), TimeSpan::from_secs(1));
    assert_eq!(deadline(100, 100), TimeSpan::from_secs(1));
    assert_eq!(deadline(0, u64::MAX), TimeSpan::from_secs(1));
    assert_eq!(deadline(u64::MAX, 0), TimeSpan::from_secs(u64::MAX));
    // The clock counts in whole seconds.
    let almost = ClockReading::SinceEpoch(span(91_999_999_999));
    assert_eq!(job_deadline_at(100, almost), Ok(TimeSpan::from_secs(9)));
    assert_eq!(job_deadline_at(100, ClockReading::BeforeEpoch(span(1))), Err(ClockBeforeEpoch));
}

#[test]
fn deadline_grows_with_the_block_and_shrinks_with_the_start() {
    assert!(deadline(90, 95).as_nanos() <= deadline(100, 95).as_nanos());
    assert!(deadline(100, 95).as_nanos() <= deadline(100, 90).as_nanos());
}

#[test]
fn spans_add_up_to_the_longest() {
    let longest = span(MAX_SPAN_NANOS);
    assert_eq!(longest.as_secs(), u64::MAX);
    assert_eq!(longest.subsec_nanos(), 999_999_999);
    assert_eq!(TimeSpan::from_nanos(MAX_SPAN_NANOS + 1), None);
    assert_eq!(longest.checked_add(span(1)), None);
    assert_eq!(longest.checked_add(span(0)), Some(longest));
    assert_eq!(span(1_500_000_000).checked_add(span(700_000_000)), Some(span(2_200_000_000)));
}

#[test]
fn fcu_is_due_one_block_time_before_the_block() {
    assert_eq!(expected_fcu_arrival(100, TimeSpan::from_secs(2)), 98_000_000_000);
    assert_eq!(expected_fcu_arrival(1, TimeSpan::from_secs(2)), -1_000_000_000);
    assert_eq!(expected_fcu_arrival(100, span(1)), 99_999_999_999);
    // The first system time, and one nanosecond before it.
    let first = (MAX_SYSTEM_SECS as u128 + 1) * 1_000_000_000;
    assert_eq!(expected_fcu_arrival(0, span(first)), -(first as i128));
    assert_eq!(expected_fcu_arrival(0, span(first + 1)), 0);
}

#[test]
fn fcu_delay_is_positive_when_late() {
    let block_time = TimeSpan::from_secs(2);
    assert_eq!(fcu_arrival_delay_at(100, block_time, at(98)), 0);
    assert_eq!(fcu_arrival_delay_at(100, block_time, at(99)), 1_000_000_000);
    assert_eq!(fcu_arrival_delay_at(100, block_time, at(97)), -1_000_000_000);
    let before = ClockReading::BeforeEpoch(TimeSpan::from_secs(1));
    assert_eq!(fcu_arrival_delay_at(100, block_time, before), -99_000_000_000);
}

#[test]
fn clock_is_read_in_nanoseconds_since_the_epoch() {
    let before = SystemTime::now().duration_since(UNIX_EPOCH).unwrap().as_nanos();
    let reading = read_clock();
    let after = SystemTime::now().duration_since(UNIX_EPOCH).unwrap().as_nanos();
    match reading {
        ClockReading::SinceEpoch(since) => {
            assert!(before <= since.as_nanos() && since.as_nanos() <= after);
            assert_eq!(reading.unix_secs(), Ok(since.as_secs()));
        }
        ClockReading::BeforeEpoch(_) => panic!("clock before the epoch"),
    }
}

#[test]
fn time_before_the_epoch_has_no_unix_seconds() {
    assert_eq!(ClockReading::BeforeEpoch(span(1)).unix_secs(), Err(ClockBeforeEpoch));
}

#[test]
fn arrival_is_noted_with_the_block_time_of_the_generator() {
    let mut registry = CancellationRegistry::new();
    let generator = generator(&mut registry);
    let arrival = generator.fcu_arrival(100);
    assert_eq!(
        arrival.delay_nanos,
        fcu_arrival_delay_at(100, TimeSpan::from_secs(2), arrival.at)
    );
    assert!(arrival.delay_nanos > 0);
}

#[test]
fn zero_parent_is_the_latest_block() {
    assert_eq!(parent_lookup([0; 32]), ParentLookup::Latest);
    assert_eq!(parent_lookup(TIP), ParentLookup::ByHash(TIP));
    let mut last_byte = [0; 32];
    last_byte[31] = 1;
    assert_eq!(parent_lookup(last_byte), ParentLookup::ByHash(last_byte));
}

#[test]
fn new_job_is_as_asked_for() {
    let mut registry = CancellationRegistry::new();
    let mut generator = generator(&mut registry);
    let (job, task) = start(&mut generator, &mut registry, TIP);
    assert_eq!(job.deadline, TimeSpan::from_secs(30));
    assert_eq!(job.config.parent_header.hash, TIP);
    assert_eq!(job.config.parent_header.header, "header");
    assert_eq!(job.payload_attributes().unwrap(), "attributes");
    assert_eq!(task.args.config.attributes, "attributes");
    assert!(Arc::ptr_eq(&task.args.config.parent_header, &job.config.parent_header));
    assert_eq!(task.args.cancel, job.cancel);
    assert!(task.args.cached_reads.accounts.is_empty());
    assert!(!registry.is_cancelled(job.cancel));
}

#[test]
fn new_job_ends_the_last_one_only() {
    let mut registry = CancellationRegistry::new();
    let mut generator = generator(&mut registry);
    let mut other = self::generator(&mut registry);
    let (elsewhere, _) = start(&mut other, &mut registry, TIP);
    let (first, _) = start(&mut generator, &mut registry, TIP);
    assert_eq!(first.poll(&mut registry, false), JobStatus::Running);
    let (second, _) = start(&mut generator, &mut registry, TIP);
    assert_eq!(first.poll(&mut registry, false), JobStatus::Finished);
    assert!(!registry.is_resolved(first.cancel));
    assert_eq!(second.poll(&mut registry, false), JobStatus::Running);
    assert_eq!(elsewhere.poll(&mut registry, false), JobStatus::Running);
    let (third, _) = start(&mut generator, &mut registry, TIP);
    let running: Vec<bool> = [&first, &second, &third]
        .iter()
        .map(|job| !registry.is_cancelled(job.cancel))
        .collect();
    assert_eq!(running, vec![false, false, true]);
}

#[test]
fn refused_request_changes_nothing() {
    let mut registry = CancellationRegistry::new();
    let mut generator = generator(&mut registry);
    let (job, _) = start(&mut generator, &mut registry, TIP);

    let missing = generator.new_payload_job::<String, &'static str, u64, u8>(
        &mut registry,
        TIP,
        100,
        String::new(),
        Ok(None),
    );
    match missing {
        Err(NewPayloadJobError::Builder(PayloadBuilderError::MissingParentBlock(hash))) => {
            assert_eq!(hash, TIP)
        }
        _ => panic!("parent is missing"),
    }
    let failed = generator.new_payload_job::<String, &'static str, u64, u8>(
        &mut registry,
        TIP,
        100,
        String::new(),
        Err(5),
    );
    assert!(matches!(failed, Err(NewPayloadJobError::Provider(5))));
    assert_eq!(job.poll(&mut registry, false), JobStatus::Running);

    // The last job is still the one that the next job ends.
    start(&mut generator, &mut registry, TIP);
    assert_eq!(job.poll(&mut registry, false), JobStatus::Finished);
}

#[test]
fn deadline_that_no_span_holds_is_refused() {
    let mut registry = CancellationRegistry::new();
    let mut generator =
        Generator::with_builder(&mut registry, span(MAX_SPAN_NANOS), TimeSpan::from_secs(2));
    let made = generator.new_payload_job::<String, &'static str, u64, u8>(
        &mut registry,
        TIP,
        0,
        String::new(),
        Ok(Some(header(TIP))),
    );
    assert!(matches!(made, Err(NewPayloadJobError::DeadlineOverflow)));
}

#[test]
fn no_job_before_the_epoch() {
    let mut registry = CancellationRegistry::new();
    let mut generator = generator(&mut registry);
    let (job, _) = start(&mut generator, &mut registry, TIP);
    let made = generator.new_payload_job_at::<String, &'static str, u64, u8>(
        &mut registry,
        TIP,
        100,
        String::new(),
        Ok(Some(header(TIP))),
        ClockReading::BeforeEpoch(span(1)),
    );
    assert!(matches!(made, Err(NewPayloadJobError::ClockBeforeEpoch)));
    assert_eq!(job.poll(&mut registry, false), JobStatus::Running);
}

#[test]
fn job_by_the_clock_gets_one_second_for_a_past_block() {
    let mut registry = CancellationRegistry::new();
    let mut generator = generator(&mut registry);
    let (job, _) = generator
        .new_payload_job::<String, &'static str, u64, u8>(
            &mut registry,
            TIP,
            0,
            String::new(),
            Ok(Some(header(TIP))),
        )
        .unwrap();
    assert_eq!(job.deadline, TimeSpan::from_secs(21));
}

#[test]
fn commit_is_cached_for_jobs_on_top_of_it() {
    let mut registry = CancellationRegistry::new();
    let mut generator = generator(&mut registry);
    assert!(generator.maybe_pre_cached(TIP).is_none());
    generator.on_new_state(TIP, changes());
    assert!(generator.maybe_pre_cached([8; 32]).is_none());
    assert_eq!(generator.maybe_pre_cached(TIP).unwrap().accounts.len(), 2);

    let (mut job, task) = start(&mut generator, &mut registry, TIP);
    assert_eq!(task.args.cached_reads.accounts.len(), 2);
    assert!(job.cached_reads.accounts.is_empty());
    // The reads went with the first task.
    assert!(job.spawn_build_job().args.cached_reads.accounts.is_empty());

    let (_, elsewhere) = start(&mut generator, &mut registry, [8; 32]);
    assert!(elsewhere.args.cached_reads.accounts.is_empty());

    generator.on_new_state([8; 32], vec![]);
    assert!(generator.maybe_pre_cached(TIP).is_none());
    assert!(generator.maybe_pre_cached([8; 32]).unwrap().accounts.is_empty());
}

#[test]
fn cache_holds_existing_accounts_with_present_values() {
    let cached = CachedReads::from_changes(changes());
    let addresses: Vec<Address> = cached.accounts.iter().map(|a| a.address).collect();
    assert_eq!(addresses, vec![Address::repeat_byte(1), Address::repeat_byte(3)]);
    assert_eq!(cached.accounts[0].info, 11);
    assert_eq!(
        cached.accounts[0].storage,
        vec![(U256::from(1), U256::from(100)), (U256::from(2), U256::from(200))]
    );
    assert_eq!(cached.accounts[1].info, 33);
    assert!(cached.accounts[1].storage.is_empty());
}

#[test]
fn deadline_ends_a_job() {
    let mut registry = CancellationRegistry::new();
    let mut generator = generator(&mut registry);
    let (job, _) = start(&mut generator, &mut registry, TIP);
    assert_eq!(job.poll(&mut registry, true), JobStatus::Finished);
    assert!(registry.is_cancelled(job.cancel));
    assert!(!registry.is_resolved(job.cancel));
    // It stays ended.
    assert_eq!(job.poll(&mut registry, false), JobStatus::Finished);
}

#[test]
fn resolved_job_ends() {
    let mut registry = CancellationRegistry::new();
    let mut generator = generator(&mut registry);
    let (mut job, task) = start(&mut generator, &mut registry, TIP);
    assert!(matches!(job.best_payload(), Err(PayloadBuilderError::MissingPayload)));
    task.best_payload_tx.send_replace(Some(4));
    assert_eq!(job.best_payload().unwrap(), 4);
    task.best_payload_tx.send_replace(Some(5));
    assert_eq!(job.best_payload().unwrap(), 5);

    let (resolve, keep) = job.resolve_kind(PayloadKind::WaitForPending);
    assert_eq!(keep, KeepPayloadJobAlive::No);
    assert_eq!(job.poll(&mut registry, false), JobStatus::Running);
    assert!(matches!(resolve.step(&mut registry), ResolveStep::Ready(Ok(5))));
    assert!(registry.is_resolved(job.cancel));
    assert_eq!(job.poll(&mut registry, false), JobStatus::Finished);

    // The channel went with the first request.
    assert!(matches!(job.best_payload(), Err(PayloadBuilderError::MissingPayload)));
    let (again, _) = job.resolve_kind(PayloadKind::Earliest);
    match again.step(&mut registry) {
        ResolveStep::Ready(Err(PayloadBuilderError::Other(message))) => {
            assert_eq!(message, "payload receiver missing")
        }
        _ => panic!("no channel is left"),
    }
}

#[test]
fn best_payload_stays_until_the_next_publication() {
    let mut registry = CancellationRegistry::new();
    let mut generator = generator(&mut registry);
    let (mut job, task) = start(&mut generator, &mut registry, TIP);
    task.best_payload_tx.send_replace(Some(1));
    task.best_payload_tx.send_replace(Some(2));
    assert_eq!(job.best_payload().unwrap(), 2);
    assert_eq!(job.best_payload().unwrap(), 2);
    drop(task);
    assert_eq!(job.best_payload().unwrap(), 2);
    assert!(!registry.is_cancelled(job.cancel));
    let (resolve, _) = job.resolve_kind(PayloadKind::Earliest);
    assert!(matches!(resolve.step(&mut registry), ResolveStep::Ready(Ok(2))));
    assert!(registry.is_resolved(job.cancel));
}

#[test]
fn build_that_fails_leaves_its_job_running() {
    let mut registry = CancellationRegistry::new();
    let mut generator = generator(&mut registry);
    let (mut job, task) = start(&mut generator, &mut registry, TIP);
    drop(task);
    assert!(matches!(job.best_payload(), Err(PayloadBuilderError::MissingPayload)));
    assert_eq!(job.poll(&mut registry, false), JobStatus::Running);
    let (mut resolve, _) = job.resolve_kind(PayloadKind::Earliest);
    assert!(matches!(resolve.step(&mut registry), ResolveStep::AwaitChange));
    let runtime = Builder::new_current_thread().build().unwrap();
    let changed = runtime.block_on(resolve.payload_rx.as_mut().unwrap().changed());
    match resolve.on_changed(changed) {
        Err(PayloadBuilderError::Other(message)) => {
            assert_eq!(message, "builder exited before producing payload")
        }
        _ => panic!("the channel has closed"),
    }
    assert_eq!(job.poll(&mut registry, false), JobStatus::Running);
    assert_eq!(job.poll(&mut registry, true), JobStatus::Finished);
}

#[test]
fn each_build_task_has_the_channel_of_its_job() {
    let mut registry = CancellationRegistry::new();
    let mut generator = generator(&mut registry);
    let (mut job, first) = start(&mut generator, &mut registry, TIP);
    first.best_payload_tx.send_replace(Some(1));
    let second = job.spawn_build_job();
    // The new channel is empty, and the old one is no longer the job's.
    assert!(matches!(job.best_payload(), Err(PayloadBuilderError::MissingPayload)));
    first.best_payload_tx.send_replace(Some(3));
    assert!(matches!(job.best_payload(), Err(PayloadBuilderError::MissingPayload)));
    second.best_payload_tx.send_replace(Some(4));
    assert_eq!(job.best_payload().unwrap(), 4);
}

#[test]
fn look_leaves_the_value_in_the_channel() {
    let (tx, rx) = watch::channel::<u64>(1);
    assert_eq!(look(&rx), 1);
    tx.send_replace(2);
    assert_eq!(look(&rx), 2);
    assert_eq!(look(&rx), 2);
}

#[test]
fn first_payload_seen_is_handed_out() {
    let mut registry = CancellationRegistry::new();
    let cancel = registry.register();
    let (tx, rx) = watch::channel::<Option<u64>>(None);
    let resolve = ResolvePayload::new(Some(rx), cancel);
    assert!(matches!(resolve.step(&mut registry), ResolveStep::AwaitChange));
    assert!(resolve.on_changed(Ok(())).is_ok());
    assert!(matches!(resolve.on_value(&mut registry, None), ResolveStep::AwaitChange));
    assert!(!registry.is_cancelled(cancel));
    tx.send_replace(Some(6));
    drop(tx);
    assert!(matches!(resolve.step(&mut registry), ResolveStep::Ready(Ok(6))));
    assert!(registry.is_resolved(cancel));
}

#[test]
fn published_payload_is_missing_before_the_first() {
    assert_eq!(published_payload(Some(3)).unwrap(), 3);
    assert!(matches!(published_payload::<u64>(None), Err(PayloadBuilderError::MissingPayload)));
}

#[test]
fn reasons_add_up() {
    let mut registry = CancellationRegistry::new();
    let cancel = registry.register();
    let other = registry.register();
    assert!(!registry.is_cancelled(cancel) && !registry.is_resolved(cancel));
    registry.cancel_new_fcu(cancel);
    assert!(registry.is_cancelled(cancel) && !registry.is_resolved(cancel));
    registry.cancel_resolved(cancel);
    registry.cancel_deadline(cancel);
    registry.cancel_deadline(cancel);
    assert!(registry.is_cancelled(cancel) && registry.is_resolved(cancel));
    assert!(!registry.is_cancelled(other));
    registry.release(cancel);
    assert!(!registry.contains(cancel) && registry.contains(other));
    assert!(registry.has_room());
    assert_ne!(registry.register(), cancel);
}

#[test]
fn blocking_task_is_passed_on_or_failed() {
    assert_eq!(blocking_task_outcome::<u64, u8>(Ok(Ok(3))).unwrap(), 3);
    assert!(matches!(
        blocking_task_outcome::<u64, u8>(Ok(Err(4))),
        Err(BlockingTaskError::Returned(4))
    ));
    let runtime = Builder::new_current_thread().build().unwrap();
    let joined = runtime.block_on(async {
        let task = tokio::spawn(async { std::future::pending().await });
        task.abort();
        task.await
    });
    match blocking_task_outcome::<u64, u8>(joined) {
        Err(BlockingTaskError::NotJoined(failure)) => assert!(failure.is_cancelled()),
        _ => panic!("the task was aborted"),
    }
}
