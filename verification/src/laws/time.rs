//! Laws of spans, of the clock, of deadlines and of the arrival of updates.

use crate::time::{
    clock_showed, deadline_outcome, expected_fcu_arrival, fcu_arrival_delay_at, job_deadline,
    job_deadline_at, read_clock, reading_of, system_clock_gave, ClockBeforeEpoch, ClockReading,
    TimeSpan,
};
use vstd::prelude::*;

verus! {

/// The view of a span is what it says of itself in nanoseconds.
pub proof fn law_span_is_its_nanos(span: TimeSpan, nanos: u128)
    requires
        call_ensures(TimeSpan::as_nanos, (&span,), nanos),
    ensures
        nanos == span@,
        nanos <= u64::MAX * 1_000_000_000 + 999_999_999,
{
}

/// A second has a thousand million nanoseconds.
pub proof fn law_seconds_in_nanos(secs: u64, span: TimeSpan, nanos: u128)
    requires
        call_ensures(TimeSpan::from_secs, (secs,), span),
        call_ensures(TimeSpan::as_nanos, (&span,), nanos),
    ensures
        nanos == secs * 1_000_000_000,
{
}

/// A span of as many nanoseconds as are asked for, unless that is more than `u64::MAX`
/// seconds and 999 999 999 nanoseconds.
pub proof fn law_span_of_nanos(asked: u128, span: Option<TimeSpan>, nanos: u128)
    requires
        call_ensures(TimeSpan::from_nanos, (asked,), span),
        span is Some ==> call_ensures(TimeSpan::as_nanos, (&span->0,), nanos),
    ensures
        span is Some ==> nanos == asked,
        span is Some <==> asked <= u64::MAX * 1_000_000_000 + 999_999_999,
{
}

/// Whole seconds and what is left of them make up the span.
pub proof fn law_span_in_parts(span: TimeSpan, nanos: u128, secs: u64, rest: u32)
    requires
        call_ensures(TimeSpan::as_nanos, (&span,), nanos),
        call_ensures(TimeSpan::as_secs, (&span,), secs),
        call_ensures(TimeSpan::subsec_nanos, (&span,), rest),
    ensures
        secs * 1_000_000_000 + rest == nanos,
        rest < 1_000_000_000,
{
}

/// Two spans one after the other last as long as both, unless that is longer than any span.
pub proof fn law_spans_add_up(
    first: TimeSpan,
    second: TimeSpan,
    sum: Option<TimeSpan>,
    first_nanos: u128,
    second_nanos: u128,
    sum_nanos: u128,
)
    requires
        call_ensures(TimeSpan::checked_add, (&first, second), sum),
        call_ensures(TimeSpan::as_nanos, (&first,), first_nanos),
        call_ensures(TimeSpan::as_nanos, (&second,), second_nanos),
        sum is Some ==> call_ensures(TimeSpan::as_nanos, (&sum->0,), sum_nanos),
    ensures
        sum is Some ==> sum_nanos == first_nanos + second_nanos,
        sum is None <==> first_nanos + second_nanos > u64::MAX * 1_000_000_000 + 999_999_999,
{
}

// The clock

/// A reading is what the system clock gave: its distance from the epoch, on the side of the
/// epoch on which it is.
pub proof fn law_reading_is_of_the_clock(reading: ClockReading)
    requires
        call_ensures(read_clock, (), reading),
    ensures
        match reading {
            ClockReading::SinceEpoch(span) => exists|nanos: u128| #[trigger]
                system_clock_gave(Ok::<u128, u128>(nanos)) && span@ == nanos,
            ClockReading::BeforeEpoch(span) => exists|nanos: u128| #[trigger]
                system_clock_gave(Err::<u128, u128>(nanos)) && span@ == nanos && nanos > 0,
        },
{
    let given = choose|given: Result<u128, u128>| #[trigger]
        system_clock_gave(given) && reading_of(given, reading);
    match given {
        Ok(nanos) => {
            assert(system_clock_gave(Ok::<u128, u128>(nanos)));
        },
        Err(nanos) => {
            assert(system_clock_gave(Err::<u128, u128>(nanos)));
        },
    }
}

/// Unix seconds are whole seconds since the epoch, and there are none before it.
pub proof fn law_unix_seconds(reading: ClockReading, secs: Result<u64, ClockBeforeEpoch>)
    requires
        call_ensures(ClockReading::unix_secs, (&reading,), secs),
    ensures
        match (reading, secs) {
            (ClockReading::SinceEpoch(span), Ok(s)) => s * 1_000_000_000 <= span@ < (s + 1)
                * 1_000_000_000,
            (ClockReading::BeforeEpoch(_), Err(_)) => true,
            _ => false,
        },
{
}

// Deadlines

/// The deadline of a job comes when its block is due, counted from the whole second that
/// the clock shows; where that is past it comes after one second. There is none for a time
/// before the epoch, and there is one for every other time.
pub proof fn law_deadline_comes_with_the_block(
    timestamp: u64,
    now: ClockReading,
    now_secs: nat,
    deadline: Result<TimeSpan, ClockBeforeEpoch>,
)
    requires
        call_ensures(job_deadline_at, (timestamp, now), deadline),
        now matches ClockReading::SinceEpoch(since) ==> now_secs * 1_000_000_000 <= since@ < (
        now_secs + 1) * 1_000_000_000,
    ensures
        deadline is Ok <==> now is SinceEpoch,
        deadline matches Ok(span) ==> {
            &&& timestamp > now_secs ==> now_secs * 1_000_000_000 + span@ == timestamp
                * 1_000_000_000
            &&& timestamp <= now_secs ==> span@ == 1_000_000_000
        },
{
}

/// A deadline by the clock is that of a reading that the clock gave.
pub proof fn law_deadline_by_the_clock(
    timestamp: u64,
    deadline: Result<TimeSpan, ClockBeforeEpoch>,
)
    requires
        call_ensures(job_deadline, (timestamp,), deadline),
    ensures
        match deadline {
            Ok(span) => exists|nanos: u128| #[trigger]
                system_clock_gave(Ok::<u128, u128>(nanos)) && span@ == (if timestamp > nanos
                    / 1_000_000_000 {
                    (timestamp - nanos / 1_000_000_000) * 1_000_000_000
                } else {
                    1_000_000_000
                }),
            Err(_) => exists|nanos: u128| #[trigger]
                system_clock_gave(Err::<u128, u128>(nanos)),
        },
{
    let now = choose|now: ClockReading| #[trigger]
        clock_showed(now) && deadline_outcome(timestamp, now, deadline);
    let given = choose|given: Result<u128, u128>| #[trigger]
        system_clock_gave(given) && reading_of(given, now);
    match given {
        Ok(nanos) => {
            assert(system_clock_gave(Ok::<u128, u128>(nanos)));
        },
        Err(nanos) => {
            assert(system_clock_gave(Err::<u128, u128>(nanos)));
        },
    }
}

/// Of two jobs that start together, the one whose block is later by some seconds has a
/// deadline later by as many, as long as neither block is past.
pub proof fn law_deadlines_are_as_far_apart_as_blocks(
    earlier: u64,
    later: u64,
    now: ClockReading,
    now_secs: nat,
    first: Result<TimeSpan, ClockBeforeEpoch>,
    second: Result<TimeSpan, ClockBeforeEpoch>,
)
    requires
        call_ensures(job_deadline_at, (earlier, now), first),
        call_ensures(job_deadline_at, (later, now), second),
        now matches ClockReading::SinceEpoch(since) && now_secs * 1_000_000_000 <= since@ < (
        now_secs + 1) * 1_000_000_000,
        now_secs < earlier <= later,
    ensures
        first is Ok && second is Ok,
        second->Ok_0@ - first->Ok_0@ == (later - earlier) * 1_000_000_000,
{
}

// Arrival of fork choice updates

/// An update is due one block time before its block, or at the epoch where that is before
/// any time that the system can hold.
pub proof fn law_update_is_due(timestamp: u64, block_time: TimeSpan, due: i128)
    requires
        call_ensures(expected_fcu_arrival, (timestamp, block_time), due),
    ensures
        timestamp * 1_000_000_000 - block_time@ >= i64::MIN * 1_000_000_000 ==> due + block_time@
            == timestamp * 1_000_000_000,
        timestamp * 1_000_000_000 - block_time@ < i64::MIN * 1_000_000_000 ==> due == 0,
{
}

/// The delay of an update is its distance, to the nanosecond, from the time it was due.
pub proof fn law_delay_is_the_distance(
    timestamp: u64,
    block_time: TimeSpan,
    now: ClockReading,
    due: i128,
    delay: i128,
)
    requires
        call_ensures(expected_fcu_arrival, (timestamp, block_time), due),
        call_ensures(fcu_arrival_delay_at, (timestamp, block_time, now), delay),
    ensures
        now matches ClockReading::SinceEpoch(since) ==> due + delay == since@,
        now matches ClockReading::BeforeEpoch(before) ==> due + delay == -before@,
        timestamp * 1_000_000_000 - block_time@ >= i64::MIN * 1_000_000_000 ==> delay + timestamp
            * 1_000_000_000 == block_time@ + (match now {
            ClockReading::SinceEpoch(since) => since@ as int,
            ClockReading::BeforeEpoch(before) => -before@,
        }),
{
}

/// An update that comes later by some time has a delay greater by as much.
pub proof fn law_delays_are_as_far_apart_as_arrivals(
    timestamp: u64,
    block_time: TimeSpan,
    first: TimeSpan,
    second: TimeSpan,
    first_delay: i128,
    second_delay: i128,
)
    requires
        call_ensures(
            fcu_arrival_delay_at,
            (timestamp, block_time, ClockReading::SinceEpoch(first)),
            first_delay,
        ),
        call_ensures(
            fcu_arrival_delay_at,
            (timestamp, block_time, ClockReading::SinceEpoch(second)),
            second_delay,
        ),
    ensures
        second_delay - first_delay == second@ - first@,
{
}

// What is accepted

/// A deadline can be asked for at any time, and an arrival measured for every block whose
/// time the system can hold.
pub proof fn law_times_are_accepted(timestamp: u64, block_time: TimeSpan, now: ClockReading)
    ensures
        call_requires(job_deadline_at, (timestamp, now)),
        call_requires(job_deadline, (timestamp,)),
        timestamp <= i64::MAX ==> call_requires(expected_fcu_arrival, (timestamp, block_time)),
        timestamp <= i64::MAX ==> call_requires(
            fcu_arrival_delay_at,
            (timestamp, block_time, now),
        ),
{
}

} // verus!
