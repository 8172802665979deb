//! Lengths of time, the system clock, job deadlines and the delay with which a
//! fork choice update arrives.

use std::time::SystemTime;
use vstd::prelude::*;

verus! {

/// Nanoseconds in one second.
pub const NANOS_PER_SEC: u128 = 1_000_000_000;

/// The longest span: `u64::MAX` seconds and 999 999 999 nanoseconds.
pub const MAX_SPAN_NANOS: u128 = 18_446_744_073_709_551_615_999_999_999;

/// The whole seconds of a span of `nanos` nanoseconds.
pub open spec fn whole_secs(nanos: nat) -> nat {
    nanos / (NANOS_PER_SEC as nat)
}

/// A length of time with nanosecond resolution. Its view is its length in
/// nanoseconds.
#[derive(Clone, Copy, Debug, PartialEq, Eq, Structural)]
pub struct TimeSpan {
    nanos: u128,
}

impl View for TimeSpan {
    type V = nat;

    closed spec fn view(&self) -> nat {
        self.nanos as nat
    }
}

impl TimeSpan {
    #[verifier::type_invariant]
    spec fn in_range(self) -> bool {
        self.nanos <= MAX_SPAN_NANOS
    }

    /// The span of `secs` whole seconds.
    pub fn from_secs(secs: u64) -> (span: TimeSpan)
        ensures
            span@ == secs * NANOS_PER_SEC,
    {
        TimeSpan { nanos: secs as u128 * NANOS_PER_SEC }
    }

    /// The span of `nanos` nanoseconds, unless it is longer than the longest span.
    pub fn from_nanos(nanos: u128) -> (span: Option<TimeSpan>)
        ensures
            span is Some <==> nanos <= MAX_SPAN_NANOS,
            span matches Some(s) ==> s@ == nanos,
    {
        if nanos <= MAX_SPAN_NANOS {
            Some(TimeSpan { nanos })
        } else {
            None
        }
    }

    /// The length in nanoseconds.
    pub fn as_nanos(&self) -> (nanos: u128)
        ensures
            nanos == self@,
            nanos <= MAX_SPAN_NANOS,
    {
        proof {
            use_type_invariant(self);
        }
        self.nanos
    }

    /// The whole seconds of the span.
    pub fn as_secs(&self) -> (secs: u64)
        ensures
            secs == whole_secs(self@),
    {
        proof {
            use_type_invariant(self);
        }
        (self.nanos / NANOS_PER_SEC) as u64
    }

    /// What is left of the span after its whole seconds, in nanoseconds.
    pub fn subsec_nanos(&self) -> (nanos: u32)
        ensures
            nanos == self@ % (NANOS_PER_SEC as nat),
    {
        (self.nanos % NANOS_PER_SEC) as u32
    }

    /// The two spans one after the other, unless that is longer than the longest span.
    pub fn checked_add(&self, other: TimeSpan) -> (sum: Option<TimeSpan>)
        ensures
            sum is Some <==> self@ + other@ <= MAX_SPAN_NANOS,
            sum matches Some(s) ==> s@ == self@ + other@,
    {
        proof {
            use_type_invariant(self);
            use_type_invariant(&other);
        }
        TimeSpan::from_nanos(self.nanos + other.nanos)
    }
}

/// The system clock was set to a time before the Unix epoch.
#[derive(Clone, Copy, Debug, PartialEq, Eq, Structural)]
pub struct ClockBeforeEpoch;

/// One reading of the system clock, as its distance from the Unix epoch.
#[derive(Clone, Copy, Debug, PartialEq, Eq, Structural)]
pub enum ClockReading {
    /// The clock showed the epoch or a time after it.
    SinceEpoch(TimeSpan),
    /// The clock showed a time before the epoch.
    BeforeEpoch(TimeSpan),
}

impl ClockReading {
    /// The time that was read, in nanoseconds since the epoch; negative before it.
    pub open spec fn unix_nanos(self) -> int {
        match self {
            ClockReading::SinceEpoch(span) => span@ as int,
            ClockReading::BeforeEpoch(span) => -span@,
        }
    }

    /// The whole seconds since the epoch, or an error for a time before it.
    pub fn unix_secs(&self) -> (secs: Result<u64, ClockBeforeEpoch>)
        ensures
            match *self {
                ClockReading::SinceEpoch(span) => secs matches Ok(s) && s == whole_secs(
                    span@,
                ),
                ClockReading::BeforeEpoch(_) => secs is Err,
            },
    {
        match self {
            ClockReading::SinceEpoch(span) => Ok(span.as_secs()),
            ClockReading::BeforeEpoch(_) => Err(ClockBeforeEpoch),
        }
    }
}

/// Calls `std::time::SystemTime::now` and hands the time over as its distance
/// from the Unix epoch in nanoseconds: `Ok` at or after the epoch, `Err` before
/// it. Claimed of it is that the distance is one that a `Duration` can hold, and
/// that it is not zero before the epoch. Which time it is, nothing says; that the
/// clock gave it is [`system_clock_gave`].
#[verifier::external_body]
fn system_time_now() -> (since_epoch: Result<u128, u128>)
    ensures
        since_epoch matches Ok(nanos) ==> nanos <= MAX_SPAN_NANOS,
        since_epoch matches Err(nanos) ==> 0 < nanos <= MAX_SPAN_NANOS,
{
    match SystemTime::now().duration_since(SystemTime::UNIX_EPOCH) {
        Ok(since) => Ok(since.as_nanos()),
        Err(before) => Err(before.duration().as_nanos()),
    }
}

/// The system clock gave this distance from the epoch.
pub closed spec fn system_clock_gave(since_epoch: Result<u128, u128>) -> bool {
    call_ensures(system_time_now, (), since_epoch)
}

/// A reading holds this distance from the epoch: `Ok` at or after it, `Err` before it.
pub open spec fn reading_of(since_epoch: Result<u128, u128>, reading: ClockReading) -> bool {
    match since_epoch {
        Ok(nanos) => reading matches ClockReading::SinceEpoch(span) && span@ == nanos,
        Err(nanos) => reading matches ClockReading::BeforeEpoch(span) && span@ == nanos,
    }
}

/// The system clock was read and showed `now`.
pub open spec fn clock_showed(now: ClockReading) -> bool {
    exists|since_epoch: Result<u128, u128>| #[trigger]
        system_clock_gave(since_epoch) && reading_of(since_epoch, now)
}

/// Reads the system clock.
pub fn read_clock() -> (reading: ClockReading)
    ensures
        clock_showed(reading),
        reading is BeforeEpoch <==> reading.unix_nanos() < 0,
        -MAX_SPAN_NANOS <= reading.unix_nanos() <= MAX_SPAN_NANOS,
{
    let since_epoch = system_time_now();
    assert(system_clock_gave(since_epoch));
    match since_epoch {
        Ok(nanos) => ClockReading::SinceEpoch(TimeSpan { nanos }),
        Err(nanos) => ClockReading::BeforeEpoch(TimeSpan { nanos }),
    }
}

/// What becomes of the deadline of a job for a block of time `timestamp` when the clock
/// shows `now`: a span for a time since the epoch, and an error for one before it.
pub open spec fn deadline_outcome(
    timestamp: u64,
    now: ClockReading,
    deadline: Result<TimeSpan, ClockBeforeEpoch>,
) -> bool {
    match now {
        ClockReading::SinceEpoch(since) => deadline matches Ok(span) && span@ == deadline_secs(
            timestamp,
            whole_secs(since@),
        ) * NANOS_PER_SEC,
        ClockReading::BeforeEpoch(_) => deadline is Err,
    }
}

/// The seconds that a job for a block of time `timestamp` may run when it is
/// `now`: what is left until then, and one second where nothing is left.
pub open spec fn deadline_secs(timestamp: u64, now: nat) -> int {
    if timestamp > now {
        timestamp - now
    } else {
        1
    }
}

/// How long a job for a block of time `unix_timestamp_secs` may run when the clock
/// shows `now`, which is read in whole seconds. An error for a time before the epoch.
pub fn job_deadline_at(unix_timestamp_secs: u64, now: ClockReading) -> (deadline: Result<
    TimeSpan,
    ClockBeforeEpoch,
>)
    ensures
        deadline_outcome(unix_timestamp_secs, now, deadline),
{
    let unix_now: u64 = match now.unix_secs() {
        Ok(secs) => secs,
        Err(error) => return Err(error),
    };
    let duration_until: u64 = unix_timestamp_secs.saturating_sub(unix_now);
    if duration_until == 0 {
        // A job always gets one second.
        Ok(TimeSpan::from_secs(1))
    } else {
        Ok(TimeSpan::from_secs(duration_until))
    }
}

/// How long a job for a block of time `unix_timestamp_secs` may run from now on.
/// An error exactly if the clock shows a time before the epoch.
pub fn job_deadline(unix_timestamp_secs: u64) -> (deadline: Result<TimeSpan, ClockBeforeEpoch>)
    ensures
        exists|now: ClockReading| #[trigger]
            clock_showed(now) && deadline_outcome(unix_timestamp_secs, now, deadline),
        deadline matches Ok(span) ==> span@ >= NANOS_PER_SEC,
        deadline matches Ok(span) ==> (unix_timestamp_secs <= 1 ==> span@ == NANOS_PER_SEC),
        deadline matches Ok(span) ==> (unix_timestamp_secs >= 1 ==> span@ <= unix_timestamp_secs
            * NANOS_PER_SEC),
{
    let now = read_clock();
    job_deadline_at(unix_timestamp_secs, now)
}

/// The last second, counted from the epoch, that a system time can hold, which counts
/// seconds in 64 bits with a sign.
pub const MAX_SYSTEM_SECS: u64 = 9_223_372_036_854_775_807;

/// The first second, counted from the epoch, that a system time can hold.
pub const MIN_SYSTEM_SECS: i128 = -9_223_372_036_854_775_808;

/// When the fork choice update for a block of time `timestamp` is due, in
/// nanoseconds since the epoch: one block time before the block. Where no system
/// time reaches back that far, the epoch stands in for it.
pub open spec fn expected_fcu_nanos(timestamp: u64, block_time: nat) -> int {
    let due = timestamp * NANOS_PER_SEC - block_time;
    if due >= MIN_SYSTEM_SECS * NANOS_PER_SEC {
        due
    } else {
        0
    }
}

/// How much later than due the fork choice update for a block of time `timestamp` comes
/// that comes at `now`. All but the timestamp is in nanoseconds.
pub open spec fn fcu_delay(timestamp: u64, block_time: nat, now: int) -> int {
    now - expected_fcu_nanos(timestamp, block_time)
}

/// When the fork choice update for a block of time `timestamp` is due, in
/// nanoseconds since the epoch.
pub fn expected_fcu_arrival(timestamp: u64, block_time: TimeSpan) -> (due: i128)
    requires
        timestamp <= MAX_SYSTEM_SECS,
    ensures
        due == expected_fcu_nanos(timestamp, block_time@),
{
    let payload_time: i128 = timestamp as i128 * 1_000_000_000;
    let due: i128 = payload_time - block_time.as_nanos() as i128;
    if due >= MIN_SYSTEM_SECS * 1_000_000_000 {
        due
    } else {
        0
    }
}

/// How much later than due the fork choice update for a block of time `timestamp`
/// came, in nanoseconds, when the clock shows `now`. Positive is late, negative is
/// early.
pub fn fcu_arrival_delay_at(timestamp: u64, block_time: TimeSpan, now: ClockReading) -> (delay:
    i128)
    requires
        timestamp <= MAX_SYSTEM_SECS,
    ensures
        delay == fcu_delay(timestamp, block_time@, now.unix_nanos()),
{
    let due: i128 = expected_fcu_arrival(timestamp, block_time);
    match now {
        ClockReading::SinceEpoch(span) => span.as_nanos() as i128 - due,
        ClockReading::BeforeEpoch(span) => -(span.as_nanos() as i128) - due,
    }
}

/// The arrival of a fork choice update: when it came and how much later than due.
#[derive(Clone, Copy, Debug, PartialEq, Eq, Structural)]
pub struct FcuArrival {
    /// What the clock showed.
    pub at: ClockReading,
    /// Nanoseconds after the time it was due; negative if it came before.
    pub delay_nanos: i128,
}

/// Notes the arrival, just now, of the fork choice update for a block of time
/// `timestamp`.
pub(crate) fn fcu_arrival(timestamp: u64, block_time: TimeSpan) -> (arrival: FcuArrival)
    requires
        timestamp <= MAX_SYSTEM_SECS,
    ensures
        clock_showed(arrival.at),
        arrival.delay_nanos == fcu_delay(timestamp, block_time@, arrival.at.unix_nanos()),
{
    let at = read_clock();
    FcuArrival { at, delay_nanos: fcu_arrival_delay_at(timestamp, block_time, at) }
}

/// A job never gets less than one second, and one whose block is due now or was due
/// before gets exactly one.
pub proof fn law_deadline_floor(timestamp: u64, now: nat)
    ensures
        deadline_secs(timestamp, now) >= 1,
        timestamp <= now ==> deadline_secs(timestamp, now) == 1,
        timestamp > now ==> now + deadline_secs(timestamp, now) == timestamp,
{
}

/// A later block never has a shorter deadline, and a later start never a longer one.
pub proof fn law_deadline_monotone(earlier: u64, later: u64, other: u64)
    requires
        earlier <= later,
    ensures
        deadline_secs(earlier, other as nat) <= deadline_secs(later, other as nat),
        deadline_secs(other, later as nat) <= deadline_secs(other, earlier as nat),
{
}

/// A deadline, counted from the whole second that the clock shows, comes with the block of
/// the job, unless that is past.
pub proof fn law_deadline_reaches_the_block(
    timestamp: u64,
    since: TimeSpan,
    deadline: Result<TimeSpan, ClockBeforeEpoch>,
)
    requires
        deadline_outcome(timestamp, ClockReading::SinceEpoch(since), deadline),
    ensures
        deadline is Ok,
        timestamp > since@ / 1_000_000_000 ==> since@ / 1_000_000_000 * 1_000_000_000
            + deadline->Ok_0@ == timestamp * 1_000_000_000,
        timestamp <= since@ / 1_000_000_000 ==> deadline->Ok_0@ == 1_000_000_000,
{
}

/// The delay of an update is exact: with the time of its block it makes up the time of its
/// arrival and the time between two blocks.
pub proof fn law_fcu_delay_is_exact(timestamp: u64, block_time: nat, now: int)
    requires
        timestamp * 1_000_000_000 - block_time >= i64::MIN * 1_000_000_000,
    ensures
        fcu_delay(timestamp, block_time, now) + timestamp * 1_000_000_000 == now + block_time,
{
}

/// An update that comes exactly one block time before its block has no delay, one
/// that comes later has a positive delay and one that comes earlier a negative one.
pub proof fn law_fcu_delay_sign(timestamp: u64, block_time: nat, now: int)
    requires
        timestamp * NANOS_PER_SEC - block_time >= MIN_SYSTEM_SECS * NANOS_PER_SEC,
    ensures
        fcu_delay(timestamp, block_time, now) == 0 <==> now + block_time == timestamp
            * NANOS_PER_SEC,
        fcu_delay(timestamp, block_time, now) > 0 <==> now + block_time > timestamp
            * NANOS_PER_SEC,
        fcu_delay(timestamp, block_time, now) < 0 <==> now + block_time < timestamp
            * NANOS_PER_SEC,
{
}

} // verus!
