//! Cancellation of payload jobs.
//!
//! A cancellation is shared: the generator that made a job, the job, its build task
//! and the future that resolves its payload all hold the same one. What was
//! cancelled, and why, stands in a [`CancellationRegistry`]; a
//! [`PayloadJobCancellation`] names one entry of it, and its copies name the same
//! entry.

use std::collections::HashMap;
use vstd::prelude::*;

verus! {

broadcast use vstd::std_specs::hash::group_hash_axioms;

/// Why a job was cancelled. A job may be cancelled for more than one reason.
#[derive(Clone, Copy, Debug, PartialEq, Eq, Structural)]
pub struct CancelReasons {
    /// A newer fork choice update asked for another job.
    pub new_fcu: bool,
    /// The payload of the job was handed out.
    pub resolved: bool,
    /// The deadline of the job passed.
    pub deadline: bool,
}

impl CancelReasons {
    /// No reason: the job is not cancelled.
    pub open spec fn none() -> CancelReasons {
        CancelReasons { new_fcu: false, resolved: false, deadline: false }
    }

    /// These reasons and a newer fork choice update.
    pub open spec fn with_new_fcu(self) -> CancelReasons {
        CancelReasons { new_fcu: true, ..self }
    }

    /// These reasons and a payload handed out.
    pub open spec fn with_resolved(self) -> CancelReasons {
        CancelReasons { resolved: true, ..self }
    }

    /// These reasons and a deadline passed.
    pub open spec fn with_deadline(self) -> CancelReasons {
        CancelReasons { deadline: true, ..self }
    }

    /// Whether there is any reason.
    pub open spec fn cancelled(self) -> bool {
        self.new_fcu || self.resolved || self.deadline
    }

    /// Whether every reason of `self` is one of `other`.
    pub open spec fn within(self, other: CancelReasons) -> bool {
        &&& self.new_fcu ==> other.new_fcu
        &&& self.resolved ==> other.resolved
        &&& self.deadline ==> other.deadline
    }
}

/// The name of one cancellation in a [`CancellationRegistry`]. Copies name the same
/// cancellation. Its view is the number under which the registry keeps it.
#[derive(Clone, Copy, Debug, PartialEq, Eq, Structural)]
pub struct PayloadJobCancellation {
    id: u64,
}

impl View for PayloadJobCancellation {
    type V = u64;

    closed spec fn view(&self) -> u64 {
        self.id
    }
}

/// The cancellations of all jobs that are still held by someone. Its view maps the
/// number of each to the reasons for which it was cancelled so far.
pub struct CancellationRegistry {
    next: u64,
    live: HashMap<u64, CancelReasons>,
}

impl View for CancellationRegistry {
    type V = Map<u64, CancelReasons>;

    closed spec fn view(&self) -> Map<u64, CancelReasons> {
        self.live@
    }
}

impl CancellationRegistry {
    /// Every number in use was given out before.
    pub closed spec fn well_formed(&self) -> bool {
        forall|id: u64| #[trigger] self.live@.contains_key(id) ==> id < self.next
    }

    /// How many cancellations were ever registered.
    pub closed spec fn issued(&self) -> nat {
        self.next as nat
    }

    /// Whether the registry holds what `cancellation` names.
    pub open spec fn holds(&self, cancellation: PayloadJobCancellation) -> bool {
        self@.contains_key(cancellation@)
    }

    /// The reasons for which `cancellation` was cancelled so far.
    pub open spec fn reasons(&self, cancellation: PayloadJobCancellation) -> CancelReasons {
        self@[cancellation@]
    }

    /// An empty registry.
    pub fn new() -> (registry: CancellationRegistry)
        ensures
            registry.well_formed(),
            registry@ == Map::<u64, CancelReasons>::empty(),
            registry.issued() == 0,
    {
        CancellationRegistry { next: 0, live: HashMap::new() }
    }

    /// Whether another cancellation can be registered.
    pub fn has_room(&self) -> (room: bool)
        ensures
            room == (self.issued() < u64::MAX),
    {
        self.next < u64::MAX
    }

    /// Whether the registry holds what `cancellation` names.
    pub fn contains(&self, cancellation: PayloadJobCancellation) -> (held: bool)
        ensures
            held == self.holds(cancellation),
    {
        self.live.contains_key(&cancellation.id)
    }

    /// Makes a cancellation that nobody held before, cancelled for no reason.
    pub fn register(&mut self) -> (cancellation: PayloadJobCancellation)
        requires
            old(self).well_formed(),
            old(self).issued() < u64::MAX,
        ensures
            final(self).well_formed(),
            cancellation@ == old(self).issued(),
            !old(self).holds(cancellation),
            final(self)@ == old(self)@.insert(cancellation@, CancelReasons::none()),
            final(self).issued() == old(self).issued() + 1,
    {
        let id: u64 = self.next;
        self.next = id + 1;
        self.live.insert(id, CancelReasons { new_fcu: false, resolved: false, deadline: false });
        PayloadJobCancellation { id }
    }

    /// Forgets a cancellation that nobody holds any more.
    pub fn release(&mut self, cancellation: PayloadJobCancellation)
        requires
            old(self).well_formed(),
        ensures
            final(self).well_formed(),
            final(self)@ == old(self)@.remove(cancellation@),
            final(self).issued() == old(self).issued(),
    {
        self.live.remove(&cancellation.id);
    }

    /// What is known of `cancellation`.
    fn current(&self, cancellation: PayloadJobCancellation) -> (reasons: CancelReasons)
        requires
            self.holds(cancellation),
        ensures
            reasons == self.reasons(cancellation),
    {
        *self.live.get(&cancellation.id).unwrap()
    }

    /// Cancels because a newer fork choice update came.
    pub fn cancel_new_fcu(&mut self, cancellation: PayloadJobCancellation)
        requires
            old(self).well_formed(),
            old(self).holds(cancellation),
        ensures
            final(self).well_formed(),
            final(self)@ == old(self)@.insert(
                cancellation@,
                old(self).reasons(cancellation).with_new_fcu(),
            ),
            final(self).issued() == old(self).issued(),
    {
        let reasons = self.current(cancellation);
        self.live.insert(cancellation.id, CancelReasons { new_fcu: true, ..reasons });
    }

    /// Cancels because the payload was handed out.
    pub fn cancel_resolved(&mut self, cancellation: PayloadJobCancellation)
        requires
            old(self).well_formed(),
            old(self).holds(cancellation),
        ensures
            final(self).well_formed(),
            final(self)@ == old(self)@.insert(
                cancellation@,
                old(self).reasons(cancellation).with_resolved(),
            ),
            final(self).issued() == old(self).issued(),
    {
        let reasons = self.current(cancellation);
        self.live.insert(cancellation.id, CancelReasons { resolved: true, ..reasons });
    }

    /// Cancels because the deadline passed.
    pub fn cancel_deadline(&mut self, cancellation: PayloadJobCancellation)
        requires
            old(self).well_formed(),
            old(self).holds(cancellation),
        ensures
            final(self).well_formed(),
            final(self)@ == old(self)@.insert(
                cancellation@,
                old(self).reasons(cancellation).with_deadline(),
            ),
            final(self).issued() == old(self).issued(),
    {
        let reasons = self.current(cancellation);
        self.live.insert(cancellation.id, CancelReasons { deadline: true, ..reasons });
    }

    /// Whether `cancellation` was cancelled for any reason.
    pub fn is_cancelled(&self, cancellation: PayloadJobCancellation) -> (cancelled: bool)
        requires
            self.holds(cancellation),
        ensures
            cancelled == self.reasons(cancellation).cancelled(),
    {
        let reasons = self.current(cancellation);
        reasons.new_fcu || reasons.resolved || reasons.deadline
    }

    /// Whether `cancellation` was cancelled because the payload was handed out.
    pub fn is_resolved(&self, cancellation: PayloadJobCancellation) -> (resolved: bool)
        requires
            self.holds(cancellation),
        ensures
            resolved == self.reasons(cancellation).resolved,
    {
        self.current(cancellation).resolved
    }
}

/// To cancel adds its reason and takes none away; a job cancelled for any reason is
/// cancelled.
pub proof fn law_cancelling_adds_a_reason(reasons: CancelReasons)
    ensures
        !CancelReasons::none().cancelled(),
        reasons.with_new_fcu().new_fcu && reasons.with_new_fcu().cancelled(),
        reasons.with_resolved().resolved && reasons.with_resolved().cancelled(),
        reasons.with_deadline().deadline && reasons.with_deadline().cancelled(),
        reasons.within(reasons.with_new_fcu()),
        reasons.within(reasons.with_resolved()),
        reasons.within(reasons.with_deadline()),
        reasons.with_new_fcu().resolved == reasons.resolved,
        reasons.with_deadline().resolved == reasons.resolved,
{
}

/// To cancel twice for one reason is to cancel once, and the order of two reasons does
/// not matter.
pub proof fn law_cancelling_is_idempotent(reasons: CancelReasons)
    ensures
        reasons.with_new_fcu().with_new_fcu() == reasons.with_new_fcu(),
        reasons.with_resolved().with_resolved() == reasons.with_resolved(),
        reasons.with_deadline().with_deadline() == reasons.with_deadline(),
        reasons.with_new_fcu().with_resolved() == reasons.with_resolved().with_new_fcu(),
        reasons.with_new_fcu().with_deadline() == reasons.with_deadline().with_new_fcu(),
        reasons.with_resolved().with_deadline() == reasons.with_deadline().with_resolved(),
{
}

/// A cancellation that is held can be told from the next one that is registered.
pub proof fn law_held_numbers_are_older(
    registry: CancellationRegistry,
    cancellation: PayloadJobCancellation,
)
    requires
        registry.well_formed(),
        registry.holds(cancellation),
    ensures
        cancellation@ < registry.issued(),
{
}

} // verus!
