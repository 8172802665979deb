//! Laws of the cancellations in a registry.

use crate::cancellation::{CancellationRegistry, PayloadJobCancellation};
use vstd::prelude::*;

verus! {

/// A new cancellation was not held before, is held then, and is not cancelled.
pub proof fn law_new_cancellation_is_fresh(
    registry: &mut CancellationRegistry,
    new: PayloadJobCancellation,
    held_before: bool,
    held: bool,
    cancelled: bool,
    resolved: bool,
)
    requires
        call_ensures(CancellationRegistry::register, (registry,), new),
        call_ensures(CancellationRegistry::contains, (&*old(registry), new), held_before),
        call_ensures(CancellationRegistry::contains, (&*final(registry), new), held),
        call_ensures(CancellationRegistry::is_cancelled, (&*final(registry), new), cancelled),
        call_ensures(CancellationRegistry::is_resolved, (&*final(registry), new), resolved),
    ensures
        !held_before && held && !cancelled && !resolved,
{
}

/// Cancelled for a newer update, a job is cancelled, and resolved if it was before.
pub proof fn law_new_fcu_cancels(
    registry: &mut CancellationRegistry,
    cancellation: PayloadJobCancellation,
    cancelled: bool,
    resolved_before: bool,
    resolved: bool,
)
    requires
        call_ensures(CancellationRegistry::cancel_new_fcu, (registry, cancellation), ()),
        call_ensures(
            CancellationRegistry::is_cancelled,
            (&*final(registry), cancellation),
            cancelled,
        ),
        call_ensures(
            CancellationRegistry::is_resolved,
            (&*old(registry), cancellation),
            resolved_before,
        ),
        call_ensures(
            CancellationRegistry::is_resolved,
            (&*final(registry), cancellation),
            resolved,
        ),
    ensures
        cancelled,
        resolved == resolved_before,
        final(registry)@[cancellation@].new_fcu,
        final(registry)@[cancellation@].deadline == old(registry)@[cancellation@].deadline,
{
}

/// Cancelled for its deadline, a job is cancelled, and resolved if it was before.
pub proof fn law_deadline_cancels(
    registry: &mut CancellationRegistry,
    cancellation: PayloadJobCancellation,
    cancelled: bool,
    resolved_before: bool,
    resolved: bool,
)
    requires
        call_ensures(CancellationRegistry::cancel_deadline, (registry, cancellation), ()),
        call_ensures(
            CancellationRegistry::is_cancelled,
            (&*final(registry), cancellation),
            cancelled,
        ),
        call_ensures(
            CancellationRegistry::is_resolved,
            (&*old(registry), cancellation),
            resolved_before,
        ),
        call_ensures(
            CancellationRegistry::is_resolved,
            (&*final(registry), cancellation),
            resolved,
        ),
    ensures
        cancelled,
        resolved == resolved_before,
        final(registry)@[cancellation@].deadline,
        final(registry)@[cancellation@].new_fcu == old(registry)@[cancellation@].new_fcu,
{
}

/// Cancelled as resolved, a job is cancelled and resolved.
pub proof fn law_resolved_cancels(
    registry: &mut CancellationRegistry,
    cancellation: PayloadJobCancellation,
    cancelled: bool,
    resolved: bool,
)
    requires
        call_ensures(CancellationRegistry::cancel_resolved, (registry, cancellation), ()),
        call_ensures(
            CancellationRegistry::is_cancelled,
            (&*final(registry), cancellation),
            cancelled,
        ),
        call_ensures(
            CancellationRegistry::is_resolved,
            (&*final(registry), cancellation),
            resolved,
        ),
    ensures
        cancelled && resolved,
        final(registry)@[cancellation@].new_fcu == old(registry)@[cancellation@].new_fcu,
        final(registry)@[cancellation@].deadline == old(registry)@[cancellation@].deadline,
{
}

/// A job is cancelled exactly if there is a reason for it, and resolved exactly if its
/// payload was handed out.
pub proof fn law_cancelled_for_a_reason(
    registry: CancellationRegistry,
    cancellation: PayloadJobCancellation,
    cancelled: bool,
    resolved: bool,
)
    requires
        call_ensures(CancellationRegistry::is_cancelled, (&registry, cancellation), cancelled),
        call_ensures(CancellationRegistry::is_resolved, (&registry, cancellation), resolved),
    ensures
        cancelled <==> registry@[cancellation@].new_fcu || registry@[cancellation@].resolved
            || registry@[cancellation@].deadline,
        resolved <==> registry@[cancellation@].resolved,
        resolved ==> cancelled,
{
}

/// To register, to cancel and to forget one cancellation leaves every other as it was.
pub proof fn law_other_cancellations_stay(
    registry: &mut CancellationRegistry,
    one: PayloadJobCancellation,
    other: PayloadJobCancellation,
    held_before: bool,
    held: bool,
)
    requires
        one@ != other@,
        call_ensures(CancellationRegistry::register, (registry,), one) || call_ensures(
            CancellationRegistry::cancel_new_fcu,
            (registry, one),
            (),
        ) || call_ensures(CancellationRegistry::cancel_resolved, (registry, one), ())
            || call_ensures(CancellationRegistry::cancel_deadline, (registry, one), ())
            || call_ensures(CancellationRegistry::release, (registry, one), ()),
        call_ensures(CancellationRegistry::contains, (&*old(registry), other), held_before),
        call_ensures(CancellationRegistry::contains, (&*final(registry), other), held),
    ensures
        held == held_before,
        final(registry)@[other@] == old(registry)@[other@],
{
}

/// What is forgotten is no longer held.
pub proof fn law_released_is_not_held(
    registry: &mut CancellationRegistry,
    cancellation: PayloadJobCancellation,
    held: bool,
)
    requires
        call_ensures(CancellationRegistry::release, (registry, cancellation), ()),
        call_ensures(CancellationRegistry::contains, (&*final(registry), cancellation), held),
    ensures
        !held,
{
}

/// A new registry holds nothing and has room.
pub proof fn law_new_registry_is_empty(
    registry: CancellationRegistry,
    any: PayloadJobCancellation,
    held: bool,
    room: bool,
)
    requires
        call_ensures(CancellationRegistry::new, (), registry),
        call_ensures(CancellationRegistry::contains, (&registry, any), held),
        call_ensures(CancellationRegistry::has_room, (&registry,), room),
    ensures
        !held && room,
{
}

/// What is held can be asked about.
pub proof fn law_held_cancellations_are_accepted(
    registry: CancellationRegistry,
    cancellation: PayloadJobCancellation,
)
    requires
        call_ensures(CancellationRegistry::contains, (&registry, cancellation), true),
    ensures
        call_requires(CancellationRegistry::is_cancelled, (&registry, cancellation)),
        call_requires(CancellationRegistry::is_resolved, (&registry, cancellation)),
{
}

/// A cancellation that was forgotten does not come back under its number: the next one that
/// is registered is another.
pub proof fn law_numbers_are_not_used_again(
    at_first: &mut CancellationRegistry,
    then: &mut CancellationRegistry,
    at_last: &mut CancellationRegistry,
    first: PayloadJobCancellation,
    second: PayloadJobCancellation,
)
    requires
        call_ensures(CancellationRegistry::register, (at_first,), first),
        *old(then) == *final(at_first),
        call_ensures(CancellationRegistry::release, (then, first), ()),
        *old(at_last) == *final(then),
        call_ensures(CancellationRegistry::register, (at_last,), second),
    ensures
        first@ != second@,
{
}

/// Every cancellation that is registered is counted, once and for good, and there is room
/// until as many were counted as there are numbers.
pub proof fn law_cancellations_are_counted(
    empty: CancellationRegistry,
    registry: &mut CancellationRegistry,
    one: PayloadJobCancellation,
    room: bool,
)
    requires
        call_ensures(CancellationRegistry::new, (), empty),
        call_ensures(CancellationRegistry::has_room, (&*final(registry),), room),
    ensures
        empty.issued() == 0,
        room <==> final(registry).issued() < u64::MAX,
        call_ensures(CancellationRegistry::register, (registry,), one) ==> final(registry).issued() == old(registry).issued() + 1,
        call_ensures(CancellationRegistry::cancel_new_fcu, (registry, one), ()) || call_ensures(
            CancellationRegistry::cancel_resolved,
            (registry, one),
            (),
        ) || call_ensures(CancellationRegistry::cancel_deadline, (registry, one), ())
            || call_ensures(CancellationRegistry::release, (registry, one), ()) ==> final(registry).issued() == old(registry).issued(),
{
}

/// Whoever registers a cancellation can cancel it, ask about it and forget it.
pub proof fn law_registered_can_be_cancelled(
    registry: &mut CancellationRegistry,
    new: PayloadJobCancellation,
    then: &mut CancellationRegistry,
)
    requires
        call_ensures(CancellationRegistry::register, (registry,), new),
        *old(then) == *final(registry),
    ensures
        call_requires(CancellationRegistry::is_cancelled, (&*old(then), new)),
        call_requires(CancellationRegistry::is_resolved, (&*old(then), new)),
        call_requires(CancellationRegistry::cancel_new_fcu, (then, new)),
        call_requires(CancellationRegistry::cancel_resolved, (then, new)),
        call_requires(CancellationRegistry::cancel_deadline, (then, new)),
        call_requires(CancellationRegistry::release, (then, new)),
{
}

} // verus!
