//! Laws of the reads that a commit leaves for jobs.

use crate::cache::{
    by_address, entries_of, entry_of, lemma_entries_of_push, BundleAccount, CachedAccount,
    CachedEntry, CachedReads,
};
use alloy_primitives::{Address, U256};
use vstd::prelude::*;

verus! {

/// A cached account is a changed one that still exists: it has its address, what is known
/// of it, and each of its changed slots with the value that the slot holds now.
pub open spec fn is_present_state<I>(
    address: Address,
    info: I,
    storage: Seq<(U256, U256)>,
    change: (Address, BundleAccount<I>),
) -> bool {
    &&& change.0 == address
    &&& change.1.info == Some(info)
    &&& storage.len() == change.1.storage@.len()
    &&& forall|j: int|
        0 <= j < storage.len() ==> (#[trigger] storage[j]).0 == change.1.storage@[j].0 && storage[j].1
            == change.1.storage@[j].1.present_value
}

/// `at` are the places of all changed accounts that still exist, in their order.
pub open spec fn places_of_existing<I>(
    changes: Seq<(Address, BundleAccount<I>)>,
    at: Seq<int>,
) -> bool {
    &&& forall|k: int| 0 <= k < at.len() ==> 0 <= #[trigger] at[k] < changes.len()
    &&& forall|k: int, l: int| 0 <= k < l < at.len() ==> #[trigger] at[k] < #[trigger] at[l]
    &&& forall|i: int|
        0 <= i < changes.len() ==> ((#[trigger] changes[i]).1.info is Some <==> at.contains(i))
}

/// The places of the changed accounts that the cache of a commit holds.
proof fn lemma_places<I>(changes: Seq<(Address, BundleAccount<I>)>) -> (at: Seq<int>)
    ensures
        places_of_existing(changes, at),
        at.len() == entries_of(changes).len(),
        forall|k: int|
            0 <= k < at.len() ==> is_present_state(
                (#[trigger] entries_of(changes)[k]).address,
                entries_of(changes)[k].info,
                entries_of(changes)[k].storage,
                changes[at[k]],
            ),
    decreases changes.len(),
{
    reveal(Seq::filter);
    if changes.len() == 0 {
        assert(entries_of(changes) =~= Seq::empty());
        Seq::empty()
    } else {
        let front = changes.drop_last();
        let last = changes.len() - 1;
        let before = lemma_places(front);
        lemma_entries_of_push(front, changes.last());
        assert(front.push(changes.last()) =~= changes);
        assert(forall|i: int| 0 <= i < front.len() ==> changes[i] == front[i]);
        if changes.last().1.info is Some {
            let at = before.push(last);
            assert forall|i: int| 0 <= i < changes.len() implies ((
            #[trigger] changes[i]).1.info is Some <==> at.contains(i)) by {
                if i == last {
                    assert(at[before.len() as int] == last);
                } else {
                    assert(front[i] == changes[i]);
                    if before.contains(i) {
                        let k = choose|k: int| 0 <= k < before.len() && before[k] == i;
                        assert(at[k] == i);
                    }
                    if at.contains(i) {
                        let k = choose|k: int| 0 <= k < at.len() && at[k] == i;
                        assert(before[k] == i);
                    }
                }
            }
            assert forall|k: int| 0 <= k < at.len() implies is_present_state(
                (#[trigger] entries_of(changes)[k]).address,
                entries_of(changes)[k].info,
                entries_of(changes)[k].storage,
                changes[at[k]],
            ) by {
                if k < before.len() {
                    assert(entries_of(front)[k] == entries_of(changes)[k]);
                    assert(front[before[k]] == changes[at[k]]);
                }
            }
            at
        } else {
            assert forall|i: int| 0 <= i < changes.len() implies ((
            #[trigger] changes[i]).1.info is Some <==> before.contains(i)) by {
                if i < last {
                    assert(front[i] == changes[i]);
                }
            }
            assert forall|k: int| 0 <= k < before.len() implies is_present_state(
                (#[trigger] entries_of(changes)[k]).address,
                entries_of(changes)[k].info,
                entries_of(changes)[k].storage,
                changes[before[k]],
            ) by {
                assert(entries_of(front)[k] == entries_of(changes)[k]);
                assert(front[before[k]] == changes[before[k]]);
            }
            before
        }
    }
}

/// The accounts are those of `changes` that still exist, each once and in their order, as
/// they are now.
pub open spec fn holds_present_state<I>(
    accounts: Seq<CachedAccount<I>>,
    changes: Seq<(Address, BundleAccount<I>)>,
) -> bool {
    exists|at: Seq<int>| #[trigger]
        places_of_existing(changes, at) && at.len() == accounts.len() && forall|k: int|
            0 <= k < at.len() ==> is_present_state(
                (#[trigger] accounts[k]).address,
                accounts[k].info,
                accounts[k].storage@,
                changes[at[k]],
            )
}

/// A cache whose view is that of a commit holds the present state of what the commit changed.
pub(crate) proof fn lemma_view_is_present_state<I>(
    cached: &CachedReads<I>,
    changes: Seq<(Address, BundleAccount<I>)>,
)
    requires
        cached@ == entries_of(changes),
    ensures
        holds_present_state(cached.accounts@, changes),
{
    let at = lemma_places(changes);
    assert(cached@.len() == cached.accounts@.len());
    assert forall|k: int| 0 <= k < at.len() implies is_present_state(
        (#[trigger] cached.accounts@[k]).address,
        cached.accounts@[k].info,
        cached.accounts@[k].storage@,
        changes[at[k]],
    ) by {
        let entry = entries_of(changes)[k];
        assert(cached@[k] == cached.accounts@[k]@);
        assert(cached.accounts@[k].storage@ == entry.storage);
    }
    assert(places_of_existing(changes, at));
}

/// The cache of a commit holds exactly the changed accounts that still exist, in their
/// order, with every changed slot at its present value.
pub proof fn law_commit_leaves_its_present_state<I>(
    changes: Vec<(Address, BundleAccount<I>)>,
    cached: CachedReads<I>,
)
    requires
        call_ensures(CachedReads::<I>::from_changes, (changes,), cached),
    ensures
        holds_present_state(cached.accounts@, changes@),
{
    lemma_view_is_present_state(&cached, changes@);
}

/// Every changed slot of an account that still exists is cached, with its key and its
/// present value, in its place.
pub proof fn law_every_slot_has_its_present_value<I>(
    changes: Vec<(Address, BundleAccount<I>)>,
    cached: CachedReads<I>,
    i: int,
    j: int,
)
    requires
        call_ensures(CachedReads::<I>::from_changes, (changes,), cached),
        0 <= i < changes@.len(),
        changes@[i].1.info is Some,
        0 <= j < changes@[i].1.storage@.len(),
    ensures
        exists|k: int|
            0 <= k < cached.accounts@.len() && {
                &&& (#[trigger] cached.accounts@[k]).address == changes@[i].0
                &&& Some(cached.accounts@[k].info) == changes@[i].1.info
                &&& cached.accounts@[k].storage@.len() == changes@[i].1.storage@.len()
                &&& cached.accounts@[k].storage@[j].0 == changes@[i].1.storage@[j].0
                &&& cached.accounts@[k].storage@[j].1 == changes@[i].1.storage@[j].1.present_value
            },
{
    lemma_view_is_present_state(&cached, changes@);
    let at = choose|at: Seq<int>| #[trigger]
        places_of_existing(changes@, at) && at.len() == cached.accounts@.len() && forall|k: int|
            0 <= k < at.len() ==> is_present_state(
                (#[trigger] cached.accounts@[k]).address,
                cached.accounts@[k].info,
                cached.accounts@[k].storage@,
                changes@[at[k]],
            );
    assert(changes@[i].1.info is Some);
    let k = choose|k: int| 0 <= k < at.len() && at[k] == i;
    let account = cached.accounts@[k];
    assert(account.storage@[j].0 == changes@[i].1.storage@[j].0);
}

/// What was before a commit does not show in its cache: two commits that differ only in
/// the values before them leave caches that agree in every account and slot.
pub proof fn law_values_before_do_not_show<I>(
    one: Vec<(Address, BundleAccount<I>)>,
    other: Vec<(Address, BundleAccount<I>)>,
    first: CachedReads<I>,
    second: CachedReads<I>,
)
    requires
        call_ensures(CachedReads::<I>::from_changes, (one,), first),
        call_ensures(CachedReads::<I>::from_changes, (other,), second),
        one@.len() == other@.len(),
        forall|i: int|
            0 <= i < one@.len() ==> {
                &&& (#[trigger] one@[i]).0 == other@[i].0
                &&& one@[i].1.info == other@[i].1.info
                &&& one@[i].1.storage@.len() == other@[i].1.storage@.len()
                &&& forall|j: int|
                    0 <= j < one@[i].1.storage@.len() ==> {
                        &&& (#[trigger] one@[i].1.storage@[j]).0 == other@[i].1.storage@[j].0
                        &&& one@[i].1.storage@[j].1.present_value
                            == other@[i].1.storage@[j].1.present_value
                    }
            },
    ensures
        first@ == second@,
{
    lemma_same_present_state(one@, other@);
}

/// Changes that differ only in the values before them give the same entries.
proof fn lemma_same_present_state<I>(
    one: Seq<(Address, BundleAccount<I>)>,
    other: Seq<(Address, BundleAccount<I>)>,
)
    requires
        one.len() == other.len(),
        forall|i: int|
            0 <= i < one.len() ==> {
                &&& (#[trigger] one[i]).0 == other[i].0
                &&& one[i].1.info == other[i].1.info
                &&& one[i].1.storage@.len() == other[i].1.storage@.len()
                &&& forall|j: int|
                    0 <= j < one[i].1.storage@.len() ==> {
                        &&& (#[trigger] one[i].1.storage@[j]).0 == other[i].1.storage@[j].0
                        &&& one[i].1.storage@[j].1.present_value
                            == other[i].1.storage@[j].1.present_value
                    }
            },
    ensures
        entries_of(one) == entries_of(other),
    decreases one.len(),
{
    reveal(Seq::filter);
    if one.len() == 0 {
        assert(entries_of(one) =~= entries_of(other));
    } else {
        let front = one.drop_last();
        let other_front = other.drop_last();
        assert forall|i: int| 0 <= i < front.len() implies {
            &&& (#[trigger] front[i]).0 == other_front[i].0
            &&& front[i].1.info == other_front[i].1.info
            &&& front[i].1.storage@.len() == other_front[i].1.storage@.len()
            &&& forall|j: int|
                0 <= j < front[i].1.storage@.len() ==> {
                    &&& (#[trigger] front[i].1.storage@[j]).0 == other_front[i].1.storage@[j].0
                    &&& front[i].1.storage@[j].1.present_value
                        == other_front[i].1.storage@[j].1.present_value
                }
        } by {
            assert(front[i] == one[i]);
            assert(other_front[i] == other[i]);
        }
        lemma_same_present_state(front, other_front);
        lemma_entries_of_push(front, one.last());
        lemma_entries_of_push(other_front, other.last());
        assert(front.push(one.last()) =~= one);
        assert(other_front.push(other.last()) =~= other);
        assert(one[one.len() - 1] == one.last());
        if one.last().1.info is Some {
            let a = entry_of(one.last());
            let b = entry_of(other.last());
            assert(a.storage =~= b.storage);
            assert(a == b);
        }
    }
}

/// A new cache holds nothing.
pub proof fn law_new_cache_is_empty<I>(cached: CachedReads<I>)
    requires
        call_ensures(CachedReads::<I>::new, (), cached),
    ensures
        cached.accounts@.len() == 0,
{
    assert(cached@.len() == cached.accounts@.len());
}

/// An account is added at the end of a cache, which is otherwise as before.
pub proof fn law_account_is_added<I>(
    cached: &mut CachedReads<I>,
    address: Address,
    info: I,
    storage: Vec<(U256, U256)>,
)
    requires
        call_ensures(
            CachedReads::<I>::insert_account,
            (cached, address, info, storage),
            (),
        ),
    ensures
        final(cached).accounts@.len() == old(cached).accounts@.len() + 1,
        final(cached).accounts@.last().address == address,
        final(cached).accounts@.last().info == info,
        final(cached).accounts@.last().storage@ == storage@,
        forall|k: int|
            0 <= k < old(cached).accounts@.len() ==> (#[trigger] final(cached).accounts@[k]).address
                == old(cached).accounts@[k].address && final(cached).accounts@[k].info == old(cached).accounts@[k].info && final(cached).accounts@[k].storage@ == old(cached).accounts@[k].storage@,
{
    let before = old(cached)@;
    let after = final(cached)@;
    assert(before.len() == old(cached).accounts@.len());
    assert(after.len() == final(cached).accounts@.len());
    assert(after[before.len() as int] == final(cached).accounts@.last()@);
    assert forall|k: int| 0 <= k < before.len() implies (
    #[trigger] final(cached).accounts@[k]).address == old(cached).accounts@[k].address && final(cached).accounts@[k].info == old(cached).accounts@[k].info && final(cached).accounts@[k].storage@
        == old(cached).accounts@[k].storage@ by {
        assert(after[k] == before[k]);
    }
}

/// By its address an account is found exactly if it is in the cache, and of several the last
/// one is found.
pub proof fn law_last_account_of_an_address_counts<I>(entries: Seq<CachedEntry<I>>, i: int)
    requires
        0 <= i < entries.len(),
        forall|j: int| i < j < entries.len() ==> (#[trigger] entries[j]).address
            != entries[i].address,
    ensures
        by_address(entries).contains_key(entries[i].address),
        by_address(entries)[entries[i].address] == entries[i],
    decreases entries.len(),
{
    if i < entries.len() - 1 {
        assert(entries[entries.len() - 1].address != entries[i].address);
        law_last_account_of_an_address_counts(entries.drop_last(), i);
    }
}

/// By an address no account is found that is not in the cache.
pub proof fn law_no_account_from_nowhere<I>(entries: Seq<CachedEntry<I>>, address: Address)
    requires
        by_address(entries).contains_key(address),
    ensures
        exists|i: int| 0 <= i < entries.len() && (#[trigger] entries[i]).address == address,
    decreases entries.len(),
{
    if entries.len() > 0 {
        if entries.last().address == address {
            assert(entries[entries.len() - 1].address == address);
        } else {
            law_no_account_from_nowhere(entries.drop_last(), address);
            let i = choose|i: int|
                0 <= i < entries.drop_last().len() && (
                #[trigger] entries.drop_last()[i]).address == address;
            assert(entries[i].address == address);
        }
    }
}

} // verus!
