//! State that is known before a job starts: what the last committed blocks changed.

use crate::hash::BlockHash;
use alloy_primitives::{Address, U256};
use std::sync::Arc;
use vstd::prelude::*;

verus! {

/// `alloy_primitives::Address`, carried and never looked into.
#[verifier::external_type_specification]
#[verifier::external_body]
pub struct ExAddress(alloy_primitives::Address);

/// `alloy_primitives::Uint`, carried and never looked into.
#[verifier::external_type_specification]
#[verifier::external_body]
pub struct ExUint<const BITS: usize, const LIMBS: usize>(alloy_primitives::Uint<BITS, LIMBS>);

/// One storage slot that a block changed.
#[derive(Clone, Copy, Debug)]
pub struct StorageSlot {
    /// What the slot held before.
    pub previous_or_original_value: U256,
    /// What the slot holds now.
    pub present_value: U256,
}

/// One account that a block changed. `I` is what is known of an account besides its
/// storage.
#[derive(Debug)]
pub struct BundleAccount<I> {
    /// The account, unless it no longer exists.
    pub info: Option<I>,
    /// The slots that changed, each with its key.
    pub storage: Vec<(U256, StorageSlot)>,
}

/// One account as a job finds it in its cache.
#[derive(Debug)]
pub struct CachedAccount<I> {
    /// The address of the account.
    pub address: Address,
    /// The account.
    pub info: I,
    /// Slots of its storage: keys and values.
    pub storage: Vec<(U256, U256)>,
}

/// What a [`CachedAccount`] holds.
pub struct CachedEntry<I> {
    pub address: Address,
    pub info: I,
    pub storage: Seq<(U256, U256)>,
}

impl<I> View for CachedAccount<I> {
    type V = CachedEntry<I>;

    open spec fn view(&self) -> CachedEntry<I> {
        CachedEntry { address: self.address, info: self.info, storage: self.storage@ }
    }
}

/// Reads that need not go to the database.
#[derive(Debug)]
pub struct CachedReads<I> {
    /// The accounts, in the order in which they were found.
    pub accounts: Vec<CachedAccount<I>>,
}

impl<I> View for CachedReads<I> {
    type V = Seq<CachedEntry<I>>;

    open spec fn view(&self) -> Seq<CachedEntry<I>> {
        self.accounts@.map_values(|account: CachedAccount<I>| account@)
    }
}

/// The accounts of a cache by their addresses. Of two entries for one address the
/// later one stands.
pub open spec fn by_address<I>(entries: Seq<CachedEntry<I>>) -> Map<Address, CachedEntry<I>>
    decreases entries.len(),
{
    if entries.len() == 0 {
        Map::empty()
    } else {
        by_address(entries.drop_last()).insert(entries.last().address, entries.last())
    }
}

/// The reads that are cached for jobs on top of one block.
#[derive(Debug)]
pub struct PrecachedState<I> {
    /// The block.
    pub block: BlockHash,
    /// The reads.
    pub cached: Arc<CachedReads<I>>,
}

/// The keys of changed slots with the values that the slots hold now.
pub open spec fn present_values(storage: Seq<(U256, StorageSlot)>) -> Seq<(U256, U256)> {
    storage.map_values(|slot: (U256, StorageSlot)| (slot.0, slot.1.present_value))
}

/// Whether a changed account still exists.
pub open spec fn exists_still<I>(account: (Address, BundleAccount<I>)) -> bool {
    account.1.info is Some
}

/// A changed account that still exists, as a job finds it in its cache.
pub open spec fn entry_of<I>(account: (Address, BundleAccount<I>)) -> CachedEntry<I> {
    CachedEntry {
        address: account.0,
        info: account.1.info->0,
        storage: present_values(account.1.storage@),
    }
}

/// The cache that a list of changed accounts gives: those that still exist, in their
/// order, with the present values of their changed slots.
pub open spec fn entries_of<I>(accounts: Seq<(Address, BundleAccount<I>)>) -> Seq<CachedEntry<I>> {
    accounts.filter(|account: (Address, BundleAccount<I>)| exists_still(account)).map_values(
        |account: (Address, BundleAccount<I>)| entry_of(account),
    )
}

/// One more account at the end of the list gives one more entry at the end, or none.
pub(crate) proof fn lemma_entries_of_push<I>(
    accounts: Seq<(Address, BundleAccount<I>)>,
    account: (Address, BundleAccount<I>),
)
    ensures
        entries_of(accounts.push(account)) == (if exists_still(account) {
            entries_of(accounts).push(entry_of(account))
        } else {
            entries_of(accounts)
        }),
{
    reveal(Seq::filter);
    assert(accounts.push(account).drop_last() =~= accounts);
    assert(entries_of(accounts.push(account)) =~= (if exists_still(account) {
        entries_of(accounts).push(entry_of(account))
    } else {
        entries_of(accounts)
    }));
}

/// The keys of changed slots with the values that the slots hold now.
fn collect_present(storage: &Vec<(U256, StorageSlot)>) -> (values: Vec<(U256, U256)>)
    ensures
        values@ == present_values(storage@),
{
    let mut values: Vec<(U256, U256)> = Vec::new();
    let mut i: usize = 0;
    while i < storage.len()
        invariant
            i <= storage.len(),
            values@ == present_values(storage@.take(i as int)),
        decreases storage.len() - i,
    {
        values.push((storage[i].0, storage[i].1.present_value));
        i += 1;
    }
    assert(storage@.take(i as int) =~= storage@);
    values
}

impl<I> CachedReads<I> {
    /// An empty cache.
    pub fn new() -> (cached: CachedReads<I>)
        ensures
            cached@ == Seq::<CachedEntry<I>>::empty(),
    {
        CachedReads { accounts: Vec::new() }
    }

    /// Adds an account at the end. Of two accounts of one address the later one counts.
    pub fn insert_account(&mut self, address: Address, info: I, storage: Vec<(U256, U256)>)
        ensures
            final(self)@ == old(self)@.push((CachedEntry { address, info, storage: storage@ })),
            by_address(final(self)@) == by_address(old(self)@).insert(
                address,
                (CachedEntry { address, info, storage: storage@ }),
            ),
    {
        let ghost before = self@;
        self.accounts.push(CachedAccount { address, info, storage });
        assert(self@.drop_last() =~= before);
    }

    /// The cache that a list of changed accounts gives. Only changed accounts and slots
    /// are in it.
    pub fn from_changes(changes: Vec<(Address, BundleAccount<I>)>) -> (cached: CachedReads<I>)
        ensures
            cached@ == entries_of(changes@),
    {
        let mut cached: CachedReads<I> = CachedReads::new();
        let ghost all = changes@;
        for change in iter: changes
            invariant
                iter.seq() == all,
                cached@ == entries_of(all.take(iter.index())),
        {
            proof {
                let seen = iter.index();
                lemma_entries_of_push(all.take(seen), all[seen]);
                assert(all.take(seen + 1) =~= all.take(seen).push(all[seen]));
            }
            let (address, account) = change;
            if let Some(info) = account.info {
                let storage = collect_present(&account.storage);
                cached.insert_account(address, info, storage);
            }
        }
        assert(all.take(all.len() as int) =~= all);
        cached
    }
}

/// Every changed slot of an account that still exists is cached in its place, under its key,
/// with the value that it holds now.
pub proof fn law_slots_show_present_values<I>(account: (Address, BundleAccount<I>), j: int)
    requires
        exists_still(account),
        0 <= j < account.1.storage@.len(),
    ensures
        account.1.info == Some(entry_of(account).info),
        entry_of(account).address == account.0,
        entry_of(account).storage.len() == account.1.storage@.len(),
        entry_of(account).storage[j] == (
            account.1.storage@[j].0,
            account.1.storage@[j].1.present_value,
        ),
{
}

/// No two changed accounts have one address.
pub open spec fn distinct_addresses<I>(changes: Seq<(Address, BundleAccount<I>)>) -> bool {
    forall|i: int, j: int|
        0 <= i < j < changes.len() ==> (#[trigger] changes[i]).0 != (#[trigger] changes[j]).0
}

/// One more change gives one more entry, or none, in the cache by address.
proof fn lemma_by_address_step<I>(changes: Seq<(Address, BundleAccount<I>)>)
    requires
        changes.len() > 0,
    ensures
        by_address(entries_of(changes)) == (if exists_still(changes.last()) {
            by_address(entries_of(changes.drop_last())).insert(
                changes.last().0,
                entry_of(changes.last()),
            )
        } else {
            by_address(entries_of(changes.drop_last()))
        }),
{
    let front = changes.drop_last();
    lemma_entries_of_push(front, changes.last());
    assert(front.push(changes.last()) =~= changes);
    if exists_still(changes.last()) {
        assert(entries_of(changes).drop_last() =~= entries_of(front));
    }
}

/// Nothing is in the cache but changed accounts that still exist.
pub proof fn law_cache_holds_nothing_else<I>(
    changes: Seq<(Address, BundleAccount<I>)>,
    address: Address,
)
    requires
        by_address(entries_of(changes)).contains_key(address),
    ensures
        exists|i: int|
            0 <= i < changes.len() && (#[trigger] changes[i]).0 == address && exists_still(
                changes[i],
            ),
    decreases changes.len(),
{
    if changes.len() == 0 {
        reveal(Seq::filter);
        assert(entries_of(changes) =~= Seq::empty());
    } else {
        lemma_by_address_step(changes);
        let front = changes.drop_last();
        if exists_still(changes.last()) && changes.last().0 == address {
            assert(changes[changes.len() - 1] == changes.last());
        } else {
            law_cache_holds_nothing_else(front, address);
            let i = choose|i: int|
                0 <= i < front.len() && (#[trigger] front[i]).0 == address && exists_still(
                    front[i],
                );
            assert(changes[i] == front[i]);
        }
    }
}

/// Where no address occurs twice, a changed account is in the cache exactly if it
/// still exists, with what is known of it and the present values of its slots.
pub proof fn law_cache_holds_what_exists<I>(changes: Seq<(Address, BundleAccount<I>)>, i: int)
    requires
        0 <= i < changes.len(),
        distinct_addresses(changes),
    ensures
        by_address(entries_of(changes)).contains_key(changes[i].0) <==> exists_still(changes[i]),
        exists_still(changes[i]) ==> by_address(entries_of(changes))[changes[i].0] == entry_of(
            changes[i],
        ),
    decreases changes.len(),
{
    let front = changes.drop_last();
    lemma_by_address_step(changes);
    if i < front.len() {
        assert(front[i] == changes[i]);
        assert(changes[i].0 != changes[changes.len() - 1].0);
        law_cache_holds_what_exists(front, i);
    } else if by_address(entries_of(front)).contains_key(changes[i].0) {
        law_cache_holds_nothing_else(front, changes[i].0);
        let j = choose|j: int|
            0 <= j < front.len() && (#[trigger] front[j]).0 == changes[i].0 && exists_still(
                front[j],
            );
        assert(changes[j].0 != changes[i].0);
    }
}

} // verus!
