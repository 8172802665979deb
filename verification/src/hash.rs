//! Block hashes.

use alloy_primitives::B256;
use vstd::prelude::*;

verus! {

/// The hash of a block.
pub type BlockHash = [u8; 32];

/// Whether no bit of a hash is set.
pub open spec fn all_zero(hash: BlockHash) -> bool {
    forall|i: int| 0 <= i < 32 ==> hash@[i] == 0
}

/// Calls `alloy_primitives::FixedBytes::<32>::is_zero`, which says whether every
/// byte is zero.
#[verifier::external_body]
pub(crate) fn is_zero(hash: &BlockHash) -> (zero: bool)
    ensures
        zero == all_zero(*hash),
{
    B256::from(hash).is_zero()
}

/// Calls `==` of `alloy_primitives::FixedBytes::<32>`, which compares the bytes.
#[verifier::external_body]
pub(crate) fn same_hash(left: &BlockHash, right: &BlockHash) -> (same: bool)
    ensures
        same == (left@ == right@),
{
    B256::from(left) == B256::from(right)
}

} // verus!
