//! Merkle hashing of 32-byte chunks, computed by the `tree_hash` crate.

use vstd::prelude::*;

verus! {

/// The largest number of leaves this library ever asks a Merkle tree to hold.
pub const MAX_LEAVES: usize = 0x400_0000;

/// The root of the Merkle tree over `bytes`, split into 32-byte leaves and
/// padded with zero leaves up to at least `minimum_leaf_count` leaves.
pub uninterp spec fn merkle_root_of(bytes: Seq<u8>, minimum_leaf_count: nat) -> Seq<u8>;

/// The node obtained by hashing `root` together with `length`.
pub uninterp spec fn mixed_in_length(root: Seq<u8>, length: nat) -> Seq<u8>;

/// Calls `tree_hash::merkle_root`. The contract claims only that the result is
/// a function of the bytes and of the minimum leaf count; the tree is kept
/// below the depth at which the outside hasher runs out of cached zero nodes.
#[verifier::external_body]
pub(crate) fn merkle_root(bytes: &[u8], minimum_leaf_count: usize) -> (root: [u8; 32])
    requires
        bytes@.len() <= 32 * MAX_LEAVES,
        minimum_leaf_count <= MAX_LEAVES,
    ensures
        root@ == merkle_root_of(bytes@, minimum_leaf_count as nat),
{
    tree_hash::merkle_root(bytes, minimum_leaf_count).0
}

/// Calls `tree_hash::mix_in_length`. The contract claims only that the result
/// is a function of the root and of the length.
#[verifier::external_body]
pub(crate) fn mix_in_length(root: &[u8; 32], length: usize) -> (mixed: [u8; 32])
    ensures
        mixed@ == mixed_in_length(root@, length as nat),
{
    tree_hash::mix_in_length(&tree_hash::Hash256::from(*root), length).0
}

} // verus!
