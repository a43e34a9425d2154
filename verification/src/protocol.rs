//! What holds of the builder across requests: a bid keeps to the fork of the
//! announcement, what a bid commits to can be redeemed, and redeemed once.

use vstd::prelude::*;
use crate::bid::{ForkVersionedResponse, SignedBuilderBid};
use crate::blobs::FullPayloadContents;
use crate::block::SignedBlindedBlock;
use crate::bls::{public_key_of, signature_dst, signature_of};
use crate::builder::Builder;
use crate::chain_spec::{builder_domain, signing_root_of};
use crate::error::Error;
use crate::payload::ExecutionPayload;
use crate::primitives::Hash256;
use crate::recency::{lemma_lookup_removed, lookup};
use crate::sse::cache_key;

verus! {

/// A payload has a withdrawal list exactly in the forks that have
/// withdrawals, and so has its header a withdrawals root.
pub proof fn lemma_payload_shape(payload: ExecutionPayload)
    ensures
        payload.spec_fork_name().is_supported(),
        payload.withdrawals() is Some <==> payload.spec_fork_name().has_withdrawals(),
        payload is Deneb <==> payload.spec_fork_name().has_blobs(),
{
}

/// Fork fidelity: a bid, the payload committed for it and the answer that
/// carries it are all of the fork that the announcement is tagged with; the
/// payload has withdrawals exactly where that fork has them, and the bid and
/// the committed contents have a blob bundle exactly where that fork has one.
pub proof fn lemma_fork_fidelity(
    before: Builder,
    after: Builder,
    slot: u64,
    parent_hash: Hash256,
    response: ForkVersionedResponse<SignedBuilderBid>,
)
    requires
        after.bid_answered(
            &before,
            slot,
            parent_hash,
            Ok::<ForkVersionedResponse<SignedBuilderBid>, Error>(response),
        ),
    ensures
        response.version matches Some(fork) && {
            let bid = response.data.message;
            &&& fork.is_supported()
            &&& lookup(before.attributes(), cache_key(parent_hash, slot)) matches Some(
                announced,
            ) && announced.version == Some(fork)
            &&& bid.spec_fork_name() == fork
            &&& bid.header().spec_fork_name() == fork
            &&& bid.header() is Merge <==> !fork.has_withdrawals()
            &&& bid.blinded_blobs_bundle() is Some <==> fork.has_blobs()
            &&& lookup(after.vault(), bid.header().spec_tree_hash_root()) matches Some(contents)
                && {
                &&& contents.payload().spec_fork_name() == fork
                &&& contents.payload().withdrawals() is Some <==> fork.has_withdrawals()
                &&& contents.blobs() is Some <==> fork.has_blobs()
            }
        },
{
    let bid = response.data.message;
    let contents = lookup(after.vault(), bid.header().spec_tree_hash_root())->Some_0;
    lemma_payload_shape(contents.payload());
}

/// Signature integrity: the signature of a bid is the builder's signature
/// over the signing root of that very bid, which is the root of the bid bound
/// to the builder domain of the chain, and the key that the bid names is the
/// public key of the key that signed.
pub proof fn lemma_signature_integrity(
    before: Builder,
    after: Builder,
    slot: u64,
    parent_hash: Hash256,
    response: ForkVersionedResponse<SignedBuilderBid>,
)
    requires
        before.wf(),
        after.bid_answered(
            &before,
            slot,
            parent_hash,
            Ok::<ForkVersionedResponse<SignedBuilderBid>, Error>(response),
        ),
    ensures
        response.data.signature.bytes@ == signature_of(
            before.spec_secret_key(),
            signing_root_of(
                response.data.message.spec_tree_hash_root(before.chain_spec().preset),
                builder_domain(before.chain_spec().genesis_fork_version@),
            ),
            signature_dst(),
        ),
        response.data.message.pubkey().bytes@ == public_key_of(before.spec_secret_key()),
{
    before.lemma_keys_match();
}

/// Commit happens before reveal: once a bid has been answered, a blinded
/// block over the header of that bid is answered with the payload that the
/// bid committed to, tagged with the fork of the bid.
pub proof fn lemma_bid_can_be_redeemed(
    before: Builder,
    after: Builder,
    slot: u64,
    parent_hash: Hash256,
    response: ForkVersionedResponse<SignedBuilderBid>,
    block: SignedBlindedBlock,
    done: Builder,
    outcome: Result<ForkVersionedResponse<FullPayloadContents>, Error>,
)
    requires
        after.bid_answered(
            &before,
            slot,
            parent_hash,
            Ok::<ForkVersionedResponse<SignedBuilderBid>, Error>(response),
        ),
        block.spec_execution_payload() == Some(response.data.message.header()),
        done.block_answered(&after, block, outcome),
    ensures
        outcome matches Ok(revealed) && {
            &&& revealed.version == response.version
            &&& Some(revealed.data) == lookup(
                after.vault(),
                response.data.message.header().spec_tree_hash_root(),
            )
            &&& revealed.data.payload().has_header(
                before.chain_spec().preset,
                response.data.message.header(),
            )
        },
{
}

/// Exactly-once reveal: once a blinded block has been answered with a payload,
/// the same block is answered with a failure that names the root of its
/// header, and so is every later one until a new bid commits to that root.
pub proof fn lemma_redeemed_once(
    before: Builder,
    after: Builder,
    block: SignedBlindedBlock,
    first: Result<ForkVersionedResponse<FullPayloadContents>, Error>,
    done: Builder,
    second: Result<ForkVersionedResponse<FullPayloadContents>, Error>,
)
    requires
        before.wf(),
        after.block_answered(&before, block, first),
        first is Ok,
        done.block_answered(&after, block, second),
    ensures
        block.spec_execution_payload() matches Some(header) && second matches Err(
            Error::UnbindPayloadError(missing),
        ) && missing.bytes@ == header.spec_tree_hash_root(),
        done.vault() == after.vault(),
{
    let header = block.spec_execution_payload()->Some_0;
    lemma_lookup_removed(
        before.vault(),
        before.vault_capacity(),
        header.spec_tree_hash_root(),
        header.spec_tree_hash_root(),
    );
}

/// A blinded block over a header to whose root no bid has committed is
/// answered with a failure, and leaves the vault as it was.
pub proof fn lemma_never_committed(
    before: Builder,
    after: Builder,
    block: SignedBlindedBlock,
    outcome: Result<ForkVersionedResponse<FullPayloadContents>, Error>,
)
    requires
        after.block_answered(&before, block, outcome),
        block.spec_execution_payload() matches Some(header) ==> lookup(
            before.vault(),
            header.spec_tree_hash_root(),
        ) is None,
    ensures
        outcome is Err,
        after.vault() == before.vault(),
{
}

} // verus!
