//! Bids: a payload header, the value offered for it and the builder's key,
//! and the signature that commits the builder to them.

use vstd::prelude::*;
use crate::bls::{signature_dst, signature_of, SecretKey};
use crate::chain_spec::{builder_domain, compute_signing_root, signing_root_of, ChainSpec};
use crate::merkle::{merkle_root, merkle_root_of};
use crate::payload::{
    ExecutionPayloadHeader, ExecutionPayloadHeaderCapella, ExecutionPayloadHeaderDeneb,
    ExecutionPayloadHeaderMerge,
};
use crate::preset::EthSpecId;
use crate::primitives::{ForkName, Hash256, PublicKeyBytes, SignatureBytes, Uint256};
use crate::ssz::{
    byte_vector_root, digest_list_root, hash_digest_list, hash_key_list, key_list_root,
    write_bytes, write_hash,
};

verus! {

/// What a bid reveals of a blob bundle: the commitments, the proofs and the
/// root of each blob.
#[derive(Clone, Debug, PartialEq, Eq)]
pub struct BlindedBlobsBundle {
    pub commitments: Vec<[u8; 48]>,
    pub proofs: Vec<[u8; 48]>,
    pub blob_roots: Vec<Hash256>,
}

impl BlindedBlobsBundle {
    /// Whether the bundle holds nothing.
    pub open spec fn is_empty(&self) -> bool {
        &&& self.commitments@.len() == 0
        &&& self.proofs@.len() == 0
        &&& self.blob_roots@.len() == 0
    }

    /// Whether every list of the bundle is within the limit of `preset`.
    pub open spec fn wf(&self, preset: EthSpecId) -> bool {
        &&& self.commitments@.len() <= preset.max_blob_commitments_per_block()
        &&& self.proofs@.len() <= preset.max_blob_commitments_per_block()
        &&& self.blob_roots@.len() <= preset.max_blob_commitments_per_block()
    }

    /// The three chunks of the bundle: the roots of its lists.
    pub open spec fn chunks(&self, preset: EthSpecId) -> Seq<u8> {
        key_list_root(self.commitments@, preset.max_blob_commitments_per_block() as nat)
            + key_list_root(self.proofs@, preset.max_blob_commitments_per_block() as nat)
            + digest_list_root(self.blob_roots@, preset.max_blob_commitments_per_block() as nat)
    }

    /// The structured-hash root of the bundle.
    pub open spec fn spec_tree_hash_root(&self, preset: EthSpecId) -> Seq<u8> {
        merkle_root_of(self.chunks(preset), 3)
    }

    /// The structured-hash root of the bundle.
    pub fn tree_hash_root(&self, preset: EthSpecId) -> (root: Hash256)
        requires
            self.wf(preset),
        ensures
            root.bytes@ == self.spec_tree_hash_root(preset),
    {
        let limit = preset.max_blob_commitments_per_block();
        let commitments = hash_key_list(&self.commitments, limit);
        let proofs = hash_key_list(&self.proofs, limit);
        let blob_roots = hash_digest_list(&self.blob_roots, limit);
        let mut buf: Vec<u8> = Vec::new();
        write_hash(&mut buf, &commitments);
        write_hash(&mut buf, &proofs);
        write_hash(&mut buf, &blob_roots);
        assert(buf@ =~= self.chunks(preset));
        Hash256 { bytes: merkle_root(buf.as_slice(), 3) }
    }
}

impl Default for BlindedBlobsBundle {
    /// The bundle that holds nothing.
    fn default() -> (bundle: BlindedBlobsBundle)
        ensures
            bundle.is_empty(),
    {
        BlindedBlobsBundle { commitments: Vec::new(), proofs: Vec::new(), blob_roots: Vec::new() }
    }
}

/// A bid of the first fork that has payloads.
#[derive(Clone, Debug, PartialEq, Eq)]
pub struct BuilderBidMerge {
    pub header: ExecutionPayloadHeaderMerge,
    pub value: Uint256,
    pub pubkey: PublicKeyBytes,
}

/// A bid of the fork that added withdrawals.
#[derive(Clone, Debug, PartialEq, Eq)]
pub struct BuilderBidCapella {
    pub header: ExecutionPayloadHeaderCapella,
    pub value: Uint256,
    pub pubkey: PublicKeyBytes,
}

/// A bid of the fork that added blobs.
#[derive(Clone, Debug, PartialEq, Eq)]
pub struct BuilderBidDeneb {
    pub header: ExecutionPayloadHeaderDeneb,
    pub blinded_blobs_bundle: BlindedBlobsBundle,
    pub value: Uint256,
    pub pubkey: PublicKeyBytes,
}

/// A bid of any supported fork.
#[derive(Clone, Debug, PartialEq, Eq)]
pub enum BuilderBid {
    Merge(BuilderBidMerge),
    Capella(BuilderBidCapella),
    Deneb(BuilderBidDeneb),
}

/// A bid and the builder's signature over it.
#[derive(Clone, Debug, PartialEq, Eq)]
pub struct SignedBuilderBid {
    pub message: BuilderBid,
    pub signature: SignatureBytes,
}

/// A message tagged with the fork it belongs to.
#[derive(Clone, Debug, PartialEq, Eq)]
pub struct ForkVersionedResponse<T> {
    pub version: Option<ForkName>,
    pub data: T,
}

impl BuilderBid {
    /// The header that the bid commits to.
    pub open spec fn header(&self) -> ExecutionPayloadHeader {
        match self {
            BuilderBid::Merge(bid) => ExecutionPayloadHeader::Merge(bid.header),
            BuilderBid::Capella(bid) => ExecutionPayloadHeader::Capella(bid.header),
            BuilderBid::Deneb(bid) => ExecutionPayloadHeader::Deneb(bid.header),
        }
    }

    /// The payment that the bid declares.
    pub open spec fn value(&self) -> Uint256 {
        match self {
            BuilderBid::Merge(bid) => bid.value,
            BuilderBid::Capella(bid) => bid.value,
            BuilderBid::Deneb(bid) => bid.value,
        }
    }

    /// The key of the builder that made the bid.
    pub open spec fn pubkey(&self) -> PublicKeyBytes {
        match self {
            BuilderBid::Merge(bid) => bid.pubkey,
            BuilderBid::Capella(bid) => bid.pubkey,
            BuilderBid::Deneb(bid) => bid.pubkey,
        }
    }

    /// The blinded blob bundle, in the fork that has one.
    pub open spec fn blinded_blobs_bundle(&self) -> Option<BlindedBlobsBundle> {
        match self {
            BuilderBid::Merge(_) => None,
            BuilderBid::Capella(_) => None,
            BuilderBid::Deneb(bid) => Some(bid.blinded_blobs_bundle),
        }
    }

    /// The fork this bid belongs to.
    pub open spec fn spec_fork_name(&self) -> ForkName {
        self.header().spec_fork_name()
    }

    /// Whether the bid can be hashed under `preset`.
    pub open spec fn wf(&self, preset: EthSpecId) -> bool {
        self.blinded_blobs_bundle() matches Some(bundle) ==> bundle.wf(preset)
    }

    /// The chunks of the bid's fields, in field order.
    pub open spec fn chunks(&self, preset: EthSpecId) -> Seq<u8> {
        match self {
            BuilderBid::Merge(bid) => self.header().spec_tree_hash_root() + bid.value.le_bytes@
                + byte_vector_root(bid.pubkey.bytes@),
            BuilderBid::Capella(bid) => self.header().spec_tree_hash_root() + bid.value.le_bytes@
                + byte_vector_root(bid.pubkey.bytes@),
            BuilderBid::Deneb(bid) => self.header().spec_tree_hash_root()
                + bid.blinded_blobs_bundle.spec_tree_hash_root(preset) + bid.value.le_bytes@
                + byte_vector_root(bid.pubkey.bytes@),
        }
    }

    /// The structured-hash root of the bid.
    pub open spec fn spec_tree_hash_root(&self, preset: EthSpecId) -> Seq<u8> {
        match self {
            BuilderBid::Merge(_) => merkle_root_of(self.chunks(preset), 3),
            BuilderBid::Capella(_) => merkle_root_of(self.chunks(preset), 3),
            BuilderBid::Deneb(_) => merkle_root_of(self.chunks(preset), 4),
        }
    }

    /// The commitment that the builder signs: the root of the bid, bound to
    /// the builder domain of the chain.
    pub open spec fn signing_root(&self, spec: ChainSpec) -> Seq<u8> {
        signing_root_of(
            self.spec_tree_hash_root(spec.preset),
            builder_domain(spec.genesis_fork_version@),
        )
    }

    #[verifier::when_used_as_spec(spec_fork_name)]
    pub fn fork_name(&self) -> (fork: ForkName)
        ensures
            fork == self.spec_fork_name(),
    {
        match self {
            BuilderBid::Merge(_) => ForkName::Merge,
            BuilderBid::Capella(_) => ForkName::Capella,
            BuilderBid::Deneb(_) => ForkName::Deneb,
        }
    }

    /// The structured-hash root of the bid.
    pub fn tree_hash_root(&self, preset: EthSpecId) -> (root: Hash256)
        requires
            self.wf(preset),
        ensures
            root.bytes@ == self.spec_tree_hash_root(preset),
    {
        let mut buf: Vec<u8> = Vec::new();
        match self {
            BuilderBid::Merge(bid) => {
                let header = ExecutionPayloadHeader::Merge(bid.header).tree_hash_root();
                let pubkey = Hash256 { bytes: merkle_root(bid.pubkey.bytes.as_slice(), 2) };
                write_hash(&mut buf, &header);
                write_bytes(&mut buf, bid.value.le_bytes.as_slice());
                write_hash(&mut buf, &pubkey);
                assert(buf@ =~= self.chunks(preset));
                Hash256 { bytes: merkle_root(buf.as_slice(), 3) }
            },
            BuilderBid::Capella(bid) => {
                let header = ExecutionPayloadHeader::Capella(bid.header).tree_hash_root();
                let pubkey = Hash256 { bytes: merkle_root(bid.pubkey.bytes.as_slice(), 2) };
                write_hash(&mut buf, &header);
                write_bytes(&mut buf, bid.value.le_bytes.as_slice());
                write_hash(&mut buf, &pubkey);
                assert(buf@ =~= self.chunks(preset));
                Hash256 { bytes: merkle_root(buf.as_slice(), 3) }
            },
            BuilderBid::Deneb(bid) => {
                let header = ExecutionPayloadHeader::Deneb(bid.header).tree_hash_root();
                let bundle = bid.blinded_blobs_bundle.tree_hash_root(preset);
                let pubkey = Hash256 { bytes: merkle_root(bid.pubkey.bytes.as_slice(), 2) };
                write_hash(&mut buf, &header);
                write_hash(&mut buf, &bundle);
                write_bytes(&mut buf, bid.value.le_bytes.as_slice());
                write_hash(&mut buf, &pubkey);
                assert(buf@ =~= self.chunks(preset));
                Hash256 { bytes: merkle_root(buf.as_slice(), 4) }
            },
        }
    }
}

/// What can be signed as a bid.
pub trait SignableBid {
    /// Whether the value can be hashed under the preset of `spec`.
    spec fn signable(&self, spec: ChainSpec) -> bool;

    /// The commitment that a signature covers.
    spec fn commitment(&self, spec: ChainSpec) -> Seq<u8>;

    /// Signs the commitment to this value under the builder domain of `spec`.
    fn sign(&self, secret_key: &SecretKey, spec: &ChainSpec) -> (signature: SignatureBytes)
        requires
            self.signable(*spec),
        ensures
            signature.bytes@ == signature_of(
                secret_key@,
                self.commitment(*spec),
                signature_dst(),
            ),
    ;
}

impl SignableBid for BuilderBid {
    open spec fn signable(&self, spec: ChainSpec) -> bool {
        self.wf(spec.preset)
    }

    open spec fn commitment(&self, spec: ChainSpec) -> Seq<u8> {
        self.signing_root(spec)
    }

    fn sign(&self, secret_key: &SecretKey, spec: &ChainSpec) -> (signature: SignatureBytes) {
        let domain = spec.get_builder_domain();
        let root = self.tree_hash_root(spec.preset);
        let message = compute_signing_root(&root, &domain);
        secret_key.sign(&message.bytes)
    }
}

/// Wraps `payload` in a bid of the same fork, with the given value and key
/// and, where the fork has one, an empty blinded blob bundle.
pub fn new_dummy_bid(payload: ExecutionPayloadHeader, value: Uint256, pubkey: PublicKeyBytes) -> (bid:
    BuilderBid)
    ensures
        bid.header() == payload,
        bid.value() == value,
        bid.pubkey() == pubkey,
        bid.spec_fork_name() == payload.spec_fork_name(),
        bid.blinded_blobs_bundle() is Some <==> payload.spec_fork_name().has_blobs(),
        bid.blinded_blobs_bundle() matches Some(bundle) ==> bundle.is_empty(),
{
    match payload {
        ExecutionPayloadHeader::Merge(header) => BuilderBid::Merge(
            BuilderBidMerge { header, value, pubkey },
        ),
        ExecutionPayloadHeader::Capella(header) => BuilderBid::Capella(
            BuilderBidCapella { header, value, pubkey },
        ),
        ExecutionPayloadHeader::Deneb(header) => BuilderBid::Deneb(
            BuilderBidDeneb {
                header,
                blinded_blobs_bundle: BlindedBlobsBundle::default(),
                value,
                pubkey,
            },
        ),
    }
}

} // verus!
