//! The builder: it answers a request for a bid with a signed commitment to a
//! placeholder payload, and a signed acceptance with the payload itself.

use vstd::prelude::*;
use crate::attributes::{SseExtendedPayloadAttributes, VersionedSsePayloadAttributes};
use crate::bid::{new_dummy_bid, ForkVersionedResponse, SignableBid, SignedBuilderBid};
use crate::blobs::{BlobsBundle, FullPayloadContents};
use crate::block::SignedBlindedBlock;
use crate::bls::{public_key_of, signature_dst, signature_of, SecretKey};
use crate::chain_spec::ChainSpec;
use crate::config::Config;
use crate::error::Error;
use crate::payload::{
    lemma_header_root_is_payload_root, CommonFields, ExecutionPayload, ExecutionPayloadCapella,
    ExecutionPayloadDeneb, ExecutionPayloadMerge, ExtraData,
};
use crate::payload_cache::{PayloadCache, DEFAULT_PAYLOAD_CACHE_SIZE};
use crate::preset::{EthSpecId, MAX_BYTES_PER_TRANSACTION};
use crate::primitives::{ForkName, Hash256, PublicKeyBytes, Uint256, Withdrawal};
use crate::recency::{
    inserted, lemma_lookup_inserted, lookup, removed, touched, well_formed,
};
use crate::sse::{after_event, cache_key, report_of, Ingested, SseEvent, SseListener};
use crate::ssz::{write_zeros, zeros};

verus! {

/// The gas limit of every payload that the builder makes.
pub const GAS_LIMIT: u64 = 30_000_000;

/// The byte that fills the block hash of every payload that the builder
/// makes: the hash need not be right, but it may not be zero.
pub const BLOCK_HASH_BYTE: u8 = 42;

/// The first `max` withdrawals of `ws`, or all of them if there are fewer.
pub open spec fn truncated(ws: Seq<Withdrawal>, max: nat) -> Seq<Withdrawal> {
    if ws.len() <= max {
        ws
    } else {
        ws.subrange(0, max as int)
    }
}

/// Copies the first `max` withdrawals of `ws`, or all of them if there are
/// fewer.
pub fn take_withdrawals(ws: &Vec<Withdrawal>, max: usize) -> (taken: Vec<Withdrawal>)
    ensures
        taken@ == truncated(ws@, max as nat),
{
    let mut taken: Vec<Withdrawal> = Vec::new();
    let mut i: usize = 0;
    while i < ws.len() && i < max
        invariant
            i <= ws@.len(),
            i <= max,
            taken@ == ws@.subrange(0, i as int),
        decreases ws@.len() - i,
    {
        taken.push(ws[i]);
        i += 1;
        assert(taken@ =~= ws@.subrange(0, i as int));
    }
    assert(taken@ =~= truncated(ws@, max as nat));
    taken
}

/// Why no bid can be made from what the cache holds for a request, if none
/// can: nothing was announced, the parent block number has no successor, the
/// announcement names no fork or one that has no payloads, or it lacks the
/// withdrawals that its fork requires.
pub open spec fn header_failure(found: Option<VersionedSsePayloadAttributes>) -> Option<Error> {
    match found {
        None => Some(Error::NoPayload),
        Some(announced) => {
            if announced.data.parent_block_number == u64::MAX {
                Some(Error::LogicError)
            } else {
                match announced.version {
                    None => Some(Error::LogicError),
                    Some(fork) => {
                        if !fork.is_supported() {
                            Some(Error::NoPayload)
                        } else if fork.has_withdrawals()
                            && announced.data.payload_attributes.spec_withdrawals() is None {
                            Some(Error::LogicError)
                        } else {
                            None
                        }
                    },
                }
            }
        },
    }
}

/// Whether `common` holds what the builder puts in the plain fields of a
/// payload on top of `parent_hash`: what the announcement fixes, the gas
/// limit and block hash of every placeholder, and nothing else.
pub open spec fn is_dummy_common(
    common: CommonFields,
    parent_hash: Hash256,
    data: SseExtendedPayloadAttributes,
) -> bool {
    &&& common.parent_hash == parent_hash
    &&& common.fee_recipient == data.payload_attributes.spec_suggested_fee_recipient()
    &&& common.state_root.bytes@ == zeros(32)
    &&& common.receipts_root.bytes@ == zeros(32)
    &&& common.logs_bloom@ == zeros(256)
    &&& common.prev_randao == data.payload_attributes.spec_prev_randao()
    &&& common.block_number == data.parent_block_number + 1
    &&& common.gas_limit == GAS_LIMIT
    &&& common.gas_used == 0
    &&& common.timestamp == data.payload_attributes.spec_timestamp()
    &&& common.extra_data@ == Seq::<u8>::empty()
    &&& common.base_fee_per_gas.le_bytes@ == zeros(32)
    &&& common.block_hash.bytes@ == Seq::new(32, |i: int| BLOCK_HASH_BYTE)
}

/// Whether `payload` is the placeholder that the builder makes for `fork` on
/// top of `parent_hash`: one transaction of `body_bytes` zero bytes and, in
/// the forks that have withdrawals, those of the announcement as far as the
/// preset has room for them.
pub open spec fn is_dummy_payload(
    payload: ExecutionPayload,
    fork: ForkName,
    parent_hash: Hash256,
    data: SseExtendedPayloadAttributes,
    body_bytes: nat,
    preset: EthSpecId,
) -> bool {
    &&& payload.spec_fork_name() == fork
    &&& is_dummy_common(payload.common(), parent_hash, data)
    &&& payload.transactions().len() == 1
    &&& payload.transactions()[0]@ == zeros(body_bytes)
    &&& payload.withdrawals() matches Some(ws) ==> {
        &&& data.payload_attributes.spec_withdrawals() matches Some(announced)
        &&& ws == truncated(announced, preset.max_withdrawals_per_payload() as nat)
    }
    &&& payload matches ExecutionPayload::Deneb(p) ==> p.blob_gas_used == 0 && p.excess_blob_gas
        == 0
}

/// The plain fields of a placeholder payload.
fn dummy_common(parent_hash: Hash256, data: &SseExtendedPayloadAttributes) -> (common: CommonFields)
    requires
        data.parent_block_number < u64::MAX,
    ensures
        is_dummy_common(common, parent_hash, *data),
{
    let zero = Hash256::zero();
    let logs_bloom: [u8; 256] = [0u8; 256];
    let base_fee_per_gas = Uint256 { le_bytes: [0u8; 32] };
    proof {
        assert(zero.bytes@ =~= zeros(32));
        assert(logs_bloom@ =~= zeros(256));
        assert(base_fee_per_gas.le_bytes@ =~= zeros(32));
    }
    CommonFields {
        parent_hash,
        fee_recipient: data.payload_attributes.suggested_fee_recipient(),
        state_root: zero,
        receipts_root: zero,
        logs_bloom,
        prev_randao: data.payload_attributes.prev_randao(),
        block_number: data.parent_block_number + 1,
        gas_limit: GAS_LIMIT,
        gas_used: 0,
        timestamp: data.payload_attributes.timestamp(),
        extra_data: ExtraData::empty(),
        base_fee_per_gas,
        block_hash: Hash256::repeat_byte(BLOCK_HASH_BYTE),
    }
}

/// The transaction list of a placeholder payload.
fn dummy_transactions(body_bytes: usize) -> (transactions: Vec<Vec<u8>>)
    ensures
        transactions@.len() == 1,
        transactions@[0]@ == zeros(body_bytes as nat),
{
    let mut body: Vec<u8> = Vec::new();
    write_zeros(&mut body, body_bytes);
    assert(body@ =~= zeros(body_bytes as nat));
    let mut transactions: Vec<Vec<u8>> = Vec::new();
    transactions.push(body);
    transactions
}

/// Builds the placeholder payload for an announcement, with the blob bundle
/// that goes with it in the fork that has one, or says why none can be built.
pub fn build_payload(
    parent_hash: Hash256,
    announced: &VersionedSsePayloadAttributes,
    body_bytes: usize,
    preset: EthSpecId,
) -> (outcome: Result<(ForkName, ExecutionPayload, Option<BlobsBundle>), Error>)
    requires
        body_bytes <= MAX_BYTES_PER_TRANSACTION,
    ensures
        match outcome {
            Err(error) => header_failure(Some(*announced)) == Some(error),
            Ok((fork, payload, blobs)) => {
                &&& header_failure(Some(*announced)) is None
                &&& announced.version == Some(fork)
                &&& is_dummy_payload(
                    payload,
                    fork,
                    parent_hash,
                    announced.data,
                    body_bytes as nat,
                    preset,
                )
                &&& payload.wf(preset)
                &&& blobs is Some <==> fork.has_blobs()
                &&& blobs matches Some(bundle) ==> bundle.is_empty()
            },
        },
{
    if announced.data.parent_block_number == u64::MAX {
        return Err(Error::LogicError);
    }
    let common = dummy_common(parent_hash, &announced.data);
    let transactions = dummy_transactions(body_bytes);
    let version = match announced.version {
        Some(version) => version,
        None => {
            return Err(Error::LogicError);
        },
    };
    match version {
        ForkName::Merge => Ok(
            (
                version,
                ExecutionPayload::Merge(ExecutionPayloadMerge { common, transactions }),
                None,
            ),
        ),
        ForkName::Capella => {
            let withdrawals = match announced.data.payload_attributes.withdrawals() {
                Some(ws) => take_withdrawals(ws, preset.max_withdrawals_per_payload()),
                None => {
                    return Err(Error::LogicError);
                },
            };
            Ok(
                (
                    version,
                    ExecutionPayload::Capella(
                        ExecutionPayloadCapella { common, transactions, withdrawals },
                    ),
                    None,
                ),
            )
        },
        ForkName::Deneb => {
            let withdrawals = match announced.data.payload_attributes.withdrawals() {
                Some(ws) => take_withdrawals(ws, preset.max_withdrawals_per_payload()),
                None => {
                    return Err(Error::LogicError);
                },
            };
            Ok(
                (
                    version,
                    ExecutionPayload::Deneb(
                        ExecutionPayloadDeneb {
                            common,
                            transactions,
                            withdrawals,
                            blob_gas_used: 0,
                            excess_blob_gas: 0,
                        },
                    ),
                    Some(BlobsBundle::default()),
                ),
            )
        },
        _ => Err(Error::NoPayload),
    }
}

/// The builder: the cache of announcements, the vault of committed payloads,
/// the signing key and what the operator has set.
pub struct Builder {
    sse_listener: SseListener,
    public_key: PublicKeyBytes,
    secret_key: SecretKey,
    config: Config,
    spec: ChainSpec,
    payload_cache: PayloadCache,
}

impl Builder {
    /// The cached announcements, most recently used first.
    pub closed spec fn attributes(&self) -> Seq<((Seq<u8>, u64), VersionedSsePayloadAttributes)> {
        self.sse_listener@
    }

    /// The number of announcements the cache was made to hold.
    pub closed spec fn attributes_capacity(&self) -> nat {
        self.sse_listener.capacity()
    }

    /// The committed payloads, most recently used first, each under its root.
    pub closed spec fn vault(&self) -> Seq<(Seq<u8>, FullPayloadContents)> {
        self.payload_cache@
    }

    /// The number of payloads the vault was made to hold.
    pub closed spec fn vault_capacity(&self) -> nat {
        self.payload_cache.capacity()
    }

    /// The bytes of the key that signs the bids.
    pub closed spec fn spec_secret_key(&self) -> Seq<u8> {
        self.secret_key@
    }

    /// The key that the bids name as the builder's.
    pub closed spec fn spec_public_key(&self) -> PublicKeyBytes {
        self.public_key
    }

    /// What the operator has set.
    pub closed spec fn spec_config(&self) -> Config {
        self.config
    }

    /// The chain that the builder signs for.
    pub closed spec fn chain_spec(&self) -> ChainSpec {
        self.spec
    }

    /// The address of the consensus node that the listener was made for.
    pub closed spec fn listener_url(&self) -> Seq<char> {
        self.sse_listener.spec_url()
    }

    /// Whether the key that the bids name belongs to the key that signs them.
    pub closed spec fn keys_match(&self) -> bool {
        self.public_key.bytes@ == public_key_of(self.secret_key@)
    }

    /// The preset under which the vault hashes payloads.
    pub closed spec fn vault_preset(&self) -> EthSpecId {
        self.payload_cache.eth_spec()
    }

    /// What holds of every builder: its configuration is one it can run with,
    /// its two keys belong together, its vault hashes payloads under the
    /// preset of its chain, and both its caches hold distinct keys, no more
    /// than they were made for.
    pub open spec fn wf(&self) -> bool {
        &&& self.spec_config().wf()
        &&& self.keys_match()
        &&& self.vault_preset() == self.chain_spec().preset
        &&& well_formed(self.attributes(), self.attributes_capacity())
        &&& well_formed(self.vault(), self.vault_capacity())
    }

    /// Whether nothing but the two caches differs between `self` and `other`.
    pub open spec fn same_setup(&self, other: &Builder) -> bool {
        &&& self.attributes_capacity() == other.attributes_capacity()
        &&& self.vault_capacity() == other.vault_capacity()
        &&& self.vault_preset() == other.vault_preset()
        &&& self.spec_secret_key() == other.spec_secret_key()
        &&& self.spec_public_key() == other.spec_public_key()
        &&& self.spec_config() == other.spec_config()
        &&& self.chain_spec() == other.chain_spec()
        &&& self.listener_url() == other.listener_url()
    }

    /// The key that the bids of a builder name is the public key of the key
    /// that signs them.
    pub proof fn lemma_keys_match(self)
        requires
            self.wf(),
        ensures
            self.spec_public_key().bytes@ == public_key_of(self.spec_secret_key()),
    {
    }

    /// Whether `self` and `outcome` are what a request for a bid on the block
    /// after `parent_hash` at `slot` leaves of the builder `before`.
    ///
    /// The lookup marks the announcement as used. Where a bid can be made, the
    /// placeholder payload stands in the vault under its root; the bid holds
    /// the header of that payload, the configured value and the builder's
    /// key, and is signed over its own signing root. Otherwise the vault is
    /// as it was.
    pub open spec fn bid_answered(
        &self,
        before: &Builder,
        slot: u64,
        parent_hash: Hash256,
        outcome: Result<ForkVersionedResponse<SignedBuilderBid>, Error>,
    ) -> bool {
        &&& self.wf()
        &&& self.same_setup(before)
        &&& self.attributes() == touched(before.attributes(), cache_key(parent_hash, slot))
        &&& match outcome {
            Err(error) => {
                &&& header_failure(lookup(before.attributes(), cache_key(parent_hash, slot)))
                    == Some(error)
                &&& self.vault() == before.vault()
            },
            Ok(response) => {
                let bid = response.data.message;
                let preset = before.chain_spec().preset;
                let root = bid.header().spec_tree_hash_root();
                &&& lookup(before.attributes(), cache_key(parent_hash, slot)) matches Some(
                    announced,
                )
                &&& header_failure(Some(announced)) is None
                &&& announced.version matches Some(fork)
                &&& response.version == Some(fork)
                &&& bid.spec_fork_name() == fork
                &&& bid.value() == before.spec_config().payload_value
                &&& bid.pubkey() == before.spec_public_key()
                &&& bid.blinded_blobs_bundle() is Some <==> fork.has_blobs()
                &&& bid.blinded_blobs_bundle() matches Some(bundle) ==> bundle.is_empty()
                &&& response.data.signature.bytes@ == signature_of(
                    before.spec_secret_key(),
                    bid.signing_root(before.chain_spec()),
                    signature_dst(),
                )
                &&& lookup(self.vault(), root) matches Some(contents)
                &&& self.vault() == inserted(
                    before.vault(),
                    before.vault_capacity(),
                    root,
                    contents,
                )
                &&& is_dummy_payload(
                    contents.payload(),
                    fork,
                    parent_hash,
                    announced.data,
                    before.spec_config().payload_body_bytes as nat,
                    preset,
                )
                &&& contents.payload().has_header(preset, bid.header())
                &&& contents.payload().spec_tree_hash_root(preset) == root
                &&& contents.blobs() is Some <==> fork.has_blobs()
                &&& contents.blobs() matches Some(bundle) ==> bundle.is_empty()
            },
        }
    }

    /// Whether `self` and `outcome` are what a signed blinded block leaves of
    /// the builder `before`.
    ///
    /// A block without a payload header is a logic error. Otherwise what is
    /// committed under the root of the header leaves the vault and is the
    /// answer, tagged with the fork of the block; where nothing is committed
    /// there, the request fails with that root.
    pub open spec fn block_answered(
        &self,
        before: &Builder,
        signed_blinded_block: SignedBlindedBlock,
        outcome: Result<ForkVersionedResponse<FullPayloadContents>, Error>,
    ) -> bool {
        &&& self.wf()
        &&& self.same_setup(before)
        &&& self.attributes() == before.attributes()
        &&& match signed_blinded_block.spec_execution_payload() {
            None => outcome == Err::<ForkVersionedResponse<FullPayloadContents>, Error>(
                Error::LogicError,
            ) && self.vault() == before.vault(),
            Some(header) => {
                let root = header.spec_tree_hash_root();
                &&& self.vault() == removed(before.vault(), root)
                &&& match lookup(before.vault(), root) {
                    Some(contents) => outcome == Ok::<
                        ForkVersionedResponse<FullPayloadContents>,
                        Error,
                    >(
                        ForkVersionedResponse {
                            version: Some(signed_blinded_block.spec_fork_name_unchecked()),
                            data: contents,
                        },
                    ),
                    None => outcome matches Err(Error::UnbindPayloadError(missing))
                        && missing.bytes@ == root,
                }
            },
        }
    }

    /// The builder that signs with `secret_key`, looks up announcements in
    /// the cache of `sse_listener` and commits payloads to `payload_cache`.
    pub fn new(
        secret_key: SecretKey,
        sse_listener: SseListener,
        config: Config,
        spec: ChainSpec,
        payload_cache: PayloadCache,
    ) -> (builder: Builder)
        requires
            config.wf(),
            payload_cache.eth_spec() == spec.preset,
        ensures
            builder.wf(),
            builder.attributes() == sse_listener@,
            builder.attributes_capacity() == sse_listener.capacity(),
            builder.vault() == payload_cache@,
            builder.vault_capacity() == payload_cache.capacity(),
            builder.spec_secret_key() == secret_key@,
            builder.spec_public_key().bytes@ == public_key_of(secret_key@),
            builder.spec_config() == config,
            builder.chain_spec() == spec,
            builder.listener_url() == sse_listener.spec_url(),
    {
        let public_key = secret_key.public_key();
        proof {
            use_type_invariant(&sse_listener);
            use_type_invariant(&payload_cache);
            sse_listener.lemma_well_formed();
            payload_cache.lemma_well_formed();
        }
        Builder { sse_listener, public_key, secret_key, config, spec, payload_cache }
    }

    /// The builder that `config` describes on the chain `spec`, with empty
    /// caches, or nothing where it cannot run with that configuration.
    pub fn from_config(secret_key: SecretKey, config: Config, spec: ChainSpec) -> (builder: Option<
        Builder,
    >)
        ensures
            builder is Some <==> config.wf(),
            builder matches Some(b) ==> {
                &&& b.wf()
                &&& b.attributes().len() == 0
                &&& b.attributes_capacity() == config.payload_attributes_cache
                &&& b.vault().len() == 0
                &&& b.vault_capacity() == DEFAULT_PAYLOAD_CACHE_SIZE
                &&& b.spec_secret_key() == secret_key@
                &&& b.spec_public_key().bytes@ == public_key_of(secret_key@)
                &&& b.spec_config() == config
                &&& b.chain_spec() == spec
                &&& b.listener_url() == config.beacon_node@
            },
    {
        if !config.is_valid() {
            return None;
        }
        let sse_listener = SseListener::new(
            config.beacon_node.clone(),
            config.payload_attributes_cache,
        );
        let payload_cache = PayloadCache::with_default_size(spec.preset);
        Some(Builder::new(secret_key, sse_listener, config, spec, payload_cache))
    }

    /// The address of the stream of payload attributes on the consensus node.
    pub fn events_url(&self) -> (events: String)
        ensures
            events@ == self.listener_url() + "/eth/v1/events?topics=payload_attributes"@,
    {
        self.sse_listener.events_url()
    }

    /// Takes in one item of the event stream of the consensus node.
    pub fn handle_event(&mut self, event: SseEvent) -> (done: Ingested)
        requires
            old(self).wf(),
        ensures
            final(self).wf(),
            final(self).same_setup(old(self)),
            final(self).vault() == old(self).vault(),
            final(self).attributes() == after_event(
                old(self).attributes(),
                old(self).attributes_capacity(),
                event,
            ),
            done == report_of(event),
    {
        self.sse_listener.handle_event(event)
    }

    /// Answers a request for a bid on the block after `parent_hash` at `slot`.
    /// Where a bid can be made, the placeholder payload is committed to the
    /// vault before the bid is returned.
    pub fn get_header(&mut self, slot: u64, parent_hash: Hash256) -> (outcome: Result<
        ForkVersionedResponse<SignedBuilderBid>,
        Error,
    >)
        requires
            old(self).wf(),
        ensures
            final(self).bid_answered(old(self), slot, parent_hash, outcome),
    {
        let preset = self.spec.preset;
        let found = self.sse_listener.get_payload_attributes(parent_hash, slot);
        let ext_payload_attributes = match found {
            Some(announced) => announced,
            None => {
                return Err(Error::NoPayload);
            },
        };
        let value = self.config.payload_value;
        let built = build_payload(
            parent_hash,
            ext_payload_attributes,
            self.config.payload_body_bytes,
            preset,
        );
        let (version, payload, maybe_blobs) = match built {
            Ok(built) => built,
            Err(error) => {
                return Err(error);
            },
        };
        let header = payload.header(preset);
        let bid = new_dummy_bid(header, value, self.public_key);
        let signature = bid.sign(&self.secret_key, &self.spec);
        let contents = FullPayloadContents::new(payload, maybe_blobs);
        proof {
            lemma_header_root_is_payload_root(payload, preset, header);
        }
        let ghost before = self.payload_cache@;
        let ghost capacity = self.payload_cache.capacity();
        self.payload_cache.put(contents);
        proof {
            lemma_lookup_inserted(before, capacity, header.spec_tree_hash_root(), contents);
        }
        Ok(
            ForkVersionedResponse {
                version: Some(version),
                data: SignedBuilderBid { message: bid, signature },
            },
        )
    }

    /// Answers a signed blinded block with the payload that its header
    /// commits to, and takes that payload out of the vault. Where nothing is
    /// committed under the header's root, the payload was never committed,
    /// was revealed before, or has been pushed out.
    pub fn submit_blinded_block(&mut self, signed_blinded_block: SignedBlindedBlock) -> (outcome:
        Result<ForkVersionedResponse<FullPayloadContents>, Error>)
        requires
            old(self).wf(),
        ensures
            final(self).block_answered(old(self), signed_blinded_block, outcome),
    {
        let header = match signed_blinded_block.execution_payload() {
            Some(header) => header,
            None => {
                return Err(Error::LogicError);
            },
        };
        let block_hash = header.tree_hash_root();
        let full_payload_contents = match self.payload_cache.pop(&block_hash) {
            Some(contents) => contents,
            None => {
                return Err(Error::UnbindPayloadError(block_hash));
            },
        };
        let fork = signed_blinded_block.fork_name_unchecked();
        Ok(ForkVersionedResponse { version: Some(fork), data: full_payload_contents })
    }
}

} // verus!
