//! Execution payloads, the headers that commit to them, and their roots.

use vstd::prelude::*;
use vstd::slice::slice_subrange;
use crate::merkle::{merkle_root, merkle_root_of};
use crate::preset::{
    EthSpecId, MAX_BYTES_PER_TRANSACTION, MAX_EXTRA_DATA_BYTES, MAX_TRANSACTIONS_PER_PAYLOAD,
};
use crate::primitives::{Address, ForkName, Hash256, Uint256, Withdrawal};
use crate::ssz::{
    address_chunk, byte_list_root, byte_lists_root, byte_vector_root, hash_byte_list,
    hash_byte_lists, hash_withdrawals, items_within, lemma_u64_chunk_len, u64_chunk,
    withdrawals_root, write_address, write_bytes, write_hash, write_u64,
};

verus! {

/// Up to 32 bytes of free-form data.
#[derive(Clone, Copy, Debug, PartialEq, Eq)]
pub struct ExtraData {
    bytes: [u8; 32],
    len: usize,
}

impl ExtraData {
    #[verifier::type_invariant]
    spec fn inv(self) -> bool {
        &&& self.len <= MAX_EXTRA_DATA_BYTES
        &&& forall|i: int| self.len <= i < 32 ==> self.bytes@[i] == 0u8
    }

    /// The bytes in use.
    pub closed spec fn view(&self) -> Seq<u8> {
        self.bytes@.subrange(0, self.len as int)
    }

    /// No extra data.
    pub fn empty() -> (e: ExtraData)
        ensures
            e@ == Seq::<u8>::empty(),
    {
        let e = ExtraData { bytes: [0u8; 32], len: 0 };
        assert(e@ =~= Seq::<u8>::empty());
        e
    }

    /// The extra data that holds `data`, if that is at most 32 bytes.
    pub fn new(data: &[u8]) -> (e: Option<ExtraData>)
        ensures
            e is Some <==> data@.len() <= MAX_EXTRA_DATA_BYTES,
            e matches Some(extra) ==> extra@ == data@,
    {
        if data.len() > MAX_EXTRA_DATA_BYTES {
            return None;
        }
        let mut bytes: [u8; 32] = [0u8; 32];
        let mut i: usize = 0;
        while i < data.len()
            invariant
                i <= data@.len() <= 32,
                forall|j: int| 0 <= j < i ==> bytes@[j] == data@[j],
                forall|j: int| i <= j < 32 ==> bytes@[j] == 0u8,
            decreases data@.len() - i,
        {
            bytes[i] = data[i];
            i += 1;
        }
        let extra = ExtraData { bytes, len: data.len() };
        assert(extra@ =~= data@);
        Some(extra)
    }

    /// The bytes in use.
    pub fn as_slice(&self) -> (data: &[u8])
        ensures
            data@ == self@,
            data@.len() <= MAX_EXTRA_DATA_BYTES,
    {
        proof {
            use_type_invariant(self);
        }
        slice_subrange(self.bytes.as_slice(), 0, self.len)
    }
}

/// The fields that the payloads and the headers of every fork share.
#[derive(Clone, Copy, Debug, PartialEq, Eq)]
pub struct CommonFields {
    pub parent_hash: Hash256,
    pub fee_recipient: Address,
    pub state_root: Hash256,
    pub receipts_root: Hash256,
    pub logs_bloom: [u8; 256],
    pub prev_randao: Hash256,
    pub block_number: u64,
    pub gas_limit: u64,
    pub gas_used: u64,
    pub timestamp: u64,
    pub extra_data: ExtraData,
    pub base_fee_per_gas: Uint256,
    pub block_hash: Hash256,
}

/// The thirteen chunks of the shared fields, in field order.
pub open spec fn common_chunks(c: CommonFields) -> Seq<u8> {
    c.parent_hash.bytes@ + address_chunk(c.fee_recipient) + c.state_root.bytes@
        + c.receipts_root.bytes@ + byte_vector_root(c.logs_bloom@) + c.prev_randao.bytes@
        + u64_chunk(c.block_number) + u64_chunk(c.gas_limit) + u64_chunk(c.gas_used) + u64_chunk(
        c.timestamp,
    ) + byte_list_root(c.extra_data@, MAX_EXTRA_DATA_BYTES as nat) + c.base_fee_per_gas.le_bytes@
        + c.block_hash.bytes@
}

/// Appends the thirteen chunks of the shared fields to `buf`.
fn write_common(buf: &mut Vec<u8>, c: &CommonFields)
    ensures
        final(buf)@ == old(buf)@ + common_chunks(*c),
        common_chunks(*c).len() == 13 * 32,
{
    let bloom = Hash256 { bytes: merkle_root(c.logs_bloom.as_slice(), 8) };
    let extra = hash_byte_list(c.extra_data.as_slice(), MAX_EXTRA_DATA_BYTES);
    write_hash(buf, &c.parent_hash);
    write_address(buf, &c.fee_recipient);
    write_hash(buf, &c.state_root);
    write_hash(buf, &c.receipts_root);
    write_hash(buf, &bloom);
    write_hash(buf, &c.prev_randao);
    write_u64(buf, c.block_number);
    write_u64(buf, c.gas_limit);
    write_u64(buf, c.gas_used);
    write_u64(buf, c.timestamp);
    write_hash(buf, &extra);
    write_bytes(buf, c.base_fee_per_gas.le_bytes.as_slice());
    write_hash(buf, &c.block_hash);
    proof {
        lemma_u64_chunk_len(c.block_number);
        lemma_u64_chunk_len(c.gas_limit);
        lemma_u64_chunk_len(c.gas_used);
        lemma_u64_chunk_len(c.timestamp);
        assert(bloom.bytes@ == byte_vector_root(c.logs_bloom@));
        assert(buf@ =~= old(buf)@ + common_chunks(*c));
    }
}

/// A payload of the first fork that has one.
#[derive(Clone, Debug, PartialEq, Eq)]
pub struct ExecutionPayloadMerge {
    pub common: CommonFields,
    pub transactions: Vec<Vec<u8>>,
}

/// A payload of the fork that added withdrawals.
#[derive(Clone, Debug, PartialEq, Eq)]
pub struct ExecutionPayloadCapella {
    pub common: CommonFields,
    pub transactions: Vec<Vec<u8>>,
    pub withdrawals: Vec<Withdrawal>,
}

/// A payload of the fork that added blob accounting.
#[derive(Clone, Debug, PartialEq, Eq)]
pub struct ExecutionPayloadDeneb {
    pub common: CommonFields,
    pub transactions: Vec<Vec<u8>>,
    pub withdrawals: Vec<Withdrawal>,
    pub blob_gas_used: u64,
    pub excess_blob_gas: u64,
}

/// An execution payload of any supported fork.
#[derive(Clone, Debug, PartialEq, Eq)]
pub enum ExecutionPayload {
    Merge(ExecutionPayloadMerge),
    Capella(ExecutionPayloadCapella),
    Deneb(ExecutionPayloadDeneb),
}

/// The header that commits to a payload of the first fork.
#[derive(Clone, Copy, Debug, PartialEq, Eq)]
pub struct ExecutionPayloadHeaderMerge {
    pub common: CommonFields,
    pub transactions_root: Hash256,
}

/// The header that commits to a payload of the fork that added withdrawals.
#[derive(Clone, Copy, Debug, PartialEq, Eq)]
pub struct ExecutionPayloadHeaderCapella {
    pub common: CommonFields,
    pub transactions_root: Hash256,
    pub withdrawals_root: Hash256,
}

/// The header that commits to a payload of the fork that added blob
/// accounting.
#[derive(Clone, Copy, Debug, PartialEq, Eq)]
pub struct ExecutionPayloadHeaderDeneb {
    pub common: CommonFields,
    pub transactions_root: Hash256,
    pub withdrawals_root: Hash256,
    pub blob_gas_used: u64,
    pub excess_blob_gas: u64,
}

/// The header of a payload of any supported fork: the payload with each list
/// replaced by its root.
#[derive(Clone, Copy, Debug, PartialEq, Eq)]
pub enum ExecutionPayloadHeader {
    Merge(ExecutionPayloadHeaderMerge),
    Capella(ExecutionPayloadHeaderCapella),
    Deneb(ExecutionPayloadHeaderDeneb),
}

/// The root of a transaction list.
pub open spec fn transactions_root(transactions: Seq<Vec<u8>>) -> Seq<u8> {
    byte_lists_root(
        transactions,
        MAX_BYTES_PER_TRANSACTION as nat,
        MAX_TRANSACTIONS_PER_PAYLOAD as nat,
    )
}

/// Whether a transaction list is within the limits of every preset.
pub open spec fn transactions_wf(transactions: Seq<Vec<u8>>) -> bool {
    &&& transactions.len() <= MAX_TRANSACTIONS_PER_PAYLOAD
    &&& items_within(transactions, MAX_BYTES_PER_TRANSACTION as nat)
}

impl ExecutionPayloadHeaderMerge {
    /// The chunks of the header's fields, in field order.
    pub open spec fn chunks(&self) -> Seq<u8> {
        common_chunks(self.common) + self.transactions_root.bytes@
    }
}

impl ExecutionPayloadHeaderCapella {
    /// The chunks of the header's fields, in field order.
    pub open spec fn chunks(&self) -> Seq<u8> {
        common_chunks(self.common) + self.transactions_root.bytes@ + self.withdrawals_root.bytes@
    }
}

impl ExecutionPayloadHeaderDeneb {
    /// The chunks of the header's fields, in field order.
    pub open spec fn chunks(&self) -> Seq<u8> {
        common_chunks(self.common) + self.transactions_root.bytes@ + self.withdrawals_root.bytes@
            + u64_chunk(self.blob_gas_used) + u64_chunk(self.excess_blob_gas)
    }
}

impl ExecutionPayloadMerge {
    /// The chunks of the payload's fields, in field order: the chunk of a
    /// list is its root.
    pub open spec fn chunks(&self) -> Seq<u8> {
        common_chunks(self.common) + transactions_root(self.transactions@)
    }
}

impl ExecutionPayloadCapella {
    /// The chunks of the payload's fields, in field order: the chunk of a
    /// list is its root.
    pub open spec fn chunks(&self, spec: EthSpecId) -> Seq<u8> {
        common_chunks(self.common) + transactions_root(self.transactions@) + withdrawals_root(
            self.withdrawals@,
            spec.max_withdrawals_per_payload() as nat,
        )
    }
}

impl ExecutionPayloadDeneb {
    /// The chunks of the payload's fields, in field order: the chunk of a
    /// list is its root.
    pub open spec fn chunks(&self, spec: EthSpecId) -> Seq<u8> {
        common_chunks(self.common) + transactions_root(self.transactions@) + withdrawals_root(
            self.withdrawals@,
            spec.max_withdrawals_per_payload() as nat,
        ) + u64_chunk(self.blob_gas_used) + u64_chunk(self.excess_blob_gas)
    }
}

/// The fields of a payload header as a message carries them: those that later
/// forks added may be missing.
#[derive(Clone, Copy, Debug, PartialEq, Eq)]
pub struct HeaderFields {
    pub common: CommonFields,
    pub transactions_root: Hash256,
    pub withdrawals_root: Option<Hash256>,
    pub blob_gas_used: Option<u64>,
    pub excess_blob_gas: Option<u64>,
}

impl ExecutionPayloadHeader {
    /// The header that `fields` make up, if they are those of one fork: no
    /// later field for the first fork, the withdrawals root for the second,
    /// all of them for the third.
    pub open spec fn spec_from_fields(fields: HeaderFields) -> Option<ExecutionPayloadHeader> {
        match (fields.withdrawals_root, fields.blob_gas_used, fields.excess_blob_gas) {
            (None, None, None) => Some(
                ExecutionPayloadHeader::Merge(
                    ExecutionPayloadHeaderMerge {
                        common: fields.common,
                        transactions_root: fields.transactions_root,
                    },
                ),
            ),
            (Some(withdrawals_root), None, None) => Some(
                ExecutionPayloadHeader::Capella(
                    ExecutionPayloadHeaderCapella {
                        common: fields.common,
                        transactions_root: fields.transactions_root,
                        withdrawals_root,
                    },
                ),
            ),
            (Some(withdrawals_root), Some(blob_gas_used), Some(excess_blob_gas)) => Some(
                ExecutionPayloadHeader::Deneb(
                    ExecutionPayloadHeaderDeneb {
                        common: fields.common,
                        transactions_root: fields.transactions_root,
                        withdrawals_root,
                        blob_gas_used,
                        excess_blob_gas,
                    },
                ),
            ),
            _ => None,
        }
    }

    /// The fields of the header, as a message carries them.
    pub open spec fn spec_fields(&self) -> HeaderFields {
        match self {
            ExecutionPayloadHeader::Merge(h) => HeaderFields {
                common: h.common,
                transactions_root: h.transactions_root,
                withdrawals_root: None,
                blob_gas_used: None,
                excess_blob_gas: None,
            },
            ExecutionPayloadHeader::Capella(h) => HeaderFields {
                common: h.common,
                transactions_root: h.transactions_root,
                withdrawals_root: Some(h.withdrawals_root),
                blob_gas_used: None,
                excess_blob_gas: None,
            },
            ExecutionPayloadHeader::Deneb(h) => HeaderFields {
                common: h.common,
                transactions_root: h.transactions_root,
                withdrawals_root: Some(h.withdrawals_root),
                blob_gas_used: Some(h.blob_gas_used),
                excess_blob_gas: Some(h.excess_blob_gas),
            },
        }
    }

    #[verifier::when_used_as_spec(spec_from_fields)]
    pub fn from_fields(fields: HeaderFields) -> (header: Option<ExecutionPayloadHeader>)
        ensures
            header == ExecutionPayloadHeader::spec_from_fields(fields),
    {
        match (fields.withdrawals_root, fields.blob_gas_used, fields.excess_blob_gas) {
            (None, None, None) => Some(
                ExecutionPayloadHeader::Merge(
                    ExecutionPayloadHeaderMerge {
                        common: fields.common,
                        transactions_root: fields.transactions_root,
                    },
                ),
            ),
            (Some(withdrawals_root), None, None) => Some(
                ExecutionPayloadHeader::Capella(
                    ExecutionPayloadHeaderCapella {
                        common: fields.common,
                        transactions_root: fields.transactions_root,
                        withdrawals_root,
                    },
                ),
            ),
            (Some(withdrawals_root), Some(blob_gas_used), Some(excess_blob_gas)) => Some(
                ExecutionPayloadHeader::Deneb(
                    ExecutionPayloadHeaderDeneb {
                        common: fields.common,
                        transactions_root: fields.transactions_root,
                        withdrawals_root,
                        blob_gas_used,
                        excess_blob_gas,
                    },
                ),
            ),
            _ => None,
        }
    }

    #[verifier::when_used_as_spec(spec_fields)]
    pub fn fields(&self) -> (fields: HeaderFields)
        ensures
            fields == self.spec_fields(),
    {
        match self {
            ExecutionPayloadHeader::Merge(h) => HeaderFields {
                common: h.common,
                transactions_root: h.transactions_root,
                withdrawals_root: None,
                blob_gas_used: None,
                excess_blob_gas: None,
            },
            ExecutionPayloadHeader::Capella(h) => HeaderFields {
                common: h.common,
                transactions_root: h.transactions_root,
                withdrawals_root: Some(h.withdrawals_root),
                blob_gas_used: None,
                excess_blob_gas: None,
            },
            ExecutionPayloadHeader::Deneb(h) => HeaderFields {
                common: h.common,
                transactions_root: h.transactions_root,
                withdrawals_root: Some(h.withdrawals_root),
                blob_gas_used: Some(h.blob_gas_used),
                excess_blob_gas: Some(h.excess_blob_gas),
            },
        }
    }

    /// The fork this header belongs to.
    pub open spec fn spec_fork_name(&self) -> ForkName {
        match self {
            ExecutionPayloadHeader::Merge(_) => ForkName::Merge,
            ExecutionPayloadHeader::Capella(_) => ForkName::Capella,
            ExecutionPayloadHeader::Deneb(_) => ForkName::Deneb,
        }
    }

    pub open spec fn common(&self) -> CommonFields {
        match self {
            ExecutionPayloadHeader::Merge(h) => h.common,
            ExecutionPayloadHeader::Capella(h) => h.common,
            ExecutionPayloadHeader::Deneb(h) => h.common,
        }
    }

    /// The structured-hash root of the header: the Merkle root over the
    /// chunks of its fields.
    pub open spec fn spec_tree_hash_root(&self) -> Seq<u8> {
        match self {
            ExecutionPayloadHeader::Merge(h) => merkle_root_of(h.chunks(), 14),
            ExecutionPayloadHeader::Capella(h) => merkle_root_of(h.chunks(), 15),
            ExecutionPayloadHeader::Deneb(h) => merkle_root_of(h.chunks(), 17),
        }
    }

    #[verifier::when_used_as_spec(spec_fork_name)]
    pub fn fork_name(&self) -> (fork: ForkName)
        ensures
            fork == self.spec_fork_name(),
    {
        match self {
            ExecutionPayloadHeader::Merge(_) => ForkName::Merge,
            ExecutionPayloadHeader::Capella(_) => ForkName::Capella,
            ExecutionPayloadHeader::Deneb(_) => ForkName::Deneb,
        }
    }

    /// The structured-hash root of the header.
    pub fn tree_hash_root(&self) -> (root: Hash256)
        ensures
            root.bytes@ == self.spec_tree_hash_root(),
    {
        let mut buf: Vec<u8> = Vec::new();
        match self {
            ExecutionPayloadHeader::Merge(h) => {
                write_common(&mut buf, &h.common);
                write_hash(&mut buf, &h.transactions_root);
                assert(buf@ =~= h.chunks());
                Hash256 { bytes: merkle_root(buf.as_slice(), 14) }
            },
            ExecutionPayloadHeader::Capella(h) => {
                write_common(&mut buf, &h.common);
                write_hash(&mut buf, &h.transactions_root);
                write_hash(&mut buf, &h.withdrawals_root);
                assert(buf@ =~= h.chunks());
                Hash256 { bytes: merkle_root(buf.as_slice(), 15) }
            },
            ExecutionPayloadHeader::Deneb(h) => {
                write_common(&mut buf, &h.common);
                write_hash(&mut buf, &h.transactions_root);
                write_hash(&mut buf, &h.withdrawals_root);
                write_u64(&mut buf, h.blob_gas_used);
                write_u64(&mut buf, h.excess_blob_gas);
                proof {
                    lemma_u64_chunk_len(h.blob_gas_used);
                    lemma_u64_chunk_len(h.excess_blob_gas);
                    assert(buf@ =~= h.chunks());
                }
                Hash256 { bytes: merkle_root(buf.as_slice(), 17) }
            },
        }
    }
}

impl ExecutionPayload {
    /// The fork this payload belongs to.
    pub open spec fn spec_fork_name(&self) -> ForkName {
        match self {
            ExecutionPayload::Merge(_) => ForkName::Merge,
            ExecutionPayload::Capella(_) => ForkName::Capella,
            ExecutionPayload::Deneb(_) => ForkName::Deneb,
        }
    }

    pub open spec fn common(&self) -> CommonFields {
        match self {
            ExecutionPayload::Merge(p) => p.common,
            ExecutionPayload::Capella(p) => p.common,
            ExecutionPayload::Deneb(p) => p.common,
        }
    }

    pub open spec fn transactions(&self) -> Seq<Vec<u8>> {
        match self {
            ExecutionPayload::Merge(p) => p.transactions@,
            ExecutionPayload::Capella(p) => p.transactions@,
            ExecutionPayload::Deneb(p) => p.transactions@,
        }
    }

    /// The withdrawal list, in the forks that have one.
    pub open spec fn withdrawals(&self) -> Option<Seq<Withdrawal>> {
        match self {
            ExecutionPayload::Merge(_) => None,
            ExecutionPayload::Capella(p) => Some(p.withdrawals@),
            ExecutionPayload::Deneb(p) => Some(p.withdrawals@),
        }
    }

    /// Whether every list of the payload is within the limits of `spec`.
    pub open spec fn wf(&self, spec: EthSpecId) -> bool {
        &&& transactions_wf(self.transactions())
        &&& self.withdrawals() matches Some(ws) ==> ws.len() <= spec.max_withdrawals_per_payload()
    }

    /// Whether `header` is the header of this payload: the same fork and the
    /// same plain fields, with each list replaced by its root.
    pub open spec fn has_header(&self, spec: EthSpecId, header: ExecutionPayloadHeader) -> bool {
        match (self, header) {
            (ExecutionPayload::Merge(p), ExecutionPayloadHeader::Merge(h)) => {
                &&& h.common == p.common
                &&& h.transactions_root.bytes@ == transactions_root(p.transactions@)
            },
            (ExecutionPayload::Capella(p), ExecutionPayloadHeader::Capella(h)) => {
                &&& h.common == p.common
                &&& h.transactions_root.bytes@ == transactions_root(p.transactions@)
                &&& h.withdrawals_root.bytes@ == withdrawals_root(
                    p.withdrawals@,
                    spec.max_withdrawals_per_payload() as nat,
                )
            },
            (ExecutionPayload::Deneb(p), ExecutionPayloadHeader::Deneb(h)) => {
                &&& h.common == p.common
                &&& h.transactions_root.bytes@ == transactions_root(p.transactions@)
                &&& h.withdrawals_root.bytes@ == withdrawals_root(
                    p.withdrawals@,
                    spec.max_withdrawals_per_payload() as nat,
                )
                &&& h.blob_gas_used == p.blob_gas_used
                &&& h.excess_blob_gas == p.excess_blob_gas
            },
            _ => false,
        }
    }

    /// The structured-hash root of the payload: the Merkle root over the
    /// chunks of its fields, where the chunk of a list is the list's root.
    pub open spec fn spec_tree_hash_root(&self, spec: EthSpecId) -> Seq<u8> {
        match self {
            ExecutionPayload::Merge(p) => merkle_root_of(p.chunks(), 14),
            ExecutionPayload::Capella(p) => merkle_root_of(p.chunks(spec), 15),
            ExecutionPayload::Deneb(p) => merkle_root_of(p.chunks(spec), 17),
        }
    }

    #[verifier::when_used_as_spec(spec_fork_name)]
    pub fn fork_name(&self) -> (fork: ForkName)
        ensures
            fork == self.spec_fork_name(),
    {
        match self {
            ExecutionPayload::Merge(_) => ForkName::Merge,
            ExecutionPayload::Capella(_) => ForkName::Capella,
            ExecutionPayload::Deneb(_) => ForkName::Deneb,
        }
    }

    /// Derives the header that commits to this payload.
    pub fn header(&self, spec: EthSpecId) -> (header: ExecutionPayloadHeader)
        requires
            self.wf(spec),
        ensures
            self.has_header(spec, header),
    {
        match self {
            ExecutionPayload::Merge(p) => {
                let transactions_root = hash_byte_lists(
                    &p.transactions,
                    MAX_BYTES_PER_TRANSACTION,
                    MAX_TRANSACTIONS_PER_PAYLOAD,
                );
                ExecutionPayloadHeader::Merge(
                    ExecutionPayloadHeaderMerge { common: p.common, transactions_root },
                )
            },
            ExecutionPayload::Capella(p) => {
                let transactions_root = hash_byte_lists(
                    &p.transactions,
                    MAX_BYTES_PER_TRANSACTION,
                    MAX_TRANSACTIONS_PER_PAYLOAD,
                );
                let withdrawals_root = hash_withdrawals(
                    &p.withdrawals,
                    spec.max_withdrawals_per_payload(),
                );
                ExecutionPayloadHeader::Capella(
                    ExecutionPayloadHeaderCapella {
                        common: p.common,
                        transactions_root,
                        withdrawals_root,
                    },
                )
            },
            ExecutionPayload::Deneb(p) => {
                let transactions_root = hash_byte_lists(
                    &p.transactions,
                    MAX_BYTES_PER_TRANSACTION,
                    MAX_TRANSACTIONS_PER_PAYLOAD,
                );
                let withdrawals_root = hash_withdrawals(
                    &p.withdrawals,
                    spec.max_withdrawals_per_payload(),
                );
                ExecutionPayloadHeader::Deneb(
                    ExecutionPayloadHeaderDeneb {
                        common: p.common,
                        transactions_root,
                        withdrawals_root,
                        blob_gas_used: p.blob_gas_used,
                        excess_blob_gas: p.excess_blob_gas,
                    },
                )
            },
        }
    }

    /// The structured-hash root of the payload.
    pub fn tree_hash_root(&self, spec: EthSpecId) -> (root: Hash256)
        requires
            self.wf(spec),
        ensures
            root.bytes@ == self.spec_tree_hash_root(spec),
    {
        let header = self.header(spec);
        proof {
            lemma_header_root_is_payload_root(*self, spec, header);
        }
        header.tree_hash_root()
    }
}

/// A header is made up again from its own fields.
pub proof fn lemma_fields_round_trip(header: ExecutionPayloadHeader)
    ensures
        ExecutionPayloadHeader::spec_from_fields(header.spec_fields()) == Some(header),
{
}

/// A header has the root of the payload it commits to: whoever holds the
/// header can name the payload without having seen its lists.
pub proof fn lemma_header_root_is_payload_root(
    payload: ExecutionPayload,
    spec: EthSpecId,
    header: ExecutionPayloadHeader,
)
    requires
        payload.has_header(spec, header),
    ensures
        header.spec_tree_hash_root() == payload.spec_tree_hash_root(spec),
        header.spec_fork_name() == payload.spec_fork_name(),
{
}

} // verus!
