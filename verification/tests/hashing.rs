use dummy_builder::bid::{new_dummy_bid, BlindedBlobsBundle, BuilderBid};
use dummy_builder::chain_spec::{compute_signing_root, ChainSpec};
use dummy_builder::payload::{
    CommonFields, ExecutionPayload, ExecutionPayloadCapella, ExecutionPayloadDeneb,
    ExecutionPayloadHeader, ExecutionPayloadMerge, ExtraData,
};
use dummy_builder::preset::EthSpecId;
use dummy_builder::primitives::{Address, Hash256, PublicKeyBytes, Uint256, Withdrawal};
use dummy_builder::ssz::{
    hash_byte_list, hash_byte_lists, hash_digest_list, hash_key_list, hash_withdrawal,
    hash_withdrawals, write_address, write_u64,
};
use tree_hash::{MerkleHasher, TreeHash};

fn chunk_of_u64(x: u64) -> [u8; 32] {
    x.tree_hash_root().0
}

fn root_of_chunks(chunks: &[[u8; 32]], leaves: usize) -> [u8; 32] {
    let mut hasher = MerkleHasher::with_leaves(leaves);
    for chunk in chunks {
        hasher.write(chunk).unwrap();
    }
    hasher.finish().unwrap().0
}

fn mixed(root: [u8; 32], length: usize) -> [u8; 32] {
    tree_hash::mix_in_length(&tree_hash::Hash256::from(root), length).0
}

fn padded(bytes: &[u8]) -> [u8; 32] {
    let mut chunk = [0u8; 32];
    chunk[..bytes.len()].copy_from_slice(bytes);
    chunk
}

fn root_of_bytes(bytes: &[u8], limit: usize) -> [u8; 32] {
    let mut hasher = MerkleHasher::with_leaves((limit + 31) / 32);
    hasher.write(bytes).unwrap();
    mixed(hasher.finish().unwrap().0, bytes.len())
}

fn withdrawal(n: u64) -> Withdrawal {
    Withdrawal {
        index: n,
        validator_index: n * 7 + 1,
        address: Address { bytes: [n as u8; 20] },
        amount: 1_000_000_007 * n,
    }
}

fn root_of_withdrawal(w: &Withdrawal) -> [u8; 32] {
    root_of_chunks(
        &[
            chunk_of_u64(w.index),
            chunk_of_u64(w.validator_index),
            padded(&w.address.bytes),
            chunk_of_u64(w.amount),
        ],
        4,
    )
}

fn common() -> CommonFields {
    let mut logs_bloom = [0u8; 256];
    logs_bloom[3] = 9;
    logs_bloom[255] = 1;
    let mut base_fee = [0u8; 32];
    base_fee[0] = 7;
    CommonFields {
        parent_hash: Hash256 { bytes: [1; 32] },
        fee_recipient: Address { bytes: [2; 20] },
        state_root: Hash256 { bytes: [3; 32] },
        receipts_root: Hash256 { bytes: [4; 32] },
        logs_bloom,
        prev_randao: Hash256 { bytes: [5; 32] },
        block_number: 6,
        gas_limit: 30_000_000,
        gas_used: 21_000,
        timestamp: 1_700_000_000,
        extra_data: ExtraData::new(b"hello").unwrap(),
        base_fee_per_gas: Uint256 { le_bytes: base_fee },
        block_hash: Hash256 { bytes: [42; 32] },
    }
}

fn common_chunks(c: &CommonFields) -> Vec<[u8; 32]> {
    let mut bloom = MerkleHasher::with_leaves(8);
    bloom.write(&c.logs_bloom).unwrap();
    vec![
        c.parent_hash.bytes,
        padded(&c.fee_recipient.bytes),
        c.state_root.bytes,
        c.receipts_root.bytes,
        bloom.finish().unwrap().0,
        c.prev_randao.bytes,
        chunk_of_u64(c.block_number),
        chunk_of_u64(c.gas_limit),
        chunk_of_u64(c.gas_used),
        chunk_of_u64(c.timestamp),
        root_of_bytes(c.extra_data.as_slice(), 32),
        c.base_fee_per_gas.le_bytes,
        c.block_hash.bytes,
    ]
}

fn root_of_transactions(transactions: &[Vec<u8>]) -> [u8; 32] {
    let mut hasher = MerkleHasher::with_leaves(1 << 20);
    for transaction in transactions {
        hasher.write(&root_of_bytes(transaction, 1 << 30)).unwrap();
    }
    mixed(hasher.finish().unwrap().0, transactions.len())
}

fn root_of_withdrawals(withdrawals: &[Withdrawal], limit: usize) -> [u8; 32] {
    let mut hasher = MerkleHasher::with_leaves(limit);
    for w in withdrawals {
        hasher.write(&root_of_withdrawal(w)).unwrap();
    }
    mixed(hasher.finish().unwrap().0, withdrawals.len())
}

#[test]
fn u64_chunk_is_little_endian_then_zeros() {
    let mut buf = Vec::new();
    write_u64(&mut buf, 0x0102_0304_0506_0708);
    let mut expected = vec![8u8, 7, 6, 5, 4, 3, 2, 1];
    expected.extend_from_slice(&[0u8; 24]);
    assert_eq!(buf, expected);
    assert_eq!(buf, chunk_of_u64(0x0102_0304_0506_0708).to_vec());
}

#[test]
fn address_chunk_is_left_aligned() {
    let mut buf = vec![0xffu8];
    write_address(&mut buf, &Address { bytes: [0xab; 20] });
    let mut expected = vec![0xffu8];
    expected.extend_from_slice(&[0xab; 20]);
    expected.extend_from_slice(&[0u8; 12]);
    assert_eq!(buf, expected);
}

#[test]
fn byte_list_root_of_short_list_mixes_in_the_length() {
    let root = hash_byte_list(b"hello", 32);
    assert_eq!(root.bytes, mixed(padded(b"hello"), 5));
    assert_ne!(root.bytes, padded(b"hello"));
}

#[test]
fn byte_list_root_matches_the_streaming_hasher() {
    let bytes: Vec<u8> = (0..1000u32).map(|i| (i % 251) as u8).collect();
    assert_eq!(hash_byte_list(&bytes, 1 << 30).bytes, root_of_bytes(&bytes, 1 << 30));
    assert_eq!(hash_byte_list(&[], 1 << 30).bytes, root_of_bytes(&[], 1 << 30));
}

#[test]
fn byte_list_root_depends_on_the_limit() {
    assert_ne!(hash_byte_list(b"abc", 32).bytes, hash_byte_list(b"abc", 64).bytes);
}

#[test]
fn withdrawal_root_matches_the_streaming_hasher() {
    let w = withdrawal(5);
    assert_eq!(hash_withdrawal(&w).bytes, root_of_withdrawal(&w));
}

#[test]
fn withdrawals_root_matches_the_streaming_hasher() {
    let ws = vec![withdrawal(1), withdrawal(2), withdrawal(3)];
    assert_eq!(hash_withdrawals(&ws, 16).bytes, root_of_withdrawals(&ws, 16));
    assert_eq!(hash_withdrawals(&Vec::new(), 16).bytes, root_of_withdrawals(&[], 16));
    assert_ne!(hash_withdrawals(&ws, 16).bytes, hash_withdrawals(&ws, 4).bytes);
}

#[test]
fn transactions_root_matches_the_streaming_hasher() {
    let transactions = vec![vec![0u8; 100], vec![1, 2, 3], Vec::new()];
    assert_eq!(
        hash_byte_lists(&transactions, 1 << 30, 1 << 20).bytes,
        root_of_transactions(&transactions)
    );
}

#[test]
fn key_and_digest_list_roots_match_the_streaming_hasher() {
    let keys = vec![[7u8; 48], [9u8; 48]];
    let mut hasher = MerkleHasher::with_leaves(4096);
    for key in &keys {
        hasher.write(&key.tree_hash_root().0).unwrap();
    }
    assert_eq!(hash_key_list(&keys, 4096).bytes, mixed(hasher.finish().unwrap().0, 2));

    let digests = vec![Hash256 { bytes: [1; 32] }, Hash256 { bytes: [2; 32] }];
    let expected = mixed(root_of_chunks(&[[1; 32], [2; 32]], 4096), 2);
    assert_eq!(hash_digest_list(&digests, 4096).bytes, expected);
}

#[test]
fn merge_payload_and_header_have_the_expected_root() {
    let transactions = vec![vec![0u8; 40]];
    let payload =
        ExecutionPayload::Merge(ExecutionPayloadMerge { common: common(), transactions });
    let mut chunks = common_chunks(&common());
    chunks.push(root_of_transactions(&[vec![0u8; 40]]));
    let expected = root_of_chunks(&chunks, 14);
    let header = payload.header(EthSpecId::Mainnet);
    assert_eq!(header.tree_hash_root().bytes, expected);
    assert_eq!(payload.tree_hash_root(EthSpecId::Mainnet).bytes, expected);
}

#[test]
fn capella_payload_and_header_have_the_expected_root() {
    let ws = vec![withdrawal(1), withdrawal(2)];
    let payload = ExecutionPayload::Capella(ExecutionPayloadCapella {
        common: common(),
        transactions: vec![vec![9u8; 3]],
        withdrawals: ws.clone(),
    });
    let mut chunks = common_chunks(&common());
    chunks.push(root_of_transactions(&[vec![9u8; 3]]));
    chunks.push(root_of_withdrawals(&ws, 4));
    let expected = root_of_chunks(&chunks, 15);
    let header = payload.header(EthSpecId::Minimal);
    assert_eq!(header.tree_hash_root().bytes, expected);
    assert_eq!(payload.tree_hash_root(EthSpecId::Minimal).bytes, expected);
    assert_ne!(payload.tree_hash_root(EthSpecId::Mainnet).bytes, expected);
}

#[test]
fn deneb_payload_and_header_have_the_expected_root() {
    let ws = vec![withdrawal(3)];
    let payload = ExecutionPayload::Deneb(ExecutionPayloadDeneb {
        common: common(),
        transactions: Vec::new(),
        withdrawals: ws.clone(),
        blob_gas_used: 11,
        excess_blob_gas: 12,
    });
    let mut chunks = common_chunks(&common());
    chunks.push(root_of_transactions(&[]));
    chunks.push(root_of_withdrawals(&ws, 16));
    chunks.push(chunk_of_u64(11));
    chunks.push(chunk_of_u64(12));
    let expected = root_of_chunks(&chunks, 17);
    let header = payload.header(EthSpecId::Mainnet);
    match header {
        ExecutionPayloadHeader::Deneb(h) => {
            assert_eq!(h.blob_gas_used, 11);
            assert_eq!(h.excess_blob_gas, 12);
            assert_eq!(h.common, common());
        }
        _ => panic!("a payload of the third fork has a header of the third fork"),
    }
    assert_eq!(header.tree_hash_root().bytes, expected);
    assert_eq!(payload.tree_hash_root(EthSpecId::Mainnet).bytes, expected);
}

#[test]
fn bid_roots_cover_every_field() {
    let payload = ExecutionPayload::Deneb(ExecutionPayloadDeneb {
        common: common(),
        transactions: Vec::new(),
        withdrawals: Vec::new(),
        blob_gas_used: 0,
        excess_blob_gas: 0,
    });
    let header = payload.header(EthSpecId::Mainnet);
    let mut value = [0u8; 32];
    value[0] = 5;
    let pubkey = PublicKeyBytes { bytes: [0xc4; 48] };
    let bid = new_dummy_bid(header, Uint256 { le_bytes: value }, pubkey);
    let bundle = BlindedBlobsBundle::default();
    let empty_list = mixed(root_of_chunks(&[], 4096), 0);
    let bundle_root = root_of_chunks(&[empty_list, empty_list, empty_list], 3);
    assert_eq!(bundle.tree_hash_root(EthSpecId::Mainnet).bytes, bundle_root);
    let expected = root_of_chunks(
        &[header.tree_hash_root().bytes, bundle_root, value, pubkey.bytes.tree_hash_root().0],
        4,
    );
    assert_eq!(bid.tree_hash_root(EthSpecId::Mainnet).bytes, expected);

    let merge = ExecutionPayload::Merge(ExecutionPayloadMerge {
        common: common(),
        transactions: Vec::new(),
    });
    let merge_header = merge.header(EthSpecId::Mainnet);
    let merge_bid = new_dummy_bid(merge_header, Uint256 { le_bytes: value }, pubkey);
    assert!(matches!(merge_bid, BuilderBid::Merge(_)));
    let expected = root_of_chunks(
        &[merge_header.tree_hash_root().bytes, value, pubkey.bytes.tree_hash_root().0],
        3,
    );
    assert_eq!(merge_bid.tree_hash_root(EthSpecId::Mainnet).bytes, expected);
}

#[test]
fn builder_domain_of_the_zero_fork_version() {
    let spec = ChainSpec { preset: EthSpecId::Mainnet, genesis_fork_version: [0; 4] };
    let expected: [u8; 32] = [
        0x00, 0x00, 0x00, 0x01, 0xf5, 0xa5, 0xfd, 0x42, 0xd1, 0x6a, 0x20, 0x30, 0x27, 0x98, 0xef,
        0x6e, 0xd3, 0x09, 0x97, 0x9b, 0x43, 0x00, 0x3d, 0x23, 0x20, 0xd9, 0xf0, 0xe8, 0xea, 0x98,
        0x31, 0xa9,
    ];
    assert_eq!(spec.get_builder_domain().bytes, expected);
}

#[test]
fn builder_domain_depends_on_the_fork_version() {
    let zero = ChainSpec { preset: EthSpecId::Mainnet, genesis_fork_version: [0; 4] };
    let other = ChainSpec { preset: EthSpecId::Mainnet, genesis_fork_version: [0, 0, 0x10, 0x20] };
    let a = zero.get_builder_domain().bytes;
    let b = other.get_builder_domain().bytes;
    assert_eq!(a[..4], b[..4]);
    assert_ne!(a[4..], b[4..]);
}

#[test]
fn signing_root_hashes_root_and_domain() {
    let root = Hash256 { bytes: [3; 32] };
    let domain = Hash256 { bytes: [4; 32] };
    let expected = root_of_chunks(&[[3; 32], [4; 32]], 2);
    assert_eq!(compute_signing_root(&root, &domain).bytes, expected);
    assert_ne!(compute_signing_root(&domain, &root).bytes, expected);
}
