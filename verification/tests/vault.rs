use dummy_builder::blobs::{BlobsBundle, FullPayloadContents};
use dummy_builder::payload::{CommonFields, ExecutionPayload, ExecutionPayloadMerge, ExtraData};
use dummy_builder::payload_cache::{PayloadCache, DEFAULT_PAYLOAD_CACHE_SIZE};
use dummy_builder::preset::EthSpecId;
use dummy_builder::primitives::{Address, Hash256, Uint256};

fn payload(n: u8) -> ExecutionPayload {
    ExecutionPayload::Merge(ExecutionPayloadMerge {
        common: CommonFields {
            parent_hash: Hash256 { bytes: [n; 32] },
            fee_recipient: Address { bytes: [0; 20] },
            state_root: Hash256 { bytes: [0; 32] },
            receipts_root: Hash256 { bytes: [0; 32] },
            logs_bloom: [0; 256],
            prev_randao: Hash256 { bytes: [0; 32] },
            block_number: 1,
            gas_limit: 30_000_000,
            gas_used: 0,
            timestamp: 0,
            extra_data: ExtraData::empty(),
            base_fee_per_gas: Uint256 { le_bytes: [0; 32] },
            block_hash: Hash256 { bytes: [42; 32] },
        },
        transactions: vec![Vec::new()],
    })
}

fn contents(n: u8) -> FullPayloadContents {
    FullPayloadContents::new(payload(n), None)
}

fn root(n: u8) -> Hash256 {
    payload(n).tree_hash_root(EthSpecId::Mainnet)
}

#[test]
fn pop_on_empty_vault_returns_nothing() {
    let mut vault = PayloadCache::new(EthSpecId::Mainnet, 2);
    assert!(vault.pop(&Hash256 { bytes: [7u8; 32] }).is_none());
}

#[test]
fn default_vault_holds_ten() {
    assert_eq!(DEFAULT_PAYLOAD_CACHE_SIZE, 10);
    let mut vault = PayloadCache::with_default_size(EthSpecId::Minimal);
    assert_eq!(vault.cap(), 10);
    assert_eq!(vault.preset(), EthSpecId::Minimal);
    for n in 0..11 {
        assert!(vault.put(contents(n)).is_none());
    }
    assert!(vault.pop(&root(0)).is_none());
    for n in 1..11 {
        assert_eq!(vault.pop(&root(n)), Some(contents(n)));
    }
}

#[test]
fn put_then_pop_reveals_once() {
    let mut vault = PayloadCache::new(EthSpecId::Mainnet, 2);
    assert!(vault.put(contents(1)).is_none());
    assert_eq!(vault.pop(&root(1)), Some(contents(1)));
    assert_eq!(vault.pop(&root(1)), None);
}

#[test]
fn pop_of_a_root_never_put_returns_nothing() {
    let mut vault = PayloadCache::new(EthSpecId::Mainnet, 2);
    vault.put(contents(1));
    assert_eq!(vault.pop(&root(2)), None);
    assert_eq!(vault.pop(&root(1)), Some(contents(1)));
}

#[test]
fn put_under_the_same_root_returns_the_old_contents() {
    let mut vault = PayloadCache::new(EthSpecId::Mainnet, 2);
    let with_blobs = FullPayloadContents::new(payload(1), Some(BlobsBundle::default()));
    assert!(vault.put(contents(1)).is_none());
    assert_eq!(vault.put(with_blobs.clone()), Some(contents(1)));
    assert_eq!(vault.pop(&root(1)), Some(with_blobs));
    assert_eq!(vault.pop(&root(1)), None);
}

#[test]
fn full_vault_pushes_out_the_oldest() {
    let mut vault = PayloadCache::new(EthSpecId::Mainnet, 2);
    vault.put(contents(1));
    vault.put(contents(2));
    vault.put(contents(3));
    assert_eq!(vault.pop(&root(1)), None);
    assert_eq!(vault.pop(&root(2)), Some(contents(2)));
    assert_eq!(vault.pop(&root(3)), Some(contents(3)));
}

#[test]
fn contents_keep_payload_and_bundle() {
    let plain = FullPayloadContents::new(payload(1), None);
    assert!(matches!(plain, FullPayloadContents::Payload(_)));
    assert_eq!(plain.payload_ref(), &payload(1));
    let both = FullPayloadContents::new(payload(2), Some(BlobsBundle::default()));
    assert_eq!(both.payload_ref(), &payload(2));
    match both {
        FullPayloadContents::PayloadAndBlobs(inner) => {
            assert_eq!(inner.blobs_bundle, BlobsBundle::default())
        }
        _ => panic!("contents made with a bundle hold it"),
    }
}
