use dummy_builder::attributes::PayloadAttributes;
use dummy_builder::block::SignedBlindedBlock;
use dummy_builder::config::Config;
use dummy_builder::error::{response_status, Error};
use dummy_builder::payload::ExtraData;
use dummy_builder::preset::EthSpecId;
use dummy_builder::primitives::{Address, ForkName, Hash256, Uint256, Withdrawal};

#[test]
fn status_of_each_outcome() {
    assert_eq!(response_status(&Ok::<u8, Error>(1)), 200);
    assert_eq!(response_status(&Err::<u8, Error>(Error::NoPayload)), 204);
    assert_eq!(response_status(&Err::<u8, Error>(Error::LogicError)), 500);
    let unbind = Error::UnbindPayloadError(Hash256 { bytes: [1; 32] });
    assert_eq!(response_status(&Err::<u8, Error>(unbind)), 500);
    assert_eq!(Error::NoPayload.status_code(), 204);
    assert_eq!(unbind.status_code(), 500);
    assert_eq!(Error::LogicError.status_code(), 500);
}

#[test]
fn default_config() {
    let config = Config::default();
    assert!(config.is_valid());
    assert_eq!(config.beacon_node, "http://localhost:5052");
    assert_eq!(config.port, 18550);
    assert_eq!(config.payload_attributes_cache, 16);
    assert_eq!(config.payload_body_bytes, 0);
    assert_eq!(config.payload_value, Uint256 { le_bytes: [0; 32] });
    assert_eq!(config.network, "mainnet");
    assert_eq!(config.custom_network, None);
}

#[test]
fn config_limits() {
    let zero_cache = Config { payload_attributes_cache: 0, ..Config::default() };
    assert!(!zero_cache.is_valid());
    let large_cache = Config { payload_attributes_cache: (1 << 20) + 1, ..Config::default() };
    assert!(!large_cache.is_valid());
    let largest_cache = Config { payload_attributes_cache: 1 << 20, ..Config::default() };
    assert!(largest_cache.is_valid());
    let large_body = Config { payload_body_bytes: (1 << 30) + 1, ..Config::default() };
    assert!(!large_body.is_valid());
    let largest_body = Config { payload_body_bytes: 1 << 30, ..Config::default() };
    assert!(largest_body.is_valid());
}

#[test]
fn preset_limits() {
    assert_eq!(EthSpecId::Mainnet.max_withdrawals_per_payload(), 16);
    assert_eq!(EthSpecId::Minimal.max_withdrawals_per_payload(), 4);
    assert_eq!(EthSpecId::Gnosis.max_withdrawals_per_payload(), 8);
    assert_eq!(EthSpecId::Mainnet.max_blob_commitments_per_block(), 4096);
    assert_eq!(EthSpecId::Minimal.max_blob_commitments_per_block(), 16);
    assert_eq!(EthSpecId::Gnosis.max_blob_commitments_per_block(), 4096);
}

#[test]
fn extra_data_holds_at_most_32_bytes() {
    assert_eq!(ExtraData::empty().as_slice(), &[] as &[u8]);
    assert_eq!(ExtraData::new(&[]), Some(ExtraData::empty()));
    assert_eq!(ExtraData::new(&[1, 2, 3]).unwrap().as_slice(), &[1, 2, 3]);
    assert_eq!(ExtraData::new(&[9; 32]).unwrap().as_slice(), &[9; 32]);
    assert!(ExtraData::new(&[9; 33]).is_none());
}

#[test]
fn attributes_getters() {
    let first = PayloadAttributes::V1 {
        timestamp: 5,
        prev_randao: Hash256 { bytes: [1; 32] },
        suggested_fee_recipient: Address { bytes: [2; 20] },
    };
    assert_eq!(first.timestamp(), 5);
    assert_eq!(first.prev_randao(), Hash256 { bytes: [1; 32] });
    assert_eq!(first.suggested_fee_recipient(), Address { bytes: [2; 20] });
    assert_eq!(first.withdrawals(), None);
    let w = Withdrawal { index: 1, validator_index: 2, address: Address { bytes: [3; 20] }, amount: 4 };
    let second = PayloadAttributes::V2 {
        timestamp: 6,
        prev_randao: Hash256 { bytes: [7; 32] },
        suggested_fee_recipient: Address { bytes: [8; 20] },
        withdrawals: vec![w],
    };
    assert_eq!(second.timestamp(), 6);
    assert_eq!(second.prev_randao(), Hash256 { bytes: [7; 32] });
    assert_eq!(second.suggested_fee_recipient(), Address { bytes: [8; 20] });
    assert_eq!(second.withdrawals(), Some(&vec![w]));
}

#[test]
fn blocks_before_the_first_payload_fork_have_no_header() {
    assert_eq!(SignedBlindedBlock::Base.fork_name_unchecked(), ForkName::Base);
    assert_eq!(SignedBlindedBlock::Altair.fork_name_unchecked(), ForkName::Altair);
    assert!(SignedBlindedBlock::Base.execution_payload().is_none());
    assert!(SignedBlindedBlock::Altair.execution_payload().is_none());
}

#[test]
fn repeat_byte_fills_the_digest() {
    assert_eq!(Hash256::repeat_byte(42).bytes, [42u8; 32]);
    assert_eq!(Hash256::zero().bytes, [0u8; 32]);
}
