use dummy_builder::attributes::{
    PayloadAttributes, SseExtendedPayloadAttributes, VersionedSsePayloadAttributes,
};
use dummy_builder::bid::BuilderBid;
use dummy_builder::block::SignedBlindedBlock;
use dummy_builder::bls::SecretKey;
use dummy_builder::builder::Builder;
use dummy_builder::chain_spec::ChainSpec;
use dummy_builder::config::Config;
use dummy_builder::error::Error;
use dummy_builder::payload::ExecutionPayloadHeader;
use dummy_builder::preset::EthSpecId;
use dummy_builder::primitives::{Address, ForkName, Hash256, PublicKeyBytes};
use dummy_builder::server::{
    answer_status, get_header, register, status, submit_blinded_block, Rejection,
};
use dummy_builder::sse::{Ingested, SseEvent, SseListener};

fn hash(byte: u8) -> Hash256 {
    Hash256 { bytes: [byte; 32] }
}

fn proposer() -> PublicKeyBytes {
    PublicKeyBytes { bytes: [0xa0; 48] }
}

fn builder() -> Builder {
    let mut bytes = [0u8; 32];
    bytes[31] = 3;
    let spec = ChainSpec { preset: EthSpecId::Mainnet, genesis_fork_version: [0; 4] };
    Builder::from_config(SecretKey::from_bytes(bytes).unwrap(), Config::default(), spec).unwrap()
}

fn announcement(
    version: ForkName,
    parent: Hash256,
    slot: u64,
    with_withdrawals: bool,
) -> VersionedSsePayloadAttributes {
    let timestamp = 12;
    let prev_randao = hash(9);
    let suggested_fee_recipient = Address { bytes: [8; 20] };
    VersionedSsePayloadAttributes {
        version: Some(version),
        data: SseExtendedPayloadAttributes {
            proposal_slot: slot,
            proposer_index: 0,
            parent_block_root: hash(0),
            parent_block_number: 1,
            parent_block_hash: parent,
            payload_attributes: if with_withdrawals {
                PayloadAttributes::V2 {
                    timestamp,
                    prev_randao,
                    suggested_fee_recipient,
                    withdrawals: Vec::new(),
                }
            } else {
                PayloadAttributes::V1 { timestamp, prev_randao, suggested_fee_recipient }
            },
        },
    }
}

fn block_for(bid: &BuilderBid) -> SignedBlindedBlock {
    match bid {
        BuilderBid::Merge(bid) => SignedBlindedBlock::Merge(bid.header),
        BuilderBid::Capella(bid) => SignedBlindedBlock::Capella(bid.header),
        BuilderBid::Deneb(bid) => SignedBlindedBlock::Deneb(bid.header),
    }
}

#[test]
fn registration_and_status_always_succeed() {
    assert_eq!(register(), 200);
    assert_eq!(status(), 200);
}

#[test]
fn unreadable_path_is_a_bad_request() {
    let mut builder = builder();
    let answer = get_header(&mut builder, None);
    assert_eq!(answer, Err(Rejection::InvalidPath));
    assert_eq!(answer_status(&answer), 400);
    assert_eq!(Rejection::InvalidPath.status_code(), 400);
}

#[test]
fn unknown_key_is_no_content() {
    let mut builder = builder();
    let answer = get_header(&mut builder, Some((3, hash(1), proposer())));
    assert_eq!(answer, Err(Rejection::NoPayload));
    assert_eq!(answer_status(&answer), 204);
}

#[test]
fn missing_withdrawals_are_a_server_error() {
    let mut builder = builder();
    builder.handle_event(SseEvent::Attributes(announcement(ForkName::Capella, hash(1), 3, false)));
    let answer = get_header(&mut builder, Some((3, hash(1), proposer())));
    assert_eq!(answer, Err(Rejection::Failed(Error::LogicError)));
    assert_eq!(answer_status(&answer), 500);
}

#[test]
fn unsupported_fork_is_no_content() {
    let mut builder = builder();
    builder.handle_event(SseEvent::Attributes(announcement(ForkName::Altair, hash(1), 3, false)));
    let answer = get_header(&mut builder, Some((3, hash(1), proposer())));
    assert_eq!(answer, Err(Rejection::NoPayload));
}

#[test]
fn bid_then_reveal_then_failure() {
    let mut builder = builder();
    builder.handle_event(SseEvent::Attributes(announcement(ForkName::Capella, hash(1), 3, true)));
    let answer = get_header(&mut builder, Some((3, hash(1), proposer())));
    assert_eq!(answer_status(&answer), 200);
    let response = answer.unwrap();
    assert_eq!(response.version, Some(ForkName::Capella));
    let block = block_for(&response.data.message);
    let root = block.execution_payload().unwrap().tree_hash_root();

    let revealed = submit_blinded_block(&mut builder, block);
    assert_eq!(answer_status(&revealed), 200);
    assert_eq!(revealed.unwrap().version, Some(ForkName::Capella));

    let again = submit_blinded_block(&mut builder, block);
    assert_eq!(again, Err(Rejection::Failed(Error::UnbindPayloadError(root))));
    assert_eq!(answer_status(&again), 500);
}

#[test]
fn block_without_payload_is_a_server_error() {
    let mut builder = builder();
    let answer = submit_blinded_block(&mut builder, SignedBlindedBlock::Altair);
    assert_eq!(answer, Err(Rejection::Failed(Error::LogicError)));
    assert_eq!(answer_status(&answer), 500);
}

#[test]
fn proposer_key_in_the_path_is_not_looked_at() {
    let mut builder = builder();
    builder.handle_event(SseEvent::Attributes(announcement(ForkName::Merge, hash(1), 3, false)));
    let one = get_header(&mut builder, Some((3, hash(1), PublicKeyBytes { bytes: [1; 48] })));
    let other = get_header(&mut builder, Some((3, hash(1), PublicKeyBytes { bytes: [2; 48] })));
    assert!(one.is_ok());
    assert_eq!(one, other);
}

#[test]
fn listener_takes_in_a_run_of_events_in_order() {
    let mut listener = SseListener::new("u".to_string(), 2);
    let a = announcement(ForkName::Merge, hash(1), 1, false);
    let b = announcement(ForkName::Merge, hash(2), 2, false);
    let newer = announcement(ForkName::Capella, hash(1), 1, true);
    let c = announcement(ForkName::Merge, hash(3), 3, false);
    let done = listener.listen(vec![
        SseEvent::Attributes(a),
        SseEvent::Comment,
        SseEvent::Attributes(b),
        SseEvent::Malformed,
        SseEvent::Attributes(newer.clone()),
        SseEvent::Attributes(c.clone()),
    ]);
    assert_eq!(
        done,
        vec![
            Ingested::Stored { parent_block_hash: hash(1), slot: 1 },
            Ingested::Ignored,
            Ingested::Stored { parent_block_hash: hash(2), slot: 2 },
            Ingested::Skipped,
            Ingested::Stored { parent_block_hash: hash(1), slot: 1 },
            Ingested::Stored { parent_block_hash: hash(3), slot: 3 },
        ]
    );
    assert!(listener.get_payload_attributes(hash(2), 2).is_none());
    assert_eq!(listener.get_payload_attributes(hash(1), 1), Some(&newer));
    assert_eq!(listener.get_payload_attributes(hash(3), 3), Some(&c));
    assert_eq!(listener.listen(Vec::new()), Vec::new());
}

#[test]
fn header_fields_of_each_fork() {
    let mut builder = builder();
    for (n, fork) in [ForkName::Merge, ForkName::Capella, ForkName::Deneb].into_iter().enumerate() {
        let parent = hash(n as u8 + 1);
        builder.handle_event(SseEvent::Attributes(announcement(fork, parent, 3, true)));
        let response = get_header(&mut builder, Some((3, parent, proposer()))).unwrap();
        let header = block_for(&response.data.message).execution_payload().unwrap();
        let fields = header.fields();
        assert_eq!(fields.withdrawals_root.is_some(), fork != ForkName::Merge);
        assert_eq!(fields.blob_gas_used.is_some(), fork == ForkName::Deneb);
        assert_eq!(fields.excess_blob_gas.is_some(), fork == ForkName::Deneb);
        assert_eq!(ExecutionPayloadHeader::from_fields(fields), Some(header));
        assert_eq!(header.fork_name(), fork);
        assert_eq!(SignedBlindedBlock::with_header(header), block_for(&response.data.message));

        let mut mixed = fields;
        mixed.withdrawals_root = None;
        mixed.blob_gas_used = Some(1);
        assert_eq!(ExecutionPayloadHeader::from_fields(mixed), None);
    }
}
