use dummy_builder::attributes::{
    PayloadAttributes, SseExtendedPayloadAttributes, VersionedSsePayloadAttributes,
};
use dummy_builder::primitives::{Address, ForkName, Hash256};
use dummy_builder::sse::{Ingested, SseEvent, SseListener};

fn hash(byte: u8) -> Hash256 {
    Hash256 { bytes: [byte; 32] }
}

fn announcement(parent: Hash256, slot: u64, timestamp: u64) -> VersionedSsePayloadAttributes {
    VersionedSsePayloadAttributes {
        version: Some(ForkName::Merge),
        data: SseExtendedPayloadAttributes {
            proposal_slot: slot,
            proposer_index: 3,
            parent_block_root: hash(0xee),
            parent_block_number: 100,
            parent_block_hash: parent,
            payload_attributes: PayloadAttributes::V1 {
                timestamp,
                prev_randao: hash(0x11),
                suggested_fee_recipient: Address { bytes: [0x22; 20] },
            },
        },
    }
}

#[test]
fn new_listener_is_empty() {
    let mut listener = SseListener::new("http://node".to_string(), 4);
    assert_eq!(listener.cap(), 4);
    assert_eq!(listener.url(), "http://node");
    assert!(listener.get_payload_attributes(hash(1), 1).is_none());
}

#[test]
fn events_url_appends_the_topic() {
    let listener = SseListener::new("http://localhost:5052".to_string(), 16);
    assert_eq!(
        listener.events_url(),
        "http://localhost:5052/eth/v1/events?topics=payload_attributes"
    );
}

#[test]
fn get_returns_what_was_put() {
    let mut listener = SseListener::new("u".to_string(), 4);
    let a = announcement(hash(1), 10, 1000);
    assert!(listener.put_payload_attributes(hash(1), 10, a.clone()).is_none());
    assert_eq!(listener.get_payload_attributes(hash(1), 10), Some(&a));
    assert_eq!(listener.get_payload_attributes(hash(1), 10), Some(&a));
}

#[test]
fn key_is_both_hash_and_slot() {
    let mut listener = SseListener::new("u".to_string(), 4);
    listener.put_payload_attributes(hash(1), 10, announcement(hash(1), 10, 1000));
    assert!(listener.get_payload_attributes(hash(1), 11).is_none());
    assert!(listener.get_payload_attributes(hash(2), 10).is_none());
}

#[test]
fn later_put_overwrites_and_returns_the_old_value() {
    let mut listener = SseListener::new("u".to_string(), 4);
    let first = announcement(hash(1), 10, 1000);
    let second = announcement(hash(1), 10, 2000);
    listener.put_payload_attributes(hash(1), 10, first.clone());
    let previous = listener.put_payload_attributes(hash(1), 10, second.clone());
    assert_eq!(previous, Some(first));
    assert_eq!(listener.get_payload_attributes(hash(1), 10), Some(&second));
}

#[test]
fn capacity_two_evicts_the_first_of_three() {
    let mut listener = SseListener::new("u".to_string(), 2);
    let a = announcement(hash(0xa), 1, 1);
    let b = announcement(hash(0xb), 2, 2);
    let c = announcement(hash(0xc), 3, 3);
    listener.put_payload_attributes(hash(0xa), 1, a);
    listener.put_payload_attributes(hash(0xb), 2, b.clone());
    listener.put_payload_attributes(hash(0xc), 3, c.clone());
    assert!(listener.get_payload_attributes(hash(0xa), 1).is_none());
    assert_eq!(listener.get_payload_attributes(hash(0xb), 2), Some(&b));
    assert_eq!(listener.get_payload_attributes(hash(0xc), 3), Some(&c));
}

#[test]
fn get_refreshes_recency() {
    let mut listener = SseListener::new("u".to_string(), 2);
    let a = announcement(hash(0xa), 1, 1);
    let b = announcement(hash(0xb), 2, 2);
    let c = announcement(hash(0xc), 3, 3);
    listener.put_payload_attributes(hash(0xa), 1, a.clone());
    listener.put_payload_attributes(hash(0xb), 2, b);
    assert!(listener.get_payload_attributes(hash(0xa), 1).is_some());
    listener.put_payload_attributes(hash(0xc), 3, c.clone());
    assert_eq!(listener.get_payload_attributes(hash(0xa), 1), Some(&a));
    assert!(listener.get_payload_attributes(hash(0xb), 2).is_none());
    assert_eq!(listener.get_payload_attributes(hash(0xc), 3), Some(&c));
}

#[test]
fn overwriting_in_a_full_cache_evicts_nothing() {
    let mut listener = SseListener::new("u".to_string(), 2);
    listener.put_payload_attributes(hash(0xa), 1, announcement(hash(0xa), 1, 1));
    listener.put_payload_attributes(hash(0xb), 2, announcement(hash(0xb), 2, 2));
    listener.put_payload_attributes(hash(0xa), 1, announcement(hash(0xa), 1, 9));
    assert!(listener.get_payload_attributes(hash(0xa), 1).is_some());
    assert!(listener.get_payload_attributes(hash(0xb), 2).is_some());
}

#[test]
fn event_with_attributes_is_stored_under_its_own_key() {
    let mut listener = SseListener::new("u".to_string(), 2);
    let a = announcement(hash(7), 42, 1);
    let done = listener.handle_event(SseEvent::Attributes(a.clone()));
    assert_eq!(done, Ingested::Stored { parent_block_hash: hash(7), slot: 42 });
    assert_eq!(listener.get_payload_attributes(hash(7), 42), Some(&a));
}

#[test]
fn malformed_event_and_comment_change_nothing() {
    let mut listener = SseListener::new("u".to_string(), 2);
    let a = announcement(hash(7), 42, 1);
    listener.handle_event(SseEvent::Attributes(a.clone()));
    assert_eq!(listener.handle_event(SseEvent::Malformed), Ingested::Skipped);
    assert_eq!(listener.handle_event(SseEvent::Comment), Ingested::Ignored);
    assert_eq!(listener.get_payload_attributes(hash(7), 42), Some(&a));
}
