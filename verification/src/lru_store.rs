//! The two bounded stores of the builder, each an `lru::LruCache`, and what
//! this library relies on of that collection without proof.

use vstd::prelude::*;
use lru::LruCache;
use crate::attributes::VersionedSsePayloadAttributes;
use crate::blobs::FullPayloadContents;
use crate::recency::{inserted, lookup, removed, touched};

verus! {

#[verifier::external_type_specification]
#[verifier::external_body]
#[verifier::reject_recursive_types(K)]
#[verifier::reject_recursive_types(V)]
#[verifier::reject_recursive_types(S)]
pub struct ExLruCache<K, V, S>(LruCache<K, V, S>);

#[verifier::external_type_specification]
#[verifier::external_body]
pub struct ExDefaultHasher(lru::DefaultHasher);

/// The largest capacity a store can be made with.
pub const MAX_CACHE_SIZE: usize = 0x10_0000;

/// The entries of an attributes store, most recently used first, each key
/// given as the bytes of the parent block hash and the slot.
pub uninterp spec fn attribute_entries(
    cache: LruCache<([u8; 32], u64), VersionedSsePayloadAttributes>,
) -> Seq<((Seq<u8>, u64), VersionedSsePayloadAttributes)>;

/// The number of entries an attributes store was made to hold.
pub uninterp spec fn attribute_capacity(
    cache: LruCache<([u8; 32], u64), VersionedSsePayloadAttributes>,
) -> nat;

/// The entries of a payload store, most recently used first, each key given
/// as the bytes of a payload root.
pub uninterp spec fn payload_entries(cache: LruCache<[u8; 32], FullPayloadContents>) -> Seq<
    (Seq<u8>, FullPayloadContents),
>;

/// The number of entries a payload store was made to hold.
pub uninterp spec fn payload_capacity(cache: LruCache<[u8; 32], FullPayloadContents>) -> nat;

/// Calls `LruCache::new`: the new store is empty and holds up to `cap`
/// entries. The bound on `cap` keeps the table that the call allocates small.
#[verifier::external_body]
pub(crate) fn new_attribute_cache(cap: usize) -> (cache: LruCache<
    ([u8; 32], u64),
    VersionedSsePayloadAttributes,
>)
    requires
        0 < cap <= MAX_CACHE_SIZE,
    ensures
        attribute_entries(cache).len() == 0,
        attribute_capacity(cache) == cap,
{
    LruCache::new(std::num::NonZeroUsize::new(cap).unwrap())
}

/// Calls `LruCache::put`: the entry moves to the front, replacing one with the
/// same key or else, in a full store, pushing out the last one. The result is
/// the value that stood under the key before. The call is taken not to
/// panic.
#[verifier::external_body]
pub(crate) fn put_attributes(
    cache: &mut LruCache<([u8; 32], u64), VersionedSsePayloadAttributes>,
    key: ([u8; 32], u64),
    value: VersionedSsePayloadAttributes,
) -> (previous: Option<VersionedSsePayloadAttributes>)
    ensures
        attribute_entries(*final(cache)) == inserted(
            attribute_entries(*old(cache)),
            attribute_capacity(*old(cache)),
            (key.0@, key.1),
            value,
        ),
        attribute_capacity(*final(cache)) == attribute_capacity(*old(cache)),
        previous == lookup(attribute_entries(*old(cache)), (key.0@, key.1)),
    no_unwind
{
    cache.put(key, value)
}

/// Calls `LruCache::get`: an entry that is present moves to the front, and the
/// result is its value. The call is taken not to panic.
#[verifier::external_body]
pub(crate) fn get_attributes<'a>(
    cache: &'a mut LruCache<([u8; 32], u64), VersionedSsePayloadAttributes>,
    key: &([u8; 32], u64),
) -> (found: Option<&'a VersionedSsePayloadAttributes>)
    ensures
        attribute_entries(*final(cache)) == touched(
            attribute_entries(*old(cache)),
            (key.0@, key.1),
        ),
        attribute_capacity(*final(cache)) == attribute_capacity(*old(cache)),
        lookup(attribute_entries(*old(cache)), (key.0@, key.1)) == match found {
            Some(value) => Some(*value),
            None => None,
        },
    no_unwind
{
    cache.get(key)
}

/// Calls `LruCache::new`: the new store is empty and holds up to `cap`
/// entries. The bound on `cap` keeps the table that the call allocates small.
#[verifier::external_body]
pub(crate) fn new_payload_cache(cap: usize) -> (cache: LruCache<[u8; 32], FullPayloadContents>)
    requires
        0 < cap <= MAX_CACHE_SIZE,
    ensures
        payload_entries(cache).len() == 0,
        payload_capacity(cache) == cap,
{
    LruCache::new(std::num::NonZeroUsize::new(cap).unwrap())
}

/// Calls `LruCache::put`: the entry moves to the front, replacing one with the
/// same key or else, in a full store, pushing out the last one. The result is
/// the value that stood under the key before. The call is taken not to
/// panic.
#[verifier::external_body]
pub(crate) fn put_payload(
    cache: &mut LruCache<[u8; 32], FullPayloadContents>,
    key: [u8; 32],
    value: FullPayloadContents,
) -> (previous: Option<FullPayloadContents>)
    ensures
        payload_entries(*final(cache)) == inserted(
            payload_entries(*old(cache)),
            payload_capacity(*old(cache)),
            key@,
            value,
        ),
        payload_capacity(*final(cache)) == payload_capacity(*old(cache)),
        previous == lookup(payload_entries(*old(cache)), key@),
    no_unwind
{
    cache.put(key, value)
}

/// Calls `LruCache::pop`: an entry that is present leaves the store, and the
/// result is its value. The call is taken not to panic.
#[verifier::external_body]
pub(crate) fn pop_payload(cache: &mut LruCache<[u8; 32], FullPayloadContents>, key: &[u8; 32]) -> (taken:
    Option<FullPayloadContents>)
    ensures
        payload_entries(*final(cache)) == removed(payload_entries(*old(cache)), key@),
        payload_capacity(*final(cache)) == payload_capacity(*old(cache)),
        taken == lookup(payload_entries(*old(cache)), key@),
    no_unwind
{
    cache.pop(key)
}

} // verus!
