//! The vault of committed payloads: each is put in when a bid is issued and
//! taken out, once, when the bid is redeemed.

use vstd::prelude::*;
use lru::LruCache;
use crate::blobs::FullPayloadContents;
use crate::lru_store::{
    new_payload_cache, payload_capacity, payload_entries, pop_payload, put_payload, MAX_CACHE_SIZE,
};
use crate::preset::EthSpecId;
use crate::primitives::Hash256;
use crate::recency::{
    inserted, lemma_inserted_well_formed, lemma_removed_well_formed, lookup, removed, well_formed,
};

verus! {

/// The number of payloads a vault holds unless told otherwise.
pub const DEFAULT_PAYLOAD_CACHE_SIZE: usize = 10;

/// A cache mapping execution payloads by tree hash roots.
pub struct PayloadCache {
    spec: EthSpecId,
    capacity: usize,
    payloads: LruCache<[u8; 32], FullPayloadContents>,
}

impl PayloadCache {
    /// What holds of every vault: it holds distinct roots and no more
    /// entries than it was made for.
    #[verifier::type_invariant]
    pub closed spec fn inv(self) -> bool {
        &&& well_formed(payload_entries(self.payloads), payload_capacity(self.payloads))
        &&& self.capacity == payload_capacity(self.payloads)
    }

    /// A vault is well formed.
    pub proof fn lemma_well_formed(self)
        requires
            self.inv(),
        ensures
            well_formed(self@, self.capacity()),
    {
    }

    /// The entries of the vault, most recently used first: each a payload root
    /// and the contents committed under it.
    pub closed spec fn view(&self) -> Seq<(Seq<u8>, FullPayloadContents)> {
        payload_entries(self.payloads)
    }

    /// The number of entries the vault was made to hold.
    pub closed spec fn capacity(&self) -> nat {
        payload_capacity(self.payloads)
    }

    /// The preset under which the vault hashes payloads.
    pub closed spec fn eth_spec(&self) -> EthSpecId {
        self.spec
    }

    /// An empty vault that holds up to `capacity` payloads.
    pub fn new(spec: EthSpecId, capacity: usize) -> (cache: PayloadCache)
        requires
            0 < capacity <= MAX_CACHE_SIZE,
        ensures
            cache@.len() == 0,
            cache.capacity() == capacity,
            cache.eth_spec() == spec,
            well_formed(cache@, cache.capacity()),
    {
        PayloadCache { spec, capacity, payloads: new_payload_cache(capacity) }
    }

    /// The number of entries the vault was made to hold.
    pub fn cap(&self) -> (capacity: usize)
        ensures
            capacity == self.capacity(),
            well_formed(self@, self.capacity()),
    {
        proof {
            use_type_invariant(self);
        }
        self.capacity
    }

    /// The preset under which the vault hashes payloads.
    pub fn preset(&self) -> (preset: EthSpecId)
        ensures
            preset == self.eth_spec(),
    {
        self.spec
    }

    /// An empty vault of the default size.
    pub fn with_default_size(spec: EthSpecId) -> (cache: PayloadCache)
        ensures
            cache@.len() == 0,
            cache.capacity() == DEFAULT_PAYLOAD_CACHE_SIZE,
            cache.eth_spec() == spec,
            well_formed(cache@, cache.capacity()),
    {
        PayloadCache::new(spec, DEFAULT_PAYLOAD_CACHE_SIZE)
    }

    /// Commits `payload` under the root of its execution payload, and returns
    /// what was committed under that root before.
    pub fn put(&mut self, payload: FullPayloadContents) -> (previous: Option<FullPayloadContents>)
        requires
            payload.payload().wf(old(self).eth_spec()),
        ensures
            final(self)@ == inserted(
                old(self)@,
                old(self).capacity(),
                payload.payload().spec_tree_hash_root(old(self).eth_spec()),
                payload,
            ),
            final(self).capacity() == old(self).capacity(),
            final(self).eth_spec() == old(self).eth_spec(),
            well_formed(old(self)@, old(self).capacity()),
            well_formed(final(self)@, final(self).capacity()),
            previous == lookup(
                old(self)@,
                payload.payload().spec_tree_hash_root(old(self).eth_spec()),
            ),
    {
        proof {
            use_type_invariant(&*self);
        }
        let root = payload.payload_ref().tree_hash_root(self.spec);
        proof {
            lemma_inserted_well_formed(self@, self.capacity(), root.bytes@, payload);
        }
        put_payload(&mut self.payloads, root.bytes, payload)
    }

    /// Takes out what is committed under `hash`, if anything is.
    pub fn pop(&mut self, hash: &Hash256) -> (taken: Option<FullPayloadContents>)
        ensures
            final(self)@ == removed(old(self)@, hash.bytes@),
            final(self).capacity() == old(self).capacity(),
            final(self).eth_spec() == old(self).eth_spec(),
            well_formed(old(self)@, old(self).capacity()),
            well_formed(final(self)@, final(self).capacity()),
            taken == lookup(old(self)@, hash.bytes@),
    {
        proof {
            use_type_invariant(&*self);
            lemma_removed_well_formed(self@, self.capacity(), hash.bytes@);
        }
        pop_payload(&mut self.payloads, &hash.bytes)
    }
}

} // verus!
