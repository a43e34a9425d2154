//! The cache of payload attributes that the event stream of a consensus node
//! fills, keyed by parent block hash and slot.

use vstd::prelude::*;
use lru::LruCache;
use crate::attributes::VersionedSsePayloadAttributes;
use crate::lru_store::{
    attribute_capacity, attribute_entries, get_attributes, new_attribute_cache, put_attributes,
    MAX_CACHE_SIZE,
};
use crate::primitives::Hash256;
use crate::recency::{
    inserted, lemma_inserted_well_formed, lemma_touched_well_formed, lookup, touched, well_formed,
};

verus! {

/// `String::push_str` appends the given string slice to the end of the string.
pub assume_specification[ String::push_str ](s: &mut String, other: &str)
    ensures
        final(s)@ == old(s)@ + other@,
;

/// One item of the event stream, as far as the cache is concerned.
#[derive(Clone, Debug, PartialEq, Eq)]
pub enum SseEvent {
    /// An event whose data decoded to an announcement.
    Attributes(VersionedSsePayloadAttributes),
    /// An event whose data did not decode.
    Malformed,
    /// A comment line.
    Comment,
}

/// What the listener did with one item of the event stream.
#[derive(Clone, Copy, Debug, PartialEq, Eq)]
pub enum Ingested {
    /// The announcement was stored under this parent block hash and slot.
    Stored { parent_block_hash: Hash256, slot: u64 },
    /// The item was skipped because its data did not decode.
    Skipped,
    /// The item was a comment.
    Ignored,
}

/// The key under which an announcement is cached.
pub open spec fn cache_key(parent_hash: Hash256, slot: u64) -> (Seq<u8>, u64) {
    (parent_hash.bytes@, slot)
}

/// The cache after one item of the event stream is taken in: an announcement
/// is written under its own parent block hash and proposal slot, and nothing
/// else changes the cache.
pub open spec fn after_event(
    s: Seq<((Seq<u8>, u64), VersionedSsePayloadAttributes)>,
    capacity: nat,
    event: SseEvent,
) -> Seq<((Seq<u8>, u64), VersionedSsePayloadAttributes)> {
    match event {
        SseEvent::Attributes(attributes) => inserted(
            s,
            capacity,
            cache_key(attributes.data.parent_block_hash, attributes.data.proposal_slot),
            attributes,
        ),
        SseEvent::Malformed => s,
        SseEvent::Comment => s,
    }
}

/// What the listener reports for one item of the event stream.
pub open spec fn report_of(event: SseEvent) -> Ingested {
    match event {
        SseEvent::Attributes(attributes) => Ingested::Stored {
            parent_block_hash: attributes.data.parent_block_hash,
            slot: attributes.data.proposal_slot,
        },
        SseEvent::Malformed => Ingested::Skipped,
        SseEvent::Comment => Ingested::Ignored,
    }
}

/// The cache after the items of `events` are taken in one after the other.
pub open spec fn after_events(
    s: Seq<((Seq<u8>, u64), VersionedSsePayloadAttributes)>,
    capacity: nat,
    events: Seq<SseEvent>,
) -> Seq<((Seq<u8>, u64), VersionedSsePayloadAttributes)>
    decreases events.len(),
{
    if events.len() == 0 {
        s
    } else {
        after_event(after_events(s, capacity, events.drop_last()), capacity, events.last())
    }
}

/// The listener on the event stream of a consensus node, with the cache of
/// the payload attributes it has received.
pub struct SseListener {
    url: String,
    capacity: usize,
    payload_attributes: LruCache<([u8; 32], u64), VersionedSsePayloadAttributes>,
}

impl SseListener {
    /// What holds of every listener: its cache holds distinct keys and no
    /// more entries than it was made for.
    #[verifier::type_invariant]
    pub closed spec fn inv(self) -> bool {
        &&& well_formed(
            attribute_entries(self.payload_attributes),
            attribute_capacity(self.payload_attributes),
        )
        &&& self.capacity == attribute_capacity(self.payload_attributes)
    }

    /// The cache of a listener is well formed.
    pub proof fn lemma_well_formed(self)
        requires
            self.inv(),
        ensures
            well_formed(self@, self.capacity()),
    {
    }

    /// The cached announcements, most recently used first, each under its
    /// parent block hash and slot.
    pub closed spec fn view(&self) -> Seq<((Seq<u8>, u64), VersionedSsePayloadAttributes)> {
        attribute_entries(self.payload_attributes)
    }

    /// The number of announcements the cache was made to hold.
    pub closed spec fn capacity(&self) -> nat {
        attribute_capacity(self.payload_attributes)
    }

    /// The address of the consensus node.
    pub closed spec fn spec_url(&self) -> Seq<char> {
        self.url@
    }

    /// A listener for the node at `url` whose cache is empty and holds up to
    /// `cache_size` announcements.
    pub fn new(url: String, cache_size: usize) -> (listener: SseListener)
        requires
            0 < cache_size <= MAX_CACHE_SIZE,
        ensures
            listener@.len() == 0,
            listener.capacity() == cache_size,
            listener.spec_url() == url@,
            well_formed(listener@, listener.capacity()),
    {
        SseListener {
            url,
            capacity: cache_size,
            payload_attributes: new_attribute_cache(cache_size),
        }
    }

    /// The number of announcements the cache was made to hold.
    pub fn cap(&self) -> (capacity: usize)
        ensures
            capacity == self.capacity(),
            well_formed(self@, self.capacity()),
    {
        proof {
            use_type_invariant(self);
        }
        self.capacity
    }

    /// The address of the consensus node.
    pub fn url(&self) -> (url: &String)
        ensures
            url@ == self.spec_url(),
    {
        &self.url
    }

    /// The address of the stream of payload attributes on the consensus node.
    pub fn events_url(&self) -> (events: String)
        ensures
            events@ == self.spec_url() + "/eth/v1/events?topics=payload_attributes"@,
    {
        let mut events = self.url.clone();
        events.push_str("/eth/v1/events?topics=payload_attributes");
        events
    }

    /// Stores `attributes` under `parent_hash` and `slot`, in place of what was
    /// stored there before, and returns what that was.
    pub fn put_payload_attributes(
        &mut self,
        parent_hash: Hash256,
        slot: u64,
        attributes: VersionedSsePayloadAttributes,
    ) -> (previous: Option<VersionedSsePayloadAttributes>)
        ensures
            final(self)@ == inserted(
                old(self)@,
                old(self).capacity(),
                cache_key(parent_hash, slot),
                attributes,
            ),
            final(self).capacity() == old(self).capacity(),
            final(self).spec_url() == old(self).spec_url(),
            previous == lookup(old(self)@, cache_key(parent_hash, slot)),
            well_formed(old(self)@, old(self).capacity()),
            well_formed(final(self)@, final(self).capacity()),
    {
        proof {
            use_type_invariant(&*self);
            lemma_inserted_well_formed(
                self@,
                self.capacity(),
                cache_key(parent_hash, slot),
                attributes,
            );
        }
        put_attributes(&mut self.payload_attributes, (parent_hash.bytes, slot), attributes)
    }

    /// Takes in one item of the event stream: an announcement is stored under
    /// its own parent block hash and proposal slot, anything else leaves the
    /// cache as it is.
    pub fn handle_event(&mut self, event: SseEvent) -> (done: Ingested)
        ensures
            final(self)@ == after_event(old(self)@, old(self).capacity(), event),
            final(self).capacity() == old(self).capacity(),
            final(self).spec_url() == old(self).spec_url(),
            done == report_of(event),
            well_formed(final(self)@, final(self).capacity()),
    {
        proof {
            use_type_invariant(&*self);
        }
        match event {
            SseEvent::Attributes(attributes) => {
                let parent_block_hash = attributes.data.parent_block_hash;
                let slot = attributes.data.proposal_slot;
                self.put_payload_attributes(parent_block_hash, slot, attributes);
                Ingested::Stored { parent_block_hash, slot }
            },
            SseEvent::Malformed => Ingested::Skipped,
            SseEvent::Comment => Ingested::Ignored,
        }
    }

    /// Takes in a run of items of the event stream, in order, and reports on
    /// each of them.
    pub fn listen(&mut self, events: Vec<SseEvent>) -> (done: Vec<Ingested>)
        ensures
            final(self)@ == after_events(old(self)@, old(self).capacity(), events@),
            final(self).capacity() == old(self).capacity(),
            final(self).spec_url() == old(self).spec_url(),
            done@.len() == events@.len(),
            forall|i: int| 0 <= i < events@.len() ==> done@[i] == report_of(#[trigger] events@[i]),
            well_formed(final(self)@, final(self).capacity()),
    {
        let ghost all = events@;
        let mut rest = events;
        let mut done: Vec<Ingested> = Vec::new();
        proof {
            use_type_invariant(&*self);
        }
        while rest.len() > 0
            invariant
                done@.len() + rest@.len() == all.len(),
                rest@ == all.subrange(done@.len() as int, all.len() as int),
                self@ == after_events(
                    old(self)@,
                    old(self).capacity(),
                    all.subrange(0, done@.len() as int),
                ),
                self.capacity() == old(self).capacity(),
                self.spec_url() == old(self).spec_url(),
                forall|i: int| 0 <= i < done@.len() ==> done@[i] == report_of(#[trigger] all[i]),
                well_formed(self@, self.capacity()),
            decreases rest@.len(),
        {
            let ghost taken = done@.len() as int;
            let event = rest.remove(0);
            let report = self.handle_event(event);
            done.push(report);
            proof {
                assert(event == all[taken]);
                assert(all.subrange(0, taken + 1).drop_last() =~= all.subrange(0, taken));
                assert(rest@ =~= all.subrange(taken + 1, all.len() as int));
            }
        }
        assert(all.subrange(0, done@.len() as int) =~= all);
        done
    }

    /// Looks up the announcement stored under `parent_hash` and `slot`, and
    /// marks it as the most recently used.
    pub fn get_payload_attributes(&mut self, parent_hash: Hash256, slot: u64) -> (found: Option<
        &VersionedSsePayloadAttributes,
    >)
        ensures
            final(self)@ == touched(old(self)@, cache_key(parent_hash, slot)),
            final(self).capacity() == old(self).capacity(),
            final(self).spec_url() == old(self).spec_url(),
            lookup(old(self)@, cache_key(parent_hash, slot)) == match found {
                Some(attributes) => Some(*attributes),
                None => None,
            },
            well_formed(old(self)@, old(self).capacity()),
            well_formed(final(self)@, final(self).capacity()),
    {
        proof {
            use_type_invariant(&*self);
            lemma_touched_well_formed(self@, self.capacity(), cache_key(parent_hash, slot));
        }
        let key = (parent_hash.bytes, slot);
        get_attributes(&mut self.payload_attributes, &key)
    }
}

} // verus!
