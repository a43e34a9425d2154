//! Structured hashing: the 32-byte chunks of the basic values, and the roots
//! of the lists that payloads and bids are made of.

use vstd::prelude::*;
use vstd::bytes::{spec_u64_to_le_bytes, u64_to_le_bytes};
use crate::merkle::{merkle_root, merkle_root_of, mix_in_length, mixed_in_length, MAX_LEAVES};
use crate::primitives::{Address, Hash256, Withdrawal};

verus! {

/// `n` zero bytes.
pub open spec fn zeros(n: nat) -> Seq<u8> {
    Seq::new(n, |i: int| 0u8)
}

/// The chunk of an unsigned 64-bit integer: its eight little-endian bytes,
/// then zeros.
pub open spec fn u64_chunk(x: u64) -> Seq<u8> {
    spec_u64_to_le_bytes(x) + zeros(24)
}

/// The chunk of an address: its twenty bytes, then zeros.
pub open spec fn address_chunk(a: Address) -> Seq<u8> {
    a.bytes@ + zeros(12)
}

/// Every chunk of an integer is 32 bytes long.
pub proof fn lemma_u64_chunk_len(x: u64)
    ensures
        u64_chunk(x).len() == 32,
{
    vstd::bytes::lemma_auto_spec_u64_to_from_le_bytes();
}

/// Appends `bytes` to `buf`.
pub fn write_bytes(buf: &mut Vec<u8>, bytes: &[u8])
    ensures
        final(buf)@ == old(buf)@ + bytes@,
{
    let mut i: usize = 0;
    while i < bytes.len()
        invariant
            i <= bytes@.len(),
            buf@ == old(buf)@ + bytes@.subrange(0, i as int),
        decreases bytes@.len() - i,
    {
        buf.push(bytes[i]);
        i += 1;
        assert(buf@ =~= old(buf)@ + bytes@.subrange(0, i as int));
    }
    assert(bytes@.subrange(0, i as int) =~= bytes@);
}

/// Appends `n` zero bytes to `buf`.
pub fn write_zeros(buf: &mut Vec<u8>, n: usize)
    ensures
        final(buf)@ == old(buf)@ + zeros(n as nat),
{
    let mut i: usize = 0;
    while i < n
        invariant
            i <= n,
            buf@ == old(buf)@ + zeros(i as nat),
        decreases n - i,
    {
        buf.push(0u8);
        i += 1;
        assert(buf@ =~= old(buf)@ + zeros(i as nat));
    }
}

/// Appends the chunk of `x` to `buf`.
pub fn write_u64(buf: &mut Vec<u8>, x: u64)
    ensures
        final(buf)@ == old(buf)@ + u64_chunk(x),
{
    let le = u64_to_le_bytes(x);
    write_bytes(buf, le.as_slice());
    write_zeros(buf, 24);
    assert(buf@ =~= old(buf)@ + u64_chunk(x));
}

/// Appends the chunk of `a` to `buf`.
pub fn write_address(buf: &mut Vec<u8>, a: &Address)
    ensures
        final(buf)@ == old(buf)@ + address_chunk(*a),
{
    write_bytes(buf, a.bytes.as_slice());
    write_zeros(buf, 12);
    assert(buf@ =~= old(buf)@ + address_chunk(*a));
}

/// Appends a digest, which is its own chunk, to `buf`.
pub fn write_hash(buf: &mut Vec<u8>, h: &Hash256)
    ensures
        final(buf)@ == old(buf)@ + h.bytes@,
{
    write_bytes(buf, h.bytes.as_slice());
}

/// The root of a byte vector of fixed length.
pub open spec fn byte_vector_root(bytes: Seq<u8>) -> Seq<u8> {
    merkle_root_of(bytes, (bytes.len() + 31) / 32)
}

/// The root of a list of bytes that may hold at most `limit` bytes.
pub open spec fn byte_list_root(bytes: Seq<u8>, limit: nat) -> Seq<u8> {
    mixed_in_length(merkle_root_of(bytes, (limit + 31) / 32), bytes.len())
}

/// The largest byte limit a list can be hashed under.
pub const MAX_BYTE_LIMIT: usize = 0x4000_0000;

/// Hashes a list of bytes that may hold at most `limit` bytes.
pub fn hash_byte_list(bytes: &[u8], limit: usize) -> (root: Hash256)
    requires
        bytes@.len() <= limit <= MAX_BYTE_LIMIT,
    ensures
        root.bytes@ == byte_list_root(bytes@, limit as nat),
{
    let leaves: usize = (limit + 31) / 32;
    let inner = merkle_root(bytes, leaves);
    Hash256 { bytes: mix_in_length(&inner, bytes.len()) }
}

/// The four chunks of a withdrawal, in field order.
pub open spec fn withdrawal_chunks(w: Withdrawal) -> Seq<u8> {
    u64_chunk(w.index) + u64_chunk(w.validator_index) + address_chunk(w.address) + u64_chunk(
        w.amount,
    )
}

/// The root of a withdrawal.
pub open spec fn withdrawal_root(w: Withdrawal) -> Seq<u8> {
    merkle_root_of(withdrawal_chunks(w), 4)
}

/// Hashes a withdrawal.
pub fn hash_withdrawal(w: &Withdrawal) -> (root: Hash256)
    ensures
        root.bytes@ == withdrawal_root(*w),
{
    let mut buf: Vec<u8> = Vec::new();
    write_u64(&mut buf, w.index);
    write_u64(&mut buf, w.validator_index);
    write_address(&mut buf, &w.address);
    write_u64(&mut buf, w.amount);
    proof {
        lemma_u64_chunk_len(w.index);
        lemma_u64_chunk_len(w.validator_index);
        lemma_u64_chunk_len(w.amount);
        assert(buf@ =~= withdrawal_chunks(*w));
    }
    Hash256 { bytes: merkle_root(buf.as_slice(), 4) }
}

/// The roots of the first `n` withdrawals of `ws`, one after the other.
pub open spec fn withdrawal_roots(ws: Seq<Withdrawal>, n: nat) -> Seq<u8>
    decreases n,
{
    if n == 0 {
        Seq::empty()
    } else {
        withdrawal_roots(ws, (n - 1) as nat) + withdrawal_root(ws[n - 1])
    }
}

/// The root of a list of withdrawals that may hold at most `limit` of them.
pub open spec fn withdrawals_root(ws: Seq<Withdrawal>, limit: nat) -> Seq<u8> {
    mixed_in_length(merkle_root_of(withdrawal_roots(ws, ws.len()), limit), ws.len())
}

/// Hashes a list of withdrawals that may hold at most `limit` of them.
pub fn hash_withdrawals(ws: &Vec<Withdrawal>, limit: usize) -> (root: Hash256)
    requires
        ws@.len() <= limit <= MAX_LEAVES,
    ensures
        root.bytes@ == withdrawals_root(ws@, limit as nat),
{
    let mut buf: Vec<u8> = Vec::new();
    let mut i: usize = 0;
    while i < ws.len()
        invariant
            i <= ws@.len() <= MAX_LEAVES,
            buf@ == withdrawal_roots(ws@, i as nat),
            buf@.len() == 32 * i,
        decreases ws@.len() - i,
    {
        let item = hash_withdrawal(&ws[i]);
        write_hash(&mut buf, &item);
        i += 1;
    }
    let inner = merkle_root(buf.as_slice(), limit);
    Hash256 { bytes: mix_in_length(&inner, ws.len()) }
}

/// The roots of the first `n` byte lists of `items`, one after the other.
pub open spec fn byte_list_roots(items: Seq<Vec<u8>>, item_limit: nat, n: nat) -> Seq<u8>
    decreases n,
{
    if n == 0 {
        Seq::empty()
    } else {
        byte_list_roots(items, item_limit, (n - 1) as nat) + byte_list_root(
            items[n - 1]@,
            item_limit,
        )
    }
}

/// The root of a list of at most `limit` byte lists of at most `item_limit`
/// bytes each: the shape of a payload's transactions.
pub open spec fn byte_lists_root(items: Seq<Vec<u8>>, item_limit: nat, limit: nat) -> Seq<u8> {
    mixed_in_length(
        merkle_root_of(byte_list_roots(items, item_limit, items.len()), limit),
        items.len(),
    )
}

/// Whether every byte list of `items` is within `item_limit`.
pub open spec fn items_within(items: Seq<Vec<u8>>, item_limit: nat) -> bool {
    forall|i: int| 0 <= i < items.len() ==> (#[trigger] items[i])@.len() <= item_limit
}

/// Hashes a list of at most `limit` byte lists of at most `item_limit` bytes
/// each.
pub fn hash_byte_lists(items: &Vec<Vec<u8>>, item_limit: usize, limit: usize) -> (root: Hash256)
    requires
        items@.len() <= limit <= MAX_LEAVES,
        item_limit <= MAX_BYTE_LIMIT,
        items_within(items@, item_limit as nat),
    ensures
        root.bytes@ == byte_lists_root(items@, item_limit as nat, limit as nat),
{
    let mut buf: Vec<u8> = Vec::new();
    let mut i: usize = 0;
    while i < items.len()
        invariant
            i <= items@.len() <= MAX_LEAVES,
            item_limit <= MAX_BYTE_LIMIT,
            items_within(items@, item_limit as nat),
            buf@ == byte_list_roots(items@, item_limit as nat, i as nat),
            buf@.len() == 32 * i,
        decreases items@.len() - i,
    {
        let item = hash_byte_list(items[i].as_slice(), item_limit);
        write_hash(&mut buf, &item);
        i += 1;
    }
    let inner = merkle_root(buf.as_slice(), limit);
    Hash256 { bytes: mix_in_length(&inner, items.len()) }
}

/// The roots of the first `n` 48-byte items of `items`, one after the other.
pub open spec fn key_roots(items: Seq<[u8; 48]>, n: nat) -> Seq<u8>
    decreases n,
{
    if n == 0 {
        Seq::empty()
    } else {
        key_roots(items, (n - 1) as nat) + merkle_root_of(items[n - 1]@, 2)
    }
}

/// The root of a list of at most `limit` 48-byte items: the shape of a list
/// of commitments or of proofs.
pub open spec fn key_list_root(items: Seq<[u8; 48]>, limit: nat) -> Seq<u8> {
    mixed_in_length(merkle_root_of(key_roots(items, items.len()), limit), items.len())
}

/// Hashes a list of at most `limit` 48-byte items.
pub fn hash_key_list(items: &Vec<[u8; 48]>, limit: usize) -> (root: Hash256)
    requires
        items@.len() <= limit <= MAX_LEAVES,
    ensures
        root.bytes@ == key_list_root(items@, limit as nat),
{
    let mut buf: Vec<u8> = Vec::new();
    let mut i: usize = 0;
    while i < items.len()
        invariant
            i <= items@.len() <= MAX_LEAVES,
            buf@ == key_roots(items@, i as nat),
            buf@.len() == 32 * i,
        decreases items@.len() - i,
    {
        let item = Hash256 { bytes: merkle_root(items[i].as_slice(), 2) };
        write_hash(&mut buf, &item);
        i += 1;
    }
    let inner = merkle_root(buf.as_slice(), limit);
    Hash256 { bytes: mix_in_length(&inner, items.len()) }
}

/// The first `n` digests of `items`, one after the other.
pub open spec fn digests(items: Seq<Hash256>, n: nat) -> Seq<u8>
    decreases n,
{
    if n == 0 {
        Seq::empty()
    } else {
        digests(items, (n - 1) as nat) + items[n - 1].bytes@
    }
}

/// The root of a list of at most `limit` digests.
pub open spec fn digest_list_root(items: Seq<Hash256>, limit: nat) -> Seq<u8> {
    mixed_in_length(merkle_root_of(digests(items, items.len()), limit), items.len())
}

/// Hashes a list of at most `limit` digests.
pub fn hash_digest_list(items: &Vec<Hash256>, limit: usize) -> (root: Hash256)
    requires
        items@.len() <= limit <= MAX_LEAVES,
    ensures
        root.bytes@ == digest_list_root(items@, limit as nat),
{
    let mut buf: Vec<u8> = Vec::new();
    let mut i: usize = 0;
    while i < items.len()
        invariant
            i <= items@.len() <= MAX_LEAVES,
            buf@ == digests(items@, i as nat),
            buf@.len() == 32 * i,
        decreases items@.len() - i,
    {
        write_hash(&mut buf, &items[i]);
        i += 1;
    }
    let inner = merkle_root(buf.as_slice(), limit);
    Hash256 { bytes: mix_in_length(&inner, items.len()) }
}

} // verus!
