//! Fixed-size values shared by every message of the protocol.

use vstd::prelude::*;

verus! {

/// A 32-byte digest: a block hash, a state root or a Merkle root.
#[derive(Clone, Copy, Debug, PartialEq, Eq, Hash)]
pub struct Hash256 {
    pub bytes: [u8; 32],
}

/// A 20-byte execution-layer account address.
#[derive(Clone, Copy, Debug, PartialEq, Eq, Hash)]
pub struct Address {
    pub bytes: [u8; 20],
}

/// An unsigned 256-bit integer, held as its 32 little-endian bytes.
#[derive(Clone, Copy, Debug, PartialEq, Eq, Hash)]
pub struct Uint256 {
    pub le_bytes: [u8; 32],
}

/// A compressed BLS public key.
#[derive(Clone, Copy, Debug, PartialEq, Eq, Hash)]
pub struct PublicKeyBytes {
    pub bytes: [u8; 48],
}

/// A compressed BLS signature.
#[derive(Clone, Copy, Debug, PartialEq, Eq, Hash)]
pub struct SignatureBytes {
    pub bytes: [u8; 96],
}

/// The protocol versions a message can be tagged with.
#[derive(Clone, Copy, Debug, PartialEq, Eq, Hash)]
pub enum ForkName {
    Base,
    Altair,
    Merge,
    Capella,
    Deneb,
}

/// A withdrawal that the consensus layer asks the next payload to carry out.
#[derive(Clone, Copy, Debug, PartialEq, Eq, Hash)]
pub struct Withdrawal {
    pub index: u64,
    pub validator_index: u64,
    pub address: Address,
    pub amount: u64,
}

impl Hash256 {
    /// The digest whose 32 bytes are all `byte`.
    pub fn repeat_byte(byte: u8) -> (h: Hash256)
        ensures
            h.bytes@ == Seq::new(32, |i: int| byte),
    {
        let h = Hash256 { bytes: [byte; 32] };
        assert(h.bytes@ =~= Seq::new(32, |i: int| byte));
        h
    }

    /// The all-zero digest.
    pub fn zero() -> (h: Hash256)
        ensures
            h.bytes@ == Seq::new(32, |i: int| 0u8),
    {
        Hash256::repeat_byte(0)
    }
}

impl ForkName {
    /// Whether payloads of this fork carry a withdrawal list.
    pub open spec fn has_withdrawals(self) -> bool {
        self is Capella || self is Deneb
    }

    /// Whether payloads of this fork come with a blob bundle.
    pub open spec fn has_blobs(self) -> bool {
        self is Deneb
    }

    /// Whether the builder can produce a payload for this fork.
    pub open spec fn is_supported(self) -> bool {
        self is Merge || self is Capella || self is Deneb
    }
}

} // verus!
