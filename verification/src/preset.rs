//! The size limits that a network's preset puts on the lists of a payload.

use vstd::prelude::*;

verus! {

/// The most bytes one transaction may have, in every preset.
pub const MAX_BYTES_PER_TRANSACTION: usize = 0x4000_0000;

/// The most transactions one payload may hold, in every preset.
pub const MAX_TRANSACTIONS_PER_PAYLOAD: usize = 0x10_0000;

/// The most bytes of extra data one payload may carry, in every preset.
pub const MAX_EXTRA_DATA_BYTES: usize = 32;

/// The length of a payload's logs bloom filter, in every preset.
pub const BYTES_PER_LOGS_BLOOM: usize = 256;

/// The presets a network can be configured with.
#[derive(Clone, Copy, Debug, PartialEq, Eq, Hash)]
pub enum EthSpecId {
    Mainnet,
    Minimal,
    Gnosis,
}

impl EthSpecId {
    pub open spec fn spec_max_withdrawals_per_payload(self) -> usize {
        match self {
            EthSpecId::Mainnet => 16,
            EthSpecId::Minimal => 4,
            EthSpecId::Gnosis => 8,
        }
    }

    pub open spec fn spec_max_blob_commitments_per_block(self) -> usize {
        match self {
            EthSpecId::Mainnet => 4096,
            EthSpecId::Minimal => 16,
            EthSpecId::Gnosis => 4096,
        }
    }

    /// The most withdrawals one payload may hold.
    #[verifier::when_used_as_spec(spec_max_withdrawals_per_payload)]
    pub fn max_withdrawals_per_payload(self) -> (n: usize)
        ensures
            n == self.spec_max_withdrawals_per_payload(),
    {
        match self {
            EthSpecId::Mainnet => 16,
            EthSpecId::Minimal => 4,
            EthSpecId::Gnosis => 8,
        }
    }

    /// The most blob commitments one block may hold.
    #[verifier::when_used_as_spec(spec_max_blob_commitments_per_block)]
    pub fn max_blob_commitments_per_block(self) -> (n: usize)
        ensures
            n == self.spec_max_blob_commitments_per_block(),
    {
        match self {
            EthSpecId::Mainnet => 4096,
            EthSpecId::Minimal => 16,
            EthSpecId::Gnosis => 4096,
        }
    }
}

} // verus!
