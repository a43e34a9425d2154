//! What the builder reads of the blinded block that a proposer signs to accept
//! a bid.

use vstd::prelude::*;
use crate::payload::{
    ExecutionPayloadHeader, ExecutionPayloadHeaderCapella, ExecutionPayloadHeaderDeneb,
    ExecutionPayloadHeaderMerge,
};
use crate::primitives::ForkName;

verus! {

/// A signed blinded block, reduced to its fork and the payload header it
/// commits to. Blocks of the first two forks carry no payload.
#[derive(Clone, Copy, Debug, PartialEq, Eq)]
pub enum SignedBlindedBlock {
    Base,
    Altair,
    Merge(ExecutionPayloadHeaderMerge),
    Capella(ExecutionPayloadHeaderCapella),
    Deneb(ExecutionPayloadHeaderDeneb),
}

impl SignedBlindedBlock {
    /// The fork that the shape of the block shows.
    pub open spec fn spec_fork_name_unchecked(&self) -> ForkName {
        match self {
            SignedBlindedBlock::Base => ForkName::Base,
            SignedBlindedBlock::Altair => ForkName::Altair,
            SignedBlindedBlock::Merge(_) => ForkName::Merge,
            SignedBlindedBlock::Capella(_) => ForkName::Capella,
            SignedBlindedBlock::Deneb(_) => ForkName::Deneb,
        }
    }

    /// The payload header that the block commits to, if it has one.
    pub open spec fn spec_execution_payload(&self) -> Option<ExecutionPayloadHeader> {
        match self {
            SignedBlindedBlock::Base => None,
            SignedBlindedBlock::Altair => None,
            SignedBlindedBlock::Merge(header) => Some(ExecutionPayloadHeader::Merge(*header)),
            SignedBlindedBlock::Capella(header) => Some(ExecutionPayloadHeader::Capella(*header)),
            SignedBlindedBlock::Deneb(header) => Some(ExecutionPayloadHeader::Deneb(*header)),
        }
    }

    /// The block whose payload header is `header`.
    pub fn with_header(header: ExecutionPayloadHeader) -> (block: SignedBlindedBlock)
        ensures
            block.spec_execution_payload() == Some(header),
            block.spec_fork_name_unchecked() == header.spec_fork_name(),
    {
        match header {
            ExecutionPayloadHeader::Merge(header) => SignedBlindedBlock::Merge(header),
            ExecutionPayloadHeader::Capella(header) => SignedBlindedBlock::Capella(header),
            ExecutionPayloadHeader::Deneb(header) => SignedBlindedBlock::Deneb(header),
        }
    }

    #[verifier::when_used_as_spec(spec_fork_name_unchecked)]
    pub fn fork_name_unchecked(&self) -> (fork: ForkName)
        ensures
            fork == self.spec_fork_name_unchecked(),
    {
        match self {
            SignedBlindedBlock::Base => ForkName::Base,
            SignedBlindedBlock::Altair => ForkName::Altair,
            SignedBlindedBlock::Merge(_) => ForkName::Merge,
            SignedBlindedBlock::Capella(_) => ForkName::Capella,
            SignedBlindedBlock::Deneb(_) => ForkName::Deneb,
        }
    }

    #[verifier::when_used_as_spec(spec_execution_payload)]
    pub fn execution_payload(&self) -> (header: Option<ExecutionPayloadHeader>)
        ensures
            header == self.spec_execution_payload(),
    {
        match self {
            SignedBlindedBlock::Base => None,
            SignedBlindedBlock::Altair => None,
            SignedBlindedBlock::Merge(header) => Some(ExecutionPayloadHeader::Merge(*header)),
            SignedBlindedBlock::Capella(header) => Some(ExecutionPayloadHeader::Capella(*header)),
            SignedBlindedBlock::Deneb(header) => Some(ExecutionPayloadHeader::Deneb(*header)),
        }
    }
}

} // verus!
