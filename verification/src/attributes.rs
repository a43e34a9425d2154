//! Payload attributes as a consensus node announces them.

use vstd::prelude::*;
use crate::primitives::{Address, ForkName, Hash256, Withdrawal};

verus! {

/// What the consensus layer fixes for the next payload. Only the second shape
/// carries a withdrawal list.
#[derive(Clone, Debug, PartialEq, Eq)]
pub enum PayloadAttributes {
    V1 { timestamp: u64, prev_randao: Hash256, suggested_fee_recipient: Address },
    V2 {
        timestamp: u64,
        prev_randao: Hash256,
        suggested_fee_recipient: Address,
        withdrawals: Vec<Withdrawal>,
    },
}

/// Payload attributes together with the chain position they were announced for.
#[derive(Clone, Debug, PartialEq, Eq)]
pub struct SseExtendedPayloadAttributes {
    pub proposal_slot: u64,
    pub proposer_index: u64,
    pub parent_block_root: Hash256,
    pub parent_block_number: u64,
    pub parent_block_hash: Hash256,
    pub payload_attributes: PayloadAttributes,
}

/// One announcement of the event stream: the attributes and the fork they are
/// tagged with, if the sender named one.
#[derive(Clone, Debug, PartialEq, Eq)]
pub struct VersionedSsePayloadAttributes {
    pub version: Option<ForkName>,
    pub data: SseExtendedPayloadAttributes,
}

impl PayloadAttributes {
    pub open spec fn spec_timestamp(&self) -> u64 {
        match self {
            PayloadAttributes::V1 { timestamp, .. } => *timestamp,
            PayloadAttributes::V2 { timestamp, .. } => *timestamp,
        }
    }

    pub open spec fn spec_prev_randao(&self) -> Hash256 {
        match self {
            PayloadAttributes::V1 { prev_randao, .. } => *prev_randao,
            PayloadAttributes::V2 { prev_randao, .. } => *prev_randao,
        }
    }

    pub open spec fn spec_suggested_fee_recipient(&self) -> Address {
        match self {
            PayloadAttributes::V1 { suggested_fee_recipient, .. } => *suggested_fee_recipient,
            PayloadAttributes::V2 { suggested_fee_recipient, .. } => *suggested_fee_recipient,
        }
    }

    /// The withdrawal list, where the attributes carry one.
    pub open spec fn spec_withdrawals(&self) -> Option<Seq<Withdrawal>> {
        match self {
            PayloadAttributes::V1 { .. } => None,
            PayloadAttributes::V2 { withdrawals, .. } => Some(withdrawals@),
        }
    }

    pub fn timestamp(&self) -> (t: u64)
        ensures
            t == self.spec_timestamp(),
    {
        match self {
            PayloadAttributes::V1 { timestamp, .. } => *timestamp,
            PayloadAttributes::V2 { timestamp, .. } => *timestamp,
        }
    }

    pub fn prev_randao(&self) -> (r: Hash256)
        ensures
            r == self.spec_prev_randao(),
    {
        match self {
            PayloadAttributes::V1 { prev_randao, .. } => *prev_randao,
            PayloadAttributes::V2 { prev_randao, .. } => *prev_randao,
        }
    }

    pub fn suggested_fee_recipient(&self) -> (a: Address)
        ensures
            a == self.spec_suggested_fee_recipient(),
    {
        match self {
            PayloadAttributes::V1 { suggested_fee_recipient, .. } => *suggested_fee_recipient,
            PayloadAttributes::V2 { suggested_fee_recipient, .. } => *suggested_fee_recipient,
        }
    }

    /// The withdrawal list, or `None` where the attributes have none.
    pub fn withdrawals(&self) -> (w: Option<&Vec<Withdrawal>>)
        ensures
            w is Some <==> self.spec_withdrawals() is Some,
            w matches Some(list) ==> self.spec_withdrawals() == Some(list@),
    {
        match self {
            PayloadAttributes::V1 { .. } => None,
            PayloadAttributes::V2 { withdrawals, .. } => Some(withdrawals),
        }
    }
}

} // verus!
