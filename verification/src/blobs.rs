//! Blob bundles, and a payload together with the bundle that belongs to it.

use vstd::prelude::*;
use crate::payload::ExecutionPayload;

verus! {

/// The blobs of a payload with their commitments and proofs.
#[derive(Clone, Debug, PartialEq, Eq)]
pub struct BlobsBundle {
    pub commitments: Vec<[u8; 48]>,
    pub proofs: Vec<[u8; 48]>,
    pub blobs: Vec<Vec<u8>>,
}

impl BlobsBundle {
    /// Whether the bundle holds nothing.
    pub open spec fn is_empty(&self) -> bool {
        &&& self.commitments@.len() == 0
        &&& self.proofs@.len() == 0
        &&& self.blobs@.len() == 0
    }
}

impl Default for BlobsBundle {
    /// The bundle that holds nothing.
    fn default() -> (bundle: BlobsBundle)
        ensures
            bundle.is_empty(),
    {
        BlobsBundle { commitments: Vec::new(), proofs: Vec::new(), blobs: Vec::new() }
    }
}

/// A payload and its blob bundle.
#[derive(Clone, Debug, PartialEq, Eq)]
pub struct ExecutionPayloadAndBlobs {
    pub execution_payload: ExecutionPayload,
    pub blobs_bundle: BlobsBundle,
}

/// What is revealed when a commitment is redeemed: the payload, with its blob
/// bundle in the forks that have one.
#[derive(Clone, Debug, PartialEq, Eq)]
pub enum FullPayloadContents {
    Payload(ExecutionPayload),
    PayloadAndBlobs(ExecutionPayloadAndBlobs),
}

impl FullPayloadContents {
    /// The payload that the contents hold.
    pub open spec fn payload(&self) -> ExecutionPayload {
        match self {
            FullPayloadContents::Payload(payload) => *payload,
            FullPayloadContents::PayloadAndBlobs(both) => both.execution_payload,
        }
    }

    /// The blob bundle, where the contents hold one.
    pub open spec fn blobs(&self) -> Option<BlobsBundle> {
        match self {
            FullPayloadContents::Payload(_) => None,
            FullPayloadContents::PayloadAndBlobs(both) => Some(both.blobs_bundle),
        }
    }

    /// Joins a payload and the bundle that may come with it.
    pub fn new(execution_payload: ExecutionPayload, maybe_blobs: Option<BlobsBundle>) -> (contents:
        FullPayloadContents)
        ensures
            contents.payload() == execution_payload,
            contents.blobs() == maybe_blobs,
    {
        match maybe_blobs {
            None => FullPayloadContents::Payload(execution_payload),
            Some(blobs_bundle) => FullPayloadContents::PayloadAndBlobs(
                ExecutionPayloadAndBlobs { execution_payload, blobs_bundle },
            ),
        }
    }

    pub fn payload_ref(&self) -> (payload: &ExecutionPayload)
        ensures
            *payload == self.payload(),
    {
        match self {
            FullPayloadContents::Payload(payload) => payload,
            FullPayloadContents::PayloadAndBlobs(both) => &both.execution_payload,
        }
    }
}

} // verus!
