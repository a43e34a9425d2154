//! What each route of the builder answers, short of putting it on the wire.

use vstd::prelude::*;
use crate::bid::{ForkVersionedResponse, SignedBuilderBid};
use crate::blobs::FullPayloadContents;
use crate::block::SignedBlindedBlock;
use crate::builder::Builder;
use crate::error::{
    Error, STATUS_BAD_REQUEST, STATUS_INTERNAL_SERVER_ERROR, STATUS_NO_CONTENT, STATUS_OK,
};
use crate::primitives::{Hash256, PublicKeyBytes};

verus! {

/// Why a request is answered without what it asked for.
#[derive(Clone, Copy, Debug, PartialEq, Eq)]
pub enum Rejection {
    /// The parameters in the path of the request could not be read.
    InvalidPath,
    /// No payload is available for the request.
    NoPayload,
    /// The request failed inside the builder.
    Failed(Error),
}

impl Rejection {
    /// The status under which the rejection goes out.
    pub open spec fn spec_status_code(&self) -> u16 {
        match self {
            Rejection::InvalidPath => STATUS_BAD_REQUEST,
            Rejection::NoPayload => STATUS_NO_CONTENT,
            Rejection::Failed(_) => STATUS_INTERNAL_SERVER_ERROR,
        }
    }

    #[verifier::when_used_as_spec(spec_status_code)]
    pub fn status_code(&self) -> (status: u16)
        ensures
            status == self.spec_status_code(),
    {
        match self {
            Rejection::InvalidPath => STATUS_BAD_REQUEST,
            Rejection::NoPayload => STATUS_NO_CONTENT,
            Rejection::Failed(_) => STATUS_INTERNAL_SERVER_ERROR,
        }
    }
}

/// The outcome inside the builder that an answer to a readable request
/// stands for.
pub open spec fn outcome_of<T>(answer: Result<T, Rejection>) -> Result<T, Error> {
    match answer {
        Ok(body) => Ok(body),
        Err(Rejection::Failed(error)) => Err(error),
        Err(_) => Err(Error::NoPayload),
    }
}

/// Validator registrations are accepted and not looked at.
pub fn register() -> (status: u16)
    ensures
        status == STATUS_OK,
{
    STATUS_OK
}

/// The builder is always healthy.
pub fn status() -> (status: u16)
    ensures
        status == STATUS_OK,
{
    STATUS_OK
}

/// Answers a request for a bid. `path` holds the slot, the parent hash and
/// the proposer's key from the path of the request, or nothing where they
/// could not be read; the key is not looked at.
pub fn get_header(builder: &mut Builder, path: Option<(u64, Hash256, PublicKeyBytes)>) -> (answer:
    Result<ForkVersionedResponse<SignedBuilderBid>, Rejection>)
    requires
        old(builder).wf(),
    ensures
        match path {
            None => answer == Err::<ForkVersionedResponse<SignedBuilderBid>, Rejection>(
                Rejection::InvalidPath,
            ) && *final(builder) == *old(builder),
            Some((slot, parent_hash, _)) => {
                &&& final(builder).bid_answered(old(builder), slot, parent_hash, outcome_of(answer))
                &&& answer != Err::<ForkVersionedResponse<SignedBuilderBid>, Rejection>(
                    Rejection::InvalidPath,
                )
                &&& answer != Err::<ForkVersionedResponse<SignedBuilderBid>, Rejection>(
                    Rejection::Failed(Error::NoPayload),
                )
            },
        },
{
    let (slot, parent_hash) = match path {
        Some((slot, parent_hash, _)) => (slot, parent_hash),
        None => {
            return Err(Rejection::InvalidPath);
        },
    };
    match builder.get_header(slot, parent_hash) {
        Ok(header) => Ok(header),
        Err(Error::NoPayload) => Err(Rejection::NoPayload),
        Err(error) => Err(Rejection::Failed(error)),
    }
}

/// Answers a signed blinded block: every failure is one inside the builder.
pub fn submit_blinded_block(builder: &mut Builder, block: SignedBlindedBlock) -> (answer: Result<
    ForkVersionedResponse<FullPayloadContents>,
    Rejection,
>)
    requires
        old(builder).wf(),
    ensures
        final(builder).block_answered(old(builder), block, outcome_of(answer)),
        answer matches Err(rejection) ==> rejection is Failed,
{
    match builder.submit_blinded_block(block) {
        Ok(full_payload_contents) => Ok(full_payload_contents),
        Err(error) => Err(Rejection::Failed(error)),
    }
}

/// The status under which an answer goes out.
pub fn answer_status<T>(answer: &Result<T, Rejection>) -> (status: u16)
    ensures
        status == match answer {
            Ok(_) => STATUS_OK,
            Err(rejection) => rejection.spec_status_code(),
        },
{
    match answer {
        Ok(_) => STATUS_OK,
        Err(rejection) => rejection.status_code(),
    }
}

} // verus!
