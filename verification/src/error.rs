//! The ways a request to the builder can fail.

use vstd::prelude::*;
use crate::primitives::Hash256;

verus! {

/// The status of a response that carries what was asked for.
pub const STATUS_OK: u16 = 200;

/// The status of a response that has nothing to carry.
pub const STATUS_NO_CONTENT: u16 = 204;

/// The status of a response to a request that could not be read.
pub const STATUS_BAD_REQUEST: u16 = 400;

/// The status of a response to a request that failed inside the builder.
pub const STATUS_INTERNAL_SERVER_ERROR: u16 = 500;

/// Why a request to the builder failed.
#[derive(Clone, Copy, Debug, PartialEq, Eq)]
pub enum Error {
    /// No attributes are known for the request, or they are of a fork for
    /// which no payload can be built.
    NoPayload,
    /// No payload is committed under this root.
    UnbindPayloadError(Hash256),
    /// Something that well-formed announcements never cause.
    LogicError,
}

impl Error {
    /// The status under which the failure is reported to the caller.
    pub open spec fn spec_status_code(&self) -> u16 {
        match self {
            Error::NoPayload => STATUS_NO_CONTENT,
            Error::UnbindPayloadError(_) => STATUS_INTERNAL_SERVER_ERROR,
            Error::LogicError => STATUS_INTERNAL_SERVER_ERROR,
        }
    }

    #[verifier::when_used_as_spec(spec_status_code)]
    pub fn status_code(&self) -> (status: u16)
        ensures
            status == self.spec_status_code(),
    {
        match self {
            Error::NoPayload => STATUS_NO_CONTENT,
            Error::UnbindPayloadError(_) => STATUS_INTERNAL_SERVER_ERROR,
            Error::LogicError => STATUS_INTERNAL_SERVER_ERROR,
        }
    }
}

/// The status of the response to a request whose outcome is `outcome`.
pub fn response_status<T>(outcome: &Result<T, Error>) -> (status: u16)
    ensures
        status == match outcome {
            Ok(_) => STATUS_OK,
            Err(error) => error.spec_status_code(),
        },
{
    match outcome {
        Ok(_) => STATUS_OK,
        Err(error) => error.status_code(),
    }
}

} // verus!
