//! Error taxonomy of the client and of upload tasks.
use vstd::prelude::*;

use crate::definitions::shared::B2KeyCapability;
use crate::is_valid::InvalidValue;

verus! {

/// The HTTP status that marks a transiently busy upload slot.
pub const BUSY_STATUS: u16 = 503;

/// An error document returned by the remote store.
#[derive(Clone, Debug)]
pub struct B2RequestError {
    /// The HTTP status of the response; never zero.
    pub status: u16,
    /// The remote error code.
    pub code: String,
    /// A human-readable message, when the remote sends one.
    pub message: Option<String>,
}

/// What a remote call can fail with. Carriers of transport- or
/// serialization-library detail hold no payload here; the unverified shell
/// keeps the underlying errors for reporting.
#[derive(Clone, Debug)]
pub enum B2Error {
    /// The response body could not be parsed.
    JsonParseError,
    /// The remote answered with an error document.
    RequestError(B2RequestError),
    /// The request could not be sent.
    RequestSendError,
    /// The client's key lacks a capability the call needs.
    MissingCapability(B2KeyCapability),
    /// A header value could not be encoded.
    InvalidHeaders,
}

impl B2Error {
    /// Whether this error is the transient slot-busy rejection: an error
    /// document whose status marks the service as unavailable.
    pub open spec fn spec_is_busy(&self) -> bool {
        match self {
            B2Error::RequestError(r) => r.status == BUSY_STATUS,
            _ => false,
        }
    }

    /// Returns whether this error is the transient slot-busy rejection.
    pub fn is_busy(&self) -> (r: bool)
        ensures
            r == self.spec_is_busy(),
    {
        match self {
            B2Error::RequestError(e) => e.status == BUSY_STATUS,
            _ => false,
        }
    }
}

/// What an upload task can fail with.
#[derive(Clone, Debug)]
pub enum FileUploadError {
    /// The task was cancelled.
    Aborted,
    /// `start` was called outside the pending state.
    AlreadyStarted,
    /// The byte source could not be read.
    FailedToReadFile,
    /// A remote call failed.
    RequestError(B2Error),
    /// The task's configuration failed validation.
    InvalidOptions(InvalidValue),
}

} // verus!
