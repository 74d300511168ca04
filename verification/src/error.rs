//! Failure kinds surfaced by every entry point, and the structured error
//! payload the authority returns on a rejected request.

use vstd::prelude::*;

verus! {

/// Structured failure payload returned by the authority. Its fields are
/// opaque to this layer beyond being surfaced to the caller.
#[derive(Clone, Debug)]
pub struct ErrorResponse {
    pub error: String,
    pub error_description: String,
}

/// Mathematical image of [`ErrorResponse`]: each field as its characters.
#[verifier::ext_equal]
pub struct ErrorResponseView {
    pub error: Seq<char>,
    pub error_description: Seq<char>,
}

impl View for ErrorResponse {
    type V = ErrorResponseView;

    open spec fn view(&self) -> ErrorResponseView {
        ErrorResponseView { error: self.error@, error_description: self.error_description@ }
    }
}

/// The distinct failure kinds a caller can observe, so that transport
/// failures, malformed bodies, authority rejections and local hardware
/// signing failures can each drive a different retry policy.
#[derive(Clone, Debug)]
pub enum MsalError {
    /// The transport failed before any response body was observed.
    RequestFailed(String),
    /// A response body was present but was not parseable as the expected
    /// payload nor as a structured error payload.
    InvalidJson(String),
    /// The authority returned a well-formed structured error payload.
    AcquireTokenFailed(ErrorResponse),
    /// The hardware key store failed to load or sign.
    TPMFail(String),
}

} // verus!
