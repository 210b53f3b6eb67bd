//! Errors of the Architect HTTP client.

use vstd::prelude::*;

verus! {

/// Errors returned by the Architect HTTP client.
#[derive(Clone, Debug)]
pub enum ArchitectHttpError {
    /// Credentials are required but none were configured.
    MissingCredentials,
    /// A request could not be made from the client's state.
    ValidationError(String),
    /// Transport-level failure.
    NetworkError(String),
    /// Request parameters or a response body could not be (de)serialized.
    JsonError(String),
    /// The venue answered with a non-success status.
    UnexpectedStatus {
        /// HTTP status code.
        status: u16,
        /// Response body.
        body: String,
    },
    /// The request was canceled.
    Canceled(String),
}

} // verus!
