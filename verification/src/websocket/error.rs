//! Error payloads of the Architect WebSocket API.

use vstd::prelude::*;

verus! {

/// Error response sent by the venue over a WebSocket.
#[derive(Clone, Debug)]
pub struct ArchitectWsErrorResponse {
    /// Error code.
    pub code: Option<String>,
    /// Error message.
    pub message: Option<String>,
    /// Request ID the error relates to.
    pub rid: Option<i64>,
}

} // verus!
