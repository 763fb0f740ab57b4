//! The error taxonomy of the store adapter.

use vstd::prelude::*;

verus! {

/// What can go wrong between the channel engine and the store.
///
/// `Auth` is terminal for a run: the adapter cannot work without a session.
/// `Send` carries the store key whose write was rejected, so a caller can
/// tell "failed to persist" from a protocol-level rejection and retry the
/// identical request (writes are idempotent). `NotFound` is a read miss and
/// is distinct from `Decode`, a malformed text-safe payload, and from
/// `ProtocolMismatch`, a well-formed response that lacks the expected field.
/// `Timeout` marks a network-level expiry, safe to retry verbatim.
#[derive(Debug, Clone)]
pub enum TransportError {
    Auth,
    Send { key: Vec<u8> },
    NotFound,
    Decode,
    ProtocolMismatch,
    Timeout,
}

impl TransportError {
    /// A short name for reporting; the adapter never formats errors itself.
    pub fn describe(&self) -> (r: &'static str)
        ensures
            self is Auth ==> r@ == "authentication failed"@,
            self is Send ==> r@ == "write rejected"@,
            self is NotFound ==> r@ == "record not found"@,
            self is Decode ==> r@ == "malformed text-safe payload"@,
            self is ProtocolMismatch ==> r@ == "response field missing"@,
            self is Timeout ==> r@ == "request timed out"@,
    {
        match self {
            TransportError::Auth => "authentication failed",
            TransportError::Send { .. } => "write rejected",
            TransportError::NotFound => "record not found",
            TransportError::Decode => "malformed text-safe payload",
            TransportError::ProtocolMismatch => "response field missing",
            TransportError::Timeout => "request timed out",
        }
    }
}

} // verus!
