//! Adapter that persists a link-addressed, append-only messaging channel
//! through a tamper-evident key-value store reached over HTTP.
//!
//! The library holds the verified core: the codec that maps message links to
//! store keys and binary payloads to a text-safe form, the request bodies and
//! response interpretation of the store's wire protocol, the authenticated
//! session's lifecycle, and the orchestration state machine that drives a
//! channel through announce-or-recover, subscription, authorization and
//! chained publication.

pub mod codec;
pub mod errors;
pub mod link;
pub mod orchestrator;
pub mod session;
pub mod stub;
pub mod transport;
pub mod wire;
