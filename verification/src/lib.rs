//! Control client for a networked audio/video receiver.
//!
//! The crate covers the receiver's response-envelope protocol (every device
//! reply wraps a status code around an optional payload), the construction of
//! the request URLs for the remote-control operations, and the decision logic
//! of the bounded local-network discovery scan. The network itself — the HTTP
//! transport, the JSON decoding of response bodies and the multicast discovery
//! daemon — is a collaborator that a surrounding application drives; this
//! crate states and proves what is done with the values that cross that
//! boundary.

pub mod basic;
pub mod discovery;
pub mod error;
