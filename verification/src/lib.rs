//! A minimal forward proxy, verified.
//!
//! The library holds the per-connection decision logic of the proxy: deciding
//! whether a request head is a CONNECT tunnel request or a plain HTTP request,
//! which origin address to dial, which bytes to send as the tunnel
//! acknowledgment or as the forwarded request, and the session state machine
//! that orders those steps. The surrounding program performs the network I/O
//! and feeds the outcomes back as events.

pub mod error;
pub mod head;
pub mod session;
pub mod text;
