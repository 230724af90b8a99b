//! The ways a connection's handling can fail.

use vstd::prelude::*;

verus! {

/// Why a connection was closed. Every failure is local to its connection:
/// none of these conditions affects the dispatcher or any other connection.
#[derive(Clone, Copy, Debug, PartialEq, Eq, Structural)]
pub enum ProxyError {
    /// The client closed or sent nothing before any data arrived.
    NoInitialData,
    /// Reading the request head from the client failed.
    ReadFailure,
    /// The request head is not text or has fewer than five
    /// whitespace-delimited tokens.
    ParseFailure,
    /// The origin was unreachable or refused the connection.
    ConnectFailure,
    /// Writing the acknowledgment to the client, or the forwarded request
    /// to the origin, failed.
    WriteFailure,
    /// A relay direction failed after the tunnel or forward was established.
    RelayFailure,
}

} // verus!
