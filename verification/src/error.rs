//! What can go wrong on either side of a request/reply exchange.

use vstd::prelude::*;

verus! {

/// Failures seen by the requesting side.
#[derive(Debug)]
pub enum ReqError {
    /// The driver is gone: never started, or ended before a reply came.
    SocketClosed,
    /// The peer refused the identity that was presented.
    Auth(String),
    /// A frame on the wire could not be understood.
    Wire(String),
    /// The connection could not be made or broke.
    Transport(String),
}

/// Failures seen by the replying side.
#[derive(Debug)]
pub enum RepError {
    /// The connection or channel ended.
    SocketClosed,
    /// The handshake failed: a wrong frame, or an identity that was refused.
    Auth(String),
    /// A frame on the wire could not be understood.
    Wire(String),
    /// The connection broke.
    Transport(String),
}

} // verus!
