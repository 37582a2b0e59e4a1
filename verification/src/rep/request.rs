//! A request as the replying application receives it.

use vstd::prelude::*;
use bytes::Bytes;
use tokio::sync::oneshot;
use crate::addr::PeerAddr;
use crate::error::RepError;

verus! {

/// An inbound request: where it came from, what it carries, and the handle
/// through which the one reply goes back.
pub struct Request {
    pub source: PeerAddr,
    pub response: oneshot::Sender<Bytes>,
    pub msg: Bytes,
}

/// What a reply attempt comes to, given whether the waiting side took the value.
pub open spec fn respond_result(taken: bool) -> Result<(), RepError> {
    if taken {
        Ok(())
    } else {
        Err(RepError::SocketClosed)
    }
}

impl Request {
    /// The address of the connection that sent the request.
    pub fn source(&self) -> (a: PeerAddr)
        ensures
            a == self.source,
    {
        self.source
    }

    /// The payload of the request.
    pub fn msg(&self) -> (m: &Bytes)
        ensures
            *m == self.msg,
    {
        &self.msg
    }

    /// Resolves the request with `response`. This fails with `SocketClosed`
    /// when the connection's driver no longer waits for the reply.
    ///
    /// Whether the driver still waits is for the handle to say; what comes
    /// back for each answer is what [`respond_outcome`] gives.
    pub fn respond(self, response: Bytes) -> (r: Result<(), RepError>)
        ensures
            r == respond_result(true) || r == respond_result(false),
    {
        respond_outcome(self.response.send(response))
    }
}

/// Says what an attempt to resolve a request came to: success if the value
/// was taken, `SocketClosed` if it came back undelivered.
pub fn respond_outcome(sent: Result<(), Bytes>) -> (r: Result<(), RepError>)
    ensures
        r == respond_result(sent is Ok),
{
    match sent {
        Ok(_) => Ok(()),
        Err(_) => Err(RepError::SocketClosed),
    }
}

} // verus!
