//! The frames that travel over a connection.

use vstd::prelude::*;
use bytes::Bytes;

verus! {

/// A payload together with the correlation identifier of its exchange.
#[derive(Debug)]
pub struct Message {
    pub id: u32,
    pub payload: Bytes,
}

impl Message {
    /// The frame that carries `payload` under `id`.
    pub fn new(id: u32, payload: Bytes) -> (m: Self)
        ensures
            m == (Message { id, payload }),
    {
        Message { id, payload }
    }

    /// The correlation identifier.
    pub fn id(&self) -> (id: u32)
        ensures
            id == self.id,
    {
        self.id
    }

    /// The payload, by reference.
    pub fn payload(&self) -> (p: &Bytes)
        ensures
            *p == self.payload,
    {
        &self.payload
    }

    /// Gives up the frame for its payload.
    pub fn into_payload(self) -> (p: Bytes)
        ensures
            p == self.payload,
    {
        self.payload
    }
}

/// The frames of the handshake that precedes normal traffic.
#[derive(Debug)]
pub enum AuthMessage {
    /// The client presents its identity.
    Auth(Bytes),
    /// The server admits the client.
    Ack,
    /// The server turns the client away.
    Reject,
}

} // verus!
