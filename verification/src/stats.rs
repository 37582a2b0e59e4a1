//! The counters that a socket keeps about its traffic and its peers.

use vstd::prelude::*;

verus! {

/// `a + b`, reduced into the range of `usize` the way a machine counter wraps.
pub open spec fn wrap_add(a: usize, b: usize) -> usize {
    if a + b > usize::MAX {
        (a + b - usize::MAX - 1) as usize
    } else {
        (a + b) as usize
    }
}

/// `a - 1`, where zero wraps to the largest value.
pub open spec fn wrap_dec(a: usize) -> usize {
    if a == 0 {
        usize::MAX
    } else {
        (a - 1) as usize
    }
}

/// Bytes sent and received, peers currently connected, requests that got no reply.
///
/// Every counter wraps on overflow.
#[derive(Clone, Copy, Debug, PartialEq, Eq, Structural)]
pub struct SocketStats {
    pub bytes_tx: usize,
    pub bytes_rx: usize,
    pub active_clients: usize,
    pub failed_requests: usize,
}

impl SocketStats {
    /// All counters at zero.
    pub fn new() -> (s: Self)
        ensures
            s == Self::zero(),
    {
        SocketStats { bytes_tx: 0, bytes_rx: 0, active_clients: 0, failed_requests: 0 }
    }

    /// The value of a fresh set of counters.
    pub open spec fn zero() -> Self {
        SocketStats { bytes_tx: 0, bytes_rx: 0, active_clients: 0, failed_requests: 0 }
    }

    /// Counts `bytes` more bytes as sent.
    pub fn increment_tx(&mut self, bytes: usize)
        ensures
            *final(self) == (SocketStats {
                bytes_tx: wrap_add(old(self).bytes_tx, bytes),
                ..*old(self)
            }),
    {
        self.bytes_tx = self.bytes_tx.wrapping_add(bytes);
    }

    /// Counts `bytes` more bytes as received.
    pub fn increment_rx(&mut self, bytes: usize)
        ensures
            *final(self) == (SocketStats {
                bytes_rx: wrap_add(old(self).bytes_rx, bytes),
                ..*old(self)
            }),
    {
        self.bytes_rx = self.bytes_rx.wrapping_add(bytes);
    }

    /// Counts one more connected peer.
    pub fn increment_active_clients(&mut self)
        ensures
            *final(self) == (SocketStats {
                active_clients: wrap_add(old(self).active_clients, 1),
                ..*old(self)
            }),
    {
        self.active_clients = self.active_clients.wrapping_add(1);
    }

    /// Counts one connected peer less.
    pub fn decrement_active_clients(&mut self)
        ensures
            *final(self) == (SocketStats {
                active_clients: wrap_dec(old(self).active_clients),
                ..*old(self)
            }),
    {
        self.active_clients = self.active_clients.wrapping_sub(1);
    }

    /// Counts one more request that ended without a reply.
    pub fn increment_failed_requests(&mut self)
        ensures
            *final(self) == (SocketStats {
                failed_requests: wrap_add(old(self).failed_requests, 1),
                ..*old(self)
            }),
    {
        self.failed_requests = self.failed_requests.wrapping_add(1);
    }

    /// Bytes sent so far.
    pub fn bytes_tx(&self) -> (n: usize)
        ensures
            n == self.bytes_tx,
    {
        self.bytes_tx
    }

    /// Bytes received so far.
    pub fn bytes_rx(&self) -> (n: usize)
        ensures
            n == self.bytes_rx,
    {
        self.bytes_rx
    }

    /// Peers connected at the moment.
    pub fn active_clients(&self) -> (n: usize)
        ensures
            n == self.active_clients,
    {
        self.active_clients
    }

    /// Requests that ended without a reply.
    pub fn failed_requests(&self) -> (n: usize)
        ensures
            n == self.failed_requests,
    {
        self.failed_requests
    }
}

} // verus!
