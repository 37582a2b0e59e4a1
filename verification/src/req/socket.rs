//! The socket that a requesting application holds.
//!
//! The socket itself never waits. Connecting, handing a command to the driver
//! and waiting for the reply are up to the caller; the socket says what to
//! hand over and what each outcome means.

use vstd::prelude::*;
use bytes::Bytes;
use tokio::sync::mpsc;
use tokio::sync::oneshot;
use crate::error::ReqError;
use crate::req::driver::{Command, ReqDriver, ReqView};

verus! {

/// The number of commands that may wait between a socket and its driver.
pub const DEFAULT_BUFFER_SIZE: usize = 1024;

/// The settings of a requesting socket.
#[derive(Debug)]
pub struct ReqOptions {
    /// The identity to present when the peer asks for one.
    pub client_id: Option<Bytes>,
}

impl Default for ReqOptions {
    fn default() -> (o: Self)
        ensures
            o.client_id is None,
    {
        ReqOptions { client_id: None }
    }
}

impl ReqOptions {
    /// These settings with `id` as the identity to present.
    pub fn with_id(self, id: Bytes) -> (o: Self)
        ensures
            o.client_id == Some(id),
    {
        ReqOptions { client_id: Some(id) }
    }
}

/// A requesting socket.
pub struct ReqSocket {
    to_driver: Option<mpsc::Sender<Command>>,
    options: ReqOptions,
}

/// What waiting for a reply comes to: the reply or error that the driver
/// resolved the handle with, or `SocketClosed` if the handle was dropped
/// unresolved.
pub open spec fn reply_result(outcome: Option<Result<Bytes, ReqError>>) -> Result<Bytes, ReqError> {
    match outcome {
        Some(r) => r,
        None => Err(ReqError::SocketClosed),
    }
}

impl ReqSocket {
    /// The queue on which the socket's driver takes commands, if the socket
    /// has one.
    pub closed spec fn queue(&self) -> Option<mpsc::Sender<Command>> {
        self.to_driver
    }

    /// Whether the socket has a driver to send commands to.
    pub open spec fn connected(&self) -> bool {
        self.queue() is Some
    }

    /// The settings of the socket.
    pub closed spec fn settings(&self) -> ReqOptions {
        self.options
    }

    /// A socket with default settings and no connection.
    pub fn new() -> (s: Self)
        ensures
            s.queue() is None,
            s.settings().client_id is None,
    {
        ReqSocket { to_driver: None, options: ReqOptions::default() }
    }

    /// The same socket with `options` for its settings: it keeps its command
    /// queue, and with it its driver, if it has one.
    pub fn with_options(self, options: ReqOptions) -> (s: Self)
        ensures
            s.settings() == options,
            s.queue() == self.queue(),
    {
        ReqSocket { to_driver: self.to_driver, options }
    }

    /// The settings of the socket.
    pub fn options(&self) -> (o: &ReqOptions)
        ensures
            *o == self.settings(),
    {
        &self.options
    }

    /// Whether the socket has a driver to send commands to.
    pub fn is_connected(&self) -> (b: bool)
        ensures
            b == self.connected(),
    {
        self.to_driver.is_some()
    }

    /// The queue on which the driver takes commands, once connected.
    pub fn to_driver(&self) -> (q: Option<&mpsc::Sender<Command>>)
        ensures
            q is Some == self.connected(),
            q matches Some(tx) ==> self.queue() == Some(*tx),
    {
        self.to_driver.as_ref()
    }

    /// Prepares a request: the command to hand to the driver and the end on
    /// which the reply will arrive. This fails with `SocketClosed`, and only
    /// so, on a socket that is not connected.
    pub fn request(&self, message: Bytes) -> (r: Result<
        (Command, oneshot::Receiver<Result<Bytes, ReqError>>),
        ReqError,
    >)
        ensures
            !self.connected() ==> r matches Err(ReqError::SocketClosed),
            self.connected() ==> (r matches Ok((Command::Send { message: m, response }, _))
                && m == message),
    {
        if self.to_driver.is_none() {
            return Err(ReqError::SocketClosed);
        }
        let (response_tx, response_rx) = oneshot::channel();
        Ok((Command::Send { message, response: response_tx }, response_rx))
    }

    /// What handing a command to the driver comes to: `SocketClosed` if the
    /// driver did not take it.
    pub fn submitted(taken: bool) -> (r: Result<(), ReqError>)
        ensures
            taken ==> r is Ok,
            !taken ==> r matches Err(ReqError::SocketClosed),
    {
        if taken {
            Ok(())
        } else {
            Err(ReqError::SocketClosed)
        }
    }

    /// What waiting for the reply comes to. `outcome` is what arrived on the
    /// receiving end, `None` if the handle was dropped unresolved.
    pub fn reply(outcome: Option<Result<Bytes, ReqError>>) -> (r: Result<Bytes, ReqError>)
        ensures
            r == reply_result(outcome),
    {
        match outcome {
            Some(r) => r,
            None => Err(ReqError::SocketClosed),
        }
    }

    /// Completes a connection attempt. `established` says whether the
    /// transport connected, and why not if it did not.
    ///
    /// On failure the socket is unchanged and the error is `Transport` with
    /// the reason given. On success the socket is connected to a fresh driver,
    /// which is returned together with the end on which it takes commands.
    pub fn connect(&mut self, established: Result<(), String>) -> (r: Result<
        (ReqDriver, mpsc::Receiver<Command>),
        ReqError,
    >)
        ensures
            final(self).settings() == old(self).settings(),
            established is Ok ==> final(self).connected(),
            established is Ok ==> (r matches Ok((driver, _)) && driver@ == (ReqView {
                next_id: 0,
                queue: Seq::empty(),
                pending: Map::empty(),
            })),
            established is Err ==> final(self).queue() == old(self).queue(),
            established matches Err(reason) ==> (r matches Err(ReqError::Transport(why)) && why
                == reason),
    {
        match established {
            Ok(_) => {
                let (to_driver, from_socket) = mpsc::channel(DEFAULT_BUFFER_SIZE);
                self.to_driver = Some(to_driver);
                Ok((ReqDriver::new(), from_socket))
            },
            Err(reason) => Err(ReqError::Transport(reason)),
        }
    }
}

} // verus!
