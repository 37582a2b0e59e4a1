//! The driver of a requesting socket's one connection.
//!
//! The driver decides and its caller waits. Each call of [`ReqDriver::poll`]
//! takes one observation and answers with the next thing to do. A round
//! starts with `Wake` and ends with `Yield` or `Exit`. The sources are
//! consulted in a fixed order: the outbound sink first, then the commands of
//! the socket, then the inbound stream; any progress sends the round back to
//! the sink.

use vstd::prelude::*;
use std::collections::VecDeque;
use bytes::Bytes;
use crate::error::ReqError;
use crate::handle::{slot_insert, slot_remove, ReplyHandle, SlotTable};
use crate::message::Message;
use crate::request_id::{next_id, RequestId};
use crate::stats::{wrap_add, SocketStats};

verus! {

/// What a socket asks of its driver.
pub enum Command {
    /// Send `message` as a request and resolve `response` with the reply.
    Send { message: Bytes, response: ReplyHandle },
}

/// What the caller reports to the driver.
pub enum ReqEvent {
    /// A new round begins.
    Wake,
    /// The sink was flushed and asked whether it takes another frame.
    Sink { ready: bool },
    /// The frame handed out for transmission was accepted; `size` is its
    /// encoded length.
    Sent { size: usize },
    /// The frame handed out for transmission was refused.
    SendFailed,
    /// The socket sent a command.
    Command(Command),
    /// The socket is gone.
    CommandsClosed,
    /// No command is waiting.
    NoCommand,
    /// A frame arrived.
    Frame(Message),
    /// Something arrived that is no frame.
    BadFrame,
    /// The connection ended.
    Closed,
    /// Nothing has arrived.
    NoFrame,
}

/// What the driver asks of its caller.
#[derive(Debug)]
pub enum ReqStep {
    /// Flush the sink, ask whether it is ready, and report `Sink`.
    PollSink,
    /// Start sending this frame and report `Sent` or `SendFailed`.
    Transmit(Message),
    /// Look for a command and report `Command`, `CommandsClosed` or
    /// `NoCommand`.
    PollCommands,
    /// Look for an inbound frame and report `Frame`, `BadFrame`, `Closed` or
    /// `NoFrame`.
    PollInbound,
    /// The driver is finished. No request is pending any more.
    Exit,
    /// Nothing can be done before one of the sources changes. The round ends.
    Yield,
}

/// The driver of a requesting socket's connection.
pub struct ReqDriver {
    id_counter: RequestId,
    egress_queue: VecDeque<Message>,
    pending_requests: SlotTable,
}

/// The driver as contracts see it.
pub struct ReqView {
    /// The identifier that the next request gets.
    pub next_id: u32,
    /// Requests waiting to be transmitted, first out first.
    pub queue: Seq<Message>,
    /// The pending reply slots: the handle of the caller waiting for the reply
    /// under each identifier.
    pub pending: Map<u32, ReplyHandle>,
}

impl View for ReqDriver {
    type V = ReqView;

    closed spec fn view(&self) -> ReqView {
        ReqView {
            next_id: self.id_counter@,
            queue: self.egress_queue@,
            pending: self.pending_requests@,
        }
    }
}

/// Whether `event` ends the driver.
pub open spec fn is_final(event: ReqEvent) -> bool {
    event is SendFailed || event is CommandsClosed || event is BadFrame || event is Closed
}

/// The caller whose request `event` answers in state `v`, with the payload
/// that it receives: the one waiting in the slot of the frame's identifier.
pub open spec fn req_delivery(v: ReqView, event: ReqEvent) -> Option<(ReplyHandle, Bytes)> {
    match event {
        ReqEvent::Frame(m) => if v.pending.contains_key(m.id) {
            Some((v.pending[m.id], m.payload))
        } else {
            None
        },
        _ => None,
    }
}

/// The state that follows `v` when `event` is reported.
pub open spec fn req_next(v: ReqView, event: ReqEvent) -> ReqView {
    match event {
        ReqEvent::Sink { ready } => if ready && v.queue.len() > 0 {
            ReqView { queue: v.queue.drop_first(), ..v }
        } else {
            v
        },
        ReqEvent::Command(Command::Send { message, response }) => ReqView {
            next_id: next_id(v.next_id),
            queue: v.queue.push(Message { id: v.next_id, payload: message }),
            pending: v.pending.insert(v.next_id, response),
        },
        ReqEvent::Frame(m) => ReqView { pending: v.pending.remove(m.id), ..v },
        _ => if is_final(event) {
            ReqView { pending: Map::empty(), ..v }
        } else {
            v
        },
    }
}

/// The counters that follow `stats` when `event` is reported.
pub open spec fn req_stats_next(stats: SocketStats, event: ReqEvent) -> SocketStats {
    match event {
        ReqEvent::Sent { size } => SocketStats { bytes_tx: wrap_add(stats.bytes_tx, size), ..stats },
        _ => stats,
    }
}

/// What the driver asks for when `event` is reported in state `v`.
pub open spec fn req_step(v: ReqView, event: ReqEvent) -> ReqStep {
    match event {
        ReqEvent::Wake => ReqStep::PollSink,
        ReqEvent::Sink { ready } => if ready && v.queue.len() > 0 {
            ReqStep::Transmit(v.queue[0])
        } else {
            ReqStep::PollCommands
        },
        ReqEvent::Sent { size } => ReqStep::PollSink,
        ReqEvent::SendFailed => ReqStep::Exit,
        ReqEvent::Command(c) => ReqStep::PollSink,
        ReqEvent::CommandsClosed => ReqStep::Exit,
        ReqEvent::NoCommand => ReqStep::PollInbound,
        ReqEvent::Frame(m) => ReqStep::PollSink,
        ReqEvent::BadFrame => ReqStep::Exit,
        ReqEvent::Closed => ReqStep::Exit,
        ReqEvent::NoFrame => ReqStep::Yield,
    }
}

impl ReqDriver {
    /// A driver that has sent nothing: the first request gets identifier 0.
    pub fn new() -> (d: Self)
        ensures
            d@ == (ReqView { next_id: 0, queue: Seq::empty(), pending: Map::empty() }),
    {
        ReqDriver {
            id_counter: RequestId::new(0),
            egress_queue: VecDeque::new(),
            pending_requests: SlotTable::default(),
        }
    }

    /// The number of requests waiting to be transmitted.
    pub fn queued(&self) -> (n: usize)
        ensures
            n == self@.queue.len(),
    {
        self.egress_queue.len()
    }

    /// Whether no request is waiting for its reply.
    pub fn is_idle(&self) -> (b: bool)
        ensures
            b == self@.pending.is_empty(),
    {
        self.pending_requests.is_empty()
    }

    /// Takes the request of a caller: gives it the next identifier, opens its
    /// reply slot and queues its frame. Returns the identifier.
    pub fn submit(&mut self, message: Bytes, response: ReplyHandle) -> (id: u32)
        ensures
            id == old(self)@.next_id,
            final(self)@ == req_next(
                old(self)@,
                ReqEvent::Command(Command::Send { message, response }),
            ),
    {
        let id = self.id_counter.next();
        let _ = slot_insert(&mut self.pending_requests, id, response);
        self.egress_queue.push_back(Message::new(id, message));
        id
    }

    /// Matches an inbound frame to the caller that waits for it and closes the
    /// slot. A frame that nobody waits for matches nothing.
    pub fn take_slot(&mut self, frame: Message) -> (found: Option<(ReplyHandle, Bytes)>)
        ensures
            found == req_delivery(old(self)@, ReqEvent::Frame(frame)),
            final(self)@ == req_next(old(self)@, ReqEvent::Frame(frame)),
    {
        match slot_remove(&mut self.pending_requests, frame.id()) {
            Some(handle) => Some((handle, frame.into_payload())),
            None => None,
        }
    }

    /// Advances the driver by one observation.
    ///
    /// The new state and counters and the step asked for are those that
    /// [`req_next`], [`req_stats_next`] and [`req_step`] give. On a frame, the
    /// caller that [`req_delivery`] names is resolved with the payload; on an
    /// event that ends the driver, every open slot is dropped unresolved.
    pub fn poll(&mut self, stats: &mut SocketStats, event: ReqEvent) -> (step: ReqStep)
        ensures
            final(self)@ == req_next(old(self)@, event),
            *final(stats) == req_stats_next(*old(stats), event),
            step == req_step(old(self)@, event),
    {
        match event {
            ReqEvent::Wake => ReqStep::PollSink,
            ReqEvent::Sink { ready } => {
                if ready {
                    match self.egress_queue.pop_front() {
                        Some(msg) => ReqStep::Transmit(msg),
                        None => ReqStep::PollCommands,
                    }
                } else {
                    ReqStep::PollCommands
                }
            },
            ReqEvent::Sent { size } => {
                stats.increment_tx(size);
                ReqStep::PollSink
            },
            ReqEvent::SendFailed => {
                self.pending_requests.clear();
                ReqStep::Exit
            },
            ReqEvent::Command(Command::Send { message, response }) => {
                let _ = self.submit(message, response);
                ReqStep::PollSink
            },
            ReqEvent::CommandsClosed => {
                self.pending_requests.clear();
                ReqStep::Exit
            },
            ReqEvent::NoCommand => ReqStep::PollInbound,
            ReqEvent::Frame(frame) => {
                match self.take_slot(frame) {
                    Some((handle, payload)) => {
                        let _ = handle.send(Ok(payload));
                    },
                    None => {},
                }
                ReqStep::PollSink
            },
            ReqEvent::BadFrame => {
                self.pending_requests.clear();
                ReqStep::Exit
            },
            ReqEvent::Closed => {
                self.pending_requests.clear();
                ReqStep::Exit
            },
            ReqEvent::NoFrame => ReqStep::Yield,
        }
    }
}

} // verus!
