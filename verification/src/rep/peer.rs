//! The driver of one accepted connection.
//!
//! The driver decides; its caller does the waiting. Each call of
//! [`PeerState::poll_next`] takes what the caller has just observed and
//! answers with the next thing to do. A round starts with `Wake` and ends
//! when the answer is `Emit`, `Fail`, `Close` or `Yield`. Within a round the
//! sources are consulted in a fixed order: the outbound sink first, then
//! finished requests, then the inbound stream, and any progress sends the
//! round back to the sink.

use vstd::prelude::*;
use vstd::multiset::Multiset;
use vstd::seq_lib::{to_multiset_remove, to_multiset_contains, group_to_multiset_ensures};
use std::collections::VecDeque;
use bytes::Bytes;
use tokio::sync::oneshot;
use crate::addr::PeerAddr;
use crate::error::RepError;
use crate::message::Message;
use crate::rep::request::Request;
use crate::stats::{SocketStats, wrap_add};

verus! {

/// What the caller reports to the driver of a connection.
pub enum PeerEvent {
    /// A new round begins.
    Wake,
    /// The sink was flushed and asked whether it takes another frame.
    Sink { ready: bool },
    /// The frame handed out for transmission was accepted; `size` is its
    /// encoded length.
    Sent { size: usize },
    /// The frame handed out for transmission was refused.
    SendFailed,
    /// The application is done with the request that carried `id`: it replied,
    /// or it let go of the handle without replying.
    Completed { id: u32, reply: Option<Bytes> },
    /// Waiting for some request's completion broke down.
    CompletionLost,
    /// No request has finished.
    NoCompletion,
    /// A frame arrived.
    Frame(Message),
    /// Something arrived that is no frame.
    BadFrame(RepError),
    /// The connection ended.
    Closed,
    /// Nothing has arrived.
    NoFrame,
}

/// What the driver of a connection asks of its caller.
pub enum PeerStep {
    /// Flush the sink, ask whether it is ready, and report `Sink`.
    PollSink,
    /// Start sending this frame and report `Sent` or `SendFailed`.
    Transmit(Message),
    /// Look for a finished request and report `Completed`, `CompletionLost`
    /// or `NoCompletion`.
    PollCompletions,
    /// Look for an inbound frame and report `Frame`, `BadFrame`, `Closed` or
    /// `NoFrame`.
    PollInbound,
    /// Hand `request` to the application, and wait on `waiter` for its reply,
    /// to be reported as `Completed` under `id`. The round ends.
    Emit { request: Request, waiter: oneshot::Receiver<Bytes>, id: u32 },
    /// Report this error for the connection. The round ends.
    Fail(RepError),
    /// The connection is finished and its driver with it.
    Close,
    /// Nothing can be done before one of the sources changes. The round ends.
    Yield,
}

/// A step without the channel ends that an `Emit` carries.
pub enum PeerStepView {
    PollSink,
    Transmit(Message),
    PollCompletions,
    PollInbound,
    Emit { source: PeerAddr, msg: Bytes, id: u32 },
    Fail(RepError),
    Close,
    Yield,
}

impl View for PeerStep {
    type V = PeerStepView;

    open spec fn view(&self) -> PeerStepView {
        match *self {
            PeerStep::PollSink => PeerStepView::PollSink,
            PeerStep::Transmit(m) => PeerStepView::Transmit(m),
            PeerStep::PollCompletions => PeerStepView::PollCompletions,
            PeerStep::PollInbound => PeerStepView::PollInbound,
            PeerStep::Emit { request, waiter, id } => PeerStepView::Emit {
                source: request.source,
                msg: request.msg,
                id,
            },
            PeerStep::Fail(e) => PeerStepView::Fail(e),
            PeerStep::Close => PeerStepView::Close,
            PeerStep::Yield => PeerStepView::Yield,
        }
    }
}

/// The state of one connection's driver.
pub struct PeerState {
    addr: PeerAddr,
    egress_queue: VecDeque<Message>,
    pending_requests: Vec<u32>,
}

/// The state of one connection's driver, as contracts see it.
pub struct PeerView {
    /// The address of the peer.
    pub addr: PeerAddr,
    /// Replies waiting to be transmitted, first out first.
    pub queue: Seq<Message>,
    /// The identifiers of the requests handed to the application and not yet
    /// completed, each as often as it is outstanding.
    pub pending: Multiset<u32>,
}

impl View for PeerState {
    type V = PeerView;

    closed spec fn view(&self) -> PeerView {
        PeerView {
            addr: self.addr,
            queue: self.egress_queue@,
            pending: self.pending_requests@.to_multiset(),
        }
    }
}

/// The state that follows `v` when `event` is reported.
pub open spec fn peer_next(v: PeerView, event: PeerEvent) -> PeerView {
    match event {
        PeerEvent::Sink { ready } => if ready && v.queue.len() > 0 {
            PeerView { queue: v.queue.drop_first(), ..v }
        } else {
            v
        },
        PeerEvent::Completed { id, reply } => if v.pending.contains(id) {
            match reply {
                Some(payload) => PeerView {
                    queue: v.queue.push(Message { id, payload }),
                    pending: v.pending.remove(id),
                    ..v
                },
                None => PeerView { pending: v.pending.remove(id), ..v },
            }
        } else {
            v
        },
        PeerEvent::Frame(m) => PeerView { pending: v.pending.insert(m.id), ..v },
        _ => v,
    }
}

/// The counters that follow `stats` when `event` is reported in state `v`.
pub open spec fn peer_stats_next(v: PeerView, stats: SocketStats, event: PeerEvent) -> SocketStats {
    match event {
        PeerEvent::Sent { size } => SocketStats { bytes_tx: wrap_add(stats.bytes_tx, size), ..stats },
        PeerEvent::Completed { id, reply } => if v.pending.contains(id) && reply is Some {
            stats
        } else {
            SocketStats { failed_requests: wrap_add(stats.failed_requests, 1), ..stats }
        },
        PeerEvent::CompletionLost => SocketStats {
            failed_requests: wrap_add(stats.failed_requests, 1),
            ..stats
        },
        _ => stats,
    }
}

/// What the driver asks for when `event` is reported in state `v`.
pub open spec fn peer_step(v: PeerView, event: PeerEvent) -> PeerStepView {
    match event {
        PeerEvent::Wake => PeerStepView::PollSink,
        PeerEvent::Sink { ready } => if ready && v.queue.len() > 0 {
            PeerStepView::Transmit(v.queue[0])
        } else {
            PeerStepView::PollCompletions
        },
        PeerEvent::Sent { size } => PeerStepView::PollSink,
        PeerEvent::SendFailed => PeerStepView::Close,
        PeerEvent::Completed { id, reply } => PeerStepView::PollSink,
        PeerEvent::CompletionLost => PeerStepView::PollSink,
        PeerEvent::NoCompletion => PeerStepView::PollInbound,
        PeerEvent::Frame(m) => PeerStepView::Emit { source: v.addr, msg: m.payload, id: m.id },
        PeerEvent::BadFrame(e) => PeerStepView::Fail(e),
        PeerEvent::Closed => PeerStepView::Close,
        PeerEvent::NoFrame => PeerStepView::Yield,
    }
}

impl PeerState {
    /// The driver of a connection from `addr` on which nothing has happened yet.
    pub fn new(addr: PeerAddr) -> (p: Self)
        ensures
            p@ == (PeerView { addr, queue: Seq::empty(), pending: Multiset::empty() }),
    {
        let p = PeerState {
            addr,
            egress_queue: VecDeque::with_capacity(64),
            pending_requests: Vec::new(),
        };
        proof {
            broadcast use group_to_multiset_ensures;
            assert(p.pending_requests@.to_multiset() =~= Multiset::empty());
        }
        p
    }

    /// The address of the peer.
    pub fn addr(&self) -> (a: PeerAddr)
        ensures
            a == self@.addr,
    {
        self.addr
    }

    /// The number of replies waiting to be transmitted.
    pub fn queued(&self) -> (n: usize)
        ensures
            n == self@.queue.len(),
    {
        self.egress_queue.len()
    }

    /// The number of requests handed out and not yet completed.
    pub fn outstanding(&self) -> (n: usize)
        ensures
            n == self@.pending.len(),
    {
        proof {
            broadcast use group_to_multiset_ensures;
        }
        self.pending_requests.len()
    }

    /// Retires one outstanding occurrence of `id`, if there is one.
    fn retire(&mut self, id: u32) -> (found: bool)
        ensures
            found == old(self)@.pending.contains(id),
            final(self)@ == (PeerView {
                pending: if found {
                    old(self)@.pending.remove(id)
                } else {
                    old(self)@.pending
                },
                ..old(self)@
            }),
    {
        proof {
            broadcast use group_to_multiset_ensures;
        }
        let mut i: usize = 0;
        while i < self.pending_requests.len()
            invariant
                i <= self.pending_requests.len(),
                *self == *old(self),
                forall|j: int| 0 <= j < i ==> self.pending_requests@[j] != id,
            decreases self.pending_requests.len() - i,
        {
            if self.pending_requests[i] == id {
                proof {
                    to_multiset_remove(self.pending_requests@, i as int);
                    to_multiset_contains(self.pending_requests@, id);
                    assert(self.pending_requests@[i as int] == id);
                }
                let _ = self.pending_requests.remove(i);
                return true;
            }
            i += 1;
        }
        proof {
            to_multiset_contains(self.pending_requests@, id);
        }
        false
    }

    /// Advances the driver by one observation.
    ///
    /// The new state and counters and the step asked for are those that
    /// [`peer_next`], [`peer_stats_next`] and [`peer_step`] give. The channel
    /// of an emitted request is fresh: its writing end travels with the
    /// request, its reading end is `waiter`.
    pub fn poll_next(&mut self, stats: &mut SocketStats, event: PeerEvent) -> (step: PeerStep)
        ensures
            final(self)@ == peer_next(old(self)@, event),
            *final(stats) == peer_stats_next(old(self)@, *old(stats), event),
            step@ == peer_step(old(self)@, event),
    {
        match event {
            PeerEvent::Wake => PeerStep::PollSink,
            PeerEvent::Sink { ready } => {
                if ready {
                    match self.egress_queue.pop_front() {
                        Some(msg) => PeerStep::Transmit(msg),
                        None => PeerStep::PollCompletions,
                    }
                } else {
                    PeerStep::PollCompletions
                }
            },
            PeerEvent::Sent { size } => {
                stats.increment_tx(size);
                PeerStep::PollSink
            },
            PeerEvent::SendFailed => PeerStep::Close,
            PeerEvent::Completed { id, reply } => {
                let found = self.retire(id);
                match reply {
                    Some(payload) => {
                        if found {
                            self.egress_queue.push_back(Message::new(id, payload));
                        } else {
                            stats.increment_failed_requests();
                        }
                    },
                    None => {
                        stats.increment_failed_requests();
                    },
                }
                PeerStep::PollSink
            },
            PeerEvent::CompletionLost => {
                stats.increment_failed_requests();
                PeerStep::PollSink
            },
            PeerEvent::NoCompletion => PeerStep::PollInbound,
            PeerEvent::Frame(msg) => {
                let id = msg.id();
                let (tx, rx) = oneshot::channel();
                proof {
                    broadcast use group_to_multiset_ensures;
                }
                self.pending_requests.push(id);
                let request = Request { source: self.addr, response: tx, msg: msg.into_payload() };
                PeerStep::Emit { request, waiter: rx, id }
            },
            PeerEvent::BadFrame(e) => PeerStep::Fail(e),
            PeerEvent::Closed => PeerStep::Close,
            PeerEvent::NoFrame => PeerStep::Yield,
        }
    }
}

} // verus!
