//! The driver that multiplexes the connections of a replying socket.
//!
//! As with a single connection, the driver decides and its caller waits. Each
//! call of [`RepDriver::poll`] takes one observation and answers with the next
//! thing to do. A round starts with `Wake` and ends with `Yield`. The sources
//! are consulted in a fixed order: the connected peers first, then the
//! handshakes under way, then the listener; any progress sends the round back
//! to the peers.

use vstd::prelude::*;
use vstd::seq_lib::group_seq_properties;
use tokio::sync::mpsc;
use crate::addr::PeerAddr;
use crate::auth::AuthResult;
use crate::error::RepError;
use crate::rep::peer::{PeerState, PeerView};
use crate::rep::request::Request;
use crate::stats::{SocketStats, wrap_add, wrap_dec};

verus! {

/// What the driver of one connection has produced.
pub enum PeerItem {
    /// A request for the application.
    Request(Request),
    /// An error on the connection.
    Error(RepError),
    /// The connection is finished.
    Closed,
}

/// What the caller reports to the multiplexing driver.
pub enum RepEvent {
    /// A new round begins.
    Wake,
    /// The driver of the connection from `peer` produced `item`.
    Peer { peer: PeerAddr, item: PeerItem },
    /// No connection has produced anything.
    NoPeerItem,
    /// A handshake ended well.
    Authenticated(AuthResult),
    /// A handshake ended badly; the connection is closed already.
    AuthFailed(RepError),
    /// No handshake has ended.
    NoAuthResult,
    /// The listener accepted a connection from this address.
    Accepted(PeerAddr),
    /// The listener failed to accept a connection.
    AcceptFailed,
    /// No connection is waiting to be accepted.
    NoConnection,
}

/// What the multiplexing driver asks of its caller.
pub enum RepStep {
    /// Look for something a connection produced and report `Peer` or
    /// `NoPeerItem`.
    PollPeers,
    /// Look for a finished handshake and report `Authenticated`, `AuthFailed`
    /// or `NoAuthResult`.
    PollAuthTasks,
    /// Look for a new connection and report `Accepted`, `AcceptFailed` or
    /// `NoConnection`.
    PollAccept,
    /// Add the connection, driven by this state, to the connected peers, in
    /// place of any other under the same address, which ends thereby, and
    /// report `Wake`.
    Admit(PeerState),
    /// Start a handshake on the connection from this address and report `Wake`.
    Authenticate(PeerAddr),
    /// Nothing can be done before one of the sources changes. The round ends.
    Yield,
}

/// A step with the admitted connection's state as contracts see it.
pub enum RepStepView {
    PollPeers,
    PollAuthTasks,
    PollAccept,
    Admit(PeerView),
    Authenticate(PeerAddr),
    Yield,
}

impl View for RepStep {
    type V = RepStepView;

    open spec fn view(&self) -> RepStepView {
        match *self {
            RepStep::PollPeers => RepStepView::PollPeers,
            RepStep::PollAuthTasks => RepStepView::PollAuthTasks,
            RepStep::PollAccept => RepStepView::PollAccept,
            RepStep::Admit(p) => RepStepView::Admit(p@),
            RepStep::Authenticate(a) => RepStepView::Authenticate(a),
            RepStep::Yield => RepStepView::Yield,
        }
    }
}

/// The multiplexing driver of a replying socket.
pub struct RepDriver {
    peers: Vec<PeerAddr>,
    to_socket: mpsc::Sender<Request>,
    auth: bool,
}

/// The multiplexing driver as contracts see it.
pub struct RepView {
    /// The addresses of the connected peers.
    pub peers: Set<PeerAddr>,
    /// Whether a connection has to pass the handshake before it is admitted.
    pub auth: bool,
}

impl View for RepDriver {
    type V = RepView;

    closed spec fn view(&self) -> RepView {
        RepView { peers: self.peers@.to_set(), auth: self.auth }
    }
}

/// The state of a connection's driver at the moment of admission.
pub open spec fn fresh_peer(addr: PeerAddr) -> PeerView {
    PeerView { addr, queue: Seq::empty(), pending: vstd::multiset::Multiset::empty() }
}

/// The address that `event` admits to the connected peers in state `v`, if any.
pub open spec fn admitted(v: RepView, event: RepEvent) -> Option<PeerAddr> {
    match event {
        RepEvent::Authenticated(a) => Some(a.addr),
        RepEvent::Accepted(addr) => if v.auth {
            None
        } else {
            Some(addr)
        },
        _ => None,
    }
}

/// The address whose connection `event` ends in state `v`, if any.
pub open spec fn terminated(v: RepView, event: RepEvent) -> Option<PeerAddr> {
    match event {
        RepEvent::Peer { peer, item: PeerItem::Closed } => if v.peers.contains(peer) {
            Some(peer)
        } else {
            None
        },
        _ => None,
    }
}

/// The state that follows `v` when `event` is reported.
pub open spec fn rep_next(v: RepView, event: RepEvent) -> RepView {
    if let Some(addr) = admitted(v, event) {
        RepView { peers: v.peers.insert(addr), ..v }
    } else if let Some(addr) = terminated(v, event) {
        RepView { peers: v.peers.remove(addr), ..v }
    } else {
        v
    }
}

/// Whether `event` brings a connection under an address that has none yet.
pub open spec fn joins(v: RepView, event: RepEvent) -> bool {
    admitted(v, event) matches Some(addr) && !v.peers.contains(addr)
}

/// The counters that follow `stats` when `event` is reported in state `v`:
/// one peer more for each connection that joins, one less for each
/// termination, and the payload's length more received for each request. An
/// admission under an address that is connected already puts the new
/// connection in the place of the old one, which ends thereby: the number of
/// peers stays.
pub open spec fn rep_stats_next(v: RepView, stats: SocketStats, event: RepEvent) -> SocketStats {
    if joins(v, event) {
        SocketStats { active_clients: wrap_add(stats.active_clients, 1), ..stats }
    } else if admitted(v, event) is Some {
        stats
    } else if terminated(v, event) is Some {
        SocketStats { active_clients: wrap_dec(stats.active_clients), ..stats }
    } else if let RepEvent::Peer { peer, item: PeerItem::Request(r) } = event {
        SocketStats {
            bytes_rx: wrap_add(
                stats.bytes_rx,
                crate::payload::payload_bytes(r.msg).len() as usize,
            ),
            ..stats
        }
    } else {
        stats
    }
}

/// What the driver asks for when `event` is reported in state `v`.
pub open spec fn rep_step(v: RepView, event: RepEvent) -> RepStepView {
    match event {
        RepEvent::Wake => RepStepView::PollPeers,
        RepEvent::Peer { peer, item } => RepStepView::PollPeers,
        RepEvent::NoPeerItem => RepStepView::PollAuthTasks,
        RepEvent::Authenticated(a) => RepStepView::Admit(fresh_peer(a.addr)),
        RepEvent::AuthFailed(e) => RepStepView::PollPeers,
        RepEvent::NoAuthResult => RepStepView::PollAccept,
        RepEvent::Accepted(addr) => if v.auth {
            RepStepView::Authenticate(addr)
        } else {
            RepStepView::Admit(fresh_peer(addr))
        },
        RepEvent::AcceptFailed => RepStepView::PollPeers,
        RepEvent::NoConnection => RepStepView::Yield,
    }
}

/// The request that is left over after an attempt to queue it: none if it was
/// queued, else the request that the attempt gives back.
pub open spec fn dropped_request(attempt: Result<(), mpsc::error::TrySendError<Request>>) -> Option<
    Request,
> {
    match attempt {
        Ok(_) => None,
        Err(mpsc::error::TrySendError::Full(back)) => Some(back),
        Err(mpsc::error::TrySendError::Closed(back)) => Some(back),
    }
}

/// Says what an attempt to queue a request came to: nothing is left over if
/// it was queued; if the queue was full or the application gone, the request
/// is left over, to be dropped.
pub fn forward_outcome(attempt: Result<(), mpsc::error::TrySendError<Request>>) -> (dropped: Option<
    Request,
>)
    ensures
        dropped == dropped_request(attempt),
{
    match attempt {
        Ok(_) => None,
        Err(mpsc::error::TrySendError::Full(back)) => Some(back),
        Err(mpsc::error::TrySendError::Closed(back)) => Some(back),
    }
}

/// The counter of connected peers says how many are connected.
pub open spec fn accounted(v: RepView, stats: SocketStats) -> bool {
    stats.active_clients == v.peers.len()
}

/// Taking an element out of a sequence without repetitions takes it out of
/// the set of its elements, and leaves a sequence without repetitions.
proof fn lemma_remove_distinct<A>(s: Seq<A>, i: int)
    requires
        s.no_duplicates(),
        0 <= i < s.len(),
    ensures
        s.remove(i).no_duplicates(),
        s.remove(i).to_set() == s.to_set().remove(s[i]),
{
    let r = s.remove(i);
    assert forall|x: A| r.to_set().contains(x) <==> s.to_set().remove(s[i]).contains(x) by {
        if r.contains(x) {
            let j = choose|j: int| 0 <= j < r.len() && r[j] == x;
            if j < i {
                assert(s[j] == x);
            } else {
                assert(s[j + 1] == x);
            }
        }
        if s.contains(x) && x != s[i] {
            let k = choose|k: int| 0 <= k < s.len() && s[k] == x;
            if k < i {
                assert(r[k] == x);
            } else {
                assert(r[k - 1] == x);
            }
        }
    }
    assert(r.to_set() =~= s.to_set().remove(s[i]));
}

impl RepDriver {
    /// No address stands twice among the peers. Every driver that `new` made
    /// and `poll` advanced is of this kind.
    pub closed spec fn wf(&self) -> bool {
        self.peers@.no_duplicates()
    }

    /// The queue on which the driver hands requests to the application.
    pub closed spec fn queue(&self) -> mpsc::Sender<Request> {
        self.to_socket
    }

    /// A driver with no peers that hands requests to `to_socket`. With `auth`
    /// set, connections have to pass the handshake.
    pub fn new(to_socket: mpsc::Sender<Request>, auth: bool) -> (d: Self)
        ensures
            d.wf(),
            d.queue() == to_socket,
            d@ == (RepView { peers: Set::empty(), auth }),
    {
        let d = RepDriver { peers: Vec::new(), to_socket, auth };
        assert(d.peers@.to_set() =~= Set::empty());
        d
    }

    /// Whether connections have to pass the handshake.
    pub fn authenticates(&self) -> (b: bool)
        ensures
            b == self@.auth,
    {
        self.auth
    }

    /// The number of connected peers.
    pub fn peer_count(&self) -> (n: usize)
        requires
            self.wf(),
        ensures
            n == self@.peers.len(),
            self@.peers.finite(),
    {
        proof {
            self.peers@.unique_seq_to_set();
        }
        self.peers.len()
    }

    /// Where `addr` stands among the peers, if it does.
    fn position(&self, addr: PeerAddr) -> (at: Option<usize>)
        ensures
            at is Some == self@.peers.contains(addr),
            at matches Some(i) ==> i < self.peers@.len() && self.peers@[i as int] == addr,
    {
        let mut i: usize = 0;
        while i < self.peers.len()
            invariant
                i <= self.peers.len(),
                forall|j: int| 0 <= j < i ==> self.peers@[j] != addr,
            decreases self.peers.len() - i,
        {
            if self.peers[i] == addr {
                assert(self.peers@.contains(addr));
                return Some(i);
            }
            i += 1;
        }
        assert(!self.peers@.contains(addr));
        None
    }

    /// Whether a peer is connected from `addr`.
    pub fn is_connected(&self, addr: PeerAddr) -> (b: bool)
        ensures
            b == self@.peers.contains(addr),
    {
        self.position(addr).is_some()
    }

    /// Offers `request` to the application's queue without waiting. If the
    /// queue is full or the application is gone, the request comes back.
    ///
    /// Whether there is room is for the queue to say; what is left over for
    /// each answer is what [`forward_outcome`] gives.
    pub fn forward(&self, request: Request) -> (dropped: Option<Request>)
        ensures
            dropped matches Some(back) ==> back == request,
    {
        forward_outcome(self.to_socket.try_send(request))
    }

    /// Takes a peer from `addr` in, counting it unless it takes the place of
    /// one connected from there already, and makes the state that drives it.
    fn promote(&mut self, stats: &mut SocketStats, addr: PeerAddr) -> (p: PeerState)
        requires
            old(self).wf(),
        ensures
            final(self).wf(),
            final(self).queue() == old(self).queue(),
            final(self)@ == (RepView { peers: old(self)@.peers.insert(addr), ..old(self)@ }),
            *final(stats) == (if old(self)@.peers.contains(addr) {
                *old(stats)
            } else {
                SocketStats {
                    active_clients: wrap_add(old(stats).active_clients, 1),
                    ..*old(stats)
                }
            }),
            p@ == fresh_peer(addr),
    {
        if self.position(addr).is_none() {
            proof {
                assert(self.peers@.push(addr).to_set() =~= self.peers@.to_set().insert(addr)) by {
                    broadcast use group_seq_properties;
                }
            }
            self.peers.push(addr);
            stats.increment_active_clients();
        } else {
            assert(self.peers@.to_set().insert(addr) =~= self.peers@.to_set());
        }
        PeerState::new(addr)
    }

    /// Advances the driver by one observation.
    ///
    /// The new state and counters and the step asked for are those that
    /// [`rep_next`], [`rep_stats_next`] and [`rep_step`] give; the queue to the
    /// application stays the one the driver was made with. A request is
    /// offered to that queue without waiting; if the queue is full or gone,
    /// the request is dropped and nothing else happens.
    ///
    /// A request dropped in this way gets no reply, and its sender is told
    /// nothing. The drop itself is not counted as a failed request. The
    /// request's handle goes with it, though, so the connection's driver later
    /// sees that request complete without a reply and counts it then, like
    /// one that the application let go of: the two are kept in one counter.
    pub fn poll(&mut self, stats: &mut SocketStats, event: RepEvent) -> (step: RepStep)
        requires
            old(self).wf(),
        ensures
            final(self).wf(),
            final(self).queue() == old(self).queue(),
            final(self)@ == rep_next(old(self)@, event),
            *final(stats) == rep_stats_next(old(self)@, *old(stats), event),
            step@ == rep_step(old(self)@, event),
    {
        match event {
            RepEvent::Wake => RepStep::PollPeers,
            RepEvent::Peer { peer, item } => {
                match item {
                    PeerItem::Request(request) => {
                        stats.increment_rx(request.msg().len());
                        let _ = self.forward(request);
                    },
                    PeerItem::Error(e) => {},
                    PeerItem::Closed => {
                        match self.position(peer) {
                            Some(i) => {
                                proof {
                                    lemma_remove_distinct(self.peers@, i as int);
                                }
                                let _ = self.peers.remove(i);
                                stats.decrement_active_clients();
                            },
                            None => {},
                        }
                    },
                }
                RepStep::PollPeers
            },
            RepEvent::NoPeerItem => RepStep::PollAuthTasks,
            RepEvent::Authenticated(a) => RepStep::Admit(self.promote(stats, a.addr)),
            RepEvent::AuthFailed(e) => RepStep::PollPeers,
            RepEvent::NoAuthResult => RepStep::PollAccept,
            RepEvent::Accepted(addr) => {
                if self.auth {
                    RepStep::Authenticate(addr)
                } else {
                    RepStep::Admit(self.promote(stats, addr))
                }
            },
            RepEvent::AcceptFailed => RepStep::PollPeers,
            RepEvent::NoConnection => RepStep::Yield,
        }
    }
}

/// The counter of connected peers is right for a driver without peers.
pub proof fn law_accounting_starts_right(auth: bool)
    ensures
        accounted(RepView { peers: Set::empty(), auth }, SocketStats::zero()),
{
}

/// The counter of connected peers stays right.
///
/// If the counter says how many peers are connected, it still does after any
/// event: it goes up by one exactly when a connection joins under an address
/// that had none, down by one exactly when a connected peer terminates, and
/// stays on every other event, also when a connection takes the place of
/// another under its address. Left out is only a count that has no room for
/// one more.
pub proof fn law_accounting_is_kept(v: RepView, stats: SocketStats, event: RepEvent)
    requires
        v.peers.finite(),
        v.peers.len() < usize::MAX,
        accounted(v, stats),
    ensures
        rep_next(v, event).peers.finite(),
        accounted(rep_next(v, event), rep_stats_next(v, stats, event)),
        joins(v, event) ==> rep_next(v, event).peers.len() == v.peers.len() + 1,
        terminated(v, event) is Some ==> rep_next(v, event).peers.len() == v.peers.len() - 1,
        !joins(v, event) && terminated(v, event) is None ==> rep_next(v, event).peers == v.peers,
{
    if let Some(addr) = admitted(v, event) {
        if v.peers.contains(addr) {
            assert(v.peers.insert(addr) =~= v.peers);
        }
    }
}

} // verus!
