//! What the driver of a connection guarantees over whole runs: the replies it
//! transmits answer requests that arrived on this same connection, each
//! request at most once.

use vstd::prelude::*;
use crate::message::Message;
use crate::rep::peer::{peer_next, peer_stats_next, peer_step, PeerEvent, PeerStepView, PeerView};
use crate::stats::SocketStats;

verus! {

/// The state that follows `v` after the events of `events`, in order.
pub open spec fn peer_run(v: PeerView, events: Seq<PeerEvent>) -> PeerView
    decreases events.len(),
{
    if events.len() == 0 {
        v
    } else {
        peer_run(peer_next(v, events[0]), events.drop_first())
    }
}

/// One if `flag` holds, else zero.
pub open spec fn one_if(flag: bool) -> nat {
    if flag {
        1
    } else {
        0
    }
}

/// The number of frames in `queue` that go under `id`.
pub open spec fn queued_under(queue: Seq<Message>, id: u32) -> nat
    decreases queue.len(),
{
    if queue.len() == 0 {
        0
    } else {
        queued_under(queue.drop_last(), id) + one_if(queue.last().id == id)
    }
}

/// The number of replies under `id` that the connection in state `v` may still
/// transmit: those queued and those that the application has yet to give.
pub open spec fn owed_under(v: PeerView, id: u32) -> nat {
    v.pending.count(id) + queued_under(v.queue, id)
}

/// The number of requests under `id` that arrive during `events`.
pub open spec fn requests_under(events: Seq<PeerEvent>, id: u32) -> nat
    decreases events.len(),
{
    if events.len() == 0 {
        0
    } else {
        one_if(events[0] matches PeerEvent::Frame(m) && m.id == id) + requests_under(
            events.drop_first(),
            id,
        )
    }
}

/// The number of replies under `id` that the driver hands out for
/// transmission during `events`, starting in state `v`.
pub open spec fn replies_under(v: PeerView, events: Seq<PeerEvent>, id: u32) -> nat
    decreases events.len(),
{
    if events.len() == 0 {
        0
    } else {
        one_if(peer_step(v, events[0]) matches PeerStepView::Transmit(m) && m.id == id)
            + replies_under(peer_next(v, events[0]), events.drop_first(), id)
    }
}

/// Taking the first frame off a queue takes one off the count of its
/// identifier and leaves the others.
proof fn lemma_queue_without_first(queue: Seq<Message>, id: u32)
    requires
        queue.len() > 0,
    ensures
        queued_under(queue, id) == queued_under(queue.drop_first(), id) + one_if(queue[0].id == id),
    decreases queue.len(),
{
    if queue.len() == 1 {
        assert(queue.drop_last() =~= Seq::<Message>::empty());
        assert(queue.drop_first() =~= Seq::<Message>::empty());
    } else {
        lemma_queue_without_first(queue.drop_last(), id);
        assert(queue.drop_first().drop_last() =~= queue.drop_last().drop_first());
    }
}

/// One event changes what is owed under `id` by the request that arrives less
/// the reply that leaves, or by less.
proof fn lemma_one_event(v: PeerView, event: PeerEvent, id: u32)
    ensures
        one_if(peer_step(v, event) matches PeerStepView::Transmit(m) && m.id == id) + owed_under(
            peer_next(v, event),
            id,
        ) <= owed_under(v, id) + one_if(event matches PeerEvent::Frame(m) && m.id == id),
{
    match event {
        PeerEvent::Sink { ready } => {
            if ready && v.queue.len() > 0 {
                lemma_queue_without_first(v.queue, id);
            }
        },
        PeerEvent::Completed { id: done, reply } => {
            if v.pending.contains(done) {
                if let Some(payload) = reply {
                    let m = Message { id: done, payload };
                    assert(v.queue.push(m).drop_last() =~= v.queue);
                }
            }
        },
        _ => {},
    }
}

/// Every reply answers a request of this connection, and no request is
/// answered twice.
///
/// Over any run, the replies handed out for transmission under an identifier,
/// together with those still owed at the end, are no more than the requests
/// that arrived under it on this connection and what was owed at the start.
pub proof fn law_replies_answer_requests(v: PeerView, events: Seq<PeerEvent>, id: u32)
    ensures
        replies_under(v, events, id) + owed_under(peer_run(v, events), id) <= owed_under(v, id)
            + requests_under(events, id),
    decreases events.len(),
{
    if events.len() > 0 {
        lemma_one_event(v, events[0], id);
        law_replies_answer_requests(peer_next(v, events[0]), events.drop_first(), id);
    }
}

/// On a connection that starts with nothing owed, the replies transmitted
/// under an identifier are no more than the requests received under it.
pub proof fn law_no_reply_without_request(v: PeerView, events: Seq<PeerEvent>, id: u32)
    requires
        v.queue.len() == 0,
        v.pending.count(id) == 0,
    ensures
        replies_under(v, events, id) <= requests_under(events, id),
{
    law_replies_answer_requests(v, events, id);
}

/// A completion that this connection does not wait for puts nothing on its
/// queue: what the application answers to a request of another connection
/// cannot leave on this one.
pub proof fn law_foreign_completion_is_dropped(v: PeerView, event: PeerEvent)
    requires
        event matches PeerEvent::Completed { id, .. } && !v.pending.contains(id),
    ensures
        peer_next(v, event) == v,
        peer_step(v, event) == PeerStepView::PollSink,
{
}

/// A request is handed to the application under the address of the
/// connection it arrived on, with the identifier and payload of its frame.
pub proof fn law_request_names_its_connection(v: PeerView, frame: Message)
    ensures
        peer_step(v, PeerEvent::Frame(frame)) == (PeerStepView::Emit {
            source: v.addr,
            msg: frame.payload,
            id: frame.id,
        }),
        peer_next(v, PeerEvent::Frame(frame)).pending == v.pending.insert(frame.id),
{
}

/// The driver of a connection never changes the count of connected peers.
pub proof fn law_peer_leaves_peer_count(v: PeerView, stats: SocketStats, event: PeerEvent)
    ensures
        peer_stats_next(v, stats, event).active_clients == stats.active_clients,
{
}

} // verus!
