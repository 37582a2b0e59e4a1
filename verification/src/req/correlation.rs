//! What the requesting driver guarantees over whole runs: a reply reaches the
//! caller whose request it answers, a request is answered at most once, and
//! when the driver ends no caller is left waiting.

use vstd::prelude::*;
use bytes::Bytes;
use crate::error::ReqError;
use crate::handle::ReplyHandle;
use crate::message::Message;
use crate::req::driver::{is_final, req_delivery, req_next, req_step, Command, ReqEvent, ReqStep, ReqView};
use crate::req::socket::reply_result;
use crate::request_id::next_id;

verus! {

/// The state that follows `v` after the events of `events`, in order.
pub open spec fn req_run(v: ReqView, events: Seq<ReqEvent>) -> ReqView
    decreases events.len(),
{
    if events.len() == 0 {
        v
    } else {
        req_run(req_next(v, events[0]), events.drop_first())
    }
}

/// The number of commands among `events`.
pub open spec fn commands_in(events: Seq<ReqEvent>) -> nat
    decreases events.len(),
{
    if events.len() == 0 {
        0
    } else if events[0] is Command {
        1 + commands_in(events.drop_first())
    } else {
        commands_in(events.drop_first())
    }
}

/// No event of `events` is a frame under `id`.
pub open spec fn no_frame_under(events: Seq<ReqEvent>, id: u32) -> bool {
    forall|i: int|
        0 <= i < events.len() ==> !(#[trigger] events[i] matches ReqEvent::Frame(m) && m.id == id)
}

/// No event of `events` ends the driver.
pub open spec fn none_final(events: Seq<ReqEvent>) -> bool {
    forall|i: int| 0 <= i < events.len() ==> !is_final(#[trigger] events[i])
}

/// The number of requests that a driver standing at `next` can take before it
/// hands out `id`.
pub open spec fn room(next: u32, id: u32) -> int {
    if next <= id {
        id - next
    } else {
        id + 0x1_0000_0000 - next
    }
}

/// A slot stays as it is while no frame arrives under its identifier, the
/// driver does not end and the counter does not come round to it.
proof fn lemma_slot_is_kept(v: ReqView, id: u32, handle: ReplyHandle, events: Seq<ReqEvent>)
    requires
        v.pending.contains_key(id),
        v.pending[id] == handle,
        no_frame_under(events, id),
        none_final(events),
        commands_in(events) <= room(v.next_id, id),
    ensures
        req_run(v, events).pending.contains_key(id),
        req_run(v, events).pending[id] == handle,
        room(req_run(v, events).next_id, id) == room(v.next_id, id) - commands_in(events),
    decreases events.len(),
{
    if events.len() > 0 {
        let e = events[0];
        let rest = events.drop_first();
        assert(!is_final(e));
        assert(!(e matches ReqEvent::Frame(m) && m.id == id));
        assert forall|i: int| 0 <= i < rest.len() implies !(#[trigger] rest[i] matches ReqEvent::Frame(
            m,
        ) && m.id == id) && !is_final(rest[i]) by {
            assert(rest[i] == events[i + 1]);
        }
        lemma_slot_is_kept(req_next(v, e), id, handle, rest);
    }
}

/// A closed slot stays closed while the counter does not come round to its
/// identifier.
proof fn lemma_slot_stays_closed(v: ReqView, id: u32, events: Seq<ReqEvent>)
    requires
        !v.pending.contains_key(id),
        commands_in(events) <= room(v.next_id, id),
    ensures
        !req_run(v, events).pending.contains_key(id),
    decreases events.len(),
{
    if events.len() > 0 {
        lemma_slot_stays_closed(req_next(v, events[0]), id, events.drop_first());
    }
}

/// A reply reaches the caller whose request it answers.
///
/// A caller submits a request in any state of the driver and is given the
/// identifier the driver stands at. Whatever happens in between — other
/// requests, fewer than 2^32 of them, replies to them in any order, frames
/// that nobody waits for — as long as the driver does not end, the frame that
/// comes back under that identifier is delivered to that caller's handle, with
/// that frame's payload.
pub proof fn law_reply_reaches_its_caller(
    v: ReqView,
    message: Bytes,
    handle: ReplyHandle,
    between: Seq<ReqEvent>,
    reply: Message,
)
    requires
        reply.id == v.next_id,
        no_frame_under(between, v.next_id),
        none_final(between),
        commands_in(between) < 0x1_0000_0000,
    ensures
        req_delivery(
            req_run(
                req_next(v, ReqEvent::Command(Command::Send { message, response: handle })),
                between,
            ),
            ReqEvent::Frame(reply),
        ) == Some((handle, reply.payload)),
{
    let sent = req_next(v, ReqEvent::Command(Command::Send { message, response: handle }));
    lemma_slot_is_kept(sent, v.next_id, handle, between);
}

/// A frame is delivered to the caller in its identifier's slot and to nobody
/// else: it leaves every other slot as it was.
pub proof fn law_reply_touches_no_other_slot(v: ReqView, reply: Message, other: u32)
    requires
        other != reply.id,
    ensures
        req_next(v, ReqEvent::Frame(reply)).pending.contains_key(other) == v.pending.contains_key(
            other,
        ),
        v.pending.contains_key(other) ==> req_next(v, ReqEvent::Frame(reply)).pending[other]
            == v.pending[other],
{
}

/// A request is answered at most once.
///
/// Once a frame has arrived under an identifier, a second frame under it is
/// delivered to nobody, whatever happens in between, as long as the counter
/// does not come round to the identifier again.
pub proof fn law_second_reply_is_discarded(
    v: ReqView,
    first: Message,
    between: Seq<ReqEvent>,
    second: Message,
)
    requires
        second.id == first.id,
        commands_in(between) <= room(v.next_id, first.id),
    ensures
        req_delivery(req_run(req_next(v, ReqEvent::Frame(first)), between), ReqEvent::Frame(second))
            is None,
        req_step(req_run(req_next(v, ReqEvent::Frame(first)), between), ReqEvent::Frame(second))
            == ReqStep::PollSink,
{
    lemma_slot_stays_closed(req_next(v, ReqEvent::Frame(first)), first.id, between);
}

/// When the driver ends, no caller is left waiting.
///
/// On every event that ends the driver — the connection closed or broke, the
/// socket went away — the driver exits, resolves nobody and drops every open
/// slot; a caller whose handle is dropped unresolved sees `SocketClosed`.
pub proof fn law_teardown_fails_every_pending_request(v: ReqView, event: ReqEvent)
    requires
        is_final(event),
    ensures
        req_step(v, event) == ReqStep::Exit,
        req_delivery(v, event) is None,
        req_next(v, event).pending == Map::<u32, ReplyHandle>::empty(),
        reply_result(None) == Err::<Bytes, ReqError>(ReqError::SocketClosed),
{
}

} // verus!
