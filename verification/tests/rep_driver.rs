use bytes::Bytes;
use msg_socket::addr::PeerAddr;
use msg_socket::auth::AuthResult;
use msg_socket::error::RepError;
use msg_socket::message::Message;
use msg_socket::rep::driver::{forward_outcome, PeerItem, RepDriver, RepEvent, RepStep};
use msg_socket::rep::peer::{PeerEvent, PeerState, PeerStep};
use msg_socket::rep::request::{respond_outcome, Request};
use msg_socket::stats::SocketStats;
use tokio::sync::mpsc;

fn addr(port: u16) -> PeerAddr {
    PeerAddr::V4 { ip: 0xc0a8_0001, port }
}

fn driver(capacity: usize, auth: bool) -> (RepDriver, mpsc::Receiver<Request>, SocketStats) {
    let (tx, rx) = mpsc::channel(capacity);
    (RepDriver::new(tx, auth), rx, SocketStats::new())
}

fn request_from(peer: &mut PeerState, stats: &mut SocketStats, id: u32, payload: &'static [u8]) -> Request {
    match peer.poll_next(stats, PeerEvent::Frame(Message::new(id, Bytes::from_static(payload)))) {
        PeerStep::Emit { request, .. } => request,
        _ => panic!("expected a request"),
    }
}

#[test]
fn an_idle_driver_walks_through_its_sources_and_yields() {
    let (mut d, _rx, mut s) = driver(4, false);
    assert!(matches!(d.poll(&mut s, RepEvent::Wake), RepStep::PollPeers));
    assert!(matches!(d.poll(&mut s, RepEvent::NoPeerItem), RepStep::PollAuthTasks));
    assert!(matches!(d.poll(&mut s, RepEvent::NoAuthResult), RepStep::PollAccept));
    assert!(matches!(d.poll(&mut s, RepEvent::NoConnection), RepStep::Yield));
    assert_eq!(s, SocketStats::new());
    assert_eq!(d.peer_count(), 0);
}

#[test]
fn without_an_authenticator_a_connection_is_admitted_at_once() {
    let (mut d, _rx, mut s) = driver(4, false);
    assert!(!d.authenticates());
    match d.poll(&mut s, RepEvent::Accepted(addr(1))) {
        RepStep::Admit(peer) => {
            assert_eq!(peer.addr(), addr(1));
            assert_eq!(peer.queued(), 0);
            assert_eq!(peer.outstanding(), 0);
        }
        _ => panic!("expected an admission"),
    }
    assert_eq!(s.active_clients(), 1);
    assert!(d.is_connected(addr(1)));
    assert_eq!(d.peer_count(), 1);
}

#[test]
fn with_an_authenticator_a_connection_goes_through_the_handshake_first() {
    let (mut d, _rx, mut s) = driver(4, true);
    assert!(d.authenticates());
    match d.poll(&mut s, RepEvent::Accepted(addr(1))) {
        RepStep::Authenticate(a) => assert_eq!(a, addr(1)),
        _ => panic!("expected a handshake"),
    }
    assert_eq!(s.active_clients(), 0);
    assert!(!d.is_connected(addr(1)));
    let done = RepEvent::Authenticated(AuthResult { id: Bytes::from_static(b"ok"), addr: addr(1) });
    assert!(matches!(d.poll(&mut s, done), RepStep::Admit(_)));
    assert_eq!(s.active_clients(), 1);
    assert!(d.is_connected(addr(1)));
}

#[test]
fn a_failed_handshake_admits_nobody() {
    let (mut d, _rx, mut s) = driver(4, true);
    let _ = d.poll(&mut s, RepEvent::Accepted(addr(1)));
    let failed = RepEvent::AuthFailed(RepError::Auth("Authentication failed".to_string()));
    assert!(matches!(d.poll(&mut s, failed), RepStep::PollPeers));
    assert_eq!(s.active_clients(), 0);
    assert_eq!(d.peer_count(), 0);
}

#[test]
fn the_counter_follows_admissions_and_terminations() {
    let (mut d, _rx, mut s) = driver(4, false);
    let _ = d.poll(&mut s, RepEvent::Accepted(addr(1)));
    let _ = d.poll(&mut s, RepEvent::Accepted(addr(2)));
    let _ = d.poll(&mut s, RepEvent::Accepted(addr(3)));
    assert_eq!((s.active_clients(), d.peer_count()), (3, 3));
    let step = d.poll(&mut s, RepEvent::Peer { peer: addr(2), item: PeerItem::Closed });
    assert!(matches!(step, RepStep::PollPeers));
    assert_eq!((s.active_clients(), d.peer_count()), (2, 2));
    assert!(d.is_connected(addr(1)));
    assert!(!d.is_connected(addr(2)));
    assert!(d.is_connected(addr(3)));
    let _ = d.poll(&mut s, RepEvent::Peer { peer: addr(1), item: PeerItem::Closed });
    let _ = d.poll(&mut s, RepEvent::Peer { peer: addr(3), item: PeerItem::Closed });
    assert_eq!((s.active_clients(), d.peer_count()), (0, 0));
}

#[test]
fn a_termination_of_an_unknown_peer_changes_nothing() {
    let (mut d, _rx, mut s) = driver(4, false);
    let _ = d.poll(&mut s, RepEvent::Accepted(addr(1)));
    let _ = d.poll(&mut s, RepEvent::Peer { peer: addr(9), item: PeerItem::Closed });
    assert_eq!((s.active_clients(), d.peer_count()), (1, 1));
}

#[test]
fn an_address_admitted_again_replaces_the_peer_and_is_counted_once() {
    let (mut d, _rx, mut s) = driver(4, false);
    let _ = d.poll(&mut s, RepEvent::Accepted(addr(1)));
    assert!(matches!(d.poll(&mut s, RepEvent::Accepted(addr(1))), RepStep::Admit(_)));
    assert_eq!((s.active_clients(), d.peer_count()), (1, 1));
    let _ = d.poll(&mut s, RepEvent::Peer { peer: addr(1), item: PeerItem::Closed });
    assert_eq!((s.active_clients(), d.peer_count()), (0, 0));
}

#[test]
fn an_authenticated_address_admitted_again_is_counted_once() {
    let (mut d, _rx, mut s) = driver(4, true);
    let first = AuthResult { id: Bytes::from_static(b"ok"), addr: addr(1) };
    let again = AuthResult { id: Bytes::from_static(b"ok"), addr: addr(1) };
    assert!(matches!(d.poll(&mut s, RepEvent::Authenticated(first)), RepStep::Admit(_)));
    assert!(matches!(d.poll(&mut s, RepEvent::Authenticated(again)), RepStep::Admit(_)));
    assert_eq!((s.active_clients(), d.peer_count()), (1, 1));
}

#[test]
fn an_error_on_a_peer_or_on_the_listener_sends_the_round_back_to_the_peers() {
    let (mut d, _rx, mut s) = driver(4, false);
    let _ = d.poll(&mut s, RepEvent::Accepted(addr(1)));
    let item = PeerItem::Error(RepError::Wire("bad frame".to_string()));
    assert!(matches!(d.poll(&mut s, RepEvent::Peer { peer: addr(1), item }), RepStep::PollPeers));
    assert!(matches!(d.poll(&mut s, RepEvent::AcceptFailed), RepStep::PollPeers));
    assert_eq!((s.active_clients(), d.peer_count()), (1, 1));
}

#[test]
fn a_request_is_forwarded_and_its_payload_counted_as_received() {
    let (mut d, mut rx, mut s) = driver(4, false);
    let mut peer = match d.poll(&mut s, RepEvent::Accepted(addr(1))) {
        RepStep::Admit(peer) => peer,
        _ => panic!("expected an admission"),
    };
    let request = request_from(&mut peer, &mut s, 1, b"ping");
    let step = d.poll(&mut s, RepEvent::Peer { peer: addr(1), item: PeerItem::Request(request) });
    assert!(matches!(step, RepStep::PollPeers));
    assert_eq!(s.bytes_rx(), 4);
    let got = rx.try_recv().expect("forwarded");
    assert_eq!(got.source(), addr(1));
    assert_eq!(got.msg(), &Bytes::from_static(b"ping"));
}

#[test]
fn a_request_that_finds_the_queue_full_is_dropped() {
    let (mut d, mut rx, mut s) = driver(1, false);
    let mut peer = match d.poll(&mut s, RepEvent::Accepted(addr(1))) {
        RepStep::Admit(peer) => peer,
        _ => panic!("expected an admission"),
    };
    let (first, mut first_waiter) =
        match peer.poll_next(&mut s, PeerEvent::Frame(Message::new(1, Bytes::from_static(b"one")))) {
            PeerStep::Emit { request, waiter, .. } => (request, waiter),
            _ => panic!("expected a request"),
        };
    let (second, mut second_waiter) =
        match peer.poll_next(&mut s, PeerEvent::Frame(Message::new(2, Bytes::from_static(b"two")))) {
            PeerStep::Emit { request, waiter, .. } => (request, waiter),
            _ => panic!("expected a request"),
        };
    let _ = d.poll(&mut s, RepEvent::Peer { peer: addr(1), item: PeerItem::Request(first) });
    let _ = d.poll(&mut s, RepEvent::Peer { peer: addr(1), item: PeerItem::Request(second) });

    // The application finds the first request only.
    let got = rx.try_recv().expect("the first request");
    assert_eq!(got.msg(), &Bytes::from_static(b"one"));
    assert!(rx.try_recv().is_err());

    // The first request is answered as usual.
    assert!(got.respond(Bytes::from_static(b"uno")).is_ok());
    assert_eq!(first_waiter.try_recv().unwrap(), Bytes::from_static(b"uno"));
    let _ = peer.poll_next(&mut s, PeerEvent::Completed { id: 1, reply: Some(Bytes::from_static(b"uno")) });
    assert_eq!(peer.queued(), 1);

    // The second was dropped with its handle: it completes without a reply.
    assert!(second_waiter.try_recv().is_err());
    let _ = peer.poll_next(&mut s, PeerEvent::Completed { id: 2, reply: None });
    assert_eq!(peer.queued(), 1);
    assert_eq!(s.failed_requests(), 1);

    // Both payloads were received, three bytes each.
    assert_eq!(s.bytes_rx(), 6);
}

#[test]
fn a_request_is_dropped_when_the_application_is_gone() {
    let (mut d, rx, mut s) = driver(1, false);
    drop(rx);
    let mut peer = PeerState::new(addr(1));
    let request = request_from(&mut peer, &mut s, 1, b"ping");
    let step = d.poll(&mut s, RepEvent::Peer { peer: addr(1), item: PeerItem::Request(request) });
    assert!(matches!(step, RepStep::PollPeers));
    assert_eq!(s.bytes_rx(), 4);
}

#[test]
fn forward_hands_back_what_it_could_not_queue() {
    let (d, mut rx, mut s) = driver(1, false);
    let mut peer = PeerState::new(addr(1));
    let first = request_from(&mut peer, &mut s, 1, b"one");
    let second = request_from(&mut peer, &mut s, 2, b"two");
    assert!(d.forward(first).is_none());
    let back = d.forward(second).expect("no room");
    assert_eq!(back.msg(), &Bytes::from_static(b"two"));
    assert_eq!(rx.try_recv().expect("queued").msg(), &Bytes::from_static(b"one"));
    drop(rx);
    let third = request_from(&mut peer, &mut s, 3, b"three");
    let back = d.forward(third).expect("nobody listens");
    assert_eq!(back.msg(), &Bytes::from_static(b"three"));
}

#[test]
fn a_reply_for_one_peer_never_leaves_on_another() {
    let (mut d, mut rx, mut s) = driver(4, false);
    let mut a = match d.poll(&mut s, RepEvent::Accepted(addr(1))) {
        RepStep::Admit(peer) => peer,
        _ => panic!("expected an admission"),
    };
    let mut b = match d.poll(&mut s, RepEvent::Accepted(addr(2))) {
        RepStep::Admit(peer) => peer,
        _ => panic!("expected an admission"),
    };
    let (request, mut waiter) =
        match a.poll_next(&mut s, PeerEvent::Frame(Message::new(7, Bytes::from_static(b"from a")))) {
            PeerStep::Emit { request, waiter, .. } => (request, waiter),
            _ => panic!("expected a request"),
        };
    let _ = d.poll(&mut s, RepEvent::Peer { peer: addr(1), item: PeerItem::Request(request) });
    let request = rx.try_recv().expect("forwarded");
    assert_eq!(request.source(), addr(1));
    request.respond(Bytes::from_static(b"for a")).expect("taken");
    let reply = waiter.try_recv().ok();
    assert_eq!(reply, Some(Bytes::from_static(b"for a")));

    // Offered to the wrong peer, the completion is dropped.
    let _ = b.poll_next(&mut s, PeerEvent::Completed { id: 7, reply: Some(Bytes::from_static(b"for a")) });
    assert_eq!(b.queued(), 0);
    assert!(matches!(b.poll_next(&mut s, PeerEvent::Sink { ready: true }), PeerStep::PollCompletions));

    // Offered to its own peer, it is transmitted.
    let _ = a.poll_next(&mut s, PeerEvent::Completed { id: 7, reply });
    match a.poll_next(&mut s, PeerEvent::Sink { ready: true }) {
        PeerStep::Transmit(m) => assert_eq!((m.id(), m.into_payload()), (7, Bytes::from_static(b"for a"))),
        _ => panic!("expected a transmission"),
    }
}

#[test]
fn what_is_left_over_follows_the_attempt_to_queue() {
    let mut s = SocketStats::new();
    let mut peer = PeerState::new(addr(1));
    assert!(forward_outcome(Ok(())).is_none());
    let full = mpsc::error::TrySendError::Full(request_from(&mut peer, &mut s, 1, b"one"));
    assert_eq!(forward_outcome(Err(full)).expect("left over").msg(), &Bytes::from_static(b"one"));
    let closed = mpsc::error::TrySendError::Closed(request_from(&mut peer, &mut s, 2, b"two"));
    assert_eq!(forward_outcome(Err(closed)).expect("left over").msg(), &Bytes::from_static(b"two"));
}

#[test]
fn the_result_of_responding_follows_the_attempt_to_resolve() {
    assert!(respond_outcome(Ok(())).is_ok());
    let undelivered = Err(Bytes::from_static(b"pong"));
    assert!(matches!(respond_outcome(undelivered), Err(RepError::SocketClosed)));
}
