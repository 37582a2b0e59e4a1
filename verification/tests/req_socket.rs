use bytes::Bytes;
use msg_socket::error::ReqError;
use msg_socket::req::driver::{Command, ReqEvent, ReqStep};
use msg_socket::req::socket::{ReqOptions, ReqSocket, DEFAULT_BUFFER_SIZE};
use msg_socket::stats::SocketStats;

#[test]
fn a_new_socket_is_not_connected_and_has_default_options() {
    let socket = ReqSocket::new();
    assert!(!socket.is_connected());
    assert!(socket.to_driver().is_none());
    assert!(socket.options().client_id.is_none());
    assert!(ReqOptions::default().client_id.is_none());
}

#[test]
fn with_options_replaces_the_options() {
    let options = ReqOptions::default().with_id(Bytes::from_static(b"ok"));
    let socket = ReqSocket::new().with_options(options);
    assert_eq!(socket.options().client_id, Some(Bytes::from_static(b"ok")));
    assert!(!socket.is_connected());
}

#[test]
fn a_request_on_a_socket_that_is_not_connected_fails() {
    let socket = ReqSocket::new();
    assert!(matches!(socket.request(Bytes::from_static(b"ping")), Err(ReqError::SocketClosed)));
}

#[test]
fn a_failed_connection_is_a_transport_error_and_changes_nothing() {
    let mut socket = ReqSocket::new();
    match socket.connect(Err("connection refused".to_string())) {
        Err(ReqError::Transport(why)) => assert_eq!(why, "connection refused"),
        _ => panic!("expected a transport error"),
    }
    assert!(!socket.is_connected());
}

#[test]
fn a_connected_socket_hands_commands_to_a_fresh_driver() {
    let mut socket = ReqSocket::new();
    let (mut driver, mut from_socket) = socket.connect(Ok(())).expect("connected");
    assert!(socket.is_connected());
    assert!(driver.is_idle());
    assert_eq!(driver.queued(), 0);

    let (command, mut waiting) = socket.request(Bytes::from_static(b"ping")).expect("prepared");
    match &command {
        Command::Send { message, .. } => assert_eq!(message, &Bytes::from_static(b"ping")),
    }
    socket.to_driver().expect("queue").try_send(command).expect("room");

    let mut stats = SocketStats::new();
    let command = from_socket.try_recv().expect("the command");
    assert!(matches!(driver.poll(&mut stats, ReqEvent::Command(command)), ReqStep::PollSink));
    let frame = match driver.poll(&mut stats, ReqEvent::Sink { ready: true }) {
        ReqStep::Transmit(frame) => frame,
        other => panic!("expected a transmission, got {:?}", other),
    };
    assert_eq!(frame.id(), 0);
    assert_eq!(frame.payload(), &Bytes::from_static(b"ping"));

    let back = msg_socket::message::Message::new(0, Bytes::from_static(b"pong"));
    let _ = driver.poll(&mut stats, ReqEvent::Frame(back));
    let outcome = waiting.try_recv().ok();
    assert_eq!(ReqSocket::reply(outcome).unwrap(), Bytes::from_static(b"pong"));
}

#[test]
fn the_command_queue_holds_the_default_number_of_commands() {
    let mut socket = ReqSocket::new();
    let (_driver, _from_socket) = socket.connect(Ok(())).expect("connected");
    assert_eq!(DEFAULT_BUFFER_SIZE, 1024);
    assert_eq!(socket.to_driver().expect("queue").max_capacity(), 1024);
}

#[test]
fn a_caller_whose_handle_was_dropped_sees_the_socket_closed() {
    let mut socket = ReqSocket::new();
    let (mut driver, _from_socket) = socket.connect(Ok(())).expect("connected");
    let (command, mut waiting) = socket.request(Bytes::from_static(b"ping")).expect("prepared");
    let mut stats = SocketStats::new();
    let _ = driver.poll(&mut stats, ReqEvent::Command(command));
    assert!(matches!(driver.poll(&mut stats, ReqEvent::Closed), ReqStep::Exit));
    let outcome = waiting.try_recv().ok();
    assert!(outcome.is_none());
    assert!(matches!(ReqSocket::reply(outcome), Err(ReqError::SocketClosed)));
}

#[test]
fn an_error_that_the_driver_resolved_with_is_passed_on() {
    let outcome = Some(Err(ReqError::Wire("bad frame".to_string())));
    match ReqSocket::reply(outcome) {
        Err(ReqError::Wire(why)) => assert_eq!(why, "bad frame"),
        _ => panic!("expected the wire error"),
    }
}

#[test]
fn a_command_that_the_driver_did_not_take_means_the_socket_is_closed() {
    assert!(ReqSocket::submitted(true).is_ok());
    assert!(matches!(ReqSocket::submitted(false), Err(ReqError::SocketClosed)));
}
