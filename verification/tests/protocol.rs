use katoptron::errors::{FailExt, IoError, CodecError, ErrWithContext, ResultExt};
use katoptron::errors::{RecvError, RecvErrorKind, SendError, SendErrorKind, TxError, TxErrorKind, Cause, TxCause};
use katoptron::message::{
    check_handshake, handshake_message, heartbeat_message, notification_message, notification_step,
    sender_action, shell_notification, window_text, Attempts, Handshake, HandshakeAction,
    HandshakeEvent, Message, Notification, NotificationStep, SenderAction, SenderEvent, ShellEvent,
};
use katoptron::wire::{
    eavesdrop_magic, frame_header, is_eavesdrop_magic, read_progress, write_failed, Connection,
    ReadProgress, ReadResult, RecvStage, RecvStep, SendStage, BUFFER_SIZE, PROTOCOL_VERSION,
};

fn io(msg: &str) -> IoError {
    IoError { message: msg.to_string() }
}

// ---------------------------------------------------------------------------
// Frames
// ---------------------------------------------------------------------------

#[test]
fn magic_is_facebook_cat() {
    assert_eq!(&eavesdrop_magic(), b"FACEBOOK_CAT");
    assert!(is_eavesdrop_magic(b"FACEBOOK_CAT"));
    assert!(!is_eavesdrop_magic(b"FACEBOOK_CAX"));
    assert!(!is_eavesdrop_magic(b"CAT"));
}

#[test]
fn frame_header_small_payload() {
    let mut expected = b"FACEBOOK_CAT".to_vec();
    expected.extend_from_slice(&[5, 0]);
    assert_eq!(frame_header(5), expected);
}

#[test]
fn frame_header_is_little_endian() {
    let h = frame_header(0x0302);
    assert_eq!(h.len(), 14);
    assert_eq!(&h[12..], &[0x02, 0x03]);
}

#[test]
fn frame_header_cuts_size_to_16_bits() {
    let h = frame_header(0x1_0003);
    assert_eq!(&h[12..], &[3, 0]);
}

#[test]
fn frame_roundtrip_through_receiver() {
    let payload = [9u8, 8, 7];
    let header = frame_header(payload.len() as u64);
    let mut conn = Connection::new();
    assert_eq!(conn.stage(), RecvStage::Header);
    assert_eq!(conn.wanted(), 12);
    assert_eq!(conn.received(&header[..12]).unwrap(), RecvStep::Read(2));
    assert_eq!(conn.wanted(), 2);
    assert_eq!(conn.received(&header[12..]).unwrap(), RecvStep::Read(3));
    assert_eq!(conn.wanted(), 3);
    assert_eq!(conn.received(&payload).unwrap(), RecvStep::Decode);
    assert_eq!(conn.buffer().len(), BUFFER_SIZE);
    assert_eq!(&conn.buffer()[..3], &payload);
    assert_eq!(conn.stage(), RecvStage::Header);
}

#[test]
fn receive_buffer_keeps_earlier_bytes() {
    // The header and the size are read into the same buffer as the payload,
    // so what a short payload does not cover still holds them.
    let mut conn = Connection::new();
    conn.received(b"FACEBOOK_CAT").unwrap();
    conn.received(&[1, 0]).unwrap();
    conn.received(&[42]).unwrap();
    assert_eq!(conn.buffer()[0], 42);
    assert_eq!(conn.buffer()[1], 0);
    assert_eq!(&conn.buffer()[2..12], b"CEBOOK_CAT");
    assert!(conn.buffer()[12..].iter().all(|b| *b == 0));
}

#[test]
fn empty_payload_frame() {
    let mut conn = Connection::new();
    conn.received(b"FACEBOOK_CAT").unwrap();
    assert_eq!(conn.received(&[0, 0]).unwrap(), RecvStep::Read(0));
    assert_eq!(conn.wanted(), 0);
    assert_eq!(conn.received(&[]).unwrap(), RecvStep::Decode);
}

#[test]
fn garbage_header_refused() {
    let mut conn = Connection::new();
    let err = conn.received(b"NOT_A_HEADER").unwrap_err();
    assert_eq!(err.kind(), RecvErrorKind::GarbageData);
    assert_eq!(err.cause_trace(), "Garbage data");
    assert_eq!(conn.stage(), RecvStage::Header);
    assert_eq!(conn.wanted(), 12);
}

#[test]
fn largest_payload_accepted() {
    let mut conn = Connection::new();
    conn.received(b"FACEBOOK_CAT").unwrap();
    assert_eq!(conn.received(&[0x00, 0x04]).unwrap(), RecvStep::Read(1024));
}

#[test]
fn oversize_payload_refused() {
    let mut conn = Connection::new();
    conn.received(b"FACEBOOK_CAT").unwrap();
    let err = conn.received(&[0x01, 0x04]).unwrap_err();
    assert_eq!(err.kind(), RecvErrorKind::PayloadTooLarge);
    assert_eq!(err.to_string(), "Payload too large");
    assert_eq!(conn.stage(), RecvStage::Header);
}

#[test]
fn read_failure_contexts() {
    let mut conn = Connection::new();
    let e = conn.read_failed(io("connection aborted"));
    assert_eq!(e.kind(), RecvErrorKind::Io);
    assert_eq!(e.cause_trace(), "Receive error, caused by\nreceiving message header: connection aborted");

    conn.received(b"FACEBOOK_CAT").unwrap();
    let e = conn.read_failed(io("x"));
    assert_eq!(e.cause_trace(), "Receive error, caused by\nreceiving message payload size: x");
    assert_eq!(conn.stage(), RecvStage::Header);

    conn.received(b"FACEBOOK_CAT").unwrap();
    conn.received(&[4, 0]).unwrap();
    let e = conn.read_failed(io("y"));
    assert_eq!(e.cause_trace(), "Receive error, caused by\nreceiving message payload: y");
}

#[test]
fn read_progress_steps() {
    assert!(matches!(read_progress(10, ReadResult::Bytes(4)), ReadProgress::Remaining(6)));
    assert!(matches!(read_progress(4, ReadResult::Bytes(4)), ReadProgress::Remaining(0)));
    assert!(matches!(read_progress(4, ReadResult::Bytes(0)), ReadProgress::Aborted));
    assert!(matches!(read_progress(4, ReadResult::Interrupted), ReadProgress::Remaining(4)));
    match read_progress(4, ReadResult::Failed(io("reset"))) {
        ReadProgress::Failed(e) => assert_eq!(e.message, "reset"),
        _ => panic!("a failed read must fail"),
    }
}

#[test]
fn write_failure_contexts() {
    let e = write_failed(SendStage::Header, io("broken pipe"));
    assert_eq!(e.kind(), SendErrorKind::Io);
    assert_eq!(e.cause_trace(), "Send error, caused by\nsending message header: broken pipe");
    let e = write_failed(SendStage::PayloadSize, io("broken pipe"));
    assert_eq!(e.cause_trace(), "Send error, caused by\nsending message payload size: broken pipe");
}

// ---------------------------------------------------------------------------
// Errors
// ---------------------------------------------------------------------------

#[test]
fn error_kinds() {
    assert_eq!(TxError::HandshakeFailure.kind(), TxErrorKind::HandshakeFailure);
    assert_eq!(TxError::IncompatibleProtocol { version: 3 }.kind(), TxErrorKind::IncompatibleProtocol);
    assert_eq!(RecvError::PayloadTooLarge.kind(), RecvErrorKind::PayloadTooLarge);
    assert_eq!(RecvError::GarbageData.kind(), RecvErrorKind::GarbageData);
    let codec = CodecError { message: "bad".to_string() };
    assert_eq!(
        RecvError::PayloadDeserializationFailure(codec).kind(),
        RecvErrorKind::PayloadDeserializationFailure
    );
    let codec = CodecError { message: "bad".to_string() };
    assert_eq!(
        SendError::PayloadSerializationFailure { cause: codec }.kind(),
        SendErrorKind::PayloadSerializationFailure
    );
}

#[test]
fn conversions_tag_their_kind() {
    let r = RecvError::from(CodecError { message: "eof".to_string() });
    assert_eq!(r.kind(), RecvErrorKind::PayloadDeserializationFailure);
    assert!(matches!(r, RecvError::Generic(Cause::Codec(_), _)));
    assert_eq!(r.cause_trace(), "Receive error, caused by\neof");

    let s = SendError::from(CodecError { message: "too big".to_string() });
    assert_eq!(s.kind(), SendErrorKind::PayloadSerializationFailure);
    assert_eq!(s.cause_trace(), "Send error, caused by\ntoo big");

    let ctx = || ErrWithContext { inner: io("refused"), context: "connecting".to_string() };
    assert_eq!(RecvError::from(ctx()).kind(), RecvErrorKind::Io);
    assert_eq!(SendError::from(ctx()).kind(), SendErrorKind::Io);
    let t = TxError::from(ctx());
    assert_eq!(t.kind(), TxErrorKind::Io);
    assert_eq!(t.cause_trace(), "Transmission error, caused by\nconnecting: refused");

    let t = TxError::from(RecvError::GarbageData);
    assert_eq!(t.kind(), TxErrorKind::Recv);
    assert!(matches!(t, TxError::Generic(TxCause::Recv(RecvError::GarbageData), TxErrorKind::Recv)));
    assert_eq!(t.cause_trace(), "Transmission error, caused by\nGarbage data");

    let t = TxError::from(write_failed(SendStage::Header, io("closed")));
    assert_eq!(t.kind(), TxErrorKind::Send);
    assert_eq!(
        t.cause_trace(),
        "Transmission error, caused by\nSend error, caused by\nsending message header: closed"
    );
}

#[test]
fn full_cause_trace() {
    let mut conn = Connection::new();
    let t = TxError::from(conn.read_failed(io("connection aborted")));
    assert_eq!(
        t.cause_trace(),
        "Transmission error, caused by\nReceive error, caused by\nreceiving message header: connection aborted"
    );
    assert_eq!(t.to_string(), "Transmission error");
}

#[test]
fn incompatible_protocol_message() {
    assert_eq!(TxError::IncompatibleProtocol { version: 0 }.to_string(), "Incompatible protocol version 0");
    assert_eq!(TxError::IncompatibleProtocol { version: 7 }.to_string(), "Incompatible protocol version 7");
    assert_eq!(TxError::IncompatibleProtocol { version: 10 }.to_string(), "Incompatible protocol version 10");
    assert_eq!(TxError::IncompatibleProtocol { version: 255 }.cause_trace(), "Incompatible protocol version 255");
    assert_eq!(TxError::HandshakeFailure.cause_trace(), "Handshake failure");
}

#[test]
fn payload_failures_have_causes() {
    let r = RecvError::PayloadDeserializationFailure(CodecError { message: "invalid tag".to_string() });
    assert_eq!(r.cause_trace(), "Payload deserialization failure, caused by\ninvalid tag");
    let s = SendError::PayloadSerializationFailure { cause: CodecError { message: "oops".to_string() } };
    assert_eq!(s.cause_trace(), "Payload serialization failure, caused by\noops");
}

#[test]
fn with_context_wraps_errors_only() {
    let ok: Result<u8, IoError> = Ok(4);
    assert_eq!(ok.with_context("reading".to_string()).unwrap(), 4);
    let err: Result<u8, IoError> = Err(io("timed out"));
    let e = err.with_context("disconnecting".to_string()).unwrap_err();
    assert_eq!(e.context, "disconnecting");
    assert_eq!(e.to_string(), "disconnecting: timed out");
    assert_eq!(e.cause_trace(), "disconnecting: timed out");
}

// ---------------------------------------------------------------------------
// Handshake
// ---------------------------------------------------------------------------

fn finish(a: HandshakeAction) -> Result<String, TxError> {
    match a {
        HandshakeAction::Finish(r) => r,
        other => panic!("expected the handshake to finish, got {:?}", other),
    }
}

fn sent(a: HandshakeAction) -> Message {
    match a {
        HandshakeAction::Send(m) => m,
        other => panic!("expected a message to send, got {:?}", other),
    }
}

#[test]
fn handshake_between_two_peers() {
    let mut client = Handshake::initiator("client".to_string());
    let mut server = Handshake::responder("server".to_string());

    let hello = sent(client.step(HandshakeEvent::Start));
    assert!(matches!(&hello, Message::Handshake { protocol_version: 0, peer_name } if peer_name == "client"));
    assert!(matches!(server.step(HandshakeEvent::Start), HandshakeAction::Receive));
    let answer = sent(server.step(HandshakeEvent::Received(hello)));
    assert!(matches!(&answer, Message::Handshake { protocol_version: 0, peer_name } if peer_name == "server"));
    assert!(matches!(client.step(HandshakeEvent::Sent), HandshakeAction::Receive));
    assert_eq!(finish(client.step(HandshakeEvent::Received(answer))).unwrap(), "server");
    assert_eq!(finish(server.step(HandshakeEvent::Sent)).unwrap(), "client");
}

#[test]
fn handshake_with_newer_peer_refused() {
    let newer = Message::Handshake { protocol_version: PROTOCOL_VERSION + 1, peer_name: "future".to_string() };
    match check_handshake(newer) {
        Err(TxError::IncompatibleProtocol { version }) => assert_eq!(version, 1),
        other => panic!("expected a refusal, got {:?}", other),
    }
}

#[test]
fn responder_answers_before_refusing_newer_peer() {
    let mut server = Handshake::responder("server".to_string());
    server.step(HandshakeEvent::Start);
    let newer = Message::Handshake { protocol_version: 9, peer_name: "future".to_string() };
    let answer = sent(server.step(HandshakeEvent::Received(newer)));
    assert!(matches!(answer, Message::Handshake { .. }));
    let e = finish(server.step(HandshakeEvent::Sent)).unwrap_err();
    assert_eq!(e.kind(), TxErrorKind::IncompatibleProtocol);
    assert_eq!(e.to_string(), "Incompatible protocol version 9");
}

#[test]
fn responder_refuses_non_handshake_without_answering() {
    let mut server = Handshake::responder("server".to_string());
    server.step(HandshakeEvent::Start);
    let e = finish(server.step(HandshakeEvent::Received(Message::Heartbeat))).unwrap_err();
    assert_eq!(e.kind(), TxErrorKind::HandshakeFailure);
}

#[test]
fn initiator_refuses_non_handshake_answer() {
    let mut client = Handshake::initiator("client".to_string());
    client.step(HandshakeEvent::Start);
    client.step(HandshakeEvent::Sent);
    let n = Message::Notification(Notification::Popup { msg: "hi".to_string() });
    let e = finish(client.step(HandshakeEvent::Received(n))).unwrap_err();
    assert_eq!(e.kind(), TxErrorKind::HandshakeFailure);
    assert!(!client.expects(&HandshakeEvent::Sent));
}

#[test]
fn handshake_expects_events_in_order() {
    let mut client = Handshake::initiator("c".to_string());
    assert!(client.expects(&HandshakeEvent::Start));
    assert!(!client.expects(&HandshakeEvent::Sent));
    client.step(HandshakeEvent::Start);
    assert!(client.expects(&HandshakeEvent::Sent));
    assert!(!client.expects(&HandshakeEvent::Received(Message::Heartbeat)));
}

#[test]
fn older_or_same_version_accepted() {
    let m = handshake_message("peer".to_string());
    assert_eq!(check_handshake(m).unwrap(), "peer");
}

// ---------------------------------------------------------------------------
// Notifications
// ---------------------------------------------------------------------------

#[test]
fn notifications_delivered_heartbeats_skipped() {
    let n = Message::Notification(Notification::Flash { msg: "x".to_string() });
    assert!(matches!(notification_step(n), NotificationStep::Deliver(Notification::Flash { .. })));
    assert!(matches!(notification_step(Message::Heartbeat), NotificationStep::Skip));
    let h = Message::Handshake { protocol_version: 0, peer_name: "again".to_string() };
    match notification_step(h) {
        NotificationStep::Reject(e) => assert_eq!(e.kind(), RecvErrorKind::GarbageData),
        _ => panic!("a second handshake must be refused"),
    }
}

#[test]
fn only_flashes_are_forwarded() {
    assert_eq!(Notification::Flash { msg: "look".to_string() }.flash_text(), Some("look".to_string()));
    assert_eq!(Notification::Popup { msg: "new".to_string() }.flash_text(), None);
}

#[test]
fn sender_actions() {
    let n = Notification::Popup { msg: "a".to_string() };
    assert!(matches!(
        sender_action(SenderEvent::Notification(n)),
        SenderAction::Send(Message::Notification(Notification::Popup { .. }))
    ));
    assert!(matches!(sender_action(SenderEvent::Timeout), SenderAction::Send(Message::Heartbeat)));
    assert!(matches!(sender_action(SenderEvent::Closed), SenderAction::Disconnect));
    assert!(matches!(heartbeat_message(), Message::Heartbeat));
    assert!(matches!(
        notification_message(Notification::Flash { msg: "b".to_string() }),
        Message::Notification(Notification::Flash { .. })
    ));
}

#[test]
fn attempts_stop_at_first_success() {
    let mut a = Attempts::new();
    assert_eq!(a.exit_code(), 0);
    assert!(a.should_try());
    a.record(false);
    assert_eq!(a.exit_code(), 1);
    assert!(a.should_try());
    a.record(true);
    assert!(!a.should_try());
    assert_eq!(a.exit_code(), 0);
    assert_eq!(a.made, 2);
}

#[test]
fn attempts_give_up_after_three_failures() {
    let mut a = Attempts::new();
    let mut made = 0;
    while a.should_try() {
        a.record(false);
        made += 1;
    }
    assert_eq!(made, 3);
    assert_eq!(a.exit_code(), 1);
}

#[test]
fn shell_events_become_notifications() {
    match shell_notification(ShellEvent::WindowCreated, "Title", "Class") {
        Some(Notification::Popup { msg }) => assert_eq!(msg, "Title {Class}"),
        other => panic!("expected a popup, got {:?}", other),
    }
    match shell_notification(ShellEvent::Flash, "Chat", "Qt5QWindow") {
        Some(Notification::Flash { msg }) => assert_eq!(msg, "Chat {Qt5QWindow}"),
        other => panic!("expected a flash, got {:?}", other),
    }
    assert!(shell_notification(ShellEvent::Other, "a", "b").is_none());
    assert_eq!(window_text("", ""), " {}");
}
