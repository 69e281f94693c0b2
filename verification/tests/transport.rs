use serde_transport::codec::JsonCodec;
use serde_transport::error::{Cause, TransportError};
use serde_transport::transport::{AcceptEvent, AcceptPoll, ReadEvent, ReadPoll, Transport};

const WIRE: &[u8] = b"\x00\x00\x00\x18\"Test one, check check.\"";
const TEXT: &str = "Test one, check check.";

#[test]
fn test_stream() {
    let mut transport = Transport::from(JsonCodec::new());
    match transport.poll_next(ReadEvent::Bytes(WIRE.to_vec())) {
        ReadPoll::Item(s) => assert_eq!(s, TEXT),
        _ => panic!("expected one decoded value"),
    }
}

#[test]
fn test_sink() {
    let mut writer: Vec<u8> = Vec::new();
    let mut transport = Transport::from(JsonCodec::new());
    assert!(transport.poll_ready());
    assert!(transport.start_send(&String::from(TEXT)).is_ok());
    let mut pending = transport.take_pending();
    writer.append(&mut pending);
    assert!(transport.poll_flush());
    assert_eq!(writer, WIRE);
}

#[test]
fn round_trip() {
    let mut sender = Transport::from(JsonCodec::new());
    assert!(sender.start_send(&String::from("hello, transport")).is_ok());
    let on_wire = sender.take_pending();

    let mut receiver = Transport::from(JsonCodec::new());
    match receiver.poll_next(ReadEvent::Bytes(on_wire)) {
        ReadPoll::Item(s) => assert_eq!(s, "hello, transport"),
        _ => panic!("expected the written value back"),
    }
}

#[test]
fn empty_value_round_trips() {
    let mut sender = Transport::from(JsonCodec::new());
    assert!(sender.start_send(&String::new()).is_ok());
    let on_wire = sender.take_pending();
    // The empty string still serializes to two quote bytes.
    assert_eq!(on_wire, b"\x00\x00\x00\x02\"\"");
    let mut receiver = Transport::from(JsonCodec::new());
    match receiver.poll_next(ReadEvent::Bytes(on_wire)) {
        ReadPoll::Item(s) => assert_eq!(s, ""),
        _ => panic!("expected the empty value back"),
    }
}

#[test]
fn framing_exact_prefix() {
    let mut transport = Transport::from(JsonCodec::new());
    assert!(transport.start_send(&String::from(TEXT)).is_ok());
    let on_wire = transport.take_pending();
    // 24 payload bytes behind exactly the 4-byte big-endian encoding of 24.
    assert_eq!(&on_wire[..4], &[0x00, 0x00, 0x00, 0x18]);
    assert_eq!(on_wire.len(), 4 + 0x18);
}

#[test]
fn fragmented_arrival() {
    let mut transport = Transport::from(JsonCodec::new());
    // The frame boundary is found no matter how the bytes are fragmented.
    match transport.poll_next(ReadEvent::Bytes(WIRE[..2].to_vec())) {
        ReadPoll::Pending => {}
        _ => panic!("two bytes are less than a prefix"),
    }
    match transport.poll_next(ReadEvent::Bytes(WIRE[2..10].to_vec())) {
        ReadPoll::Pending => {}
        _ => panic!("the frame is still incomplete"),
    }
    match transport.poll_next(ReadEvent::Bytes(WIRE[10..].to_vec())) {
        ReadPoll::Item(s) => assert_eq!(s, TEXT),
        _ => panic!("the frame is complete now"),
    }
}

#[test]
fn reading_stops_at_frame_boundary() {
    // Two frames in one chunk: each poll consumes exactly one frame.
    let mut both = Vec::new();
    both.extend_from_slice(b"\x00\x00\x00\x05\"one\"");
    both.extend_from_slice(b"\x00\x00\x00\x05\"two\"");
    let mut transport = Transport::from(JsonCodec::new());
    match transport.poll_next(ReadEvent::Bytes(both)) {
        ReadPoll::Item(s) => assert_eq!(s, "one"),
        _ => panic!("expected the first value"),
    }
    match transport.poll_next(ReadEvent::Bytes(Vec::new())) {
        ReadPoll::Item(s) => assert_eq!(s, "two"),
        _ => panic!("expected the second value"),
    }
}

#[test]
fn end_of_stream_clean() {
    let mut transport = Transport::from(JsonCodec::new());
    match transport.poll_next(ReadEvent::Eof) {
        ReadPoll::End => {}
        _ => panic!("a close with no partial frame pending ends cleanly"),
    }
}

#[test]
fn end_of_stream_mid_frame() {
    let mut transport = Transport::from(JsonCodec::new());
    match transport.poll_next(ReadEvent::Bytes(WIRE[..7].to_vec())) {
        ReadPoll::Pending => {}
        _ => panic!("the frame is incomplete"),
    }
    match transport.poll_next(ReadEvent::Eof) {
        ReadPoll::Error(e) => assert_eq!(e.cause(), Cause::Io),
        _ => panic!("an abrupt disconnect mid-frame is a read error"),
    }
}

#[test]
fn raw_failure_surfaces_as_io() {
    let mut transport = Transport::from(JsonCodec::new());
    match transport.poll_next(ReadEvent::Failed) {
        ReadPoll::Error(e) => assert_eq!(e.cause(), Cause::Io),
        _ => panic!("a raw failure surfaces at once"),
    }
}

#[test]
fn decode_failure_unified_with_io() {
    // A complete frame whose payload is not JSON: 3 payload bytes "xyz".
    let mut transport = Transport::from(JsonCodec::new());
    let decode_err = match transport.poll_next(ReadEvent::Bytes(b"\x00\x00\x00\x03xyz".to_vec())) {
        ReadPoll::Error(e) => e,
        _ => panic!("an unparseable frame is surfaced immediately"),
    };
    let mut failed = Transport::from(JsonCodec::new());
    let io_err = match failed.poll_next(ReadEvent::Failed) {
        ReadPoll::Error(e) => e,
        _ => panic!("a raw failure is surfaced immediately"),
    };
    // Both failures reach the caller as the one TransportError kind ...
    let both: [TransportError; 2] = [decode_err, io_err];
    // ... yet each wraps its own distinct cause.
    assert_eq!(both[0].cause(), Cause::Decode);
    assert_eq!(both[1].cause(), Cause::Io);
    assert_ne!(both[0].cause(), both[1].cause());
}

#[test]
fn incoming_frame_over_maximum() {
    let mut transport = Transport::with_max_frame_len(JsonCodec::new(), 8);
    // A prefix declaring 1000 payload bytes violates the 8-byte ceiling
    // before any payload arrives.
    match transport.poll_next(ReadEvent::Bytes(b"\x00\x00\x03\xe8".to_vec())) {
        ReadPoll::Error(e) => assert_eq!(e.cause(), Cause::FrameTooLarge),
        _ => panic!("the declared length exceeds the maximum"),
    }
}

#[test]
fn outgoing_frame_over_maximum() {
    let mut transport = Transport::with_max_frame_len(JsonCodec::new(), 4);
    match transport.start_send(&String::from(TEXT)) {
        Err(e) => assert_eq!(e.cause(), Cause::FrameTooLarge),
        Ok(()) => panic!("an oversized payload is refused"),
    }
    // Nothing was queued by the refused submit.
    assert!(transport.poll_flush());
}

#[test]
fn prefix_uses_all_four_bytes() {
    // A 300-character value serializes to 302 payload bytes (two quotes
    // around it), so the prefix is 00 00 01 2E big-endian.
    let long = "x".repeat(300);
    let mut transport = Transport::from(JsonCodec::new());
    assert!(transport.start_send(&long).is_ok());
    let on_wire = transport.take_pending();
    assert_eq!(&on_wire[..4], &[0x00, 0x00, 0x01, 0x2e]);
    assert_eq!(on_wire.len(), 4 + 302);

    let mut receiver = Transport::from(JsonCodec::new());
    match receiver.poll_next(ReadEvent::Bytes(on_wire)) {
        ReadPoll::Item(s) => assert_eq!(s, long),
        _ => panic!("expected the long value back"),
    }
}

#[test]
fn every_cause_is_its_own() {
    assert_eq!(TransportError::io().cause(), Cause::Io);
    assert_eq!(TransportError::frame_too_large().cause(), Cause::FrameTooLarge);
    assert_eq!(TransportError::encode().cause(), Cause::Encode);
    assert_eq!(TransportError::decode().cause(), Cause::Decode);
}

fn accept_one() -> Transport {
    match serde_transport::transport::next_inbound(AcceptEvent::Accepted) {
        AcceptPoll::Connection(t) => t,
        AcceptPoll::Terminate(_) => panic!("a successful accept yields a connection"),
    }
}

#[test]
fn listener_isolation() {
    // Each accepted connection gets a freshly constructed codec and its own
    // transport state: disturbing one connection leaves the other untouched.
    let mut first = accept_one();
    let mut second = accept_one();

    match first.poll_next(ReadEvent::Bytes(WIRE[..7].to_vec())) {
        ReadPoll::Pending => {}
        _ => panic!("a partial frame is pending on the first connection"),
    }
    // The second connection still sits at a clean boundary.
    match second.poll_next(ReadEvent::Eof) {
        ReadPoll::End => {}
        _ => panic!("the second connection is unaffected"),
    }
    // And the first still completes its frame.
    match first.poll_next(ReadEvent::Bytes(WIRE[7..].to_vec())) {
        ReadPoll::Item(s) => assert_eq!(s, TEXT),
        _ => panic!("the first connection still decodes its frame"),
    }
}

#[test]
fn accept_failure_terminates_the_sequence() {
    match serde_transport::transport::next_inbound(AcceptEvent::Failed) {
        AcceptPoll::Terminate(e) => assert_eq!(e.cause(), Cause::Io),
        AcceptPoll::Connection(_) => panic!("an accept failure is fatal, not skipped"),
    }
}

#[test]
fn codec_adds_json_structure() {
    let codec = JsonCodec::new();
    assert_eq!(codec.encode(&String::from("a")), b"\"a\"");
}

#[test]
fn close_is_idempotent() {
    let mut transport = Transport::from(JsonCodec::new());
    assert!(transport.start_send(&String::from("bye")).is_ok());
    let rest = transport.poll_close();
    assert_eq!(rest, b"\x00\x00\x00\x05\"bye\"");
    assert!(transport.closed());
    // Repeating the close hands out nothing and succeeds.
    let again = transport.poll_close();
    assert!(again.is_empty());
    assert!(transport.closed());
}

#[test]
fn submission_order_is_kept() {
    let mut transport = Transport::from(JsonCodec::new());
    assert!(transport.start_send(&String::from("a")).is_ok());
    assert!(transport.start_send(&String::from("b")).is_ok());
    let on_wire = transport.take_pending();
    assert_eq!(on_wire, b"\x00\x00\x00\x03\"a\"\x00\x00\x00\x03\"b\"");

    let mut receiver = Transport::from(JsonCodec::new());
    match receiver.poll_next(ReadEvent::Bytes(on_wire)) {
        ReadPoll::Item(s) => assert_eq!(s, "a"),
        _ => panic!("frames are delivered in the order written"),
    }
    match receiver.poll_next(ReadEvent::Bytes(Vec::new())) {
        ReadPoll::Item(s) => assert_eq!(s, "b"),
        _ => panic!("frames are delivered in the order written"),
    }
}
