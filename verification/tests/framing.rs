use rusty_proxy::frame::{Destination, FrameError, MultiplexFrame, MIN_FRAME_LEN};
use rusty_proxy::mux::{
    decode_request, ConnectionTable, MuxAction, MuxEvent, MuxState, Multiplexer,
    REPLY_WAIT_MILLIS,
};

fn request_bytes(id: u16, ip: [u8; 4], port: u16, payload: &[u8]) -> Vec<u8> {
    let mut bytes = Vec::new();
    bytes.extend_from_slice(&id.to_be_bytes());
    bytes.extend_from_slice(&[0, 0]);
    bytes.extend_from_slice(&[0, 4]);
    bytes.extend_from_slice(&ip);
    bytes.extend_from_slice(&port.to_be_bytes());
    bytes.extend_from_slice(payload);
    bytes
}

#[test]
fn parse_reads_every_field() {
    let bytes = vec![0x12, 0x34, 0xab, 0xcd, 0, 4, 10, 0, 0, 1, 0x1f, 0x90, 1, 2, 3, 4, 5];
    let frame = MultiplexFrame::parse(&bytes).unwrap();
    assert_eq!(frame.connection_id, 0x1234);
    assert_eq!(frame.flags, 0xabcd);
    assert_eq!(frame.address, vec![10, 0, 0, 1]);
    assert_eq!(frame.port, 8080);
    assert_eq!(frame.payload, vec![1, 2, 3, 4, 5]);
    assert_eq!(
        frame.destination(),
        Ok(Destination { ip: (10, 0, 0, 1), port: 8080 })
    );
}

#[test]
fn parse_refuses_short_chunks() {
    assert_eq!(MIN_FRAME_LEN, 12);
    assert_eq!(MultiplexFrame::parse(&[]).unwrap_err(), FrameError::TooShort);
    assert_eq!(MultiplexFrame::parse(&[0; 11]).unwrap_err(), FrameError::TooShort);
    let mut chunk = request_bytes(1, [1, 2, 3, 4], 53, b"abc");
    assert_eq!(chunk.len(), 15);
    assert_eq!(MultiplexFrame::parse(&chunk).unwrap_err(), FrameError::TooShort);
    chunk.push(b'd');
    assert!(MultiplexFrame::parse(&chunk).is_ok());
}

#[test]
fn parse_takes_an_empty_address() {
    let frame = MultiplexFrame::parse(&[0, 1, 0, 0, 0, 0, 0, 80, 9, 9, 9, 9]).unwrap();
    assert_eq!(frame.address, Vec::<u8>::new());
    assert_eq!(frame.port, 80);
    assert_eq!(frame.payload, vec![9, 9, 9, 9]);
    assert_eq!(frame.destination(), Err(FrameError::Malformed));
}

#[test]
fn parse_refuses_a_declared_address_that_is_not_there() {
    let mut chunk = vec![0, 1, 0, 0, 0xff, 0xff];
    chunk.extend_from_slice(&[0; 100]);
    assert_eq!(MultiplexFrame::parse(&chunk).unwrap_err(), FrameError::TooShort);
}

#[test]
fn destination_needs_four_address_bytes() {
    let mut chunk = vec![0, 1, 0, 0, 0, 16];
    chunk.extend_from_slice(&[0; 16]);
    chunk.extend_from_slice(&[0, 53]);
    chunk.extend_from_slice(b"data");
    let frame = MultiplexFrame::parse(&chunk).unwrap();
    assert_eq!(frame.address.len(), 16);
    assert_eq!(frame.destination(), Err(FrameError::Malformed));
    assert_eq!(decode_request(&chunk).unwrap_err(), FrameError::Malformed);
}

#[test]
fn encode_writes_the_wire_format() {
    let frame = MultiplexFrame {
        connection_id: 0x0102,
        flags: 0x0304,
        address: vec![192, 168, 0, 1],
        port: 0x0506,
        payload: vec![0xaa, 0xbb],
    };
    assert_eq!(
        frame.encode(),
        vec![1, 2, 3, 4, 0, 4, 192, 168, 0, 1, 5, 6, 0xaa, 0xbb]
    );
}

#[test]
fn encode_then_parse_gives_the_frame_back() {
    let frame = MultiplexFrame {
        connection_id: 65535,
        flags: 1,
        address: vec![1, 2, 3, 4, 5, 6],
        port: 443,
        payload: b"payload".to_vec(),
    };
    let read = MultiplexFrame::parse(&frame.encode()).unwrap();
    assert_eq!(read.connection_id, 65535);
    assert_eq!(read.flags, 1);
    assert_eq!(read.address, vec![1, 2, 3, 4, 5, 6]);
    assert_eq!(read.port, 443);
    assert_eq!(read.payload, b"payload".to_vec());
}

#[test]
fn reply_frame_has_no_flags_and_a_four_byte_address() {
    let destination = Destination { ip: (8, 8, 4, 4), port: 53 };
    let frame = MultiplexFrame::reply(7, destination, b"X".to_vec());
    assert_eq!(frame.connection_id, 7);
    assert_eq!(frame.flags, 0);
    assert_eq!(frame.address, vec![8, 8, 4, 4]);
    assert_eq!(frame.port, 53);
    assert_eq!(frame.encode(), vec![0, 7, 0, 0, 0, 4, 8, 8, 4, 4, 0, 53, b'X']);
}

#[test]
fn connection_table_keeps_the_last_destination() {
    let mut table = ConnectionTable::new();
    assert_eq!(table.len(), 0);
    assert_eq!(table.lookup(7), None);
    let first = Destination { ip: (1, 1, 1, 1), port: 53 };
    let second = Destination { ip: (9, 9, 9, 9), port: 5353 };
    table.record(7, first);
    table.record(8, first);
    assert_eq!(table.lookup(7), Some(first));
    table.record(7, second);
    assert_eq!(table.lookup(7), Some(second));
    assert_eq!(table.lookup(8), Some(first));
    assert_eq!(table.len(), 2);
}

#[test]
fn echoed_datagram_comes_back_framed() {
    let payload = b"XXXX-echo".to_vec();
    let mut session = Multiplexer::new();
    let action = session.step(MuxEvent::Chunk(request_bytes(7, [127, 0, 0, 1], 5300, &payload)));
    let destination = Destination { ip: (127, 0, 0, 1), port: 5300 };
    match action {
        MuxAction::SendDatagram { destination: to, payload: sent } => {
            assert_eq!(to, destination);
            assert_eq!(sent, payload);
        }
        other => panic!("unexpected action {:?}", other),
    }
    assert_eq!(session.table.lookup(7), Some(destination));
    match session.step(MuxEvent::DatagramSent) {
        MuxAction::AwaitReply { millis } => {
            assert_eq!(millis, 500);
            assert_eq!(millis, REPLY_WAIT_MILLIS);
        }
        other => panic!("unexpected action {:?}", other),
    }
    match session.step(MuxEvent::Reply(payload.clone())) {
        MuxAction::WriteStream(bytes) => {
            assert_eq!(bytes, request_bytes(7, [127, 0, 0, 1], 5300, &payload));
            let read = MultiplexFrame::parse(&bytes).unwrap();
            assert_eq!(read.connection_id, 7);
            assert_eq!(read.flags, 0);
            assert_eq!(read.destination(), Ok(destination));
            assert_eq!(read.payload, payload);
        }
        other => panic!("unexpected action {:?}", other),
    }
    assert!(matches!(session.step(MuxEvent::ReplyWritten), MuxAction::ReadStream));
    assert!(matches!(session.state, MuxState::AwaitFrameHeader));
}

#[test]
fn short_frame_is_dropped_and_the_next_is_served() {
    let mut session = Multiplexer::new();
    let mut short = request_bytes(3, [10, 0, 0, 1], 53, b"abcd");
    short.truncate(15);
    assert!(matches!(session.step(MuxEvent::Chunk(short)), MuxAction::ReadStream));
    assert!(matches!(session.state, MuxState::AwaitFrameHeader));
    assert_eq!(session.table.len(), 0);
    assert!(matches!(session.step(MuxEvent::Chunk(vec![1, 2, 3])), MuxAction::ReadStream));
    let action = session.step(MuxEvent::Chunk(request_bytes(4, [10, 0, 0, 2], 53, b"abcd")));
    assert!(matches!(action, MuxAction::SendDatagram { .. }));
    assert_eq!(session.table.lookup(4), Some(Destination { ip: (10, 0, 0, 2), port: 53 }));
    assert_eq!(session.table.lookup(3), None);
}

#[test]
fn malformed_frame_is_dropped() {
    let mut session = Multiplexer::new();
    let mut chunk = vec![0, 1, 0, 0, 0, 2, 10, 0, 0, 53];
    chunk.extend_from_slice(b"abcdef");
    assert!(matches!(session.step(MuxEvent::Chunk(chunk)), MuxAction::ReadStream));
    assert_eq!(session.table.len(), 0);
}

#[test]
fn lost_reply_drops_the_frame() {
    let mut session = Multiplexer::new();
    let chunk = request_bytes(1, [10, 0, 0, 1], 53, b"abcd");
    session.step(MuxEvent::Chunk(chunk.clone()));
    session.step(MuxEvent::DatagramSent);
    assert!(matches!(session.step(MuxEvent::ReplyTimedOut), MuxAction::ReadStream));
    session.step(MuxEvent::Chunk(chunk.clone()));
    session.step(MuxEvent::DatagramSent);
    assert!(matches!(session.step(MuxEvent::ReplyFailed), MuxAction::ReadStream));
    session.step(MuxEvent::Chunk(chunk));
    assert!(matches!(session.step(MuxEvent::DatagramFailed), MuxAction::ReadStream));
    assert!(!session.is_closed());
}

#[test]
fn end_of_stream_closes_the_session() {
    let mut session = Multiplexer::new();
    assert!(matches!(session.step(MuxEvent::Chunk(Vec::new())), MuxAction::Close));
    assert!(session.is_closed());
    assert!(matches!(
        session.step(MuxEvent::Chunk(request_bytes(1, [1, 1, 1, 1], 1, b"abcd"))),
        MuxAction::Close
    ));
    let mut other = Multiplexer::new();
    assert!(matches!(other.step(MuxEvent::StreamFailed), MuxAction::Close));
    let mut third = Multiplexer::new();
    assert!(matches!(third.step(MuxEvent::StreamEnded), MuxAction::Close));
    let mut fourth = Multiplexer::new();
    fourth.step(MuxEvent::Chunk(request_bytes(1, [1, 1, 1, 1], 1, b"abcd")));
    fourth.step(MuxEvent::DatagramSent);
    fourth.step(MuxEvent::Reply(b"r".to_vec()));
    assert!(matches!(fourth.step(MuxEvent::StreamFailed), MuxAction::Close));
    assert!(fourth.is_closed());
}

#[test]
fn same_connection_takes_a_new_destination() {
    let mut session = Multiplexer::new();
    session.step(MuxEvent::Chunk(request_bytes(9, [1, 1, 1, 1], 53, b"abcd")));
    session.step(MuxEvent::DatagramFailed);
    session.step(MuxEvent::Chunk(request_bytes(9, [2, 2, 2, 2], 54, b"abcd")));
    assert_eq!(session.table.lookup(9), Some(Destination { ip: (2, 2, 2, 2), port: 54 }));
    assert_eq!(session.table.len(), 1);
}

#[test]
fn address_length_is_the_length_of_the_address() {
    let frame = MultiplexFrame::parse(&[0, 1, 0, 0, 0, 2, 7, 7, 0, 80, 1, 2, 3, 4, 5, 6]).unwrap();
    assert_eq!(frame.address_length(), 2);
    assert_eq!(frame.address, vec![7, 7]);
    assert_eq!(frame.payload, vec![1, 2, 3, 4, 5, 6]);
}
