use rusty_proxy::dispatch::{Configuration, HandshakeMode};
use rusty_proxy::handshake::{
    answer, bad_request, find_header, find_key, follow_up_line, header_value, opening_line,
    switching_protocols, HandshakeReply,
};
use rusty_proxy::session::{Session, SessionAction, SessionEvent, SessionState};
use rusty_proxy::sniff::{Peek, ProtocolTag};

fn configuration(handshake: HandshakeMode) -> Configuration {
    Configuration {
        listen_port: 80,
        status_banner: String::from("Switching"),
        ssh_backend: String::from("127.0.0.1:22"),
        vpn_backend: String::from("127.0.0.1:1194"),
        multiplex_listen_port: 7300,
        websocket_backend: None,
        handshake,
        sniff_window: 1024,
        sniff_timeout_millis: 1500,
    }
}

fn written(action: SessionAction) -> Vec<u8> {
    match action {
        SessionAction::Write(bytes) => bytes,
        _ => panic!("a write was expected"),
    }
}

const REQUEST: &[u8] = b"GET /chat HTTP/1.1\r\nHost: example.com\r\nUpgrade: websocket\r\nConnection: Upgrade\r\nSec-WebSocket-Key: dGhlIHNhbXBsZSBub25jZQ==\r\nSec-WebSocket-Version: 13\r\n\r\n";

const ACCEPTED: &[u8] = b"HTTP/1.1 101 Switching Protocols\r\nUpgrade: websocket\r\nConnection: Upgrade\r\nSec-WebSocket-Accept: s3pPLMBiTxaQ9kYGzzhZRbK+xOo=\r\n\r\n";

#[test]
fn decorative_lines_carry_the_banner() {
    assert_eq!(opening_line("Hello"), b"HTTP/1.1 101 Hello\r\n\r\n".to_vec());
    assert_eq!(follow_up_line("Hello"), b"HTTP/1.1 200 Hello\r\n\r\n".to_vec());
    assert_eq!(opening_line(""), b"HTTP/1.1 101 \r\n\r\n".to_vec());
    assert_eq!(opening_line("Ol\u{e1}"), "HTTP/1.1 101 Ol\u{e1}\r\n\r\n".as_bytes().to_vec());
}

#[test]
fn fixed_responses() {
    assert_eq!(bad_request(), b"HTTP/1.1 400 Bad Request\r\n\r\n".to_vec());
    assert_eq!(switching_protocols(b"s3pPLMBiTxaQ9kYGzzhZRbK+xOo="), ACCEPTED.to_vec());
}

#[test]
fn key_is_found_whatever_the_case_of_the_name() {
    assert_eq!(find_key(REQUEST), Some(b"dGhlIHNhbXBsZSBub25jZQ==".to_vec()));
    assert_eq!(find_key(b"sec-websocket-key:abc\r\n"), Some(b"abc".to_vec()));
    assert_eq!(find_key(b"SEC-WEBSOCKET-KEY: \t abc \t\r\n"), Some(b"abc".to_vec()));
    assert_eq!(find_key(b"Sec-WebSocket-Key: a b"), Some(b"a b".to_vec()));
    assert_eq!(find_key(b"Sec-WebSocket-Key:\r\nabc"), Some(Vec::new()));
    assert_eq!(find_key(b"Sec-WebSocket-Key:"), Some(Vec::new()));
}

#[test]
fn first_key_header_is_taken() {
    let request = b"GET / HTTP/1.1\r\nSec-WebSocket-Key: first\r\nsec-websocket-key: second\r\n\r\n";
    assert_eq!(find_key(request), Some(b"first".to_vec()));
}

#[test]
fn request_without_key_has_none() {
    assert_eq!(find_key(b"GET / HTTP/1.1\r\nHost: x\r\n\r\n"), None);
    assert_eq!(find_key(b""), None);
    assert_eq!(find_key(b"Sec-WebSocket-Key"), None);
    assert_eq!(find_key(b"Sec-WebSocket-Accept: abc\r\n"), None);
}

#[test]
fn header_search_and_value() {
    assert_eq!(find_header(b"xxHoSt:yy", b"host:"), Some(2));
    assert_eq!(find_header(b"xxHoSt:yy", b"HOST:"), Some(2));
    assert_eq!(find_header(b"xxHoSt yy", b"host:"), None);
    assert_eq!(header_value(b"Host:  example.com  \r\nNext: 1", 5), b"example.com".to_vec());
    assert_eq!(header_value(b"Host:   ", 5), Vec::<u8>::new());
    assert_eq!(header_value(b"Host:x", 6), Vec::<u8>::new());
}

#[test]
fn opening_request_is_accepted_with_the_computed_value() {
    match answer(REQUEST) {
        HandshakeReply::Accept(bytes) => assert_eq!(bytes, ACCEPTED.to_vec()),
        HandshakeReply::Reject(_) => panic!("the request has a key"),
    }
}

#[test]
fn opening_request_without_key_is_refused() {
    match answer(b"GET / HTTP/1.1\r\nUpgrade: websocket\r\n\r\n") {
        HandshakeReply::Reject(bytes) => assert_eq!(bytes, b"HTTP/1.1 400 Bad Request\r\n\r\n".to_vec()),
        HandshakeReply::Accept(_) => panic!("the request has no key"),
    }
}

#[test]
fn skipped_handshake_goes_straight_to_the_peek() {
    let c = configuration(HandshakeMode::Skip);
    let mut session = Session::new();
    assert_eq!(session.state, SessionState::Accepted);
    match session.step(&c, SessionEvent::Begin) {
        SessionAction::Peek { window, timeout_millis } => {
            assert_eq!(window, 1024);
            assert_eq!(timeout_millis, 1500);
        }
        _ => panic!("a peek was expected"),
    }
    match session.step(&c, SessionEvent::Peeked(Peek::Data(b"SSH-2.0-x".to_vec()))) {
        SessionAction::Connect { tag, address } => {
            assert_eq!(tag, ProtocolTag::Ssh);
            assert_eq!(address, "127.0.0.1:22");
        }
        _ => panic!("a connect was expected"),
    }
    assert_eq!(session.state, SessionState::Routed);
    assert!(matches!(session.step(&c, SessionEvent::Written), SessionAction::Nothing));
    assert_eq!(session.state, SessionState::Routed);
}

#[test]
fn decorative_handshake_runs_before_the_peek() {
    let c = configuration(HandshakeMode::Cosmetic { follow_up: false });
    let mut session = Session::new();
    assert_eq!(written(session.step(&c, SessionEvent::Begin)), b"HTTP/1.1 101 Switching\r\n\r\n".to_vec());
    assert!(matches!(session.step(&c, SessionEvent::Written), SessionAction::Peek { .. }));
    match session.step(&c, SessionEvent::Peeked(Peek::Data(vec![0x00, 0x0e, 0x38]))) {
        SessionAction::Connect { tag, address } => {
            assert_eq!(tag, ProtocolTag::OpenVpn);
            assert_eq!(address, "127.0.0.1:1194");
        }
        _ => panic!("a connect was expected"),
    }
}

#[test]
fn decorative_handshake_with_second_line() {
    let c = configuration(HandshakeMode::Cosmetic { follow_up: true });
    let mut session = Session::new();
    assert_eq!(written(session.step(&c, SessionEvent::Begin)), b"HTTP/1.1 101 Switching\r\n\r\n".to_vec());
    assert!(matches!(session.step(&c, SessionEvent::Written), SessionAction::ReadOnce));
    let second = session.step(&c, SessionEvent::Read(b"anything at all".to_vec()));
    assert_eq!(written(second), b"HTTP/1.1 200 Switching\r\n\r\n".to_vec());
    assert!(matches!(session.step(&c, SessionEvent::Written), SessionAction::Peek { .. }));
    match session.step(&c, SessionEvent::Peeked(Peek::TimedOut)) {
        SessionAction::Connect { tag, address } => {
            assert_eq!(tag, ProtocolTag::Unknown);
            assert_eq!(address, "127.0.0.1:22");
        }
        _ => panic!("a connect was expected"),
    }
}

#[test]
fn websocket_handshake_accepts_and_then_peeks() {
    let mut c = configuration(HandshakeMode::WebSocket);
    c.websocket_backend = Some(String::from("127.0.0.1:8080"));
    let mut session = Session::new();
    assert!(matches!(session.step(&c, SessionEvent::Begin), SessionAction::ReadOnce));
    assert_eq!(written(session.step(&c, SessionEvent::Read(REQUEST.to_vec()))), ACCEPTED.to_vec());
    assert_eq!(session.state, SessionState::AcceptSent);
    assert!(matches!(session.step(&c, SessionEvent::Written), SessionAction::Peek { .. }));
    match session.step(&c, SessionEvent::Peeked(Peek::Data(b"GET /tunnel HTTP/1.1\r\n".to_vec()))) {
        SessionAction::Connect { tag, address } => {
            assert_eq!(tag, ProtocolTag::WebSocketUpgrade);
            assert_eq!(address, "127.0.0.1:8080");
        }
        _ => panic!("a connect was expected"),
    }
}

#[test]
fn websocket_handshake_without_key_closes_without_backend() {
    let c = configuration(HandshakeMode::WebSocket);
    let mut session = Session::new();
    session.step(&c, SessionEvent::Begin);
    let refusal = session.step(&c, SessionEvent::Read(b"GET / HTTP/1.1\r\n\r\n".to_vec()));
    assert_eq!(written(refusal), b"HTTP/1.1 400 Bad Request\r\n\r\n".to_vec());
    assert_eq!(session.state, SessionState::RejectSent);
    assert!(matches!(session.step(&c, SessionEvent::Written), SessionAction::Close));
    assert_eq!(session.state, SessionState::Closed);
    assert!(matches!(
        session.step(&c, SessionEvent::Peeked(Peek::Data(b"SSH-".to_vec()))),
        SessionAction::Close
    ));
}

#[test]
fn failure_during_the_handshake_closes_the_session() {
    let c = configuration(HandshakeMode::Cosmetic { follow_up: true });
    let mut session = Session::new();
    session.step(&c, SessionEvent::Begin);
    assert!(matches!(session.step(&c, SessionEvent::Failed), SessionAction::Close));
    assert_eq!(session.state, SessionState::Closed);
    let mut other = Session::new();
    other.step(&c, SessionEvent::Begin);
    other.step(&c, SessionEvent::Written);
    assert!(matches!(other.step(&c, SessionEvent::Read(Vec::new())), SessionAction::Close));
    let mut early = Session::new();
    assert!(matches!(
        early.step(&c, SessionEvent::Peeked(Peek::Data(b"SSH-".to_vec()))),
        SessionAction::Close
    ));
}

#[test]
fn header_value_beyond_the_data_is_empty() {
    assert_eq!(header_value(b"Host:", 6), Vec::<u8>::new());
    assert_eq!(header_value(b"", 1), Vec::<u8>::new());
}
