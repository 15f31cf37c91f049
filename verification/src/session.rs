//! One accepted connection, from its handshake to the choice of a backend.
//!
//! The session decides; its driver owns the connection, performs each action
//! and reports how it ended. Once a backend is chosen the relay engine takes
//! over.

use vstd::prelude::*;
use vstd::utf8::encode_utf8;
use crate::dispatch::{select, select_spec, Configuration, HandshakeMode};
use crate::handshake::{
    answer, answer_spec, follow_up_line, follow_up_line_spec, opening_line, opening_line_spec,
    HandshakeReply, HandshakeReplyView,
};
use crate::sniff::{sniff, sniff_spec, Peek, ProtocolTag};

verus! {

/// Where a session stands.
#[derive(Clone, Copy, Debug, PartialEq, Eq, Structural)]
pub enum SessionState {
    /// The connection was accepted; nothing was done yet.
    Accepted,
    /// The decorative opening line was handed over for writing.
    OpeningSent,
    /// One read from the client is awaited before the second line.
    AwaitFirstRead,
    /// The decorative second line was handed over for writing.
    FollowUpSent,
    /// The client's opening request is awaited.
    AwaitRequest,
    /// The accepting response was handed over for writing.
    AcceptSent,
    /// The refusal was handed over for writing.
    RejectSent,
    /// The handshake is over; the first bytes of the payload are awaited.
    Sniffing,
    /// A backend was chosen.
    Routed,
    /// The session is over without a backend.
    Closed,
}

/// What the driver reports.
#[derive(Debug)]
pub enum SessionEvent {
    /// The session is to begin.
    Begin,
    /// The bytes were written in full.
    Written,
    /// A read brought these bytes; none means the end of the stream.
    Read(Vec<u8>),
    /// The bounded peek ended.
    Peeked(Peek),
    /// A read or a write failed.
    Failed,
}

/// What the driver is to do next.
#[derive(Debug)]
pub enum SessionAction {
    /// Write all of these bytes to the client.
    Write(Vec<u8>),
    /// Read once from the client and report the bytes.
    ReadOnce,
    /// Look at the first bytes without consuming them: up to `window`
    /// bytes, waiting at most `timeout_millis` milliseconds.
    Peek { window: usize, timeout_millis: u64 },
    /// Connect to `address` and relay; `tag` is what the payload looked like.
    Connect { tag: ProtocolTag, address: String },
    /// Close the client connection; no backend is connected to.
    Close,
    /// Do nothing: the session has handed the connection on.
    Nothing,
}

/// A session action as mathematical values.
pub enum SessionActionView {
    Write(Seq<u8>),
    ReadOnce,
    Peek { window: usize, timeout_millis: u64 },
    Connect { tag: ProtocolTag, address: String },
    Close,
    Nothing,
}

impl View for SessionAction {
    type V = SessionActionView;

    open spec fn view(&self) -> SessionActionView {
        match *self {
            SessionAction::Write(bytes) => SessionActionView::Write(bytes@),
            SessionAction::ReadOnce => SessionActionView::ReadOnce,
            SessionAction::Peek { window, timeout_millis } => SessionActionView::Peek {
                window,
                timeout_millis,
            },
            SessionAction::Connect { tag, address } => SessionActionView::Connect { tag, address },
            SessionAction::Close => SessionActionView::Close,
            SessionAction::Nothing => SessionActionView::Nothing,
        }
    }
}

/// One step of a session.
pub struct SessionStep {
    pub state: SessionState,
    pub action: SessionActionView,
}

/// The banner as bytes.
pub open spec fn banner_bytes(configuration: Configuration) -> Seq<u8> {
    encode_utf8(configuration.status_banner@)
}

/// The step that ends a session without a backend.
pub open spec fn close_step() -> SessionStep {
    SessionStep { state: SessionState::Closed, action: SessionActionView::Close }
}

/// The step that ends the handshake and begins the look at the payload.
pub open spec fn peek_step(configuration: Configuration) -> SessionStep {
    SessionStep {
        state: SessionState::Sniffing,
        action: SessionActionView::Peek {
            window: configuration.sniff_window,
            timeout_millis: configuration.sniff_timeout_millis,
        },
    }
}

/// The first step of a session, by the configured handshake.
pub open spec fn begin_step(configuration: Configuration) -> SessionStep {
    match configuration.handshake {
        HandshakeMode::Skip => peek_step(configuration),
        HandshakeMode::Cosmetic { follow_up } => SessionStep {
            state: SessionState::OpeningSent,
            action: SessionActionView::Write(opening_line_spec(banner_bytes(configuration))),
        },
        HandshakeMode::WebSocket => SessionStep {
            state: SessionState::AwaitRequest,
            action: SessionActionView::ReadOnce,
        },
    }
}

/// The step taken on the client's opening request: the accepting response
/// where it has a key, else the refusal.
pub open spec fn request_step(request: Seq<u8>) -> SessionStep {
    match answer_spec(request) {
        HandshakeReplyView::Accept(bytes) => SessionStep {
            state: SessionState::AcceptSent,
            action: SessionActionView::Write(bytes),
        },
        HandshakeReplyView::Reject(bytes) => SessionStep {
            state: SessionState::RejectSent,
            action: SessionActionView::Write(bytes),
        },
    }
}

/// The step taken on the peek: the payload is classified and its backend
/// chosen.
pub open spec fn route_step(configuration: Configuration, peek: Peek) -> SessionStep {
    let tag = sniff_spec(peek, configuration.sniff_window as nat);
    SessionStep {
        state: SessionState::Routed,
        action: SessionActionView::Connect { tag, address: select_spec(tag, configuration) },
    }
}

/// The step of a session in `state` on `event`. The handshake runs to its
/// end, or is skipped, before the payload is looked at; a request without a
/// key is refused and the session closed; a failure, or an event that the
/// state does not wait for, closes the session. A closed session stays
/// closed, and a routed one asks for nothing more.
pub open spec fn step_spec(state: SessionState, configuration: Configuration, event: SessionEvent)
    -> SessionStep {
    match state {
        SessionState::Routed => SessionStep { state, action: SessionActionView::Nothing },
        SessionState::Closed => close_step(),
        SessionState::Accepted => match event {
            SessionEvent::Begin => begin_step(configuration),
            _ => close_step(),
        },
        SessionState::OpeningSent => match event {
            SessionEvent::Written => if configuration.handshake == (HandshakeMode::Cosmetic {
                follow_up: true,
            }) {
                SessionStep {
                    state: SessionState::AwaitFirstRead,
                    action: SessionActionView::ReadOnce,
                }
            } else {
                peek_step(configuration)
            },
            _ => close_step(),
        },
        SessionState::AwaitFirstRead => match event {
            SessionEvent::Read(bytes) => if bytes@.len() == 0 {
                close_step()
            } else {
                SessionStep {
                    state: SessionState::FollowUpSent,
                    action: SessionActionView::Write(
                        follow_up_line_spec(banner_bytes(configuration)),
                    ),
                }
            },
            _ => close_step(),
        },
        SessionState::FollowUpSent => match event {
            SessionEvent::Written => peek_step(configuration),
            _ => close_step(),
        },
        SessionState::AwaitRequest => match event {
            SessionEvent::Read(request) => request_step(request@),
            _ => close_step(),
        },
        SessionState::AcceptSent => match event {
            SessionEvent::Written => peek_step(configuration),
            _ => close_step(),
        },
        SessionState::RejectSent => close_step(),
        SessionState::Sniffing => match event {
            SessionEvent::Peeked(peek) => route_step(configuration, peek),
            _ => close_step(),
        },
    }
}

/// One accepted connection.
#[derive(Debug)]
pub struct Session {
    pub state: SessionState,
}

impl Session {
    /// A session for a connection that was just accepted; the driver starts
    /// by reporting `Begin`.
    pub fn new() -> (session: Session)
        ensures
            session.state == SessionState::Accepted,
    {
        Session { state: SessionState::Accepted }
    }

    fn close(&mut self) -> (action: SessionAction)
        ensures
            final(self).state == SessionState::Closed,
            action@ == SessionActionView::Close,
    {
        self.state = SessionState::Closed;
        SessionAction::Close
    }

    fn peek(&mut self, configuration: &Configuration) -> (action: SessionAction)
        ensures
            final(self).state == peek_step(*configuration).state,
            action@ == peek_step(*configuration).action,
    {
        self.state = SessionState::Sniffing;
        SessionAction::Peek {
            window: configuration.sniff_window,
            timeout_millis: configuration.sniff_timeout_millis,
        }
    }

    fn begin(&mut self, configuration: &Configuration) -> (action: SessionAction)
        ensures
            final(self).state == begin_step(*configuration).state,
            action@ == begin_step(*configuration).action,
    {
        match configuration.handshake {
            HandshakeMode::Skip => self.peek(configuration),
            HandshakeMode::Cosmetic { follow_up } => {
                self.state = SessionState::OpeningSent;
                SessionAction::Write(opening_line(configuration.status_banner.as_str()))
            },
            HandshakeMode::WebSocket => {
                self.state = SessionState::AwaitRequest;
                SessionAction::ReadOnce
            },
        }
    }

    fn on_request(&mut self, request: Vec<u8>) -> (action: SessionAction)
        ensures
            final(self).state == request_step(request@).state,
            action@ == request_step(request@).action,
    {
        match answer(request.as_slice()) {
            HandshakeReply::Accept(bytes) => {
                self.state = SessionState::AcceptSent;
                SessionAction::Write(bytes)
            },
            HandshakeReply::Reject(bytes) => {
                self.state = SessionState::RejectSent;
                SessionAction::Write(bytes)
            },
        }
    }

    fn route(&mut self, configuration: &Configuration, peek: Peek) -> (action: SessionAction)
        ensures
            final(self).state == route_step(*configuration, peek).state,
            action@ == route_step(*configuration, peek).action,
    {
        let tag = sniff(&peek, configuration.sniff_window);
        let address = select(tag, configuration).clone();
        self.state = SessionState::Routed;
        SessionAction::Connect { tag, address }
    }

    /// Takes what the driver reports and says what to do next.
    pub fn step(&mut self, configuration: &Configuration, event: SessionEvent) -> (action:
        SessionAction)
        ensures
            final(self).state == step_spec(old(self).state, *configuration, event).state,
            action@ == step_spec(old(self).state, *configuration, event).action,
    {
        let state = self.state;
        match state {
            SessionState::Routed => SessionAction::Nothing,
            SessionState::Closed => self.close(),
            SessionState::Accepted => match event {
                SessionEvent::Begin => self.begin(configuration),
                _ => self.close(),
            },
            SessionState::OpeningSent => match event {
                SessionEvent::Written => match configuration.handshake {
                    HandshakeMode::Cosmetic { follow_up: true } => {
                        self.state = SessionState::AwaitFirstRead;
                        SessionAction::ReadOnce
                    },
                    _ => self.peek(configuration),
                },
                _ => self.close(),
            },
            SessionState::AwaitFirstRead => match event {
                SessionEvent::Read(bytes) => {
                    if bytes.len() == 0 {
                        self.close()
                    } else {
                        self.state = SessionState::FollowUpSent;
                        SessionAction::Write(follow_up_line(configuration.status_banner.as_str()))
                    }
                },
                _ => self.close(),
            },
            SessionState::FollowUpSent => match event {
                SessionEvent::Written => self.peek(configuration),
                _ => self.close(),
            },
            SessionState::AwaitRequest => match event {
                SessionEvent::Read(request) => self.on_request(request),
                _ => self.close(),
            },
            SessionState::AcceptSent => match event {
                SessionEvent::Written => self.peek(configuration),
                _ => self.close(),
            },
            SessionState::RejectSent => self.close(),
            SessionState::Sniffing => match event {
                SessionEvent::Peeked(peek) => self.route(configuration, peek),
                _ => self.close(),
            },
        }
    }
}

/// The handshake that a state belongs to is over: the payload may be looked
/// at next.
pub open spec fn handshake_done(
    state: SessionState,
    configuration: Configuration,
    event: SessionEvent,
) -> bool {
    match state {
        SessionState::Accepted => configuration.handshake == HandshakeMode::Skip && event is Begin,
        SessionState::OpeningSent => configuration.handshake != (HandshakeMode::Cosmetic {
            follow_up: true,
        }) && event is Written,
        SessionState::FollowUpSent => event is Written,
        SessionState::AcceptSent => event is Written,
        _ => false,
    }
}

/// The payload is looked at only once the handshake is over or skipped, and
/// a backend is chosen only on what that look brought.
pub proof fn handshake_comes_first(
    state: SessionState,
    configuration: Configuration,
    event: SessionEvent,
)
    ensures
        step_spec(state, configuration, event).action is Peek <==> handshake_done(
            state,
            configuration,
            event,
        ),
        step_spec(state, configuration, event).action is Connect <==> state
            == SessionState::Sniffing && event is Peeked,
{
}

/// A request without a key is answered with the refusal, and whatever is
/// reported next closes the session: no backend is connected to.
pub proof fn request_without_key_is_refused(
    configuration: Configuration,
    request: Vec<u8>,
    next: SessionEvent,
)
    requires
        crate::handshake::key_spec(request@) is None,
    ensures
        step_spec(SessionState::AwaitRequest, configuration, SessionEvent::Read(request))
            == (SessionStep {
            state: SessionState::RejectSent,
            action: SessionActionView::Write(crate::handshake::bad_request_spec()),
        }),
        step_spec(SessionState::RejectSent, configuration, next) == close_step(),
{
}

/// A session that has chosen its backend is done: it changes no more and
/// asks for nothing, so the handshake is neither played again nor taken
/// back, whatever becomes of the backend.
pub proof fn routed_session_is_done(configuration: Configuration, event: SessionEvent)
    ensures
        step_spec(SessionState::Routed, configuration, event) == (SessionStep {
            state: SessionState::Routed,
            action: SessionActionView::Nothing,
        }),
{
}

/// Whatever the first bytes were, the session that looked at them connects
/// to the backend of their tag; a client that sent nothing in time goes to
/// the SSH backend.
pub proof fn payload_decides_backend(configuration: Configuration, peek: Peek)
    ensures
        step_spec(SessionState::Sniffing, configuration, SessionEvent::Peeked(peek)).action
            == (SessionActionView::Connect {
            tag: sniff_spec(peek, configuration.sniff_window as nat),
            address: select_spec(
                sniff_spec(peek, configuration.sniff_window as nat),
                configuration,
            ),
        }),
        peek is TimedOut || peek is Failed ==> step_spec(
            SessionState::Sniffing,
            configuration,
            SessionEvent::Peeked(peek),
        ).action == (SessionActionView::Connect {
            tag: ProtocolTag::Unknown,
            address: configuration.ssh_backend,
        }),
{
}

} // verus!
