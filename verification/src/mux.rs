//! The datagram multiplexer: many logical datagram connections carried on
//! one byte stream, one frame per read.
//!
//! The multiplexer decides; its driver owns the stream and one datagram
//! socket for the whole session, performs each action and reports how it
//! ended.

use std::collections::HashMap;
use vstd::prelude::*;
use crate::frame::{
    destination_spec, encode_spec, parse_spec, reply_spec, Destination, FrameError, FrameView,
    MultiplexFrame,
};

verus! {

broadcast use vstd::std_specs::hash::group_hash_axioms;

/// How long a reply to a forwarded datagram is waited for, in milliseconds.
pub const REPLY_WAIT_MILLIS: u64 = 500;

/// Where each logical connection of a session last sent to. A connection
/// has at most one destination; a new one takes the place of the old.
pub struct ConnectionTable {
    entries: HashMap<u16, Destination>,
}

impl View for ConnectionTable {
    type V = Map<u16, Destination>;

    closed spec fn view(&self) -> Map<u16, Destination> {
        self.entries@
    }
}

impl ConnectionTable {
    /// A table without entries.
    pub fn new() -> (table: ConnectionTable)
        ensures
            table@ == Map::<u16, Destination>::empty(),
    {
        ConnectionTable { entries: HashMap::new() }
    }

    /// Notes that `connection_id` sends to `destination` from now on.
    pub fn record(&mut self, connection_id: u16, destination: Destination)
        ensures
            final(self)@ == old(self)@.insert(connection_id, destination),
    {
        self.entries.insert(connection_id, destination);
    }

    /// The destination that `connection_id` last sent to.
    pub fn lookup(&self, connection_id: u16) -> (found: Option<Destination>)
        ensures
            found == if self@.contains_key(connection_id) {
                Some(self@[connection_id])
            } else {
                None::<Destination>
            },
    {
        match self.entries.get(&connection_id) {
            Some(destination) => Some(*destination),
            None => None,
        }
    }

    /// The number of connections seen.
    pub fn len(&self) -> (count: usize)
        ensures
            count == self@.len(),
    {
        self.entries.len()
    }
}

/// A datagram to forward, as one frame asks for it.
#[derive(Debug)]
pub struct Request {
    pub connection_id: u16,
    pub destination: Destination,
    pub payload: Vec<u8>,
}

/// The request that a chunk holds: its frame, where the chunk is one and
/// names an IPv4 destination.
pub open spec fn request_spec(chunk: Seq<u8>) -> Result<(u16, Destination, Seq<u8>), FrameError> {
    match parse_spec(chunk) {
        Err(error) => Err(error),
        Ok(frame) => match destination_spec(frame) {
            Err(error) => Err(error),
            Ok(destination) => Ok((frame.connection_id, destination, frame.payload)),
        },
    }
}

/// Reads a chunk as a request.
pub fn decode_request(chunk: &[u8]) -> (decoded: Result<Request, FrameError>)
    ensures
        match decoded {
            Ok(request) => request_spec(chunk@) == Ok::<(u16, Destination, Seq<u8>), FrameError>(
                (request.connection_id, request.destination, request.payload@),
            ),
            Err(error) => request_spec(chunk@) == Err::<(u16, Destination, Seq<u8>), FrameError>(
                error,
            ),
        },
{
    match MultiplexFrame::parse(chunk) {
        Err(error) => Err(error),
        Ok(frame) => match frame.destination() {
            Err(error) => Err(error),
            Ok(destination) => Ok(
                Request { connection_id: frame.connection_id, destination, payload: frame.payload },
            ),
        },
    }
}

/// Where a session stands.
#[derive(Clone, Copy, Debug)]
pub enum MuxState {
    /// Waiting for the next chunk of the stream.
    AwaitFrameHeader,
    /// A frame was read and its datagram handed over for sending.
    FrameComplete { connection_id: u16, destination: Destination },
    /// The datagram is out; a reply is waited for, for a bounded time.
    AwaitUdpReply { connection_id: u16, destination: Destination },
    /// The reply frame was handed over for writing.
    FrameSent,
    /// The session is over.
    Closed,
}

/// What the driver reports.
#[derive(Debug)]
pub enum MuxEvent {
    /// One read of the stream brought these bytes; none means its end.
    Chunk(Vec<u8>),
    /// The stream ended.
    StreamEnded,
    /// A read or a write of the stream failed.
    StreamFailed,
    /// The datagram was sent.
    DatagramSent,
    /// The datagram could not be sent.
    DatagramFailed,
    /// A datagram came back within the wait.
    Reply(Vec<u8>),
    /// Nothing came back within the wait.
    ReplyTimedOut,
    /// Receiving failed.
    ReplyFailed,
    /// The reply frame was written to the stream.
    ReplyWritten,
}

/// What the driver is to do next.
#[derive(Debug)]
pub enum MuxAction {
    /// Read once from the stream and report the chunk.
    ReadStream,
    /// Send `payload` to `destination` on the session's datagram socket.
    SendDatagram { destination: Destination, payload: Vec<u8> },
    /// Wait up to `millis` milliseconds for a datagram on that socket.
    AwaitReply { millis: u64 },
    /// Write these bytes to the stream.
    WriteStream(Vec<u8>),
    /// Close the stream and the socket.
    Close,
}

/// An action as mathematical values.
pub enum MuxActionView {
    ReadStream,
    SendDatagram { destination: Destination, payload: Seq<u8> },
    AwaitReply { millis: u64 },
    WriteStream(Seq<u8>),
    Close,
}

impl View for MuxAction {
    type V = MuxActionView;

    open spec fn view(&self) -> MuxActionView {
        match *self {
            MuxAction::ReadStream => MuxActionView::ReadStream,
            MuxAction::SendDatagram { destination, payload } => MuxActionView::SendDatagram {
                destination,
                payload: payload@,
            },
            MuxAction::AwaitReply { millis } => MuxActionView::AwaitReply { millis },
            MuxAction::WriteStream(bytes) => MuxActionView::WriteStream(bytes@),
            MuxAction::Close => MuxActionView::Close,
        }
    }
}

/// One step of a session: where it stands afterwards, what its table holds
/// and what is to be done.
pub struct MuxStep {
    pub state: MuxState,
    pub table: Map<u16, Destination>,
    pub action: MuxActionView,
}

/// The step that ends a session.
pub open spec fn close_step(table: Map<u16, Destination>) -> MuxStep {
    MuxStep { state: MuxState::Closed, table, action: MuxActionView::Close }
}

/// The step that drops what is in hand and goes back to reading.
pub open spec fn read_step(table: Map<u16, Destination>) -> MuxStep {
    MuxStep { state: MuxState::AwaitFrameHeader, table, action: MuxActionView::ReadStream }
}

/// The step taken on a chunk while waiting for a frame. An empty chunk is
/// the end of the stream. A chunk that is no request is dropped whole: no
/// datagram, nothing written, nothing kept for the next read. A request is
/// noted in the table and its payload sent on.
pub open spec fn chunk_step(table: Map<u16, Destination>, chunk: Seq<u8>) -> MuxStep {
    if chunk.len() == 0 {
        close_step(table)
    } else {
        match request_spec(chunk) {
            Ok((connection_id, destination, payload)) => MuxStep {
                state: MuxState::FrameComplete { connection_id, destination },
                table: table.insert(connection_id, destination),
                action: MuxActionView::SendDatagram { destination, payload },
            },
            Err(_) => read_step(table),
        }
    }
}

/// The step taken on a reply: it goes back in a frame of its own.
pub open spec fn reply_step(
    table: Map<u16, Destination>,
    connection_id: u16,
    destination: Destination,
    reply: Seq<u8>,
) -> MuxStep {
    MuxStep {
        state: MuxState::FrameSent,
        table,
        action: MuxActionView::WriteStream(
            encode_spec(reply_spec(connection_id, destination, reply)),
        ),
    }
}

/// The step of a session in `state` on `event`. A failed send, a failed
/// receive and a wait that ran out drop the frame and go back to reading; the
/// end or a failure of the stream closes the session, and so does an event
/// that the state does not wait for. A closed session stays closed.
pub open spec fn step_spec(state: MuxState, table: Map<u16, Destination>, event: MuxEvent)
    -> MuxStep {
    match state {
        MuxState::Closed => close_step(table),
        MuxState::AwaitFrameHeader => match event {
            MuxEvent::Chunk(chunk) => chunk_step(table, chunk@),
            _ => close_step(table),
        },
        MuxState::FrameComplete { connection_id, destination } => match event {
            MuxEvent::DatagramSent => MuxStep {
                state: MuxState::AwaitUdpReply { connection_id, destination },
                table,
                action: MuxActionView::AwaitReply { millis: REPLY_WAIT_MILLIS },
            },
            MuxEvent::DatagramFailed => read_step(table),
            _ => close_step(table),
        },
        MuxState::AwaitUdpReply { connection_id, destination } => match event {
            MuxEvent::Reply(reply) => reply_step(table, connection_id, destination, reply@),
            MuxEvent::ReplyTimedOut => read_step(table),
            MuxEvent::ReplyFailed => read_step(table),
            _ => close_step(table),
        },
        MuxState::FrameSent => match event {
            MuxEvent::ReplyWritten => read_step(table),
            _ => close_step(table),
        },
    }
}

/// One session of the multiplexer.
pub struct Multiplexer {
    pub state: MuxState,
    pub table: ConnectionTable,
}

impl Multiplexer {
    /// A session that waits for its first frame; the driver starts by
    /// reading the stream.
    pub fn new() -> (session: Multiplexer)
        ensures
            session.state == MuxState::AwaitFrameHeader,
            session.table@ == Map::<u16, Destination>::empty(),
    {
        Multiplexer { state: MuxState::AwaitFrameHeader, table: ConnectionTable::new() }
    }

    /// Tells whether the session is over.
    pub fn is_closed(&self) -> (closed: bool)
        ensures
            closed == (self.state is Closed),
    {
        match self.state {
            MuxState::Closed => true,
            _ => false,
        }
    }

    fn close(&mut self) -> (action: MuxAction)
        ensures
            final(self).state == MuxState::Closed,
            final(self).table@ == old(self).table@,
            action@ == MuxActionView::Close,
    {
        self.state = MuxState::Closed;
        MuxAction::Close
    }

    fn read_on(&mut self) -> (action: MuxAction)
        ensures
            final(self).state == MuxState::AwaitFrameHeader,
            final(self).table@ == old(self).table@,
            action@ == MuxActionView::ReadStream,
    {
        self.state = MuxState::AwaitFrameHeader;
        MuxAction::ReadStream
    }

    fn on_chunk(&mut self, chunk: Vec<u8>) -> (action: MuxAction)
        ensures
            final(self).state == chunk_step(old(self).table@, chunk@).state,
            final(self).table@ == chunk_step(old(self).table@, chunk@).table,
            action@ == chunk_step(old(self).table@, chunk@).action,
    {
        if chunk.len() == 0 {
            return self.close();
        }
        match decode_request(chunk.as_slice()) {
            Ok(request) => {
                self.table.record(request.connection_id, request.destination);
                self.state = MuxState::FrameComplete {
                    connection_id: request.connection_id,
                    destination: request.destination,
                };
                MuxAction::SendDatagram {
                    destination: request.destination,
                    payload: request.payload,
                }
            },
            Err(_) => self.read_on(),
        }
    }

    fn on_reply(&mut self, connection_id: u16, destination: Destination, reply: Vec<u8>) -> (action:
        MuxAction)
        ensures
            final(self).state == reply_step(
                old(self).table@,
                connection_id,
                destination,
                reply@,
            ).state,
            final(self).table@ == old(self).table@,
            action@ == reply_step(old(self).table@, connection_id, destination, reply@).action,
    {
        let frame = MultiplexFrame::reply(connection_id, destination, reply);
        self.state = MuxState::FrameSent;
        MuxAction::WriteStream(frame.encode())
    }

    /// Takes what the driver reports and says what to do next.
    pub fn step(&mut self, event: MuxEvent) -> (action: MuxAction)
        ensures
            final(self).state == step_spec(old(self).state, old(self).table@, event).state,
            final(self).table@ == step_spec(old(self).state, old(self).table@, event).table,
            action@ == step_spec(old(self).state, old(self).table@, event).action,
    {
        let state = self.state;
        match state {
            MuxState::Closed => self.close(),
            MuxState::AwaitFrameHeader => match event {
                MuxEvent::Chunk(chunk) => self.on_chunk(chunk),
                _ => self.close(),
            },
            MuxState::FrameComplete { connection_id, destination } => match event {
                MuxEvent::DatagramSent => {
                    self.state = MuxState::AwaitUdpReply { connection_id, destination };
                    MuxAction::AwaitReply { millis: REPLY_WAIT_MILLIS }
                },
                MuxEvent::DatagramFailed => self.read_on(),
                _ => self.close(),
            },
            MuxState::AwaitUdpReply { connection_id, destination } => match event {
                MuxEvent::Reply(reply) => self.on_reply(connection_id, destination, reply),
                MuxEvent::ReplyTimedOut => self.read_on(),
                MuxEvent::ReplyFailed => self.read_on(),
                _ => self.close(),
            },
            MuxState::FrameSent => match event {
                MuxEvent::ReplyWritten => self.read_on(),
                _ => self.close(),
            },
        }
    }
}

/// A chunk shorter than the least frame with its declared address causes no
/// datagram and no write and changes nothing: the session goes on reading,
/// with its table as it was.
pub proof fn short_chunk_is_skipped(table: Map<u16, Destination>, chunk: Vec<u8>)
    requires
        0 < chunk@.len(),
        chunk@.len() < 12 || chunk@.len() < 12 + crate::frame::declared_address_len(chunk@),
    ensures
        step_spec(MuxState::AwaitFrameHeader, table, MuxEvent::Chunk(chunk)) == read_step(table),
{
}

/// A readable frame with an IPv4 address, read while waiting for a frame,
/// has its payload sent to the destination it names, and the table then
/// maps its connection to that destination and is otherwise unchanged.
pub proof fn request_is_forwarded(table: Map<u16, Destination>, chunk: Vec<u8>, frame: FrameView)
    requires
        frame.readable(),
        frame.address.len() == 4,
        chunk@ == encode_spec(frame),
    ensures
        destination_spec(frame) is Ok,
        step_spec(MuxState::AwaitFrameHeader, table, MuxEvent::Chunk(chunk)) == (MuxStep {
            state: MuxState::FrameComplete {
                connection_id: frame.connection_id,
                destination: destination_spec(frame)->Ok_0,
            },
            table: table.insert(frame.connection_id, destination_spec(frame)->Ok_0),
            action: MuxActionView::SendDatagram {
                destination: destination_spec(frame)->Ok_0,
                payload: frame.payload,
            },
        }),
{
    crate::frame::parse_inverts_encode(frame);
    assert(chunk@.len() > 0);
}

/// Once a request's datagram is out, a reply that comes within the wait is
/// written back in a frame with the request's connection number, no flags,
/// the request's destination and the reply's bytes, and the session then
/// reads on. The wait is the fixed bound.
pub proof fn reply_is_carried_back(
    table: Map<u16, Destination>,
    connection_id: u16,
    destination: Destination,
    reply: Vec<u8>,
)
    ensures
        step_spec(
            MuxState::FrameComplete { connection_id, destination },
            table,
            MuxEvent::DatagramSent,
        ) == (MuxStep {
            state: MuxState::AwaitUdpReply { connection_id, destination },
            table,
            action: MuxActionView::AwaitReply { millis: REPLY_WAIT_MILLIS },
        }),
        step_spec(
            MuxState::AwaitUdpReply { connection_id, destination },
            table,
            MuxEvent::Reply(reply),
        ) == (MuxStep {
            state: MuxState::FrameSent,
            table,
            action: MuxActionView::WriteStream(
                encode_spec(reply_spec(connection_id, destination, reply@)),
            ),
        }),
        step_spec(MuxState::FrameSent, table, MuxEvent::ReplyWritten) == read_step(table),
{
}

/// A wait that ran out, a failed receive and a failed send drop the frame:
/// nothing is written and the session reads on.
pub proof fn lost_reply_is_dropped(
    table: Map<u16, Destination>,
    connection_id: u16,
    destination: Destination,
)
    ensures
        step_spec(
            MuxState::AwaitUdpReply { connection_id, destination },
            table,
            MuxEvent::ReplyTimedOut,
        ) == read_step(table),
        step_spec(
            MuxState::AwaitUdpReply { connection_id, destination },
            table,
            MuxEvent::ReplyFailed,
        ) == read_step(table),
        step_spec(
            MuxState::FrameComplete { connection_id, destination },
            table,
            MuxEvent::DatagramFailed,
        ) == read_step(table),
{
}

/// A connection has one destination at a time: of two requests of the same
/// connection the later one decides where the table points, and no other
/// entry is touched.
pub proof fn latest_destination_wins(
    table: Map<u16, Destination>,
    connection_id: u16,
    first: Destination,
    second: Destination,
)
    ensures
        table.insert(connection_id, first).insert(connection_id, second) == table.insert(
            connection_id,
            second,
        ),
        table.insert(connection_id, second)[connection_id] == second,
        forall|other: u16|
            other != connection_id && table.contains_key(other) ==> #[trigger] table.insert(
                connection_id,
                second,
            )[other] == table[other],
{
    assert(table.insert(connection_id, first).insert(connection_id, second) =~= table.insert(
        connection_id,
        second,
    ));
}

/// A closed session stays closed, and its table is never touched again.
pub proof fn closed_stays_closed(table: Map<u16, Destination>, event: MuxEvent)
    ensures
        step_spec(MuxState::Closed, table, event) == close_step(table),
{
}

} // verus!
