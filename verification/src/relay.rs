//! The relay engine: two copy loops, one per direction, that end together.
//!
//! The engine decides; its driver owns the two connections, performs each
//! action and reports how it ended.

use vstd::prelude::*;

verus! {

/// The size of the buffer that each direction reads into.
pub const BUFFER_LEN: usize = 8192;

/// Why a copy loop stopped.
#[derive(Clone, Copy, Debug, PartialEq, Eq, Structural)]
pub enum CopyEnd {
    /// The source reached its end.
    Eof,
    /// A read failed.
    ReadFailed,
    /// A write failed.
    WriteFailed,
}

/// Where a copy loop stands.
#[derive(Clone, Copy, Debug, PartialEq, Eq, Structural)]
pub enum CopyState {
    /// A read of the source is awaited.
    Reading,
    /// A write of `pending` bytes to the sink is awaited.
    Writing { pending: usize },
    /// The loop has stopped.
    Done(CopyEnd),
}

/// What the driver reports of one direction.
#[derive(Debug)]
pub enum CopyEvent {
    /// A read brought these bytes; none means the end of the source.
    Read(Vec<u8>),
    /// The read failed.
    ReadFailed,
    /// The bytes were written in full.
    Written,
    /// The write failed.
    WriteFailed,
}

/// What the driver is to do next in one direction.
#[derive(Debug)]
pub enum CopyAction {
    /// Read from the source, up to `capacity` bytes.
    Read { capacity: usize },
    /// Write all of these bytes to the sink.
    Write(Vec<u8>),
    /// Stop: the loop is over.
    Stop(CopyEnd),
}

/// A copy action as mathematical values.
pub enum CopyActionView {
    Read { capacity: usize },
    Write(Seq<u8>),
    Stop(CopyEnd),
}

impl View for CopyAction {
    type V = CopyActionView;

    open spec fn view(&self) -> CopyActionView {
        match *self {
            CopyAction::Read { capacity } => CopyActionView::Read { capacity },
            CopyAction::Write(bytes) => CopyActionView::Write(bytes@),
            CopyAction::Stop(end) => CopyActionView::Stop(end),
        }
    }
}

/// One direction of a relay: its copy loop and the bytes it has handed on.
#[derive(Clone, Copy, Debug, PartialEq, Eq, Structural)]
pub struct Direction {
    pub state: CopyState,
    /// Bytes written so far; the count stops at the largest number.
    pub forwarded: u64,
}

/// One step of a copy loop.
pub struct CopyStep {
    pub direction: Direction,
    pub action: CopyActionView,
}

/// A count raised by `more`, stopping at the largest number.
pub open spec fn raised(count: u64, more: usize) -> u64 {
    if count + more > u64::MAX {
        u64::MAX
    } else {
        (count + more) as u64
    }
}

/// The step that stops a loop.
pub open spec fn stop_step(direction: Direction, end: CopyEnd) -> CopyStep {
    CopyStep {
        direction: Direction { state: CopyState::Done(end), forwarded: direction.forwarded },
        action: CopyActionView::Stop(end),
    }
}

/// The step of a copy loop on `event`. A read of no bytes is the end of the
/// source and stops the loop; a read of some bytes has exactly those bytes
/// written; a finished write is counted and followed by the next read; a
/// failure stops the loop. A stopped loop stays stopped. An event of the
/// half that is not awaited stops the loop as that half's failure.
pub open spec fn copy_step_spec(direction: Direction, event: CopyEvent) -> CopyStep {
    match direction.state {
        CopyState::Done(end) => stop_step(direction, end),
        CopyState::Reading => match event {
            CopyEvent::Read(bytes) => if bytes@.len() == 0 {
                stop_step(direction, CopyEnd::Eof)
            } else {
                CopyStep {
                    direction: Direction {
                        state: CopyState::Writing { pending: bytes@.len() as usize },
                        forwarded: direction.forwarded,
                    },
                    action: CopyActionView::Write(bytes@),
                }
            },
            CopyEvent::ReadFailed => stop_step(direction, CopyEnd::ReadFailed),
            _ => stop_step(direction, CopyEnd::WriteFailed),
        },
        CopyState::Writing { pending } => match event {
            CopyEvent::Written => CopyStep {
                direction: Direction {
                    state: CopyState::Reading,
                    forwarded: raised(direction.forwarded, pending),
                },
                action: CopyActionView::Read { capacity: BUFFER_LEN },
            },
            CopyEvent::WriteFailed => stop_step(direction, CopyEnd::WriteFailed),
            _ => stop_step(direction, CopyEnd::ReadFailed),
        },
    }
}

impl Direction {
    /// A loop that awaits its first read and has handed on nothing.
    pub fn new() -> (direction: Direction)
        ensures
            direction == (Direction { state: CopyState::Reading, forwarded: 0 }),
    {
        Direction { state: CopyState::Reading, forwarded: 0 }
    }

    fn stop(&mut self, end: CopyEnd) -> (action: CopyAction)
        ensures
            *final(self) == stop_step(*old(self), end).direction,
            action@ == stop_step(*old(self), end).action,
    {
        self.state = CopyState::Done(end);
        CopyAction::Stop(end)
    }

    /// Takes what the driver reports and says what to do next.
    pub fn step(&mut self, event: CopyEvent) -> (action: CopyAction)
        ensures
            *final(self) == copy_step_spec(*old(self), event).direction,
            action@ == copy_step_spec(*old(self), event).action,
    {
        let state = self.state;
        match state {
            CopyState::Done(end) => self.stop(end),
            CopyState::Reading => match event {
                CopyEvent::Read(bytes) => {
                    if bytes.len() == 0 {
                        self.stop(CopyEnd::Eof)
                    } else {
                        self.state = CopyState::Writing { pending: bytes.len() };
                        CopyAction::Write(bytes)
                    }
                },
                CopyEvent::ReadFailed => self.stop(CopyEnd::ReadFailed),
                _ => self.stop(CopyEnd::WriteFailed),
            },
            CopyState::Writing { pending } => match event {
                CopyEvent::Written => {
                    self.state = CopyState::Reading;
                    self.forwarded = if pending as u64 > u64::MAX - self.forwarded {
                        u64::MAX
                    } else {
                        self.forwarded + pending as u64
                    };
                    CopyAction::Read { capacity: BUFFER_LEN }
                },
                CopyEvent::WriteFailed => self.stop(CopyEnd::WriteFailed),
                _ => self.stop(CopyEnd::ReadFailed),
            },
        }
    }
}

/// The bytes that a direction writes when it is fed `reads` in order and
/// every write succeeds: those of each read up to the first empty one.
pub open spec fn written_of(reads: Seq<Vec<u8>>) -> Seq<u8>
    decreases reads.len(),
{
    if reads.len() == 0 || reads[0]@.len() == 0 {
        Seq::empty()
    } else {
        reads[0]@ + written_of(reads.drop_first())
    }
}

/// The bytes that a loop in `direction` is told to write while it is
/// driven through `reads`: each read is reported, and each write that is
/// asked for is reported as done before the next read.
pub open spec fn driven(direction: Direction, reads: Seq<Vec<u8>>) -> Seq<u8>
    decreases reads.len(),
{
    if reads.len() == 0 {
        Seq::empty()
    } else {
        let after_read = copy_step_spec(direction, CopyEvent::Read(reads[0]));
        match after_read.action {
            CopyActionView::Write(bytes) => bytes + driven(
                copy_step_spec(after_read.direction, CopyEvent::Written).direction,
                reads.drop_first(),
            ),
            _ => driven(after_read.direction, reads.drop_first()),
        }
    }
}

/// A stopped loop writes nothing more, whatever is reported to it.
pub proof fn stopped_writes_nothing(direction: Direction, reads: Seq<Vec<u8>>)
    requires
        direction.state is Done,
    ensures
        driven(direction, reads) == Seq::<u8>::empty(),
    decreases reads.len(),
{
    if reads.len() > 0 {
        stopped_writes_nothing(
            copy_step_spec(direction, CopyEvent::Read(reads[0])).direction,
            reads.drop_first(),
        );
    }
}

/// A reading loop hands on the bytes it reads, all of them, unchanged and in
/// the order read, whatever the size of each read, and stops at the first
/// empty read.
pub proof fn bytes_pass_unchanged(direction: Direction, reads: Seq<Vec<u8>>)
    requires
        direction.state is Reading,
    ensures
        driven(direction, reads) == written_of(reads),
    decreases reads.len(),
{
    if reads.len() > 0 {
        let after_read = copy_step_spec(direction, CopyEvent::Read(reads[0]));
        if reads[0]@.len() == 0 {
            stopped_writes_nothing(after_read.direction, reads.drop_first());
        } else {
            bytes_pass_unchanged(
                copy_step_spec(after_read.direction, CopyEvent::Written).direction,
                reads.drop_first(),
            );
        }
    }
}

/// One of the two directions of a relay.
#[derive(Clone, Copy, Debug, PartialEq, Eq, Structural)]
pub enum Flow {
    ClientToBackend,
    BackendToClient,
}

/// Where a relay stands.
#[derive(Clone, Copy, Debug, PartialEq, Eq, Structural)]
pub enum RelayPhase {
    /// The connection to the backend is being made.
    Connecting,
    /// Both directions are copying.
    Relaying,
    /// The relay is over.
    Finished,
}

/// Why a relay failed.
#[derive(Clone, Copy, Debug, PartialEq, Eq, Structural)]
pub enum RelayError {
    /// The backend could not be connected to.
    BackendUnreachable,
    /// A read or a write failed on either connection.
    RelayIo,
}

/// What a relay carried, by direction.
#[derive(Clone, Copy, Debug, PartialEq, Eq, Structural)]
pub struct RelayStats {
    pub client_to_backend: u64,
    pub backend_to_client: u64,
}

/// What the driver reports.
#[derive(Debug)]
pub enum RelayEvent {
    /// The backend connection stands.
    Connected,
    /// The backend could not be connected to.
    ConnectFailed,
    /// Something happened in one direction.
    Copy(Flow, CopyEvent),
}

/// What the driver is to do next.
#[derive(Debug)]
pub enum RelayAction {
    /// Close the client connection; there is no backend connection.
    CloseClient(RelayError),
    /// Start both directions with a read of up to `capacity` bytes each.
    Start { capacity: usize },
    /// Go on in one direction.
    Copy(Flow, CopyAction),
    /// Shut down both connections at once, whatever the other direction is
    /// doing, and report the result.
    Shutdown(Result<RelayStats, RelayError>),
    /// Do nothing: the event came too late or too early to matter.
    Nothing,
}

/// A relay action as mathematical values.
pub enum RelayActionView {
    CloseClient(RelayError),
    Start { capacity: usize },
    Copy(Flow, CopyActionView),
    Shutdown(Result<RelayStats, RelayError>),
    Nothing,
}

impl View for RelayAction {
    type V = RelayActionView;

    open spec fn view(&self) -> RelayActionView {
        match *self {
            RelayAction::CloseClient(error) => RelayActionView::CloseClient(error),
            RelayAction::Start { capacity } => RelayActionView::Start { capacity },
            RelayAction::Copy(flow, action) => RelayActionView::Copy(flow, action@),
            RelayAction::Shutdown(outcome) => RelayActionView::Shutdown(outcome),
            RelayAction::Nothing => RelayActionView::Nothing,
        }
    }
}

/// One relay between a client and a backend.
#[derive(Clone, Copy, Debug, PartialEq, Eq, Structural)]
pub struct RelayEngine {
    pub phase: RelayPhase,
    pub client_to_backend: Direction,
    pub backend_to_client: Direction,
}

/// One step of a relay.
pub struct RelayStep {
    pub engine: RelayEngine,
    pub action: RelayActionView,
}

/// The result of a relay whose first direction to stop stopped with `end`:
/// the counts of both directions after an end of stream, an error after a
/// failure.
pub open spec fn outcome_spec(engine: RelayEngine, end: CopyEnd) -> Result<RelayStats, RelayError> {
    match end {
        CopyEnd::Eof => Ok(
            RelayStats {
                client_to_backend: engine.client_to_backend.forwarded,
                backend_to_client: engine.backend_to_client.forwarded,
            },
        ),
        _ => Err(RelayError::RelayIo),
    }
}

/// The engine with the direction `flow` replaced.
pub open spec fn with_direction(engine: RelayEngine, flow: Flow, direction: Direction)
    -> RelayEngine {
    match flow {
        Flow::ClientToBackend => RelayEngine { client_to_backend: direction, ..engine },
        Flow::BackendToClient => RelayEngine { backend_to_client: direction, ..engine },
    }
}

/// The direction `flow` of the engine.
pub open spec fn direction_of(engine: RelayEngine, flow: Flow) -> Direction {
    match flow {
        Flow::ClientToBackend => engine.client_to_backend,
        Flow::BackendToClient => engine.backend_to_client,
    }
}

/// The step taken while relaying on an event of direction `flow`: that
/// direction's own step, and, where it stops the direction, the end of the
/// whole relay.
pub open spec fn flow_step(engine: RelayEngine, flow: Flow, event: CopyEvent) -> RelayStep {
    let step = copy_step_spec(direction_of(engine, flow), event);
    let moved = with_direction(engine, flow, step.direction);
    match step.action {
        CopyActionView::Stop(end) => RelayStep {
            engine: RelayEngine { phase: RelayPhase::Finished, ..moved },
            action: RelayActionView::Shutdown(outcome_spec(moved, end)),
        },
        other => RelayStep { engine: moved, action: RelayActionView::Copy(flow, other) },
    }
}

/// The step of a relay on `event`. A failed connect ends it with the client
/// closed and nothing else done. Once connected, both directions run; the
/// first to stop ends the relay for both. Whatever is reported out of turn,
/// or after the end, changes nothing and asks for nothing.
pub open spec fn relay_step_spec(engine: RelayEngine, event: RelayEvent) -> RelayStep {
    match engine.phase {
        RelayPhase::Connecting => match event {
            RelayEvent::Connected => RelayStep {
                engine: RelayEngine { phase: RelayPhase::Relaying, ..engine },
                action: RelayActionView::Start { capacity: BUFFER_LEN },
            },
            RelayEvent::ConnectFailed => RelayStep {
                engine: RelayEngine { phase: RelayPhase::Finished, ..engine },
                action: RelayActionView::CloseClient(RelayError::BackendUnreachable),
            },
            _ => RelayStep { engine, action: RelayActionView::Nothing },
        },
        RelayPhase::Relaying => match event {
            RelayEvent::Copy(flow, copy_event) => flow_step(engine, flow, copy_event),
            _ => RelayStep { engine, action: RelayActionView::Nothing },
        },
        RelayPhase::Finished => RelayStep { engine, action: RelayActionView::Nothing },
    }
}

impl RelayEngine {
    /// A relay that waits for its backend connection; the driver starts by
    /// connecting to the selected backend.
    pub fn new() -> (engine: RelayEngine)
        ensures
            engine == (RelayEngine {
                phase: RelayPhase::Connecting,
                client_to_backend: Direction { state: CopyState::Reading, forwarded: 0 },
                backend_to_client: Direction { state: CopyState::Reading, forwarded: 0 },
            }),
    {
        RelayEngine {
            phase: RelayPhase::Connecting,
            client_to_backend: Direction::new(),
            backend_to_client: Direction::new(),
        }
    }

    /// Tells whether the relay is over.
    pub fn is_finished(&self) -> (finished: bool)
        ensures
            finished == (self.phase == RelayPhase::Finished),
    {
        self.phase == RelayPhase::Finished
    }

    /// What the relay has carried so far.
    pub fn stats(&self) -> (stats: RelayStats)
        ensures
            stats == (RelayStats {
                client_to_backend: self.client_to_backend.forwarded,
                backend_to_client: self.backend_to_client.forwarded,
            }),
    {
        RelayStats {
            client_to_backend: self.client_to_backend.forwarded,
            backend_to_client: self.backend_to_client.forwarded,
        }
    }

    fn on_copy(&mut self, flow: Flow, event: CopyEvent) -> (action: RelayAction)
        requires
            old(self).phase == RelayPhase::Relaying,
        ensures
            *final(self) == flow_step(*old(self), flow, event).engine,
            action@ == flow_step(*old(self), flow, event).action,
    {
        let moved = match flow {
            Flow::ClientToBackend => self.client_to_backend.step(event),
            Flow::BackendToClient => self.backend_to_client.step(event),
        };
        match moved {
            CopyAction::Stop(end) => {
                self.phase = RelayPhase::Finished;
                let outcome = match end {
                    CopyEnd::Eof => Ok(self.stats()),
                    _ => Err(RelayError::RelayIo),
                };
                RelayAction::Shutdown(outcome)
            },
            other => RelayAction::Copy(flow, other),
        }
    }

    /// Takes what the driver reports and says what to do next.
    pub fn step(&mut self, event: RelayEvent) -> (action: RelayAction)
        ensures
            *final(self) == relay_step_spec(*old(self), event).engine,
            action@ == relay_step_spec(*old(self), event).action,
    {
        match self.phase {
            RelayPhase::Connecting => match event {
                RelayEvent::Connected => {
                    self.phase = RelayPhase::Relaying;
                    RelayAction::Start { capacity: BUFFER_LEN }
                },
                RelayEvent::ConnectFailed => {
                    self.phase = RelayPhase::Finished;
                    RelayAction::CloseClient(RelayError::BackendUnreachable)
                },
                _ => RelayAction::Nothing,
            },
            RelayPhase::Relaying => match event {
                RelayEvent::Copy(flow, copy_event) => self.on_copy(flow, copy_event),
                _ => RelayAction::Nothing,
            },
            RelayPhase::Finished => RelayAction::Nothing,
        }
    }
}

/// While relaying, the end of either source ends the whole relay in that
/// one step: both connections are shut down and the counts reported,
/// whatever the other direction is waiting for.
pub proof fn first_end_of_stream_ends_relay(engine: RelayEngine, flow: Flow, read: Vec<u8>)
    requires
        engine.phase == RelayPhase::Relaying,
        direction_of(engine, flow).state == CopyState::Reading,
        read@.len() == 0,
    ensures
        relay_step_spec(engine, RelayEvent::Copy(flow, CopyEvent::Read(read))).engine.phase
            == RelayPhase::Finished,
        relay_step_spec(engine, RelayEvent::Copy(flow, CopyEvent::Read(read))).action
            == RelayActionView::Shutdown(
            Ok(
                RelayStats {
                    client_to_backend: engine.client_to_backend.forwarded,
                    backend_to_client: engine.backend_to_client.forwarded,
                },
            ),
        ),
{
}

/// While relaying, a failed read or write in either direction ends the
/// whole relay in that one step with an error.
pub proof fn failure_ends_relay(engine: RelayEngine, flow: Flow, event: CopyEvent)
    requires
        engine.phase == RelayPhase::Relaying,
        event is ReadFailed || event is WriteFailed,
    ensures
        relay_step_spec(engine, RelayEvent::Copy(flow, event)).engine.phase
            == RelayPhase::Finished,
        relay_step_spec(engine, RelayEvent::Copy(flow, event)).action is Shutdown,
        !(direction_of(engine, flow).state is Done) ==> relay_step_spec(
            engine,
            RelayEvent::Copy(flow, event),
        ).action == RelayActionView::Shutdown(Err(RelayError::RelayIo)),
{
}

/// A backend that cannot be reached ends the relay with the client closed;
/// nothing is written to the client and no connect is tried again, whatever
/// is reported afterwards.
pub proof fn unreachable_backend_closes_client(engine: RelayEngine, later: RelayEvent)
    requires
        engine.phase == RelayPhase::Connecting,
    ensures
        relay_step_spec(engine, RelayEvent::ConnectFailed).action == RelayActionView::CloseClient(
            RelayError::BackendUnreachable,
        ),
        relay_step_spec(engine, RelayEvent::ConnectFailed).engine.phase == RelayPhase::Finished,
        relay_step_spec(relay_step_spec(engine, RelayEvent::ConnectFailed).engine, later)
            == (RelayStep {
            engine: relay_step_spec(engine, RelayEvent::ConnectFailed).engine,
            action: RelayActionView::Nothing,
        }),
{
}

/// A finished relay stays finished and asks for nothing more.
pub proof fn finished_stays_finished(engine: RelayEngine, event: RelayEvent)
    requires
        engine.phase == RelayPhase::Finished,
    ensures
        relay_step_spec(engine, event) == (RelayStep { engine, action: RelayActionView::Nothing }),
{
}

/// While relaying, a step in one direction leaves the other as it was.
pub proof fn directions_are_independent(engine: RelayEngine, flow: Flow, event: CopyEvent)
    requires
        engine.phase == RelayPhase::Relaying,
    ensures
        flow == Flow::ClientToBackend ==> relay_step_spec(
            engine,
            RelayEvent::Copy(flow, event),
        ).engine.backend_to_client == engine.backend_to_client,
        flow == Flow::BackendToClient ==> relay_step_spec(
            engine,
            RelayEvent::Copy(flow, event),
        ).engine.client_to_backend == engine.client_to_backend,
{
}

} // verus!
