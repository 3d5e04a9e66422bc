//! The three tasks that serve a running session, each as a step function:
//! the output pump, the input pump and the reaper.

use vstd::prelude::*;
use vstd::string::StringExecFns;
use vstd::utf8::{decode_utf8, encode_utf8, valid_utf8};
use crate::registry::occupant;
use crate::session::{
    is_current, retired, topic, topic_of, Event, EventKind, SessionChannel, TerminalState,
};
use crate::text::{decode_lossy, utf8_lossy};

verus! {

/// The size of the buffer into which a stream is read, in bytes.
pub const READ_CHUNK_SIZE: usize = 8192;

/// One of the two streams on which a process writes.
#[derive(Clone, Copy, Debug, PartialEq, Eq, Structural)]
pub enum OutputStream {
    Stdout,
    Stderr,
}

/// The kind of event on which the chunks of a stream are published.
pub open spec fn kind_of(stream: OutputStream) -> EventKind {
    match stream {
        OutputStream::Stdout => EventKind::Data,
        OutputStream::Stderr => EventKind::Error,
    }
}

/// How a read from a stream ended.
#[derive(Debug)]
pub enum ReadOutcome {
    /// The bytes that were read; none at the end of the stream.
    Bytes(Vec<u8>),
    /// The read failed.
    Failed,
}

impl ReadOutcome {
    /// This read brought data: it did not fail and is not empty.
    pub open spec fn has_data(self) -> bool {
        self matches ReadOutcome::Bytes(bytes) && bytes@.len() > 0
    }
}

/// The output pump of a session: which of the two streams are still read.
#[derive(Clone, Copy, Debug, PartialEq, Eq, Structural)]
pub struct OutputPump {
    pub stdout_open: bool,
    pub stderr_open: bool,
}

impl OutputPump {
    /// Whether `stream` is still read.
    pub open spec fn is_open(self, stream: OutputStream) -> bool {
        match stream {
            OutputStream::Stdout => self.stdout_open,
            OutputStream::Stderr => self.stderr_open,
        }
    }

    /// This pump with `stream` no longer read.
    pub open spec fn closed(self, stream: OutputStream) -> OutputPump {
        match stream {
            OutputStream::Stdout => OutputPump { stdout_open: false, stderr_open: self.stderr_open },
            OutputStream::Stderr => OutputPump { stdout_open: self.stdout_open, stderr_open: false },
        }
    }

    /// A pump that reads both streams.
    pub fn new() -> (pump: OutputPump)
        ensures
            pump.stdout_open && pump.stderr_open,
    {
        OutputPump { stdout_open: true, stderr_open: true }
    }

    /// Whether `stream` is still to be read.
    pub fn reads(&self, stream: OutputStream) -> (open: bool)
        ensures
            open == self.is_open(stream),
    {
        match stream {
            OutputStream::Stdout => self.stdout_open,
            OutputStream::Stderr => self.stderr_open,
        }
    }

    /// Whether the pump is done: it is once both streams have ended.
    pub fn finished(&self) -> (done: bool)
        ensures
            done == (!self.stdout_open && !self.stderr_open),
    {
        !self.stdout_open && !self.stderr_open
    }

    /// Takes in the outcome of one read from `stream`. A read that brought
    /// data is decoded, invalid sequences replaced, and published on the
    /// stream's topic of the session; an empty or failed read ends the
    /// reading of that stream and of no other. A read from a stream that has
    /// ended changes nothing.
    pub fn on_read(&mut self, session_id: &str, stream: OutputStream, read: ReadOutcome) -> (event:
        Option<Event>)
        ensures
            old(self).is_open(stream) && read.has_data() ==> *final(self) == *old(self)
                && event is Some && event->0.topic@ == topic_of(kind_of(stream), session_id@)
                && event->0.payload@ == utf8_lossy(read->Bytes_0@) && (valid_utf8(read->Bytes_0@)
                ==> event->0.payload@ == decode_utf8(read->Bytes_0@)),
            old(self).is_open(stream) && !read.has_data() ==> *final(self) == old(self).closed(
                stream,
            ) && event is None,
            !old(self).is_open(stream) ==> *final(self) == *old(self) && event is None,
    {
        if !self.reads(stream) {
            return None;
        }
        match read {
            ReadOutcome::Bytes(bytes) => {
                if bytes.len() > 0 {
                    let name = match stream {
                        OutputStream::Stdout => topic(EventKind::Data, session_id),
                        OutputStream::Stderr => topic(EventKind::Error, session_id),
                    };
                    return Some(Event { topic: name, payload: decode_lossy(bytes.as_slice()) });
                }
            },
            ReadOutcome::Failed => {},
        }
        match stream {
            OutputStream::Stdout => {
                self.stdout_open = false;
            },
            OutputStream::Stderr => {
                self.stderr_open = false;
            },
        }
        None
    }
}

/// Input that is echoed comes back as it was sent: the chunk enqueued for a
/// text is valid UTF-8 and decodes to that text, so a read that brings the
/// chunk back is published with the text as its payload.
pub proof fn echoed_input_reads_back(data: Seq<char>)
    ensures
        valid_utf8(encode_utf8(data)),
        decode_utf8(encode_utf8(data)) == data,
{
    vstd::utf8::encode_utf8_valid_utf8(data);
    vstd::utf8::encode_utf8_decode_utf8(data);
}

/// What has just happened to the input pump.
#[derive(Debug)]
pub enum InputEvent {
    /// A receive on the input channel ended: with a chunk, or with nothing
    /// because the channel is closed.
    Received(Option<Vec<u8>>),
    /// A write to the process's standard input ended; `true` if it succeeded.
    Written(bool),
}

/// What the input pump does next.
#[derive(Debug)]
pub enum InputAction {
    /// Write this chunk to the process's standard input.
    Write(Vec<u8>),
    /// Receive the next chunk from the input channel.
    Receive,
    /// End the pump.
    Stop,
}

/// The next action of the input pump: each chunk received is written as it
/// is, and the pump ends when the channel is closed or a write fails.
pub fn input_pump_step(event: InputEvent) -> (action: InputAction)
    ensures
        action == match event {
            InputEvent::Received(Some(chunk)) => InputAction::Write(chunk),
            InputEvent::Received(None) => InputAction::Stop,
            InputEvent::Written(true) => InputAction::Receive,
            InputEvent::Written(false) => InputAction::Stop,
        },
{
    match event {
        InputEvent::Received(Some(chunk)) => InputAction::Write(chunk),
        InputEvent::Received(None) => InputAction::Stop,
        InputEvent::Written(ok) => if ok {
            InputAction::Receive
        } else {
            InputAction::Stop
        },
    }
}

/// How far the reaper of a session has come.
#[derive(Clone, Copy, Debug, PartialEq, Eq, Structural)]
pub enum ReaperPhase {
    /// Nothing has been done yet.
    Idle,
    /// The process is being waited for.
    Waiting,
    /// The exit has been published.
    Done,
}

/// What has just happened to the reaper.
#[derive(Clone, Copy, Debug, PartialEq, Eq, Structural)]
pub enum ReaperSignal {
    /// The reaper was launched.
    Begin,
    /// The process that was waited for has ended.
    Exited,
}

/// What the reaper does next.
pub enum ReaperAction<P> {
    /// Wait for this process to end and report `Exited`, whatever its status.
    Wait(P),
    /// Publish this event: the session's exit.
    Publish(Event),
    /// The signal does not fit the phase: nothing is done.
    Nothing,
}

/// An action of the reaper without what it carries.
#[derive(Clone, Copy, Debug, PartialEq, Eq, Structural)]
pub enum ReaperDirective {
    Wait,
    Publish,
    Nothing,
}

impl<P> ReaperAction<P> {
    /// This action without what it carries.
    pub open spec fn directive(self) -> ReaperDirective {
        match self {
            ReaperAction::Wait(_) => ReaperDirective::Wait,
            ReaperAction::Publish(_) => ReaperDirective::Publish,
            ReaperAction::Nothing => ReaperDirective::Nothing,
        }
    }
}

/// The phase that follows `phase` on `signal`, where `occupied` says whether
/// the session's process is still registered.
pub open spec fn reaper_next_phase(
    phase: ReaperPhase,
    signal: ReaperSignal,
    occupied: bool,
) -> ReaperPhase {
    match (phase, signal) {
        (ReaperPhase::Idle, ReaperSignal::Begin) => if occupied {
            ReaperPhase::Waiting
        } else {
            ReaperPhase::Done
        },
        (ReaperPhase::Waiting, ReaperSignal::Exited) => ReaperPhase::Done,
        _ => phase,
    }
}

/// What the reaper does in `phase` on `signal`.
pub open spec fn reaper_directive(
    phase: ReaperPhase,
    signal: ReaperSignal,
    occupied: bool,
) -> ReaperDirective {
    match (phase, signal) {
        (ReaperPhase::Idle, ReaperSignal::Begin) => if occupied {
            ReaperDirective::Wait
        } else {
            ReaperDirective::Publish
        },
        (ReaperPhase::Waiting, ReaperSignal::Exited) => ReaperDirective::Publish,
        _ => ReaperDirective::Nothing,
    }
}

/// The reaper of one session.
pub struct Reaper {
    pub session_id: String,
    /// The serial number that the session was given when it was registered.
    pub serial: u64,
    pub phase: ReaperPhase,
}

impl Reaper {
    /// The reaper of the session `serial` under `session_id`, with nothing
    /// done yet.
    pub fn new(session_id: &str, serial: u64) -> (reaper: Reaper)
        ensures
            reaper.session_id@ == session_id@,
            reaper.serial == serial,
            reaper.phase == ReaperPhase::Idle,
    {
        Reaper { session_id: String::from_str(session_id), serial, phase: ReaperPhase::Idle }
    }
}

/// The event that tells the subscribers of a session that its process has
/// ended: published on the session's exit topic, with an empty payload.
pub fn exit_event(session_id: &str) -> (event: Event)
    ensures
        event.topic@ == topic_of(EventKind::Exit, session_id@),
        event.payload@ == Seq::<char>::empty(),
{
    Event { topic: topic(EventKind::Exit, session_id), payload: String::new() }
}

/// Whether the reaper of the session `serial` under `id` finds its process:
/// the session is the one registered under `id`, and its process is still
/// in the table.
pub open spec fn reaper_finds<P>(
    writers: Map<Seq<char>, SessionChannel>,
    processes: Map<Seq<char>, P>,
    id: Seq<char>,
    serial: u64,
) -> bool {
    is_current(writers, id, serial) && processes.contains_key(id)
}

/// The processes that a step of the reaper leaves: on `Begin` the process of
/// its session is taken out; no other step touches them.
pub open spec fn reaper_processes<P>(
    phase: ReaperPhase,
    signal: ReaperSignal,
    writers: Map<Seq<char>, SessionChannel>,
    processes: Map<Seq<char>, P>,
    id: Seq<char>,
    serial: u64,
) -> Map<Seq<char>, P> {
    if phase == ReaperPhase::Idle && signal == ReaperSignal::Begin && reaper_finds(
        writers,
        processes,
        id,
        serial,
    ) {
        processes.remove(id)
    } else {
        processes
    }
}

/// The channels that a step of the reaper leaves: the step that publishes
/// the exit retires the session, and no other step touches them.
pub open spec fn reaper_writers<P>(
    phase: ReaperPhase,
    signal: ReaperSignal,
    writers: Map<Seq<char>, SessionChannel>,
    processes: Map<Seq<char>, P>,
    id: Seq<char>,
    serial: u64,
) -> Map<Seq<char>, SessionChannel> {
    if reaper_directive(phase, signal, reaper_finds(writers, processes, id, serial))
        == ReaperDirective::Publish {
        retired(writers, id, serial)
    } else {
        writers
    }
}

/// Takes one step of the reaper. On `Begin` the process of its session is
/// taken out of the table and handed out to be waited for; where the
/// session was closed or superseded before, the exit is published at once.
/// On `Exited` the exit is published. The step that publishes the exit
/// retires the session: its input channel leaves the table with it, unless
/// a newer session holds the identifier by then. The exit is ordered after
/// the end of the process, not after the delivery of the last chunk that
/// the output pump published.
pub fn reaper_step<P>(state: &mut TerminalState<P>, reaper: &mut Reaper, signal: ReaperSignal) -> (action:
    ReaperAction<P>)
    ensures
        final(reaper).session_id == old(reaper).session_id,
        final(reaper).serial == old(reaper).serial,
        final(reaper).phase == reaper_next_phase(
            old(reaper).phase,
            signal,
            reaper_finds(
                old(state).writers@,
                old(state).processes@,
                old(reaper).session_id@,
                old(reaper).serial,
            ),
        ),
        action.directive() == reaper_directive(
            old(reaper).phase,
            signal,
            reaper_finds(
                old(state).writers@,
                old(state).processes@,
                old(reaper).session_id@,
                old(reaper).serial,
            ),
        ),
        final(state).writers@ == reaper_writers(
            old(reaper).phase,
            signal,
            old(state).writers@,
            old(state).processes@,
            old(reaper).session_id@,
            old(reaper).serial,
        ),
        final(state).processes@ == reaper_processes(
            old(reaper).phase,
            signal,
            old(state).writers@,
            old(state).processes@,
            old(reaper).session_id@,
            old(reaper).serial,
        ),
        final(state).next_serial == old(state).next_serial,
        action matches ReaperAction::Wait(process) ==> Some(process) == occupant(
            old(state).processes@,
            old(reaper).session_id@,
        ),
        action matches ReaperAction::Publish(event) ==> event.topic@ == topic_of(
            EventKind::Exit,
            old(reaper).session_id@,
        ) && event.payload@ == Seq::<char>::empty(),
{
    let phase = reaper.phase;
    match signal {
        ReaperSignal::Begin => {
            if phase == ReaperPhase::Idle {
                match state.reap(reaper.session_id.as_str(), reaper.serial) {
                    Some(process) => {
                        reaper.phase = ReaperPhase::Waiting;
                        ReaperAction::Wait(process)
                    },
                    None => {
                        reaper.phase = ReaperPhase::Done;
                        state.retire(reaper.session_id.as_str(), reaper.serial);
                        ReaperAction::Publish(exit_event(reaper.session_id.as_str()))
                    },
                }
            } else {
                ReaperAction::Nothing
            }
        },
        ReaperSignal::Exited => {
            if phase == ReaperPhase::Waiting {
                reaper.phase = ReaperPhase::Done;
                state.retire(reaper.session_id.as_str(), reaper.serial);
                ReaperAction::Publish(exit_event(reaper.session_id.as_str()))
            } else {
                ReaperAction::Nothing
            }
        },
    }
}

/// A session whose process ends by itself leaves nothing behind: after the
/// reaper's two steps the exit is published, and neither a process nor an
/// input channel is registered under the session's identifier, so input
/// that is sent afterwards finds no session.
pub proof fn natural_exit_retires_session<P>(
    writers: Map<Seq<char>, SessionChannel>,
    processes: Map<Seq<char>, P>,
    id: Seq<char>,
    serial: u64,
)
    requires
        is_current(writers, id, serial),
        processes.contains_key(id),
    ensures
        ({
            let begin = ReaperSignal::Begin;
            let exited = ReaperSignal::Exited;
            let idle = ReaperPhase::Idle;
            let waiting = ReaperPhase::Waiting;
            let writers1 = reaper_writers(idle, begin, writers, processes, id, serial);
            let processes1 = reaper_processes(idle, begin, writers, processes, id, serial);
            let found1 = reaper_finds(writers1, processes1, id, serial);
            let writers2 = reaper_writers(waiting, exited, writers1, processes1, id, serial);
            let processes2 = reaper_processes(waiting, exited, writers1, processes1, id, serial);
            &&& reaper_next_phase(idle, begin, reaper_finds(writers, processes, id, serial))
                == waiting
            &&& reaper_directive(idle, begin, reaper_finds(writers, processes, id, serial))
                == ReaperDirective::Wait
            &&& reaper_next_phase(waiting, exited, found1) == ReaperPhase::Done
            &&& reaper_directive(waiting, exited, found1) == ReaperDirective::Publish
            &&& !writers2.contains_key(id)
            &&& !processes2.contains_key(id)
        }),
{
}

/// The reaper of a session that was superseded touches nothing of the newer
/// session under the same identifier: whatever step it takes, the newer
/// session's process and input channel stay registered.
pub proof fn stale_reaper_spares_newer_session<P>(
    phase: ReaperPhase,
    signal: ReaperSignal,
    writers: Map<Seq<char>, SessionChannel>,
    processes: Map<Seq<char>, P>,
    id: Seq<char>,
    serial: u64,
)
    requires
        writers.contains_key(id),
        writers[id].serial != serial,
    ensures
        reaper_writers(phase, signal, writers, processes, id, serial) == writers,
        reaper_processes(phase, signal, writers, processes, id, serial) == processes,
{
}

/// The phase that the reaper reaches from `Idle` by the steps on `signals`,
/// where `occupied[i]` says whether the session's process was registered
/// when step `i` was taken.
pub open spec fn reaper_phase_after(signals: Seq<ReaperSignal>, occupied: Seq<bool>) -> ReaperPhase
    decreases signals.len(),
{
    if signals.len() == 0 {
        ReaperPhase::Idle
    } else {
        reaper_next_phase(
            reaper_phase_after(signals.drop_last(), occupied.drop_last()),
            signals.last(),
            occupied.last(),
        )
    }
}

/// The number of exit events that the reaper publishes in the steps on
/// `signals`.
pub open spec fn exits_published(signals: Seq<ReaperSignal>, occupied: Seq<bool>) -> nat
    decreases signals.len(),
{
    if signals.len() == 0 {
        0
    } else {
        let before = exits_published(signals.drop_last(), occupied.drop_last());
        if reaper_directive(
            reaper_phase_after(signals.drop_last(), occupied.drop_last()),
            signals.last(),
            occupied.last(),
        ) == ReaperDirective::Publish {
            before + 1
        } else {
            before
        }
    }
}

/// Whatever is reported to a reaper, and whether the session ends by itself
/// or is closed, the reaper publishes the session's exit at most once, and
/// exactly once by the time it is done.
pub proof fn exit_published_once(signals: Seq<ReaperSignal>, occupied: Seq<bool>)
    requires
        signals.len() == occupied.len(),
    ensures
        exits_published(signals, occupied) <= 1,
        exits_published(signals, occupied) == 1 <==> reaper_phase_after(signals, occupied)
            == ReaperPhase::Done,
    decreases signals.len(),
{
    if signals.len() > 0 {
        exit_published_once(signals.drop_last(), occupied.drop_last());
    }
}

/// A reaper that is launched is done after its first step where the
/// session was closed before, and else as soon as the process has ended.
pub proof fn reaper_completes(occupied: bool)
    ensures
        !occupied ==> reaper_phase_after(seq![ReaperSignal::Begin], seq![occupied])
            == ReaperPhase::Done,
        occupied ==> reaper_phase_after(
            seq![ReaperSignal::Begin, ReaperSignal::Exited],
            seq![occupied, false],
        ) == ReaperPhase::Done,
{
    let one = seq![ReaperSignal::Begin];
    let two = seq![ReaperSignal::Begin, ReaperSignal::Exited];
    assert(one.drop_last() =~= Seq::<ReaperSignal>::empty());
    assert(seq![occupied].drop_last() =~= Seq::<bool>::empty());
    assert(two.drop_last() =~= one);
    assert(seq![occupied, false].drop_last() =~= seq![occupied]);
    assert(reaper_phase_after(Seq::<ReaperSignal>::empty(), Seq::<bool>::empty())
        == ReaperPhase::Idle);
    assert(reaper_phase_after(one, seq![occupied]) == reaper_next_phase(
        ReaperPhase::Idle,
        ReaperSignal::Begin,
        occupied,
    ));
}

} // verus!
