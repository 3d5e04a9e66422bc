//! Starting an interactive session, as a sequence of steps. Each step takes
//! what has just happened and says what is to be done next; whoever runs the
//! steps spawns, kills and launches, and reports back.

use vstd::prelude::*;
use vstd::string::StringExecFns;
use tokio::sync::mpsc::UnboundedSender;
use crate::error::{ErrorKind, ProcessError};
use crate::invoke::{CommandLine, LaunchError};
use crate::session::{is_current, serial_after, SessionChannel, TerminalState};

verus! {

/// How far the start of a session has come.
#[derive(Clone, Copy, Debug, PartialEq, Eq, Structural)]
pub enum StartPhase {
    /// Nothing has been done yet.
    Idle,
    /// The previous holder of the identifier is being killed.
    Evicting,
    /// The new process is being spawned.
    Spawning,
    /// A process that was registered while the new one was being spawned is
    /// being killed.
    Superseding,
    /// The session is registered and its pumps may run.
    Running,
    /// The start was given up.
    Failed,
}

/// One of the three pipes of a spawned process.
#[derive(Clone, Copy, Debug, PartialEq, Eq, Structural)]
pub enum Pipe {
    Stdin,
    Stdout,
    Stderr,
}

/// What has just happened.
pub enum StartEvent<P> {
    /// The session was asked for.
    Begin,
    /// The process that was handed out has been sent its kill.
    Killed,
    /// The process was spawned with all three pipes, and its input channel
    /// was made.
    Spawned { process: P, writer: UnboundedSender<Vec<u8>> },
    /// Spawning failed.
    SpawnFailed(LaunchError),
    /// The process was spawned without one of its pipes.
    PipeMissing(Pipe),
}

/// What is to be done next.
pub enum StartAction<P> {
    /// Kill this process and report `Killed`.
    Kill(P),
    /// Spawn this process with its three streams piped, and report
    /// `Spawned`, `SpawnFailed` or `PipeMissing`.
    Spawn(CommandLine),
    /// Launch the output pump, the input pump and the reaper of the session
    /// with this serial number: the session runs.
    Launch(u64),
    /// Give up with this failure.
    Fail(ProcessError),
    /// The event does not fit the phase: the start is over, with nothing to
    /// do.
    Reject,
}

/// An event without what it carries.
#[derive(Clone, Copy, Debug, PartialEq, Eq, Structural)]
pub enum StartSignal {
    Begin,
    Killed,
    Spawned,
    SpawnFailed,
    PipeMissing,
}

/// An action without what it carries.
#[derive(Clone, Copy, Debug, PartialEq, Eq, Structural)]
pub enum StartDirective {
    Kill,
    Spawn,
    Launch,
    Fail,
    Reject,
}

impl<P> StartEvent<P> {
    /// This event without what it carries.
    pub open spec fn signal(self) -> StartSignal {
        match self {
            StartEvent::Begin => StartSignal::Begin,
            StartEvent::Killed => StartSignal::Killed,
            StartEvent::Spawned { .. } => StartSignal::Spawned,
            StartEvent::SpawnFailed(_) => StartSignal::SpawnFailed,
            StartEvent::PipeMissing(_) => StartSignal::PipeMissing,
        }
    }
}

impl<P> StartAction<P> {
    /// This action without what it carries.
    pub open spec fn directive(self) -> StartDirective {
        match self {
            StartAction::Kill(_) => StartDirective::Kill,
            StartAction::Spawn(_) => StartDirective::Spawn,
            StartAction::Launch(_) => StartDirective::Launch,
            StartAction::Fail(_) => StartDirective::Fail,
            StartAction::Reject => StartDirective::Reject,
        }
    }
}

/// The phase that follows `phase` on `signal`, where `occupied` says whether
/// a process is registered under the session's identifier.
pub open spec fn next_phase(phase: StartPhase, signal: StartSignal, occupied: bool) -> StartPhase {
    match (phase, signal) {
        (StartPhase::Idle, StartSignal::Begin) => if occupied {
            StartPhase::Evicting
        } else {
            StartPhase::Spawning
        },
        (StartPhase::Evicting, StartSignal::Killed) => StartPhase::Spawning,
        (StartPhase::Spawning, StartSignal::Spawned) => if occupied {
            StartPhase::Superseding
        } else {
            StartPhase::Running
        },
        (StartPhase::Superseding, StartSignal::Killed) => StartPhase::Running,
        _ => StartPhase::Failed,
    }
}

/// What is to be done in `phase` on `signal`, where `occupied` says whether
/// a process is registered under the session's identifier.
pub open spec fn next_directive(
    phase: StartPhase,
    signal: StartSignal,
    occupied: bool,
) -> StartDirective {
    match (phase, signal) {
        (StartPhase::Idle, StartSignal::Begin) => if occupied {
            StartDirective::Kill
        } else {
            StartDirective::Spawn
        },
        (StartPhase::Evicting, StartSignal::Killed) => StartDirective::Spawn,
        (StartPhase::Spawning, StartSignal::Spawned) => if occupied {
            StartDirective::Kill
        } else {
            StartDirective::Launch
        },
        (StartPhase::Spawning, StartSignal::SpawnFailed) => StartDirective::Fail,
        (StartPhase::Spawning, StartSignal::PipeMissing) => StartDirective::Fail,
        (StartPhase::Superseding, StartSignal::Killed) => StartDirective::Launch,
        (_, StartSignal::Spawned) => StartDirective::Kill,
        _ => StartDirective::Reject,
    }
}

/// The name of a pipe.
pub open spec fn pipe_name(pipe: Pipe) -> Seq<char> {
    match pipe {
        Pipe::Stdin => "stdin"@,
        Pipe::Stdout => "stdout"@,
        Pipe::Stderr => "stderr"@,
    }
}

/// The class of the failure to spawn a session's process: the tool is not
/// found where the executable could not be located, and else the spawn
/// failed.
pub open spec fn spawn_failure_kind(error: LaunchError) -> ErrorKind {
    if error.not_found {
        ErrorKind::ToolNotFound
    } else {
        ErrorKind::SpawnFailed
    }
}

/// The start of one session: its identifier, the process to spawn for it,
/// how far the start has come, and the serial number of the session once it
/// is registered.
pub struct StartFlow {
    pub session_id: String,
    pub command: CommandLine,
    pub phase: StartPhase,
    pub serial: u64,
}

impl StartFlow {
    /// The start of the session `session_id` that runs `command`, with
    /// nothing done yet.
    pub fn new(session_id: &str, command: CommandLine) -> (flow: StartFlow)
        ensures
            flow.session_id@ == session_id@,
            flow.command == command,
            flow.phase == StartPhase::Idle,
            flow.serial == 0,
    {
        StartFlow {
            session_id: String::from_str(session_id),
            command,
            phase: StartPhase::Idle,
            serial: 0,
        }
    }
}

/// Whether a step of the start `flow` on `event` that found the tables
/// `writers` and `processes` and the next serial number `next_serial` may
/// leave the tables as `writers_after` and `processes_after` and give
/// `action`.
///
/// On `Begin` the identifier's channel and process leave the tables, and the
/// process is handed out to be killed. The process to spawn is the one that
/// the flow was made for. On `Spawned` while spawning, the new process and
/// channel are registered under the next serial number, and a process that
/// was registered in the meantime is handed out to be killed. The pumps are
/// launched for the serial number under which the session was registered. A
/// misplaced `Spawned` has its process handed back to be killed. No other
/// step touches the tables.
pub open spec fn step_effect<P>(
    flow: StartFlow,
    event: StartEvent<P>,
    writers: Map<Seq<char>, SessionChannel>,
    processes: Map<Seq<char>, P>,
    next_serial: u64,
    writers_after: Map<Seq<char>, SessionChannel>,
    processes_after: Map<Seq<char>, P>,
    action: StartAction<P>,
) -> bool {
    let id = flow.session_id@;
    match (flow.phase, event) {
        (StartPhase::Idle, StartEvent::Begin) => {
            &&& writers_after == writers.remove(id)
            &&& processes_after == processes.remove(id)
            &&& processes.contains_key(id) ==> action == StartAction::Kill(processes[id])
            &&& !processes.contains_key(id) ==> (action matches StartAction::Spawn(c) && c@
                == flow.command@)
        },
        (StartPhase::Evicting, StartEvent::Killed) => {
            &&& writers_after == writers
            &&& processes_after == processes
            &&& action matches StartAction::Spawn(c) && c@ == flow.command@
        },
        (StartPhase::Spawning, StartEvent::Spawned { process, writer }) => {
            &&& writers_after == writers.insert(
                id,
                SessionChannel { serial: next_serial, sender: writer },
            )
            &&& processes_after == processes.insert(id, process)
            &&& action == if processes.contains_key(id) {
                StartAction::Kill(processes[id])
            } else {
                StartAction::Launch(next_serial)
            }
        },
        (StartPhase::Superseding, StartEvent::Killed) => {
            &&& writers_after == writers
            &&& processes_after == processes
            &&& action == StartAction::<P>::Launch(flow.serial)
        },
        (StartPhase::Spawning, StartEvent::SpawnFailed(error)) => {
            &&& writers_after == writers
            &&& processes_after == processes
            &&& action matches StartAction::Fail(e) && e.is(
                spawn_failure_kind(error),
                "Failed to spawn process: "@ + error.detail@,
            )
        },
        (StartPhase::Spawning, StartEvent::PipeMissing(pipe)) => {
            &&& writers_after == writers
            &&& processes_after == processes
            &&& action matches StartAction::Fail(e) && e.is(
                ErrorKind::IoFailure,
                "Failed to get "@ + pipe_name(pipe),
            )
        },
        (_, StartEvent::Spawned { process, writer }) => {
            &&& writers_after == writers
            &&& processes_after == processes
            &&& action == StartAction::Kill(process)
        },
        _ => {
            &&& writers_after == writers
            &&& processes_after == processes
            &&& action == StartAction::<P>::Reject
        },
    }
}

/// The failure reported when a spawned process lacks `pipe`.
fn pipe_failure(pipe: Pipe) -> (e: ProcessError)
    ensures
        e.is(ErrorKind::IoFailure, "Failed to get "@ + pipe_name(pipe)),
{
    let name = match pipe {
        Pipe::Stdin => "stdin",
        Pipe::Stdout => "stdout",
        Pipe::Stderr => "stderr",
    };
    ProcessError::new(ErrorKind::IoFailure, String::from_str("Failed to get ").concat(name))
}

/// The failure reported when the process of a session could not be spawned.
pub fn spawn_failure(error: &LaunchError) -> (e: ProcessError)
    ensures
        e.is(spawn_failure_kind(*error), "Failed to spawn process: "@ + error.detail@),
{
    let message = String::from_str("Failed to spawn process: ").concat(error.detail.as_str());
    if error.not_found {
        ProcessError::new(ErrorKind::ToolNotFound, message)
    } else {
        ProcessError::new(ErrorKind::SpawnFailed, message)
    }
}

/// Takes one step in starting the session of `flow`: given what has just
/// happened, updates the table and the phase and says what to do next.
///
/// A process that holds the identifier is evicted and killed before the new
/// one is spawned, and the pumps are launched only once the new process is
/// registered and every process handed out for killing is reported killed.
pub fn start_exec_session<P>(
    state: &mut TerminalState<P>,
    flow: &mut StartFlow,
    event: StartEvent<P>,
) -> (action: StartAction<P>)
    ensures
        final(flow).session_id == old(flow).session_id,
        final(flow).command == old(flow).command,
        final(flow).phase == next_phase(
            old(flow).phase,
            event.signal(),
            old(state).processes@.contains_key(old(flow).session_id@),
        ),
        action.directive() == next_directive(
            old(flow).phase,
            event.signal(),
            old(state).processes@.contains_key(old(flow).session_id@),
        ),
        step_effect(
            *old(flow),
            event,
            old(state).writers@,
            old(state).processes@,
            old(state).next_serial,
            final(state).writers@,
            final(state).processes@,
            action,
        ),
        final(flow).serial == if old(flow).phase == StartPhase::Spawning && event is Spawned {
            old(state).next_serial
        } else {
            old(flow).serial
        },
        final(state).next_serial == if old(flow).phase == StartPhase::Spawning
            && event is Spawned {
            serial_after(old(state).next_serial)
        } else {
            old(state).next_serial
        },
{
    let phase = flow.phase;
    match event {
        StartEvent::Begin => {
            if phase == StartPhase::Idle {
                match state.close_exec_session(flow.session_id.as_str()) {
                    Some(prior) => {
                        flow.phase = StartPhase::Evicting;
                        StartAction::Kill(prior)
                    },
                    None => {
                        flow.phase = StartPhase::Spawning;
                        StartAction::Spawn(flow.command.copy())
                    },
                }
            } else {
                flow.phase = StartPhase::Failed;
                StartAction::Reject
            }
        },
        StartEvent::Killed => {
            if phase == StartPhase::Evicting {
                flow.phase = StartPhase::Spawning;
                StartAction::Spawn(flow.command.copy())
            } else if phase == StartPhase::Superseding {
                flow.phase = StartPhase::Running;
                StartAction::Launch(flow.serial)
            } else {
                flow.phase = StartPhase::Failed;
                StartAction::Reject
            }
        },
        StartEvent::Spawned { process, writer } => {
            if phase == StartPhase::Spawning {
                let registered = state.register(flow.session_id.as_str(), process, writer);
                flow.serial = registered.serial;
                match registered.superseded {
                    Some(raced) => {
                        flow.phase = StartPhase::Superseding;
                        StartAction::Kill(raced)
                    },
                    None => {
                        flow.phase = StartPhase::Running;
                        StartAction::Launch(registered.serial)
                    },
                }
            } else {
                flow.phase = StartPhase::Failed;
                StartAction::Kill(process)
            }
        },
        StartEvent::SpawnFailed(error) => {
            flow.phase = StartPhase::Failed;
            if phase == StartPhase::Spawning {
                StartAction::Fail(spawn_failure(&error))
            } else {
                StartAction::Reject
            }
        },
        StartEvent::PipeMissing(pipe) => {
            flow.phase = StartPhase::Failed;
            if phase == StartPhase::Spawning {
                StartAction::Fail(pipe_failure(pipe))
            } else {
                StartAction::Reject
            }
        },
    }
}

/// The phase reached from `Idle` by the steps on `signals`, where
/// `occupied[i]` says whether a process was registered under the session's
/// identifier when step `i` was taken.
pub open spec fn phase_after(signals: Seq<StartSignal>, occupied: Seq<bool>) -> StartPhase
    decreases signals.len(),
{
    if signals.len() == 0 {
        StartPhase::Idle
    } else {
        next_phase(
            phase_after(signals.drop_last(), occupied.drop_last()),
            signals.last(),
            occupied.last(),
        )
    }
}

/// What step `i` of the steps on `signals` says is to be done.
pub open spec fn directive_at(signals: Seq<StartSignal>, occupied: Seq<bool>, i: int) -> StartDirective {
    next_directive(phase_after(signals.take(i), occupied.take(i)), signals[i], occupied[i])
}

/// In this phase a process is out to be killed, or the start was given up.
pub open spec fn launch_barred(phase: StartPhase) -> bool {
    phase == StartPhase::Evicting || phase == StartPhase::Superseding || phase == StartPhase::Failed
}

/// Once a step has handed a process out to be killed, the start stays barred
/// from launching until a `Killed` is reported.
proof fn lemma_barred_until_killed(signals: Seq<StartSignal>, occupied: Seq<bool>, i: int, m: int)
    requires
        signals.len() == occupied.len(),
        0 <= i < m <= signals.len(),
        directive_at(signals, occupied, i) == StartDirective::Kill,
        forall|k: int| i < k < m ==> signals[k] != StartSignal::Killed,
    ensures
        launch_barred(phase_after(signals.take(m), occupied.take(m))),
    decreases m - i,
{
    assert(signals.take(m).drop_last() =~= signals.take(m - 1));
    assert(occupied.take(m).drop_last() =~= occupied.take(m - 1));
    assert(signals.take(m).last() == signals[m - 1]);
    assert(occupied.take(m).last() == occupied[m - 1]);
    if m - 1 > i {
        lemma_barred_until_killed(signals, occupied, i, m - 1);
    }
}

/// In every run of the steps, a process that is handed out to be killed is
/// reported killed before the session's pumps are launched: between a step
/// that says `Kill` and a later step that says `Launch` a `Killed` arrives.
/// So a process that is superseded under a reused identifier is killed
/// before the new process can publish anything.
pub proof fn kill_precedes_launch(signals: Seq<StartSignal>, occupied: Seq<bool>, i: int, j: int)
    requires
        signals.len() == occupied.len(),
        0 <= i < j < signals.len(),
        directive_at(signals, occupied, i) == StartDirective::Kill,
        directive_at(signals, occupied, j) == StartDirective::Launch,
    ensures
        exists|k: int| i < k <= j && signals[k] == StartSignal::Killed,
{
    if forall|k: int| i < k <= j ==> signals[k] != StartSignal::Killed {
        lemma_barred_until_killed(signals, occupied, i, j);
        assert(false);
    }
}

/// The pumps are launched by a step only if that step registered the new
/// process, or the process it superseded is reported killed; and at most once
/// in a run, since the phase is then `Running` and every later step fails.
pub proof fn launch_ends_the_start(phase: StartPhase, signal: StartSignal, occupied: bool)
    ensures
        next_directive(phase, signal, occupied) == StartDirective::Launch ==> next_phase(
            phase,
            signal,
            occupied,
        ) == StartPhase::Running,
        next_directive(phase, signal, occupied) == StartDirective::Launch ==> (phase
            == StartPhase::Spawning && signal == StartSignal::Spawned && !occupied) || (phase
            == StartPhase::Superseding && signal == StartSignal::Killed),
        phase == StartPhase::Running || phase == StartPhase::Failed ==> next_phase(
            phase,
            signal,
            occupied,
        ) == StartPhase::Failed && next_directive(phase, signal, occupied)
            != StartDirective::Launch,
{
}

/// The step that registers a spawned process leaves the session registered
/// under the serial number that the launch names, with its process and its
/// input channel in the tables: the reaper that is launched for that serial
/// number finds the process.
pub proof fn registered_session_is_current<P>(
    flow: StartFlow,
    process: P,
    writer: UnboundedSender<Vec<u8>>,
    writers: Map<Seq<char>, SessionChannel>,
    processes: Map<Seq<char>, P>,
    next_serial: u64,
    writers_after: Map<Seq<char>, SessionChannel>,
    processes_after: Map<Seq<char>, P>,
    action: StartAction<P>,
)
    requires
        flow.phase == StartPhase::Spawning,
        step_effect(
            flow,
            StartEvent::Spawned { process, writer },
            writers,
            processes,
            next_serial,
            writers_after,
            processes_after,
            action,
        ),
    ensures
        is_current(writers_after, flow.session_id@, next_serial),
        writers_after[flow.session_id@].sender == writer,
        processes_after.contains_key(flow.session_id@),
        processes_after[flow.session_id@] == process,
        action is Launch ==> action == StartAction::<P>::Launch(next_serial),
{
}

} // verus!
