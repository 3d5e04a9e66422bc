use process_sessions::error::ErrorKind;
use process_sessions::invoke::{CommandLine, LaunchError};
use process_sessions::pump::{
    exit_event, input_pump_step, reaper_step, InputAction, InputEvent, OutputPump, OutputStream,
    ReadOutcome, Reaper, ReaperAction, ReaperPhase, ReaperSignal,
};
use process_sessions::session::{termination_result, KillReport, TerminalState};
use process_sessions::start::{
    start_exec_session, Pipe, StartAction, StartEvent, StartFlow, StartPhase,
};
use tokio::sync::mpsc::unbounded_channel;

fn command() -> CommandLine {
    CommandLine {
        program: "aws".to_string(),
        args: vec!["ecs".to_string(), "execute-command".to_string()],
        search_path: Some("/usr/bin:/bin".to_string()),
    }
}

fn flow(session_id: &str) -> StartFlow {
    StartFlow::new(session_id, command())
}

fn is_spawn_of_command<P>(action: StartAction<P>) -> bool {
    match action {
        StartAction::Spawn(c) => {
            c.program == "aws"
                && c.args == vec!["ecs".to_string(), "execute-command".to_string()]
                && c.search_path == Some("/usr/bin:/bin".to_string())
        }
        _ => false,
    }
}

#[test]
fn fresh_identifier_is_spawned_at_once() {
    let mut state: TerminalState<u32> = TerminalState::new();
    let mut flow = flow("s1");
    assert_eq!(flow.phase, StartPhase::Idle);
    assert_eq!(flow.session_id, "s1");
    let action = start_exec_session(&mut state, &mut flow, StartEvent::Begin);
    assert!(is_spawn_of_command(action));
    assert_eq!(flow.phase, StartPhase::Spawning);
    let (tx, _rx) = unbounded_channel::<Vec<u8>>();
    let action =
        start_exec_session(&mut state, &mut flow, StartEvent::Spawned { process: 7, writer: tx });
    assert!(matches!(action, StartAction::Launch(0)));
    assert_eq!(flow.phase, StartPhase::Running);
    assert_eq!(flow.serial, 0);
    assert_eq!(state.processes.get("s1"), Some(&7));
    assert!(state.holds("s1", 0));
}

#[test]
fn reused_identifier_kills_the_old_process_before_the_new_one_is_spawned() {
    let mut state: TerminalState<u32> = TerminalState::new();
    let (old_tx, _old_rx) = unbounded_channel::<Vec<u8>>();
    state.register("s1", 1, old_tx);
    let mut flow = flow("s1");
    let action = start_exec_session(&mut state, &mut flow, StartEvent::Begin);
    assert!(matches!(action, StartAction::Kill(1)));
    assert_eq!(flow.phase, StartPhase::Evicting);
    assert!(!state.processes.contains("s1"));
    assert!(!state.writers.contains("s1"));
    let action = start_exec_session(&mut state, &mut flow, StartEvent::Killed);
    assert!(is_spawn_of_command(action));
    let (tx, _rx) = unbounded_channel::<Vec<u8>>();
    let action =
        start_exec_session(&mut state, &mut flow, StartEvent::Spawned { process: 2, writer: tx });
    assert!(matches!(action, StartAction::Launch(1)));
    assert_eq!(state.processes.get("s1"), Some(&2));
    assert!(state.holds("s1", 1));
    assert!(!state.holds("s1", 0));
}

#[test]
fn process_registered_meanwhile_is_killed_before_launch() {
    let mut state: TerminalState<u32> = TerminalState::new();
    let mut flow = flow("s1");
    assert!(is_spawn_of_command(start_exec_session(&mut state, &mut flow, StartEvent::Begin)));
    let (other_tx, _other_rx) = unbounded_channel::<Vec<u8>>();
    state.register("s1", 8, other_tx);
    let (tx, _rx) = unbounded_channel::<Vec<u8>>();
    let action =
        start_exec_session(&mut state, &mut flow, StartEvent::Spawned { process: 9, writer: tx });
    assert!(matches!(action, StartAction::Kill(8)));
    assert_eq!(flow.phase, StartPhase::Superseding);
    assert_eq!(state.processes.get("s1"), Some(&9));
    assert!(state.holds("s1", 1));
    let action = start_exec_session(&mut state, &mut flow, StartEvent::Killed);
    assert!(matches!(action, StartAction::Launch(1)));
    assert_eq!(flow.phase, StartPhase::Running);
}

#[test]
fn spawn_failure_ends_the_start() {
    let mut state: TerminalState<u32> = TerminalState::new();
    let mut flow = flow("s1");
    start_exec_session(&mut state, &mut flow, StartEvent::Begin);
    let action = start_exec_session(
        &mut state,
        &mut flow,
        StartEvent::SpawnFailed(LaunchError {
            not_found: false,
            detail: "Permission denied (os error 13)".to_string(),
        }),
    );
    match action {
        StartAction::Fail(e) => {
            assert_eq!(e.kind(), ErrorKind::SpawnFailed);
            assert_eq!(e.message(), "Failed to spawn process: Permission denied (os error 13)");
        }
        _ => panic!("expected a failure"),
    }
    assert_eq!(flow.phase, StartPhase::Failed);
    assert!(!state.processes.contains("s1"));
}

#[test]
fn missing_executable_at_session_start_is_tool_not_found() {
    let mut state: TerminalState<u32> = TerminalState::new();
    let mut flow = flow("s1");
    start_exec_session(&mut state, &mut flow, StartEvent::Begin);
    let action = start_exec_session(
        &mut state,
        &mut flow,
        StartEvent::SpawnFailed(LaunchError {
            not_found: true,
            detail: "No such file or directory (os error 2)".to_string(),
        }),
    );
    match action {
        StartAction::Fail(e) => {
            assert_eq!(e.kind(), ErrorKind::ToolNotFound);
            assert_eq!(e.message(), "Failed to spawn process: No such file or directory (os error 2)");
        }
        _ => panic!("expected a failure"),
    }
    assert_eq!(flow.phase, StartPhase::Failed);
}

#[test]
fn missing_pipe_ends_the_start() {
    for (pipe, text) in [
        (Pipe::Stdout, "Failed to get stdout"),
        (Pipe::Stderr, "Failed to get stderr"),
        (Pipe::Stdin, "Failed to get stdin"),
    ] {
        let mut state: TerminalState<u32> = TerminalState::new();
        let mut flow = flow("s1");
        start_exec_session(&mut state, &mut flow, StartEvent::Begin);
        match start_exec_session(&mut state, &mut flow, StartEvent::PipeMissing(pipe)) {
            StartAction::Fail(e) => {
                assert_eq!(e.kind(), ErrorKind::IoFailure);
                assert_eq!(e.message(), text);
            }
            _ => panic!("expected a failure"),
        }
        assert_eq!(flow.phase, StartPhase::Failed);
    }
}

#[test]
fn misplaced_events_end_the_start_without_launch() {
    let mut state: TerminalState<u32> = TerminalState::new();
    let mut flow = flow("s1");
    let action = start_exec_session(&mut state, &mut flow, StartEvent::Killed);
    assert!(matches!(action, StartAction::Reject));
    assert_eq!(flow.phase, StartPhase::Failed);
    let (tx, _rx) = unbounded_channel::<Vec<u8>>();
    let action =
        start_exec_session(&mut state, &mut flow, StartEvent::Spawned { process: 3, writer: tx });
    assert!(matches!(action, StartAction::Kill(3)));
    assert_eq!(flow.phase, StartPhase::Failed);
    assert!(!state.processes.contains("s1"));
    let action = start_exec_session(&mut state, &mut flow, StartEvent::Begin);
    assert!(matches!(action, StartAction::Reject));
}

#[test]
fn spawned_while_evicting_is_not_launched() {
    let mut state: TerminalState<u32> = TerminalState::new();
    let (old_tx, _old_rx) = unbounded_channel::<Vec<u8>>();
    state.register("s1", 1, old_tx);
    let mut flow = flow("s1");
    assert!(matches!(
        start_exec_session(&mut state, &mut flow, StartEvent::Begin),
        StartAction::Kill(1)
    ));
    let (tx, _rx) = unbounded_channel::<Vec<u8>>();
    let action =
        start_exec_session(&mut state, &mut flow, StartEvent::Spawned { process: 2, writer: tx });
    assert!(matches!(action, StartAction::Kill(2)));
    assert_eq!(flow.phase, StartPhase::Failed);
    assert!(matches!(
        start_exec_session(&mut state, &mut flow, StartEvent::Killed),
        StartAction::Reject
    ));
}

#[test]
fn echo_session_publishes_data_then_one_exit() {
    let mut state: TerminalState<u32> = TerminalState::new();
    let mut flow = flow("s1");
    let mut published: Vec<(String, String)> = Vec::new();
    assert!(is_spawn_of_command(start_exec_session(&mut state, &mut flow, StartEvent::Begin)));
    let (tx, mut rx) = unbounded_channel::<Vec<u8>>();
    assert!(matches!(
        start_exec_session(&mut state, &mut flow, StartEvent::Spawned { process: 1, writer: tx }),
        StartAction::Launch(_)
    ));
    let mut pump = OutputPump::new();
    let mut reaper = Reaper::new("s1", flow.serial);
    let waited_for = match reaper_step(&mut state, &mut reaper, ReaperSignal::Begin) {
        ReaperAction::Wait(process) => process,
        _ => panic!("expected the reaper to wait"),
    };
    assert_eq!(waited_for, 1);

    assert!(state.write_exec_stdin("s1", "ping".to_string()).is_ok());
    let echoed = match input_pump_step(InputEvent::Received(rx.try_recv().ok())) {
        InputAction::Write(chunk) => chunk,
        _ => panic!("expected a write"),
    };
    assert_eq!(echoed, b"ping".to_vec());
    assert!(matches!(input_pump_step(InputEvent::Written(true)), InputAction::Receive));
    if let Some(event) = pump.on_read("s1", OutputStream::Stdout, ReadOutcome::Bytes(echoed)) {
        published.push((event.topic, event.payload));
    }
    assert_eq!(published, vec![("term:data:s1".to_string(), "ping".to_string())]);

    let to_kill = state.close_exec_session("s1");
    assert_eq!(to_kill, None);
    assert!(termination_result(to_kill.map(|_| KillReport::Killed)).is_ok());
    assert!(matches!(input_pump_step(InputEvent::Received(rx.try_recv().ok())), InputAction::Stop));
    assert!(pump.on_read("s1", OutputStream::Stdout, ReadOutcome::Bytes(Vec::new())).is_none());
    assert!(!pump.finished());
    assert!(pump.on_read("s1", OutputStream::Stderr, ReadOutcome::Failed).is_none());
    assert!(pump.finished());
    if let ReaperAction::Publish(event) = reaper_step(&mut state, &mut reaper, ReaperSignal::Exited) {
        published.push((event.topic, event.payload));
    }
    assert_eq!(reaper.phase, ReaperPhase::Done);
    assert!(matches!(
        reaper_step(&mut state, &mut reaper, ReaperSignal::Exited),
        ReaperAction::Nothing
    ));
    assert!(matches!(
        reaper_step(&mut state, &mut reaper, ReaperSignal::Begin),
        ReaperAction::Nothing
    ));
    assert!(pump.on_read("s1", OutputStream::Stdout, ReadOutcome::Bytes(b"late".to_vec())).is_none());
    assert_eq!(
        published,
        vec![
            ("term:data:s1".to_string(), "ping".to_string()),
            ("term:exit:s1".to_string(), "".to_string()),
        ]
    );
    let exit = exit_event("s1");
    assert_eq!((exit.topic, exit.payload), ("term:exit:s1".to_string(), "".to_string()));
}
