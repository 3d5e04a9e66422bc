use process_sessions::pump::{
    input_pump_step, reaper_step, InputAction, InputEvent, OutputPump, OutputStream, ReadOutcome,
    Reaper, ReaperAction, ReaperPhase, ReaperSignal, READ_CHUNK_SIZE,
};
use process_sessions::error::ErrorKind;
use process_sessions::session::TerminalState;
use tokio::sync::mpsc::unbounded_channel;

#[test]
fn chunks_are_published_on_the_topic_of_their_stream() {
    let mut pump = OutputPump::new();
    let out = pump.on_read("s9", OutputStream::Stdout, ReadOutcome::Bytes(b"hello".to_vec())).unwrap();
    assert_eq!(out.topic, "term:data:s9");
    assert_eq!(out.payload, "hello");
    let err = pump.on_read("s9", OutputStream::Stderr, ReadOutcome::Bytes(b"oops".to_vec())).unwrap();
    assert_eq!(err.topic, "term:error:s9");
    assert_eq!(err.payload, "oops");
    assert!(pump.reads(OutputStream::Stdout));
    assert!(pump.reads(OutputStream::Stderr));
    assert!(!pump.finished());
}

#[test]
fn invalid_bytes_are_replaced_in_the_payload() {
    let mut pump = OutputPump::new();
    let event = pump
        .on_read("s", OutputStream::Stdout, ReadOutcome::Bytes(vec![b'o', b'k', 0xff, 0xc3]))
        .unwrap();
    assert_eq!(event.payload, "ok\u{fffd}\u{fffd}");
}

#[test]
fn empty_read_ends_only_its_own_stream() {
    let mut pump = OutputPump::new();
    assert!(pump.on_read("s", OutputStream::Stdout, ReadOutcome::Bytes(Vec::new())).is_none());
    assert!(!pump.reads(OutputStream::Stdout));
    assert!(pump.reads(OutputStream::Stderr));
    assert!(!pump.finished());
    let event = pump.on_read("s", OutputStream::Stderr, ReadOutcome::Bytes(b"x".to_vec())).unwrap();
    assert_eq!(event.topic, "term:error:s");
    assert!(pump.on_read("s", OutputStream::Stderr, ReadOutcome::Bytes(Vec::new())).is_none());
    assert!(pump.finished());
}

#[test]
fn failed_read_ends_its_stream() {
    let mut pump = OutputPump::new();
    assert!(pump.on_read("s", OutputStream::Stderr, ReadOutcome::Failed).is_none());
    assert!(!pump.reads(OutputStream::Stderr));
    assert!(pump.reads(OutputStream::Stdout));
}

#[test]
fn ended_stream_publishes_nothing_more() {
    let mut pump = OutputPump::new();
    pump.on_read("s", OutputStream::Stdout, ReadOutcome::Failed);
    assert!(pump.on_read("s", OutputStream::Stdout, ReadOutcome::Bytes(b"x".to_vec())).is_none());
    assert_eq!(pump, OutputPump { stdout_open: false, stderr_open: true });
}

#[test]
fn read_buffer_size() {
    assert_eq!(READ_CHUNK_SIZE, 8192);
}

#[test]
fn input_pump_writes_each_chunk_and_stops_on_close_or_failure() {
    assert!(matches!(
        input_pump_step(InputEvent::Received(Some(b"ls\n".to_vec()))),
        InputAction::Write(chunk) if chunk == b"ls\n".to_vec()
    ));
    assert!(matches!(
        input_pump_step(InputEvent::Received(Some(Vec::new()))),
        InputAction::Write(chunk) if chunk.is_empty()
    ));
    assert!(matches!(input_pump_step(InputEvent::Received(None)), InputAction::Stop));
    assert!(matches!(input_pump_step(InputEvent::Written(true)), InputAction::Receive));
    assert!(matches!(input_pump_step(InputEvent::Written(false)), InputAction::Stop));
}

#[test]
fn reaper_waits_then_publishes_exit_once() {
    let mut state: TerminalState<u32> = TerminalState::new();
    let (tx, _rx) = unbounded_channel::<Vec<u8>>();
    let serial = state.register("s1", 4, tx).serial;
    let mut reaper = Reaper::new("s1", serial);
    assert_eq!(reaper.phase, ReaperPhase::Idle);
    assert_eq!(reaper.serial, serial);
    assert!(matches!(
        reaper_step(&mut state, &mut reaper, ReaperSignal::Exited),
        ReaperAction::Nothing
    ));
    assert!(matches!(
        reaper_step(&mut state, &mut reaper, ReaperSignal::Begin),
        ReaperAction::Wait(4)
    ));
    assert_eq!(reaper.phase, ReaperPhase::Waiting);
    assert!(!state.processes.contains("s1"));
    assert!(state.writers.contains("s1"));
    assert!(matches!(
        reaper_step(&mut state, &mut reaper, ReaperSignal::Begin),
        ReaperAction::Nothing
    ));
    assert!(state.writers.contains("s1"));
    match reaper_step(&mut state, &mut reaper, ReaperSignal::Exited) {
        ReaperAction::Publish(event) => {
            assert_eq!(event.topic, "term:exit:s1");
            assert_eq!(event.payload, "");
        }
        _ => panic!("expected the exit"),
    }
    assert_eq!(reaper.phase, ReaperPhase::Done);
    assert!(matches!(
        reaper_step(&mut state, &mut reaper, ReaperSignal::Exited),
        ReaperAction::Nothing
    ));
}

#[test]
fn natural_exit_leaves_no_entry_behind() {
    let mut state: TerminalState<u32> = TerminalState::new();
    let (tx, _rx) = unbounded_channel::<Vec<u8>>();
    let (other_tx, _other_rx) = unbounded_channel::<Vec<u8>>();
    let serial = state.register("s1", 4, tx).serial;
    state.register("s2", 5, other_tx);
    let mut reaper = Reaper::new("s1", serial);
    let mut exits = 0;
    for signal in [ReaperSignal::Begin, ReaperSignal::Exited, ReaperSignal::Exited] {
        if let ReaperAction::Publish(_) = reaper_step(&mut state, &mut reaper, signal) {
            exits += 1;
        }
    }
    assert_eq!(exits, 1);
    assert!(!state.processes.contains("s1"));
    assert!(!state.writers.contains("s1"));
    assert!(state.get_input_channel("s1").is_none());
    let e = state.write_exec_stdin("s1", "late".to_string()).unwrap_err();
    assert_eq!(e.kind(), ErrorKind::SessionNotFound);
    assert!(state.processes.contains("s2"));
    assert!(state.writers.contains("s2"));
}

#[test]
fn reaper_of_a_closed_session_publishes_exit_at_once() {
    let mut state: TerminalState<u32> = TerminalState::new();
    let (tx, _rx) = unbounded_channel::<Vec<u8>>();
    let serial = state.register("s1", 4, tx).serial;
    assert_eq!(state.close_exec_session("s1"), Some(4));
    let mut reaper = Reaper::new("s1", serial);
    assert!(matches!(
        reaper_step(&mut state, &mut reaper, ReaperSignal::Begin),
        ReaperAction::Publish(event) if event.topic == "term:exit:s1" && event.payload.is_empty()
    ));
    assert_eq!(reaper.phase, ReaperPhase::Done);
    assert!(matches!(
        reaper_step(&mut state, &mut reaper, ReaperSignal::Exited),
        ReaperAction::Nothing
    ));
}

#[test]
fn reaper_of_a_superseded_session_spares_the_newer_one() {
    let mut state: TerminalState<u32> = TerminalState::new();
    let (old_tx, _old_rx) = unbounded_channel::<Vec<u8>>();
    let (new_tx, _new_rx) = unbounded_channel::<Vec<u8>>();
    let old = state.register("s1", 1, old_tx).serial;
    let mut old_reaper = Reaper::new("s1", old);
    assert!(matches!(
        reaper_step(&mut state, &mut old_reaper, ReaperSignal::Begin),
        ReaperAction::Wait(1)
    ));
    assert_eq!(state.close_exec_session("s1"), None);
    let new = state.register("s1", 2, new_tx).serial;
    assert!(matches!(
        reaper_step(&mut state, &mut old_reaper, ReaperSignal::Exited),
        ReaperAction::Publish(event) if event.topic == "term:exit:s1"
    ));
    assert_eq!(state.processes.get("s1"), Some(&2));
    assert!(state.holds("s1", new));

    let mut late_reaper = Reaper::new("s1", old);
    assert!(matches!(
        reaper_step(&mut state, &mut late_reaper, ReaperSignal::Begin),
        ReaperAction::Publish(_)
    ));
    assert_eq!(state.processes.get("s1"), Some(&2));
    assert!(state.holds("s1", new));
}
