use serial_session::command::{Command, WriteCmd, WritePortMessage, WritePortRequestToSend};
use serial_session::port::ModemStatus;
use serial_session::error::SerialError;
use serial_session::session::{
    ack_outcome, Event, ExitCause, Session, SessionAction, SessionInput, SessionState,
};

fn running() -> Session {
    let mut s = Session::new();
    let actions = s.step(SessionInput::Started);
    assert!(actions.is_empty());
    assert_eq!(s.state(), SessionState::Running);
    s
}

fn write(id: &str, data: &[u8]) -> Command {
    Command::write(id.to_string(), data.to_vec())
}

fn lines(cts: bool, dsr: bool, cd: bool, ring: bool) -> ModemStatus {
    ModemStatus { cts, dsr, cd, ring }
}

#[test]
fn a_new_session_is_starting_with_all_lines_low() {
    let s = Session::new();
    assert_eq!(s.state(), SessionState::Starting);
    assert_eq!(s.last_status(), lines(false, false, false, false));
    assert_eq!(s.exit_cause(), None);
}

#[test]
fn nothing_is_served_before_the_port_is_ready() {
    let mut s = Session::new();
    assert!(s.step(SessionInput::Command(write("m1", &[1]))).is_empty());
    assert!(s.step(SessionInput::Tick(lines(true, false, false, false))).is_empty());
    assert!(s
        .step(SessionInput::ReadReady { data: vec![1, 2], timestamp_ms: 5 })
        .is_empty());
    assert_eq!(s.state(), SessionState::Starting);
    assert_eq!(s.last_status(), lines(false, false, false, false));
}

#[test]
fn received_bytes_are_emitted_as_they_came_and_counted() {
    let mut s = running();
    let actions = s.step(SessionInput::ReadReady { data: vec![0x41, 0x42, 0x43], timestamp_ms: 1234 });
    assert_eq!(
        actions,
        vec![
            SessionAction::Emit(Event::Data { bytes: vec![0x41, 0x42, 0x43], timestamp_ms: 1234 }),
            SessionAction::CountRead(3),
        ]
    );
    assert_eq!(s.state(), SessionState::Running);
}

#[test]
fn an_empty_read_ends_the_session_as_connection_lost() {
    let mut s = running();
    let actions = s.step(SessionInput::ReadReady { data: vec![], timestamp_ms: 1 });
    assert!(actions.is_empty());
    assert_eq!(s.state(), SessionState::Draining);
    assert_eq!(s.exit_cause(), Some(ExitCause::ConnectionLost));
}

#[test]
fn a_read_failure_emits_the_error_and_ends_the_session() {
    let mut s = running();
    let actions = s.step(SessionInput::ReadFailed { message: "device unplugged".to_string() });
    assert_eq!(
        actions,
        vec![SessionAction::Emit(Event::Error { message: "device unplugged".to_string() })]
    );
    assert_eq!(s.state(), SessionState::Draining);
    assert_eq!(s.exit_cause(), Some(ExitCause::Error("device unplugged".to_string())));
}

#[test]
fn a_write_is_performed_then_acknowledged_then_counted() {
    let mut s = running();
    let actions = s.step(SessionInput::Command(write("m1", &[0x01, 0x02])));
    assert_eq!(
        actions,
        vec![
            SessionAction::Write { message_id: "m1".to_string(), data: vec![0x01, 0x02] },
            SessionAction::Ack,
            SessionAction::CountWritten(2),
        ]
    );
    assert_eq!(s.state(), SessionState::Running);
    assert_eq!(s.exit_cause(), None);
}

#[test]
fn a_write_without_a_waiting_sender_fires_no_signal() {
    let mut s = running();
    let cmd = Command {
        cmd: WriteCmd::Message(WritePortMessage { message_id: "bg".to_string(), data: vec![9] }),
        wants_ack: false,
    };
    let actions = s.step(SessionInput::Command(cmd));
    assert_eq!(
        actions,
        vec![
            SessionAction::Write { message_id: "bg".to_string(), data: vec![9] },
            SessionAction::CountWritten(1),
        ]
    );
}

#[test]
fn control_lines_are_set_and_acknowledged() {
    let mut s = running();
    assert_eq!(
        s.step(SessionInput::Command(Command::set_rts(true))),
        vec![SessionAction::SetRts(true), SessionAction::Ack]
    );
    assert_eq!(
        s.step(SessionInput::Command(Command::set_dtr(false))),
        vec![SessionAction::SetDtr(false), SessionAction::Ack]
    );
    let quiet = Command { cmd: WriteCmd::Rts(WritePortRequestToSend { rts: false }), wants_ack: false };
    assert_eq!(s.step(SessionInput::Command(quiet)), vec![SessionAction::SetRts(false)]);
    assert_eq!(s.state(), SessionState::Running);
}

#[test]
fn close_is_acknowledged_at_once_and_stops_the_session() {
    let mut s = running();
    let actions = s.step(SessionInput::Command(Command::close()));
    assert_eq!(actions, vec![SessionAction::Ack]);
    assert_eq!(s.state(), SessionState::Draining);
    assert_eq!(s.exit_cause(), Some(ExitCause::UserRequested));
}

#[test]
fn a_queue_without_senders_stops_the_session() {
    let mut s = running();
    assert!(s.step(SessionInput::ChannelClosed).is_empty());
    assert_eq!(s.state(), SessionState::Draining);
    assert_eq!(s.exit_cause(), Some(ExitCause::ConnectionLost));
}

#[test]
fn a_stopped_session_serves_nothing() {
    let mut s = running();
    s.step(SessionInput::Command(Command::close()));
    assert!(s.step(SessionInput::Command(write("late", &[1, 2, 3]))).is_empty());
    assert!(s.step(SessionInput::Tick(lines(true, true, true, true))).is_empty());
    assert!(s.step(SessionInput::ReadReady { data: vec![1], timestamp_ms: 2 }).is_empty());
    assert_eq!(s.state(), SessionState::Draining);
    assert_eq!(s.exit_cause(), Some(ExitCause::UserRequested));
    assert_eq!(s.last_status(), lines(false, false, false, false));
}

#[test]
fn teardown_releases_closes_and_reports_exactly_once() {
    let mut s = running();
    s.step(SessionInput::ReadFailed { message: "boom".to_string() });
    let first = s.finish();
    assert_eq!(
        first,
        vec![
            SessionAction::ReleaseHandle,
            SessionAction::CloseChannel,
            SessionAction::NotifyExit(ExitCause::Error("boom".to_string())),
        ]
    );
    assert_eq!(s.state(), SessionState::Closed);
    assert!(s.finish().is_empty());
    assert!(s.finish().is_empty());
    assert_eq!(s.state(), SessionState::Closed);
}

#[test]
fn teardown_does_nothing_while_the_session_runs() {
    let mut s = running();
    assert!(s.finish().is_empty());
    assert_eq!(s.state(), SessionState::Running);
    let mut fresh = Session::new();
    assert!(fresh.finish().is_empty());
    assert_eq!(fresh.state(), SessionState::Starting);
}

#[test]
fn writes_reach_the_wire_in_queue_order() {
    let mut s = running();
    let cmds = vec![write("a", &[1]), write("b", &[2, 2]), write("c", &[3, 3, 3]), write("d", &[])];
    let run = s.run_commands(&cmds);
    assert_eq!(run.serviced, 4);
    let wire: Vec<Vec<u8>> = run
        .actions
        .iter()
        .filter_map(|a| match a {
            SessionAction::Write { data, .. } => Some(data.clone()),
            _ => None,
        })
        .collect();
    assert_eq!(wire, vec![vec![1], vec![2, 2], vec![3, 3, 3], vec![]]);
    let acks = run.actions.iter().filter(|a| matches!(a, SessionAction::Ack)).count();
    assert_eq!(acks, 4);
    assert_eq!(s.state(), SessionState::Running);
}

#[test]
fn close_terminates_the_queue() {
    // [Write A, Write B, Close, Write C]: A and B complete, C is never served.
    let mut s = running();
    let cmds = vec![
        write("A", &[0xA1]),
        write("B", &[0xB1, 0xB2]),
        Command::close(),
        write("C", &[0xC1]),
    ];
    let run = s.run_commands(&cmds);
    assert_eq!(run.serviced, 3);
    assert_eq!(
        run.actions,
        vec![
            SessionAction::Write { message_id: "A".to_string(), data: vec![0xA1] },
            SessionAction::Ack,
            SessionAction::CountWritten(1),
            SessionAction::Write { message_id: "B".to_string(), data: vec![0xB1, 0xB2] },
            SessionAction::Ack,
            SessionAction::CountWritten(2),
            SessionAction::Ack,
        ]
    );
    assert_eq!(s.state(), SessionState::Draining);
    assert_eq!(s.exit_cause(), Some(ExitCause::UserRequested));
    // The teardown drops the queue's receiver, so C's sender sees a closed channel.
    let teardown = s.finish();
    assert!(teardown.contains(&SessionAction::CloseChannel));
    assert!(s.step(SessionInput::Command(write("C", &[0xC1]))).is_empty());
}

#[test]
fn an_empty_queue_or_a_stopped_session_serves_no_command() {
    let mut s = running();
    let run = s.run_commands(&vec![]);
    assert_eq!(run.serviced, 0);
    assert!(run.actions.is_empty());
    s.step(SessionInput::ChannelClosed);
    let run = s.run_commands(&vec![write("x", &[1])]);
    assert_eq!(run.serviced, 0);
    assert!(run.actions.is_empty());
    let mut fresh = Session::new();
    let run = fresh.run_commands(&vec![write("x", &[1])]);
    assert_eq!(run.serviced, 0);
}

#[test]
fn identical_polls_emit_nothing() {
    let mut s = running();
    for _ in 0..5 {
        assert!(s.step(SessionInput::Tick(lines(false, false, false, false))).is_empty());
    }
    let up = lines(true, false, true, false);
    assert_eq!(
        s.step(SessionInput::Tick(up)),
        vec![SessionAction::Emit(Event::StatusChanged(up))]
    );
    for _ in 0..5 {
        assert!(s.step(SessionInput::Tick(up)).is_empty());
    }
    assert_eq!(s.last_status(), up);
}

#[test]
fn a_single_line_flip_emits_exactly_one_event_with_the_new_snapshot() {
    let mut s = running();
    let mut events = Vec::new();
    let polls = [
        lines(false, false, false, false),
        lines(false, false, false, false),
        lines(false, true, false, false),
        lines(false, true, false, false),
        lines(false, true, false, false),
    ];
    for p in polls {
        events.extend(s.step(SessionInput::Tick(p)));
    }
    assert_eq!(
        events,
        vec![SessionAction::Emit(Event::StatusChanged(lines(false, true, false, false)))]
    );
}

#[test]
fn each_line_is_watched() {
    for flipped in [
        lines(true, false, false, false),
        lines(false, true, false, false),
        lines(false, false, true, false),
        lines(false, false, false, true),
    ] {
        let mut s = running();
        assert_eq!(
            s.step(SessionInput::Tick(flipped)),
            vec![SessionAction::Emit(Event::StatusChanged(flipped))]
        );
    }
}

#[test]
fn a_failed_write_does_not_stop_the_session() {
    // The outcome of the write is not an input: the session keeps running and
    // serves what comes next, and the bytes are counted either way.
    let mut s = running();
    let first = s.step(SessionInput::Command(write("m1", &[1, 2, 3])));
    assert!(first.contains(&SessionAction::CountWritten(3)));
    assert_eq!(s.state(), SessionState::Running);
    let second = s.step(SessionInput::Command(write("m2", &[4])));
    assert_eq!(second[0], SessionAction::Write { message_id: "m2".to_string(), data: vec![4] });
}

#[test]
fn a_completion_signal_reports_a_failed_write_and_nothing_else() {
    assert_eq!(ack_outcome("COM7", None), Ok(()));
    assert_eq!(
        ack_outcome("COM7", Some("timed out".to_string())),
        Err(SerialError::WriteFailed { port: "COM7".to_string(), message: "timed out".to_string() })
    );
    assert_eq!(
        ack_outcome("COM7", Some("timed out".to_string())).unwrap_err().message(),
        "Failed to write to port 'COM7': timed out"
    );
    assert_eq!(
        ack_outcome("", Some(String::new())),
        Err(SerialError::WriteFailed { port: String::new(), message: String::new() })
    );
}
