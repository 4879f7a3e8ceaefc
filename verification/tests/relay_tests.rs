use serial_session::audit::{AuditDraft, AuditLog, Direction};
use serial_session::command::Command;
use serial_session::events::{PortClosedEvent, PortReadEvent};
use serial_session::port::{ModemStatus, PortStatus, PortType};
use serial_session::registry::{OpenRequest, PortDescriptor, Registry};
use serial_session::relay::{relay_action, Notification, Outbound, SessionContext};
use serial_session::session::{
    Event, ExitCause, Session, SessionAction, SessionInput, SessionState,
};

fn request(name: &str) -> OpenRequest {
    OpenRequest {
        port_name: name.to_string(),
        baud_rate: 9600,
        data_bits: "Eight".to_string(),
        flow_control: "None".to_string(),
        parity: "None".to_string(),
        stop_bits: "One".to_string(),
        data_terminal_ready: true,
        timeout_ms: 1000,
    }
}

fn opened(name: &str, session_id: &str) -> (Registry<u8>, SessionContext) {
    let mut r: Registry<u8> = Registry::new();
    r.discover(&vec![PortDescriptor { name: name.to_string(), port_type: PortType::Unknown }]);
    let plan = r.plan_open(&request(name)).unwrap();
    let ctx = SessionContext {
        port_name: plan.port_name.clone(),
        session_id: session_id.to_string(),
        device_fingerprint: plan.device_fingerprint.clone(),
    };
    r.commit_open(plan, session_id.to_string(), 1).unwrap();
    (r, ctx)
}

fn draft(ctx: &SessionContext, direction: Direction, data: &[u8]) -> AuditDraft {
    AuditDraft {
        device_fingerprint: ctx.device_fingerprint.clone(),
        session_id: ctx.session_id.clone(),
        vid: None,
        pid: None,
        serial_number: None,
        port_name: ctx.port_name.clone(),
        direction,
        data: data.to_vec(),
    }
}

#[test]
fn received_data_is_announced_and_logged_once() {
    let (mut r, ctx) = opened("COM7", "S");
    let before = r.all();
    let done = relay_action(
        &mut r,
        &ctx,
        SessionAction::Emit(Event::Data { bytes: vec![0xDE, 0xAD], timestamp_ms: 1700 }),
        9999,
    );
    assert_eq!(
        done.out,
        vec![
            Outbound::Notify(Notification::PortRead(PortReadEvent {
                port_name: "COM7".to_string(),
                timestamp_ms: 1700,
                data: vec![0xDE, 0xAD],
            })),
            Outbound::Store(draft(&ctx, Direction::Rx, &[0xDE, 0xAD])),
        ]
    );
    assert!(done.released.is_none());
    assert_eq!(r.all(), before);
}

#[test]
fn a_data_event_yields_exactly_one_rx_record_of_its_session() {
    let (mut r, ctx) = opened("COM7", "S");
    let mut log = AuditLog::new();
    log.insert(draft(&ctx, Direction::Tx, &[0x10, 0x20, 0x30]), 10);
    let payload = vec![1u8, 2, 3, 4];
    let mut session = Session::new();
    session.step(SessionInput::Started);
    let actions = session.step(SessionInput::ReadReady { data: payload.clone(), timestamp_ms: 20 });
    let mut stored = 0;
    for action in actions {
        for out in relay_action(&mut r, &ctx, action, 0).out {
            if let Outbound::Store(d) = out {
                log.insert(d, 20).unwrap();
                stored += 1;
            }
        }
    }
    assert_eq!(stored, 1);
    assert_eq!(log.len(), 2);
    let rows = log.get_by_session("S", 10, 0);
    let rx: Vec<_> = rows.iter().filter(|r| r.direction == Direction::Rx).collect();
    assert_eq!(rx.len(), 1);
    assert_eq!(rx[0].session_id, "S");
    assert_eq!(rx[0].data, payload);
    assert_eq!(rx[0].direction.to_text(), "RX");
    assert_eq!(rx[0].port_name, "COM7");
    assert_eq!(rx[0].device_fingerprint, "port:COM7");
    assert_eq!(r.get("COM7").unwrap().bytes_read, 4);
}

#[test]
fn status_and_error_events_are_not_logged() {
    let (mut r, ctx) = opened("COM7", "S");
    let up = ModemStatus { cts: true, dsr: true, cd: false, ring: false };
    let done = relay_action(&mut r, &ctx, SessionAction::Emit(Event::StatusChanged(up)), 0);
    assert!(done.out.is_empty());
    match r.get("COM7").unwrap().port_status {
        PortStatus::Opened(p) => {
            assert!(p.clear_to_send);
            assert!(p.data_set_ready);
            assert!(!p.carrier_detect);
            assert!(!p.ring_indicator);
            assert_eq!(p.baud_rate, 9600);
        }
        PortStatus::Closed => panic!("the port is open"),
    }
    let done = relay_action(
        &mut r,
        &ctx,
        SessionAction::Emit(Event::Error { message: "overrun".to_string() }),
        0,
    );
    assert_eq!(
        done.out,
        vec![Outbound::Notify(Notification::PortError {
            port_name: "COM7".to_string(),
            message: "overrun".to_string(),
        })]
    );
}

#[test]
fn a_write_is_logged_with_the_bytes_written() {
    let (mut r, ctx) = opened("COM7", "S");
    let before = r.all();
    let done = relay_action(
        &mut r,
        &ctx,
        SessionAction::Write { message_id: "m1".to_string(), data: vec![0x01, 0x02] },
        0,
    );
    assert_eq!(done.out, vec![Outbound::Store(draft(&ctx, Direction::Tx, &[0x01, 0x02]))]);
    assert!(done.released.is_none());
    assert_eq!(r.all(), before);
    // Another payload of the same length is another record.
    let done = relay_action(
        &mut r,
        &ctx,
        SessionAction::Write { message_id: "m2".to_string(), data: vec![0x02, 0x01] },
        0,
    );
    assert_eq!(done.out, vec![Outbound::Store(draft(&ctx, Direction::Tx, &[0x02, 0x01]))]);
    // An empty write is logged too.
    let done = relay_action(
        &mut r,
        &ctx,
        SessionAction::Write { message_id: "m3".to_string(), data: vec![] },
        0,
    );
    assert_eq!(done.out, vec![Outbound::Store(draft(&ctx, Direction::Tx, &[]))]);
}

#[test]
fn a_processed_write_yields_exactly_one_tx_record_with_its_payload() {
    let (mut r, ctx) = opened("COM7", "S");
    let mut log = AuditLog::new();
    let mut session = Session::new();
    session.step(SessionInput::Started);
    for (id, payload) in [("a", vec![0xAAu8, 0xBB]), ("b", vec![0xBB, 0xAA]), ("c", vec![7])] {
        let actions = session.step(SessionInput::Command(Command::write(id.to_string(), payload)));
        for action in actions {
            for out in relay_action(&mut r, &ctx, action, 0).out {
                if let Outbound::Store(d) = out {
                    log.insert(d, 30).unwrap();
                }
            }
        }
    }
    let rows = log.get_by_session("S", 10, 0);
    assert_eq!(rows.len(), 3);
    let data: Vec<Vec<u8>> = rows.iter().map(|r| r.data.clone()).collect();
    assert_eq!(data, vec![vec![0xAA, 0xBB], vec![0xBB, 0xAA], vec![7]]);
    for row in &rows {
        assert_eq!(row.direction, Direction::Tx);
        assert_eq!(row.direction.to_text(), "TX");
        assert_eq!(row.session_id, "S");
        assert_eq!(row.device_fingerprint, "port:COM7");
        assert_eq!(row.port_name, "COM7");
    }
    assert_eq!(r.get("COM7").unwrap().bytes_write, 5);
}

#[test]
fn counters_are_kept() {
    let (mut r, ctx) = opened("COM7", "S");
    assert!(relay_action(&mut r, &ctx, SessionAction::CountRead(5), 0).out.is_empty());
    assert!(relay_action(&mut r, &ctx, SessionAction::CountWritten(1024), 0).out.is_empty());
    assert!(relay_action(&mut r, &ctx, SessionAction::CountWritten(0), 0).out.is_empty());
    assert!(relay_action(&mut r, &ctx, SessionAction::CountWritten(7), 0).out.is_empty());
    let row = r.get("COM7").unwrap();
    assert_eq!(row.bytes_read, 5);
    assert_eq!(row.bytes_write, 1024 + 7);
}

#[test]
fn hardware_and_queue_actions_leave_the_books_alone() {
    let (mut r, ctx) = opened("COM7", "S");
    let before = r.all();
    for action in [
        SessionAction::Ack,
        SessionAction::SetRts(true),
        SessionAction::SetDtr(false),
        SessionAction::ReleaseHandle,
        SessionAction::CloseChannel,
    ] {
        let done = relay_action(&mut r, &ctx, action, 5);
        assert!(done.out.is_empty());
        assert!(done.released.is_none());
    }
    assert_eq!(r.all(), before);
    assert!(r.is_open("COM7"));
}

#[test]
fn an_exit_is_announced_with_its_cause() {
    for (cause, reason) in [
        (ExitCause::UserRequested, "User Requested"),
        (ExitCause::ConnectionLost, "Connection Lost"),
        (ExitCause::Error("Input/output error".to_string()), "Error: Input/output error"),
    ] {
        let (mut r, ctx) = opened("COM7", "S");
        let done = relay_action(&mut r, &ctx, SessionAction::NotifyExit(cause), 4242);
        assert_eq!(
            done.out,
            vec![Outbound::Notify(Notification::PortClosed(PortClosedEvent {
                port_name: "COM7".to_string(),
                reason: reason.to_string(),
                timestamp_ms: 4242,
            }))]
        );
        assert_eq!(done.released.unwrap().sender, 1);
        assert!(!r.is_open("COM7"));
        assert_eq!(r.get("COM7").unwrap().port_status, PortStatus::Closed);
    }
}

#[test]
fn open_write_then_a_read_error_closes_the_port() {
    // Open COM7 at 9600-8-N-1, write [01 02] as "m1", then the hardware fails a read.
    let (mut r, ctx) = opened("COM7", "S");
    let mut session = Session::new();
    session.step(SessionInput::Started);

    let actions = session.step(SessionInput::Command(Command::write("m1".to_string(), vec![0x01, 0x02])));
    assert!(actions.contains(&SessionAction::Ack));
    let ack_at = actions.iter().position(|a| *a == SessionAction::Ack).unwrap();
    let write_at = actions
        .iter()
        .position(|a| matches!(a, SessionAction::Write { .. }))
        .unwrap();
    assert!(write_at < ack_at);
    let mut logged = Vec::new();
    for action in actions {
        for out in relay_action(&mut r, &ctx, action, 100).out {
            if let Outbound::Store(d) = out {
                logged.push(d);
            }
        }
    }
    assert_eq!(logged, vec![draft(&ctx, Direction::Tx, &[0x01, 0x02])]);
    assert_eq!(r.get("COM7").unwrap().bytes_write, 2);
    assert!(r.is_open("COM7"));

    let mut told = Vec::new();
    let mut actions = session.step(SessionInput::ReadFailed { message: "device removed".to_string() });
    assert_eq!(session.state(), SessionState::Draining);
    actions.extend(session.finish());
    assert_eq!(session.state(), SessionState::Closed);
    for action in actions {
        for out in relay_action(&mut r, &ctx, action, 200).out {
            if let Outbound::Notify(n) = out {
                told.push(n);
            }
        }
    }
    assert_eq!(
        told,
        vec![
            Notification::PortError {
                port_name: "COM7".to_string(),
                message: "device removed".to_string(),
            },
            Notification::PortClosed(PortClosedEvent {
                port_name: "COM7".to_string(),
                reason: "Error: device removed".to_string(),
                timestamp_ms: 200,
            }),
        ]
    );
    let rows = r.discover(&vec![]);
    assert_eq!(rows.len(), 1);
    assert_eq!(rows[0].port_name, "COM7");
    assert_eq!(rows[0].port_status, PortStatus::Closed);
    assert_eq!(rows[0].bytes_write, 2);
    assert!(r.handle("COM7").is_err());
}

#[test]
fn the_exit_of_a_session_that_does_not_hold_the_port_is_passed_over() {
    // A second task for COM7 lost the race for the registry and ends at once.
    let (mut r, winner) = opened("COM7", "S");
    let loser = SessionContext {
        port_name: "COM7".to_string(),
        session_id: "T".to_string(),
        device_fingerprint: winner.device_fingerprint.clone(),
    };
    let before = r.all();
    let done = relay_action(&mut r, &loser, SessionAction::NotifyExit(ExitCause::ConnectionLost), 1);
    assert!(done.out.is_empty());
    assert!(done.released.is_none());
    assert_eq!(r.all(), before);
    assert!(r.is_open("COM7"));
    assert_eq!(r.handle("COM7").unwrap().session_id, "S");
}
