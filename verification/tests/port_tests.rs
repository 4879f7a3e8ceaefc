use serial_session::command::{Command, WriteCmd, WritePortDataTerminalReady, WritePortMessage};
use serial_session::port::{
    ModemStatus, OpenedPortProfile, PortInfo, PortStatus, PortType, UsbPortInfo,
};
use serial_session::serial::{DataBits, FlowControl, Parity, StopBits};
use serial_session::text::{bytes_eq, str_eq};

fn profile() -> OpenedPortProfile {
    OpenedPortProfile {
        baud_rate: 57600,
        flow_control: FlowControl::Software,
        data_bits: DataBits::Seven,
        parity: Parity::Odd,
        stop_bits: StopBits::Two,
        carrier_detect: true,
        clear_to_send: false,
        data_set_ready: true,
        ring_indicator: false,
        timeout_ms: 10,
    }
}

#[test]
fn a_status_is_open_exactly_when_it_holds_a_profile() {
    assert!(PortStatus::Opened(profile()).is_open());
    assert!(!PortStatus::Closed.is_open());
}

#[test]
fn a_row_is_open_exactly_when_its_status_is() {
    let mut row = PortInfo {
        port_name: "COM1".to_string(),
        port_type: PortType::PciPort,
        port_status: PortStatus::Closed,
        bytes_read: 1,
        bytes_write: 2,
    };
    assert!(!row.is_open());
    row.port_status = PortStatus::Opened(profile());
    assert!(row.is_open());
}

#[test]
fn the_modem_lines_of_a_profile() {
    assert_eq!(
        profile().modem_lines(),
        ModemStatus { cts: false, dsr: true, cd: true, ring: false }
    );
    assert_eq!(ModemStatus::idle(), ModemStatus { cts: false, dsr: false, cd: false, ring: false });
}

#[test]
fn snapshots_differ_when_any_line_differs() {
    let idle = ModemStatus::idle();
    assert!(!idle.differs_from(&idle));
    assert!(idle.differs_from(&ModemStatus { cts: true, ..idle }));
    assert!(idle.differs_from(&ModemStatus { dsr: true, ..idle }));
    assert!(idle.differs_from(&ModemStatus { cd: true, ..idle }));
    assert!(idle.differs_from(&ModemStatus { ring: true, ..idle }));
    let all = ModemStatus { cts: true, dsr: true, cd: true, ring: true };
    assert!(!all.differs_from(&all));
}

#[test]
fn copies_are_equal_to_what_they_copy() {
    let usb = PortType::UsbPort(UsbPortInfo {
        vid: 1,
        pid: 2,
        serial_number: Some("s".to_string()),
        manufacturer: None,
        product: Some("p".to_string()),
        interface: Some(3),
    });
    assert_eq!(usb.clone(), usb);
    let row = PortInfo {
        port_name: "COM1".to_string(),
        port_type: usb,
        port_status: PortStatus::Opened(profile()),
        bytes_read: u128::MAX,
        bytes_write: 7,
    };
    assert_eq!(row.clone(), row);
    let cmd = Command::write("id".to_string(), vec![1, 2, 3]);
    assert_eq!(cmd.clone(), cmd);
    assert_eq!(Command::close().clone(), Command::close());
}

#[test]
fn commands_built_for_callers_wait_for_their_signal() {
    assert_eq!(
        Command::write("m1".to_string(), vec![1, 2]),
        Command {
            cmd: WriteCmd::Message(WritePortMessage { message_id: "m1".to_string(), data: vec![1, 2] }),
            wants_ack: true,
        }
    );
    assert_eq!(
        Command::set_dtr(true),
        Command { cmd: WriteCmd::Dtr(WritePortDataTerminalReady { dtr: true }), wants_ack: true }
    );
    assert_eq!(Command::close(), Command { cmd: WriteCmd::Close, wants_ack: true });
    assert!(Command::set_rts(false).wants_ack);
}

#[test]
fn text_and_bytes_compare_by_content() {
    assert!(str_eq("COM7", "COM7"));
    assert!(str_eq("", ""));
    assert!(!str_eq("COM7", "COM8"));
    assert!(!str_eq("COM7", "COM"));
    assert!(!str_eq("com7", "COM7"));
    assert!(str_eq("端口", "端口"));
    assert!(bytes_eq(&[1, 2, 3], &[1, 2, 3]));
    assert!(bytes_eq(&[], &[]));
    assert!(!bytes_eq(&[1, 2, 3], &[1, 2]));
    assert!(!bytes_eq(&[1, 2, 3], &[1, 2, 4]));
}
