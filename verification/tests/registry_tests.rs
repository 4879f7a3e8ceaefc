use serial_session::error::SerialError;
use serial_session::port::{ModemStatus, OpenedPortProfile, PortInfo, PortStatus, PortType, UsbPortInfo};
use serial_session::registry::{OpenPlan, OpenRequest, PortDescriptor, Registry};
use serial_session::serial::{DataBits, FlowControl, Parity, StopBits};

fn plain(name: &str) -> PortDescriptor {
    PortDescriptor { name: name.to_string(), port_type: PortType::Unknown }
}

fn usb(name: &str, vid: u16, pid: u16, serial: Option<&str>) -> PortDescriptor {
    PortDescriptor {
        name: name.to_string(),
        port_type: PortType::UsbPort(UsbPortInfo {
            vid,
            pid,
            serial_number: serial.map(|s| s.to_string()),
            manufacturer: None,
            product: None,
            interface: None,
        }),
    }
}

fn request(name: &str) -> OpenRequest {
    OpenRequest {
        port_name: name.to_string(),
        baud_rate: 9600,
        data_bits: "Eight".to_string(),
        flow_control: "None".to_string(),
        parity: "None".to_string(),
        stop_bits: "One".to_string(),
        data_terminal_ready: true,
        timeout_ms: 1000,
    }
}

fn profile_9600_8n1() -> OpenedPortProfile {
    OpenedPortProfile {
        baud_rate: 9600,
        flow_control: FlowControl::Off,
        data_bits: DataBits::Eight,
        parity: Parity::Off,
        stop_bits: StopBits::One,
        carrier_detect: false,
        clear_to_send: false,
        data_set_ready: false,
        ring_indicator: false,
        timeout_ms: 1000,
    }
}

fn closed_row(name: &str) -> PortInfo {
    PortInfo {
        port_name: name.to_string(),
        port_type: PortType::Unknown,
        port_status: PortStatus::Closed,
        bytes_read: 0,
        bytes_write: 0,
    }
}

fn copy(plan: &OpenPlan) -> OpenPlan {
    OpenPlan {
        port_name: plan.port_name.clone(),
        profile: plan.profile,
        data_terminal_ready: plan.data_terminal_ready,
        device_fingerprint: plan.device_fingerprint.clone(),
    }
}

fn open_com7(r: &mut Registry<u32>) -> OpenPlan {
    r.discover(&vec![plain("COM7")]);
    let plan = r.plan_open(&request("COM7")).unwrap();
    let kept = copy(&plan);
    let result = r.commit_open(plan, "s-1".to_string(), 77).unwrap();
    assert_eq!(result.session_id, "s-1");
    kept
}

#[test]
fn a_new_registry_knows_nothing() {
    let r: Registry<u32> = Registry::new();
    assert!(r.all().is_empty());
    assert_eq!(r.get("COM1"), None);
    assert!(!r.is_open("COM1"));
}

#[test]
fn discovery_adds_closed_rows_in_order() {
    let mut r: Registry<u32> = Registry::new();
    let rows = r.discover(&vec![plain("COM3"), plain("COM1")]);
    assert_eq!(rows, vec![closed_row("COM3"), closed_row("COM1")]);
    assert_eq!(r.get("COM1"), Some(&closed_row("COM1")));
    assert_eq!(r.get("COM2"), None);
}

#[test]
fn discovery_never_removes_and_never_overwrites() {
    let mut r: Registry<u32> = Registry::new();
    open_com7(&mut r);
    r.record_read("COM7", 10);
    let before = r.get("COM7").unwrap().clone();
    assert!(before.is_open());
    // COM7 vanished from the system and came back as a USB device: the row stays as it is.
    let rows = r.discover(&vec![plain("COM9")]);
    assert_eq!(rows.len(), 2);
    assert_eq!(r.get("COM7"), Some(&before));
    let rows = r.discover(&vec![usb("COM7", 1, 2, None)]);
    assert_eq!(rows.len(), 2);
    assert_eq!(r.get("COM7"), Some(&before));
    assert_eq!(rows[0], before);
    assert_eq!(rows[1], closed_row("COM9"));
}

#[test]
fn a_name_listed_twice_in_one_enumeration_takes_the_later_description() {
    let mut r: Registry<u32> = Registry::new();
    let rows = r.discover(&vec![plain("ttyUSB0"), usb("ttyUSB0", 0x0403, 0x6001, Some("A1"))]);
    assert_eq!(rows.len(), 1);
    assert_eq!(rows[0].port_name, "ttyUSB0");
    assert_eq!(
        rows[0].port_type,
        PortType::UsbPort(UsbPortInfo {
            vid: 0x0403,
            pid: 0x6001,
            serial_number: Some("A1".to_string()),
            manufacturer: None,
            product: None,
            interface: None,
        })
    );
    assert_eq!(rows[0].port_status, PortStatus::Closed);
}

#[test]
fn planning_reads_the_line_parameters_first() {
    let r: Registry<u32> = Registry::new();
    let mut req = request("nowhere");
    req.data_bits = "Nine".to_string();
    req.parity = "Maybe".to_string();
    assert_eq!(
        r.plan_open(&req),
        Err(SerialError::InvalidConfig("unknown data bits: Nine".to_string()))
    );
    let mut req = request("nowhere");
    req.flow_control = "xonxoff".to_string();
    req.stop_bits = "3".to_string();
    assert_eq!(
        r.plan_open(&req),
        Err(SerialError::InvalidConfig("unknown flow control: xonxoff".to_string()))
    );
    let mut req = request("nowhere");
    req.parity = "Mark".to_string();
    assert_eq!(
        r.plan_open(&req),
        Err(SerialError::InvalidConfig("unknown parity: Mark".to_string()))
    );
    let mut req = request("nowhere");
    req.stop_bits = "1.5".to_string();
    assert_eq!(
        r.plan_open(&req),
        Err(SerialError::InvalidConfig("unknown stop bits: 1.5".to_string()))
    );
}

#[test]
fn planning_fails_for_an_unknown_name() {
    let mut r: Registry<u32> = Registry::new();
    r.discover(&vec![plain("COM1")]);
    assert_eq!(
        r.plan_open(&request("COM7")),
        Err(SerialError::PortNotFound("COM7".to_string()))
    );
}

#[test]
fn a_plan_carries_profile_and_fingerprint() {
    let mut r: Registry<u32> = Registry::new();
    r.discover(&vec![plain("COM7"), usb("ttyACM0", 0x2341, 0x0043, Some("85430"))]);
    let mut req = request("ttyACM0");
    req.baud_rate = 115200;
    req.data_bits = "seven".to_string();
    req.flow_control = "hardware".to_string();
    req.parity = "even".to_string();
    req.stop_bits = "two".to_string();
    req.data_terminal_ready = false;
    req.timeout_ms = 250;
    let plan = r.plan_open(&req).unwrap();
    assert_eq!(
        plan,
        OpenPlan {
            port_name: "ttyACM0".to_string(),
            profile: OpenedPortProfile {
                baud_rate: 115200,
                flow_control: FlowControl::Hardware,
                data_bits: DataBits::Seven,
                parity: Parity::Even,
                stop_bits: StopBits::Two,
                carrier_detect: false,
                clear_to_send: false,
                data_set_ready: false,
                ring_indicator: false,
                timeout_ms: 250,
            },
            data_terminal_ready: false,
            device_fingerprint: "usb:2341:0043:85430".to_string(),
        }
    );
    let plan = r.plan_open(&request("COM7")).unwrap();
    assert_eq!(plan.device_fingerprint, "port:COM7");
    assert_eq!(plan.profile, profile_9600_8n1());
    // Planning changes nothing.
    assert!(!r.is_open("COM7"));
    assert_eq!(r.get("COM7"), Some(&closed_row("COM7")));
}

#[test]
fn entered_sessions_carry_fresh_session_ids() {
    let mut r: Registry<u32> = Registry::new();
    r.discover(&vec![plain("COM7"), plain("COM8")]);
    let a = r.plan_open(&request("COM7")).unwrap();
    let b = r.plan_open(&request("COM8")).unwrap();
    let a = r.enter_session(a, 1).unwrap();
    let b = r.enter_session(b, 2).unwrap();
    assert_eq!(a.session_id.len(), 36);
    assert_eq!(b.session_id.len(), 36);
    assert_ne!(a.session_id, b.session_id);
    assert_eq!(a.session_id.matches('-').count(), 4);
    assert_eq!(r.handle("COM7").unwrap().session_id, a.session_id);
    assert_eq!(r.handle("COM7").unwrap().sender, 1);
    assert_eq!(r.handle("COM8").unwrap().session_id, b.session_id);
    assert!(r.get("COM7").unwrap().is_open());
    assert_eq!(r.get("COM8").unwrap().port_status, PortStatus::Opened(profile_9600_8n1()));
}

#[test]
fn entering_fails_without_side_effects_for_a_held_or_unknown_port() {
    let mut r: Registry<u32> = Registry::new();
    let plan = open_com7(&mut r);
    let before = r.all();
    assert_eq!(
        r.enter_session(copy(&plan), 5),
        Err(SerialError::PortAlreadyOpen("COM7".to_string()))
    );
    let stray = OpenPlan { port_name: "COM9".to_string(), ..copy(&plan) };
    assert_eq!(r.enter_session(stray, 5), Err(SerialError::PortNotFound("COM9".to_string())));
    assert_eq!(r.all(), before);
    assert_eq!(r.handle("COM7").unwrap().session_id, "s-1");
    assert_eq!(r.handle("COM7").unwrap().sender, 77);
}

#[test]
fn a_request_is_checked_before_the_ports_are_enumerated() {
    let mut r: Registry<u32> = Registry::new();
    // Nothing is known yet: a good request for any name passes, a bad token does not.
    assert_eq!(r.check_request(&request("COM7")), Ok(()));
    let mut bad = request("COM7");
    bad.stop_bits = "1.5".to_string();
    assert_eq!(
        r.check_request(&bad),
        Err(SerialError::InvalidConfig("unknown stop bits: 1.5".to_string()))
    );
    open_com7(&mut r);
    let before = r.all();
    assert_eq!(
        r.check_request(&request("COM7")),
        Err(SerialError::PortAlreadyOpen("COM7".to_string()))
    );
    // The configuration error comes first.
    assert_eq!(
        r.check_request(&bad),
        Err(SerialError::InvalidConfig("unknown stop bits: 1.5".to_string()))
    );
    assert_eq!(r.check_request(&request("COM8")), Ok(()));
    assert_eq!(r.all(), before);
}

#[test]
fn committing_opens_the_row_and_holds_the_handle() {
    let mut r: Registry<u32> = Registry::new();
    let plan = open_com7(&mut r);
    assert!(r.is_open("COM7"));
    let row = r.get("COM7").unwrap();
    assert_eq!(row.port_status, PortStatus::Opened(profile_9600_8n1()));
    assert!(row.is_open());
    assert!(row.port_status.is_open());
    let handle = r.handle("COM7").unwrap();
    assert_eq!(handle.port_name, "COM7");
    assert_eq!(handle.session_id, "s-1");
    assert_eq!(plan.port_name, "COM7");
    assert_eq!(handle.sender, 77);
}

#[test]
fn a_second_open_fails_without_side_effects() {
    let mut r: Registry<u32> = Registry::new();
    let plan = open_com7(&mut r);
    r.record_written("COM7", 5);
    let before = r.all();
    assert_eq!(
        r.plan_open(&request("COM7")),
        Err(SerialError::PortAlreadyOpen("COM7".to_string()))
    );
    assert_eq!(
        r.check_request(&request("COM7")),
        Err(SerialError::PortAlreadyOpen("COM7".to_string()))
    );
    assert_eq!(
        r.commit_open(plan, "s-2".to_string(), 99),
        Err(SerialError::PortAlreadyOpen("COM7".to_string()))
    );
    assert_eq!(r.all(), before);
    let handle = r.handle("COM7").unwrap();
    assert_eq!(handle.session_id, "s-1");
    assert_eq!(handle.sender, 77);
}

#[test]
fn committing_for_an_unknown_name_changes_nothing() {
    let mut r: Registry<u32> = Registry::new();
    r.discover(&vec![plain("COM1")]);
    let plan = OpenPlan {
        port_name: "COM7".to_string(),
        profile: profile_9600_8n1(),
        data_terminal_ready: true,
        device_fingerprint: "port:COM7".to_string(),
    };
    assert_eq!(
        r.commit_open(plan, "s".to_string(), 1),
        Err(SerialError::PortNotFound("COM7".to_string()))
    );
    assert_eq!(r.all(), vec![closed_row("COM1")]);
    assert!(!r.is_open("COM7"));
}

#[test]
fn a_port_without_a_session_is_not_open() {
    let mut r: Registry<u32> = Registry::new();
    r.discover(&vec![plain("COM7")]);
    assert_eq!(r.handle("COM7").err(), Some(SerialError::PortNotOpen("COM7".to_string())));
    assert_eq!(r.handle("COM8").err(), Some(SerialError::PortNotOpen("COM8".to_string())));
}

#[test]
fn counters_add_up() {
    let mut r: Registry<u32> = Registry::new();
    r.discover(&vec![plain("COM7"), plain("COM8")]);
    r.record_read("COM7", 3);
    r.record_read("COM7", 4);
    r.record_written("COM7", 2);
    r.record_read("COM9", 100);
    let row = r.get("COM7").unwrap();
    assert_eq!(row.bytes_read, 7);
    assert_eq!(row.bytes_write, 2);
    assert_eq!(r.get("COM8"), Some(&closed_row("COM8")));
    assert_eq!(r.all().len(), 2);
    for _ in 0..3 {
        r.record_written("COM8", usize::MAX);
    }
    assert_eq!(r.get("COM8").unwrap().bytes_write, 3 * (usize::MAX as u128));
}

#[test]
fn modem_lines_go_into_the_profile_of_an_open_port_only() {
    let mut r: Registry<u32> = Registry::new();
    r.discover(&vec![plain("COM1")]);
    let up = ModemStatus { cts: true, dsr: false, cd: true, ring: false };
    assert!(!r.update_modem_status("COM1", up));
    assert!(!r.update_modem_status("COM5", up));
    assert_eq!(r.get("COM1"), Some(&closed_row("COM1")));
    open_com7(&mut r);
    let low = ModemStatus { cts: false, dsr: false, cd: false, ring: false };
    assert!(!r.update_modem_status("COM7", low));
    assert!(r.update_modem_status("COM7", up));
    assert!(!r.update_modem_status("COM7", up));
    let expected = OpenedPortProfile { clear_to_send: true, carrier_detect: true, ..profile_9600_8n1() };
    assert_eq!(r.get("COM7").unwrap().port_status, PortStatus::Opened(expected));
}

#[test]
fn an_exit_closes_the_row_and_drops_the_handle() {
    let mut r: Registry<u32> = Registry::new();
    open_com7(&mut r);
    r.record_read("COM7", 11);
    // The end of a session that does not hold the port changes nothing.
    assert_eq!(r.session_exited("COM7", "s-0"), None);
    assert!(r.is_open("COM7"));
    let gone = r.session_exited("COM7", "s-1").unwrap();
    assert_eq!(gone.sender, 77);
    assert_eq!(gone.session_id, "s-1");
    assert!(!r.is_open("COM7"));
    let row = r.get("COM7").unwrap();
    assert_eq!(row.port_status, PortStatus::Closed);
    assert_eq!(row.bytes_read, 11);
    assert!(r.handle("COM7").is_err());
    // Observable through discovery too, and the exit is settled once.
    let rows = r.discover(&vec![plain("COM7")]);
    assert_eq!(rows.len(), 1);
    assert_eq!(rows[0].port_status, PortStatus::Closed);
    assert_eq!(r.session_exited("COM7", "s-1"), None);
    assert_eq!(r.session_exited("COM8", "s-1"), None);
}

#[test]
fn a_port_can_be_opened_again_after_an_exit() {
    let mut r: Registry<u32> = Registry::new();
    open_com7(&mut r);
    r.session_exited("COM7", "s-1");
    let plan = r.plan_open(&request("COM7")).unwrap();
    assert_eq!(r.commit_open(plan, "s-2".to_string(), 78).unwrap().session_id, "s-2");
    assert_eq!(r.handle("COM7").unwrap().sender, 78);
}

#[test]
fn sessions_of_different_ports_do_not_touch_each_other() {
    let mut r: Registry<u32> = Registry::new();
    r.discover(&vec![plain("A"), plain("B"), plain("C")]);
    for (name, sender) in [("A", 1u32), ("B", 2), ("C", 3)] {
        let plan = r.plan_open(&request(name)).unwrap();
        r.commit_open(plan, format!("s-{}", name), sender).unwrap();
    }
    assert_eq!(r.session_exited("B", "s-B").unwrap().sender, 2);
    assert!(r.is_open("A"));
    assert!(!r.is_open("B"));
    assert!(r.is_open("C"));
    assert_eq!(r.handle("A").unwrap().sender, 1);
    assert_eq!(r.handle("C").unwrap().sender, 3);
    assert_eq!(r.handle("C").unwrap().session_id, "s-C");
    assert!(r.get("A").unwrap().is_open());
    assert!(!r.get("B").unwrap().is_open());
}
