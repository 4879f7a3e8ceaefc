use vstd::prelude::*;
use crate::serial::{DataBits, FlowControl, Parity, StopBits};

verus! {

/// Levels of the four modem control lines, as one snapshot.
#[derive(Clone, Copy, Debug, PartialEq, Eq, Structural)]
pub struct ModemStatus {
    pub cts: bool,
    pub dsr: bool,
    pub cd: bool,
    pub ring: bool,
}

impl ModemStatus {
    /// The snapshot a session starts from: every line low.
    pub fn idle() -> (s: ModemStatus)
        ensures
            s == (ModemStatus { cts: false, dsr: false, cd: false, ring: false }),
    {
        ModemStatus { cts: false, dsr: false, cd: false, ring: false }
    }

    /// Whether any of the four lines differs between two snapshots.
    pub fn differs_from(&self, other: &ModemStatus) -> (d: bool)
        ensures
            d == (*self != *other),
    {
        self.cts != other.cts || self.dsr != other.dsr || self.cd != other.cd || self.ring
            != other.ring
    }
}

/// Identity of a USB serial adapter.
#[derive(Debug, PartialEq, Eq)]
pub struct UsbPortInfo {
    /// Vendor ID
    pub vid: u16,
    /// Product ID
    pub pid: u16,
    /// Serial number (arbitrary string)
    pub serial_number: Option<String>,
    /// Manufacturer (arbitrary string)
    pub manufacturer: Option<String>,
    /// Product name (arbitrary string)
    pub product: Option<String>,
    /// Index of the USB interface that carries the port.
    pub interface: Option<u8>,
}

/// Mathematical value of a [`UsbPortInfo`].
pub struct UsbPortInfoView {
    pub vid: u16,
    pub pid: u16,
    pub serial_number: Option<Seq<char>>,
    pub manufacturer: Option<Seq<char>>,
    pub product: Option<Seq<char>>,
    pub interface: Option<u8>,
}

/// The characters of an optional string.
pub open spec fn opt_text(o: Option<String>) -> Option<Seq<char>> {
    match o {
        Some(s) => Some(s@),
        None => None,
    }
}

/// Copies an optional string.
pub fn clone_opt_text(o: &Option<String>) -> (c: Option<String>)
    ensures
        opt_text(c) == opt_text(*o),
{
    match o {
        Some(s) => Some(s.clone()),
        None => None,
    }
}

impl View for UsbPortInfo {
    type V = UsbPortInfoView;

    open spec fn view(&self) -> UsbPortInfoView {
        UsbPortInfoView {
            vid: self.vid,
            pid: self.pid,
            serial_number: opt_text(self.serial_number),
            manufacturer: opt_text(self.manufacturer),
            product: opt_text(self.product),
            interface: self.interface,
        }
    }
}

impl Clone for UsbPortInfo {
    fn clone(&self) -> (c: UsbPortInfo)
        ensures
            c@ == self@,
    {
        UsbPortInfo {
            vid: self.vid,
            pid: self.pid,
            serial_number: clone_opt_text(&self.serial_number),
            manufacturer: clone_opt_text(&self.manufacturer),
            product: clone_opt_text(&self.product),
            interface: self.interface,
        }
    }
}

/// How a serial port is attached to the machine.
#[derive(Debug, PartialEq, Eq)]
pub enum PortType {
    /// The serial port is connected via USB
    UsbPort(UsbPortInfo),
    /// The serial port is connected via PCI (permanent port)
    PciPort,
    /// The serial port is connected via Bluetooth
    BluetoothPort,
    /// It can't be determined how the serial port is connected
    Unknown,
}

/// Mathematical value of a [`PortType`].
pub enum PortTypeView {
    UsbPort(UsbPortInfoView),
    PciPort,
    BluetoothPort,
    Unknown,
}

impl View for PortType {
    type V = PortTypeView;

    open spec fn view(&self) -> PortTypeView {
        match self {
            PortType::UsbPort(u) => PortTypeView::UsbPort(u@),
            PortType::PciPort => PortTypeView::PciPort,
            PortType::BluetoothPort => PortTypeView::BluetoothPort,
            PortType::Unknown => PortTypeView::Unknown,
        }
    }
}

impl Clone for PortType {
    fn clone(&self) -> (c: PortType)
        ensures
            c@ == self@,
    {
        match self {
            PortType::UsbPort(u) => PortType::UsbPort(u.clone()),
            PortType::PciPort => PortType::PciPort,
            PortType::BluetoothPort => PortType::BluetoothPort,
            PortType::Unknown => PortType::Unknown,
        }
    }
}

/// The line parameters and modem lines of an open port.
#[derive(Clone, Copy, Debug, PartialEq, Eq, Structural)]
pub struct OpenedPortProfile {
    pub baud_rate: u32,
    pub flow_control: FlowControl,
    pub data_bits: DataBits,
    pub parity: Parity,
    pub stop_bits: StopBits,
    pub carrier_detect: bool,
    pub clear_to_send: bool,
    pub data_set_ready: bool,
    pub ring_indicator: bool,
    pub timeout_ms: u64,
}

impl OpenedPortProfile {
    /// The modem lines recorded in this profile.
    pub open spec fn lines(self) -> ModemStatus {
        ModemStatus {
            cts: self.clear_to_send,
            dsr: self.data_set_ready,
            cd: self.carrier_detect,
            ring: self.ring_indicator,
        }
    }

    /// This profile with its modem lines replaced.
    pub open spec fn with_lines(self, status: ModemStatus) -> OpenedPortProfile {
        OpenedPortProfile {
            carrier_detect: status.cd,
            clear_to_send: status.cts,
            data_set_ready: status.dsr,
            ring_indicator: status.ring,
            ..self
        }
    }

    /// The modem lines recorded in this profile.
    pub fn modem_lines(&self) -> (s: ModemStatus)
        ensures
            s == self.lines(),
    {
        ModemStatus {
            cts: self.clear_to_send,
            dsr: self.data_set_ready,
            cd: self.carrier_detect,
            ring: self.ring_indicator,
        }
    }
}

/// Whether a port is open, and with which profile.
#[derive(Clone, Copy, Debug, PartialEq, Eq, Structural)]
pub enum PortStatus {
    Opened(OpenedPortProfile),
    Closed,
}

impl PortStatus {
    /// Whether the port is open.
    pub fn is_open(&self) -> (open: bool)
        ensures
            open == (*self is Opened),
    {
        match self {
            PortStatus::Opened(_) => true,
            PortStatus::Closed => false,
        }
    }
}

/// The registry's row for one known port.
#[derive(Debug, PartialEq, Eq)]
pub struct PortInfo {
    pub port_name: String,
    pub port_type: PortType,
    pub port_status: PortStatus,
    pub bytes_read: u128,
    pub bytes_write: u128,
}

/// Mathematical value of a [`PortInfo`].
pub struct PortInfoView {
    pub port_name: Seq<char>,
    pub port_type: PortTypeView,
    pub port_status: PortStatus,
    pub bytes_read: u128,
    pub bytes_write: u128,
}

impl View for PortInfo {
    type V = PortInfoView;

    open spec fn view(&self) -> PortInfoView {
        PortInfoView {
            port_name: self.port_name@,
            port_type: self.port_type@,
            port_status: self.port_status,
            bytes_read: self.bytes_read,
            bytes_write: self.bytes_write,
        }
    }
}

impl Clone for PortInfo {
    fn clone(&self) -> (c: PortInfo)
        ensures
            c@ == self@,
    {
        PortInfo {
            port_name: self.port_name.clone(),
            port_type: self.port_type.clone(),
            port_status: self.port_status,
            bytes_read: self.bytes_read,
            bytes_write: self.bytes_write,
        }
    }
}

impl PortInfo {
    /// Whether the port is open.
    pub fn is_open(&self) -> (open: bool)
        ensures
            open == (self.port_status is Opened),
    {
        self.port_status.is_open()
    }
}

} // verus!
