use vstd::prelude::*;
use vstd::string::StringExecFns;
use crate::text::{str_eq, to_uppercase, uppercase_of};

verus! {

/// Protocol modes supported by the tester
#[derive(Clone, Copy, Debug, PartialEq, Eq, Structural)]
pub enum ProtocolMode {
    /// WiFi setup mode (default on first boot)
    Setup,
    /// Simple echo back
    Echo,
    /// ESP32-style AT commands
    AtCommand,
    /// Modbus RTU slave
    ModbusRtu,
    /// GPS NMEA sentence generator
    NmeaGps,
    /// SCPI instrument emulator
    Scpi,
    /// 3D printer Marlin emulator
    Marlin,
    /// OBD-II ELM327 emulator
    Elm327,
    /// ESC/POS printer emulator
    EscPos,
}

/// The mode that a name in upper case stands for, if any.
pub open spec fn mode_named(name: Seq<char>) -> Option<ProtocolMode> {
    if name == "SETUP"@ {
        Some(ProtocolMode::Setup)
    } else if name == "ECHO"@ {
        Some(ProtocolMode::Echo)
    } else if name == "AT"@ || name == "AT_COMMAND"@ {
        Some(ProtocolMode::AtCommand)
    } else if name == "MODBUS"@ || name == "MODBUS_RTU"@ {
        Some(ProtocolMode::ModbusRtu)
    } else if name == "GPS"@ || name == "NMEA"@ || name == "NMEA_GPS"@ {
        Some(ProtocolMode::NmeaGps)
    } else if name == "SCPI"@ {
        Some(ProtocolMode::Scpi)
    } else if name == "MARLIN"@ || name == "3DPRINTER"@ {
        Some(ProtocolMode::Marlin)
    } else if name == "ELM327"@ || name == "OBD"@ || name == "OBD2"@ {
        Some(ProtocolMode::Elm327)
    } else if name == "ESCPOS"@ || name == "PRINTER"@ {
        Some(ProtocolMode::EscPos)
    } else {
        None
    }
}

impl Default for ProtocolMode {
    fn default() -> (m: ProtocolMode)
        ensures
            m == ProtocolMode::Setup,
    {
        ProtocolMode::Setup
    }
}

impl ProtocolMode {
    /// The mode that a name stands for, whatever its case.
    pub fn from_str(s: &str) -> (mode: Option<ProtocolMode>)
        ensures
            mode == mode_named(uppercase_of(s@)),
    {
        let upper = to_uppercase(s);
        ProtocolMode::from_upper(upper.as_str())
    }

    /// The mode that a name in upper case stands for.
    pub fn from_upper(name: &str) -> (mode: Option<ProtocolMode>)
        ensures
            mode == mode_named(name@),
    {
        if str_eq(name, "SETUP") {
            Some(ProtocolMode::Setup)
        } else if str_eq(name, "ECHO") {
            Some(ProtocolMode::Echo)
        } else if str_eq(name, "AT") || str_eq(name, "AT_COMMAND") {
            Some(ProtocolMode::AtCommand)
        } else if str_eq(name, "MODBUS") || str_eq(name, "MODBUS_RTU") {
            Some(ProtocolMode::ModbusRtu)
        } else if str_eq(name, "GPS") || str_eq(name, "NMEA") || str_eq(name, "NMEA_GPS") {
            Some(ProtocolMode::NmeaGps)
        } else if str_eq(name, "SCPI") {
            Some(ProtocolMode::Scpi)
        } else if str_eq(name, "MARLIN") || str_eq(name, "3DPRINTER") {
            Some(ProtocolMode::Marlin)
        } else if str_eq(name, "ELM327") || str_eq(name, "OBD") || str_eq(name, "OBD2") {
            Some(ProtocolMode::Elm327)
        } else if str_eq(name, "ESCPOS") || str_eq(name, "PRINTER") {
            Some(ProtocolMode::EscPos)
        } else {
            None
        }
    }

    /// Whether the mode carries binary frames rather than lines of text.
    pub fn is_binary(&self) -> (binary: bool)
        ensures
            binary == (*self == ProtocolMode::ModbusRtu || *self == ProtocolMode::EscPos),
    {
        match self {
            ProtocolMode::ModbusRtu => true,
            ProtocolMode::EscPos => true,
            _ => false,
        }
    }
}

/// Serial port configuration
#[derive(Debug, PartialEq, Eq)]
pub struct SerialConfig {
    pub baud_rate: u32,
    pub data_bits: u8,
    pub parity: String,
    pub stop_bits: u8,
}

impl Default for SerialConfig {
    fn default() -> (c: SerialConfig)
        ensures
            c.baud_rate == 115200,
            c.data_bits == 8,
            c.parity@ == "None"@,
            c.stop_bits == 1,
    {
        SerialConfig {
            baud_rate: 115200,
            data_bits: 8,
            parity: String::from_str("None"),
            stop_bits: 1,
        }
    }
}

/// WiFi configuration stored in NVS
#[derive(Debug, PartialEq, Eq)]
pub struct WifiConfig {
    pub ssid: String,
    pub password: String,
}

impl Default for WifiConfig {
    fn default() -> (c: WifiConfig)
        ensures
            c.ssid@ == Seq::<char>::empty(),
            c.password@ == Seq::<char>::empty(),
    {
        WifiConfig { ssid: String::new(), password: String::new() }
    }
}

} // verus!
