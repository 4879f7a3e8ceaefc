use serial_session::error::{
    AppError, CmdError, CmdErrorCode, ErrorType, InnerError, RustErrorType, SerialError,
    SerialErrorKind,
};
use serial_session::serial::{
    parse_data_bits, parse_flow_control, parse_parity, parse_stop_bits, DataBits, FlowControl,
    Parity, StopBits,
};

fn invalid(msg: &str) -> SerialError {
    SerialError::InvalidConfig(msg.to_string())
}

#[test]
fn data_bits_tokens() {
    assert_eq!(DataBits::from_str("five"), Ok(DataBits::Five));
    assert_eq!(DataBits::from_str("Five"), Ok(DataBits::Five));
    assert_eq!(DataBits::from_str("six"), Ok(DataBits::Six));
    assert_eq!(DataBits::from_str("Six"), Ok(DataBits::Six));
    assert_eq!(DataBits::from_str("seven"), Ok(DataBits::Seven));
    assert_eq!(DataBits::from_str("Seven"), Ok(DataBits::Seven));
    assert_eq!(DataBits::from_str("eight"), Ok(DataBits::Eight));
    assert_eq!(DataBits::from_str("Eight"), Ok(DataBits::Eight));
    assert_eq!(DataBits::from_str("EIGHT"), Err(invalid("unknown data bits: EIGHT")));
    assert_eq!(DataBits::from_str("8"), Err(invalid("unknown data bits: 8")));
    assert_eq!(DataBits::from_str(""), Err(invalid("unknown data bits: ")));
    assert_eq!(DataBits::from_str(" eight"), Err(invalid("unknown data bits:  eight")));
}

#[test]
fn flow_control_tokens() {
    assert_eq!(FlowControl::from_str("hardware"), Ok(FlowControl::Hardware));
    assert_eq!(FlowControl::from_str("Hardware"), Ok(FlowControl::Hardware));
    assert_eq!(FlowControl::from_str("software"), Ok(FlowControl::Software));
    assert_eq!(FlowControl::from_str("Software"), Ok(FlowControl::Software));
    assert_eq!(FlowControl::from_str("none"), Ok(FlowControl::Off));
    assert_eq!(FlowControl::from_str("None"), Ok(FlowControl::Off));
    assert_eq!(FlowControl::from_str("rts"), Err(invalid("unknown flow control: rts")));
}

#[test]
fn parity_tokens() {
    assert_eq!(Parity::from_str("odd"), Ok(Parity::Odd));
    assert_eq!(Parity::from_str("Odd"), Ok(Parity::Odd));
    assert_eq!(Parity::from_str("even"), Ok(Parity::Even));
    assert_eq!(Parity::from_str("Even"), Ok(Parity::Even));
    assert_eq!(Parity::from_str("none"), Ok(Parity::Off));
    assert_eq!(Parity::from_str("None"), Ok(Parity::Off));
    assert_eq!(Parity::from_str("N"), Err(invalid("unknown parity: N")));
}

#[test]
fn stop_bits_tokens() {
    assert_eq!(StopBits::from_str("one"), Ok(StopBits::One));
    assert_eq!(StopBits::from_str("One"), Ok(StopBits::One));
    assert_eq!(StopBits::from_str("two"), Ok(StopBits::Two));
    assert_eq!(StopBits::from_str("Two"), Ok(StopBits::Two));
    assert_eq!(StopBits::from_str("1"), Err(invalid("unknown stop bits: 1")));
}

#[test]
fn settings_print_in_lower_case() {
    assert_eq!(DataBits::Five.to_text(), "DataBits: five");
    assert_eq!(DataBits::Six.to_text(), "DataBits: six");
    assert_eq!(DataBits::Seven.to_text(), "DataBits: seven");
    assert_eq!(DataBits::Eight.to_text(), "DataBits: eight");
    assert_eq!(FlowControl::Hardware.to_text(), "hardware");
    assert_eq!(FlowControl::Software.to_text(), "software");
    assert_eq!(FlowControl::Off.to_text(), "none");
    assert_eq!(Parity::Odd.to_text(), "odd");
    assert_eq!(Parity::Even.to_text(), "even");
    assert_eq!(Parity::Off.to_text(), "none");
    assert_eq!(StopBits::One.to_text(), "one");
    assert_eq!(StopBits::Two.to_text(), "two");
}

#[test]
fn settings_know_their_bit_counts() {
    assert_eq!(DataBits::Five.bits(), 5);
    assert_eq!(DataBits::Six.bits(), 6);
    assert_eq!(DataBits::Seven.bits(), 7);
    assert_eq!(DataBits::Eight.bits(), 8);
    assert_eq!(StopBits::One.bits(), 1);
    assert_eq!(StopBits::Two.bits(), 2);
}

#[test]
fn printed_settings_parse_back() {
    for f in [FlowControl::Hardware, FlowControl::Software, FlowControl::Off] {
        assert_eq!(FlowControl::from_str(&f.to_text()), Ok(f));
    }
    for p in [Parity::Odd, Parity::Even, Parity::Off] {
        assert_eq!(Parity::from_str(&p.to_text()), Ok(p));
    }
    for s in [StopBits::One, StopBits::Two] {
        assert_eq!(StopBits::from_str(&s.to_text()), Ok(s));
    }
}

#[test]
fn strict_parsers_take_capitalised_tokens_only() {
    assert_eq!(parse_data_bits("Five"), Ok(DataBits::Five));
    assert_eq!(parse_data_bits("Six"), Ok(DataBits::Six));
    assert_eq!(parse_data_bits("Seven"), Ok(DataBits::Seven));
    assert_eq!(parse_data_bits("Eight"), Ok(DataBits::Eight));
    assert_eq!(
        parse_data_bits("eight"),
        Err(CmdError {
            code: CmdErrorCode::InvalidParam,
            msg: "the data_bits param must be one of: Five, Six, Seven, Eight".to_string(),
        })
    );
    assert_eq!(parse_flow_control("None"), Ok(FlowControl::Off));
    assert_eq!(parse_flow_control("Software"), Ok(FlowControl::Software));
    assert_eq!(parse_flow_control("Hardware"), Ok(FlowControl::Hardware));
    assert_eq!(
        parse_flow_control("none"),
        Err(CmdError {
            code: CmdErrorCode::InvalidParam,
            msg: "the flow_control param must be one of: None, Software, Hardware".to_string(),
        })
    );
    assert_eq!(parse_parity("None"), Ok(Parity::Off));
    assert_eq!(parse_parity("Odd"), Ok(Parity::Odd));
    assert_eq!(parse_parity("Even"), Ok(Parity::Even));
    assert_eq!(
        parse_parity("odd"),
        Err(CmdError {
            code: CmdErrorCode::InvalidParam,
            msg: "the parity param must be one of: None, Odd, Even".to_string(),
        })
    );
    assert_eq!(parse_stop_bits("One"), Ok(StopBits::One));
    assert_eq!(parse_stop_bits("Two"), Ok(StopBits::Two));
    assert_eq!(
        parse_stop_bits("Three"),
        Err(CmdError {
            code: CmdErrorCode::InvalidParam,
            msg: "the stop_bits param must be one of: One, Two".to_string(),
        })
    );
}

#[test]
fn every_error_has_its_message() {
    assert_eq!(SerialError::PortNotFound("COM7".to_string()).message(), "Port 'COM7' not found");
    assert_eq!(
        SerialError::OpenFailed { port: "COM7".to_string(), message: "Access is denied".to_string() }
            .message(),
        "Failed to open port 'COM7': Access is denied"
    );
    assert_eq!(SerialError::PortNotOpen("COM7".to_string()).message(), "Port 'COM7' is not open");
    assert_eq!(
        SerialError::WriteFailed { port: "COM7".to_string(), message: "timed out".to_string() }
            .message(),
        "Failed to write to port 'COM7': timed out"
    );
    assert_eq!(
        SerialError::ReadFailed { port: "COM7".to_string(), message: "broken pipe".to_string() }
            .message(),
        "Failed to read from port 'COM7': broken pipe"
    );
    assert_eq!(
        SerialError::InvalidConfig("unknown parity: X".to_string()).message(),
        "Invalid configuration: unknown parity: X"
    );
    assert_eq!(
        SerialError::PortAlreadyOpen("COM7".to_string()).message(),
        "Port 'COM7' is already open"
    );
    assert_eq!(
        SerialError::Timeout("COM7".to_string()).message(),
        "Operation timed out for port 'COM7'"
    );
}

#[test]
fn a_command_that_cannot_reach_its_session_sees_a_port_that_is_not_open() {
    assert_eq!(SerialError::channel_gone("COM7"), SerialError::PortNotOpen("COM7".to_string()));
}

#[test]
fn internal_failures_map_to_command_codes() {
    let table = [
        (ErrorType::Rust(RustErrorType::NoError), CmdErrorCode::NoError),
        (ErrorType::Rust(RustErrorType::ErrorAcquireRwLock), CmdErrorCode::RustRwLock),
        (ErrorType::Rust(RustErrorType::ChannelDisconnected), CmdErrorCode::RustChannelDisconnect),
        (ErrorType::Rust(RustErrorType::HashMapError), CmdErrorCode::RustHashMapError),
        (ErrorType::Serial(SerialErrorKind::NoDevice), CmdErrorCode::SerialNoDevice),
        (ErrorType::Serial(SerialErrorKind::InvalidInput), CmdErrorCode::SerialInvalidInput),
        (ErrorType::Serial(SerialErrorKind::Unknown), CmdErrorCode::SerialUnknown),
        (ErrorType::Serial(SerialErrorKind::Io), CmdErrorCode::SerialIoError),
    ];
    for (code, expected) in table {
        let e = CmdError::from(InnerError { code, msg: "no such port opened".to_string() });
        assert_eq!(e.code, expected);
        assert_eq!(e.msg, "no such port opened");
    }
    assert_eq!(ErrorType::default(), ErrorType::Rust(RustErrorType::NoError));
    let e = InnerError { code: ErrorType::default(), msg: "m".to_string() };
    assert_eq!(e.clone(), e);
}

#[test]
fn program_errors_have_their_messages() {
    assert_eq!(
        AppError::Serial(SerialError::PortNotOpen("COM7".to_string())).message(),
        "Port 'COM7' is not open"
    );
    assert_eq!(
        AppError::from(SerialError::Timeout("COM7".to_string())),
        AppError::Serial(SerialError::Timeout("COM7".to_string()))
    );
    assert_eq!(
        AppError::StateError("lock poisoned".to_string()).message(),
        "Failed to access application state: lock poisoned"
    );
    assert_eq!(AppError::Io("broken pipe".to_string()).message(), "IO error: broken pipe");
    assert_eq!(
        AppError::Serialization("expected value".to_string()).message(),
        "Serialization error: expected value"
    );
    assert_eq!(AppError::Other("anything".to_string()).message(), "anything");
    assert_eq!(AppError::Other(String::new()).message(), "");
}
