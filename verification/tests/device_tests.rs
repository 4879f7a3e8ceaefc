use serial_session::at::{at_response, process_at_command};
use serial_session::device::{ProtocolMode, SerialConfig, WifiConfig};
use serial_session::text::has_prefix;

#[test]
fn known_at_commands_have_their_answers() {
    assert_eq!(at_response("AT"), "OK");
    assert_eq!(
        at_response("AT+GMR"),
        "AT version:2.4.0.0\r\nSDK version:v5.2.2\r\ncompile time:Jan 2026\r\n\r\nOK"
    );
    assert_eq!(at_response("AT+RST"), "OK\r\n\r\nready");
    assert_eq!(at_response("AT+CWMODE?"), "+CWMODE:1\r\n\r\nOK");
    assert_eq!(
        at_response("AT+CWLAP"),
        "+CWLAP:(3,\"TestNetwork\",-45,\"aa:bb:cc:dd:ee:ff\",1)\r\n+CWLAP:(4,\"OtherWiFi\",-60,\"11:22:33:44:55:66\",6)\r\n\r\nOK"
    );
}

#[test]
fn other_extended_commands_are_accepted_and_the_rest_refused() {
    assert_eq!(at_response("AT+CIPSTART"), "OK");
    assert_eq!(at_response("AT+"), "OK");
    assert_eq!(at_response("AT+GMR?"), "OK");
    assert_eq!(at_response("ATZ"), "ERROR");
    assert_eq!(at_response("A"), "ERROR");
    assert_eq!(at_response(""), "ERROR");
    assert_eq!(at_response("HELLO"), "ERROR");
    assert_eq!(at_response("at"), "ERROR");
    assert_eq!(at_response(" AT"), "ERROR");
}

#[test]
fn lines_are_trimmed_and_put_in_upper_case_first() {
    assert_eq!(process_at_command("at"), "OK");
    assert_eq!(process_at_command("  AT\r\n"), "OK");
    assert_eq!(process_at_command("\tat+rst "), "OK\r\n\r\nready");
    assert_eq!(process_at_command("At+CwMode?"), "+CWMODE:1\r\n\r\nOK");
    assert_eq!(process_at_command("at+anything"), "OK");
    assert_eq!(process_at_command("a t"), "ERROR");
    assert_eq!(process_at_command(""), "ERROR");
    assert_eq!(process_at_command("   "), "ERROR");
}

#[test]
fn prefixes() {
    assert!(has_prefix("AT+GMR", "AT+"));
    assert!(has_prefix("AT+", "AT+"));
    assert!(has_prefix("anything", ""));
    assert!(has_prefix("", ""));
    assert!(!has_prefix("AT", "AT+"));
    assert!(!has_prefix("", "A"));
    assert!(!has_prefix("BT+X", "AT+"));
    assert!(!has_prefix("AT-X", "AT+"));
    assert!(has_prefix("éa", "é"));
    assert!(!has_prefix("ea", "é"));
}

#[test]
fn mode_names_in_upper_case() {
    assert_eq!(ProtocolMode::from_upper("SETUP"), Some(ProtocolMode::Setup));
    assert_eq!(ProtocolMode::from_upper("ECHO"), Some(ProtocolMode::Echo));
    assert_eq!(ProtocolMode::from_upper("AT"), Some(ProtocolMode::AtCommand));
    assert_eq!(ProtocolMode::from_upper("AT_COMMAND"), Some(ProtocolMode::AtCommand));
    assert_eq!(ProtocolMode::from_upper("MODBUS"), Some(ProtocolMode::ModbusRtu));
    assert_eq!(ProtocolMode::from_upper("MODBUS_RTU"), Some(ProtocolMode::ModbusRtu));
    assert_eq!(ProtocolMode::from_upper("GPS"), Some(ProtocolMode::NmeaGps));
    assert_eq!(ProtocolMode::from_upper("NMEA"), Some(ProtocolMode::NmeaGps));
    assert_eq!(ProtocolMode::from_upper("NMEA_GPS"), Some(ProtocolMode::NmeaGps));
    assert_eq!(ProtocolMode::from_upper("SCPI"), Some(ProtocolMode::Scpi));
    assert_eq!(ProtocolMode::from_upper("MARLIN"), Some(ProtocolMode::Marlin));
    assert_eq!(ProtocolMode::from_upper("3DPRINTER"), Some(ProtocolMode::Marlin));
    assert_eq!(ProtocolMode::from_upper("ELM327"), Some(ProtocolMode::Elm327));
    assert_eq!(ProtocolMode::from_upper("OBD"), Some(ProtocolMode::Elm327));
    assert_eq!(ProtocolMode::from_upper("OBD2"), Some(ProtocolMode::Elm327));
    assert_eq!(ProtocolMode::from_upper("ESCPOS"), Some(ProtocolMode::EscPos));
    assert_eq!(ProtocolMode::from_upper("PRINTER"), Some(ProtocolMode::EscPos));
    assert_eq!(ProtocolMode::from_upper("echo"), None);
    assert_eq!(ProtocolMode::from_upper(""), None);
    assert_eq!(ProtocolMode::from_upper("ESC_POS"), None);
}

#[test]
fn mode_names_in_any_case() {
    assert_eq!(ProtocolMode::from_str("echo"), Some(ProtocolMode::Echo));
    assert_eq!(ProtocolMode::from_str("Modbus_Rtu"), Some(ProtocolMode::ModbusRtu));
    assert_eq!(ProtocolMode::from_str("3dPrinter"), Some(ProtocolMode::Marlin));
    assert_eq!(ProtocolMode::from_str("escpos"), Some(ProtocolMode::EscPos));
    assert_eq!(ProtocolMode::from_str("SETUP"), Some(ProtocolMode::Setup));
    assert_eq!(ProtocolMode::from_str(" echo"), None);
    assert_eq!(ProtocolMode::from_str("telnet"), None);
}

#[test]
fn modes_that_carry_binary_frames() {
    assert!(ProtocolMode::ModbusRtu.is_binary());
    assert!(ProtocolMode::EscPos.is_binary());
    for m in [
        ProtocolMode::Setup,
        ProtocolMode::Echo,
        ProtocolMode::AtCommand,
        ProtocolMode::NmeaGps,
        ProtocolMode::Scpi,
        ProtocolMode::Marlin,
        ProtocolMode::Elm327,
    ] {
        assert!(!m.is_binary());
    }
}

#[test]
fn defaults() {
    assert_eq!(ProtocolMode::default(), ProtocolMode::Setup);
    assert_eq!(
        SerialConfig::default(),
        SerialConfig { baud_rate: 115200, data_bits: 8, parity: "None".to_string(), stop_bits: 1 }
    );
    assert_eq!(WifiConfig::default(), WifiConfig { ssid: String::new(), password: String::new() });
}

#[test]
fn every_kind_of_white_space_is_trimmed_and_nothing_else() {
    // Tab, line feed, vertical tab, form feed, carriage return, space, next line,
    // no-break space, ogham space, en quad .. hair space, line and paragraph
    // separator, narrow no-break space, medium mathematical space, ideographic space.
    let spaces = [
        '\u{0009}', '\u{000A}', '\u{000B}', '\u{000C}', '\u{000D}', '\u{0020}', '\u{0085}',
        '\u{00A0}', '\u{1680}', '\u{2000}', '\u{2001}', '\u{2002}', '\u{2003}', '\u{2004}',
        '\u{2005}', '\u{2006}', '\u{2007}', '\u{2008}', '\u{2009}', '\u{200A}', '\u{2028}',
        '\u{2029}', '\u{202F}', '\u{205F}', '\u{3000}',
    ];
    assert_eq!(spaces.len(), 25);
    for c in spaces {
        assert_eq!(process_at_command(&format!("{}AT{}", c, c)), "OK");
        assert_eq!(process_at_command(&format!("{}{}AT+RST", c, c)), "OK\r\n\r\nready");
        // White space inside a command stays.
        assert_eq!(process_at_command(&format!("A{}T", c)), "ERROR");
    }
    // Their neighbours, and characters that only look like space, are not trimmed.
    for c in [
        '\u{0008}', '\u{000E}', '\u{001F}', '\u{0084}', '\u{0086}', '\u{009F}', '\u{00A1}',
        '\u{167F}', '\u{1681}', '\u{180E}', '\u{1FFF}', '\u{200B}', '\u{200C}', '\u{2027}',
        '\u{202A}', '\u{202E}', '\u{2030}', '\u{205E}', '\u{2060}', '\u{2FFF}', '\u{3001}',
        '\u{FEFF}',
    ] {
        assert_eq!(process_at_command(&format!("{}AT", c)), "ERROR");
        assert_eq!(process_at_command(&format!("AT{}", c)), "ERROR");
    }
}
