use vstd::prelude::*;
use vstd::string::StringExecFns;
use crate::port::{PortType, PortTypeView};

verus! {

/// The upper-case hexadecimal digit for a value below sixteen.
pub open spec fn hex_digit(d: int) -> char
    recommends
        0 <= d < 16,
{
    "0123456789ABCDEF"@[d]
}

/// A 16-bit value as four upper-case hexadecimal digits, zero padded.
pub open spec fn hex4(v: u16) -> Seq<char> {
    seq![
        hex_digit(v as int / 4096),
        hex_digit((v as int / 256) % 16),
        hex_digit((v as int / 16) % 16),
        hex_digit(v as int % 16),
    ]
}

/// The stable identity of a device: for a USB adapter its vendor id, product
/// id and serial number (or the word `unknown`), for any other port its name.
pub open spec fn fingerprint_of(port_name: Seq<char>, port_type: PortTypeView) -> Seq<char> {
    match port_type {
        PortTypeView::UsbPort(usb) => "usb:"@ + hex4(usb.vid) + ":"@ + hex4(usb.pid) + ":"@ + (
        match usb.serial_number {
            Some(serial) => serial,
            None => "unknown"@,
        }),
        _ => "port:"@ + port_name,
    }
}

fn hex_digit_text(d: u16) -> (t: &'static str)
    requires
        d < 16,
    ensures
        t@ == seq![hex_digit(d as int)],
{
    proof {
        reveal_strlit("0123456789ABCDEF");
        reveal_strlit("0");
        reveal_strlit("1");
        reveal_strlit("2");
        reveal_strlit("3");
        reveal_strlit("4");
        reveal_strlit("5");
        reveal_strlit("6");
        reveal_strlit("7");
        reveal_strlit("8");
        reveal_strlit("9");
        reveal_strlit("A");
        reveal_strlit("B");
        reveal_strlit("C");
        reveal_strlit("D");
        reveal_strlit("E");
        reveal_strlit("F");
    }
    let t = if d == 0 {
        "0"
    } else if d == 1 {
        "1"
    } else if d == 2 {
        "2"
    } else if d == 3 {
        "3"
    } else if d == 4 {
        "4"
    } else if d == 5 {
        "5"
    } else if d == 6 {
        "6"
    } else if d == 7 {
        "7"
    } else if d == 8 {
        "8"
    } else if d == 9 {
        "9"
    } else if d == 10 {
        "A"
    } else if d == 11 {
        "B"
    } else if d == 12 {
        "C"
    } else if d == 13 {
        "D"
    } else if d == 14 {
        "E"
    } else {
        "F"
    };
    assert(t@ =~= seq![hex_digit(d as int)]);
    t
}

/// Appends a 16-bit value as four upper-case hexadecimal digits.
fn push_hex4(s: &mut String, v: u16)
    ensures
        final(s)@ == old(s)@ + hex4(v),
{
    s.append(hex_digit_text(v / 4096));
    s.append(hex_digit_text((v / 256) % 16));
    s.append(hex_digit_text((v / 16) % 16));
    s.append(hex_digit_text(v % 16));
    assert(s@ =~= old(s)@ + hex4(v));
}

/// Derives the device fingerprint under which a port's traffic is logged,
/// so that the log survives a renumbering of port names.
pub fn generate_device_fingerprint(port_name: &str, port_type: &PortType) -> (f: String)
    ensures
        f@ == fingerprint_of(port_name@, port_type@),
{
    match port_type {
        PortType::UsbPort(usb) => {
            let mut f = String::from_str("usb:");
            push_hex4(&mut f, usb.vid);
            f.append(":");
            push_hex4(&mut f, usb.pid);
            f.append(":");
            match &usb.serial_number {
                Some(serial) => f.append(serial.as_str()),
                None => f.append("unknown"),
            }
            f
        },
        _ => {
            let mut f = String::from_str("port:");
            f.append(port_name);
            f
        },
    }
}

} // verus!
