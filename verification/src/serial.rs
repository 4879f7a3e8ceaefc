use vstd::prelude::*;
use vstd::string::StringExecFns;
use crate::error::{CmdError, CmdErrorCode, SerialError, SerialErrorView};
use crate::text::str_eq;

verus! {

/// Number of data bits in a character frame.
#[derive(Clone, Copy, Debug, PartialEq, Eq, Structural)]
pub enum DataBits {
    Five,
    Six,
    Seven,
    Eight,
}

/// How the two ends pace each other.
#[derive(Clone, Copy, Debug, PartialEq, Eq, Structural)]
pub enum FlowControl {
    Hardware,
    Software,
    /// No flow control (the token `none`).
    Off,
}

/// The parity bit of a character frame.
#[derive(Clone, Copy, Debug, PartialEq, Eq, Structural)]
pub enum Parity {
    Odd,
    Even,
    /// No parity bit (the token `none`).
    Off,
}

/// Number of stop bits in a character frame.
#[derive(Clone, Copy, Debug, PartialEq, Eq, Structural)]
pub enum StopBits {
    One,
    Two,
}

/// The data-bits setting that a token names, if any.
pub open spec fn data_bits_of(s: Seq<char>) -> Option<DataBits> {
    if s == "five"@ || s == "Five"@ {
        Some(DataBits::Five)
    } else if s == "six"@ || s == "Six"@ {
        Some(DataBits::Six)
    } else if s == "seven"@ || s == "Seven"@ {
        Some(DataBits::Seven)
    } else if s == "eight"@ || s == "Eight"@ {
        Some(DataBits::Eight)
    } else {
        None
    }
}

/// The flow-control setting that a token names, if any.
pub open spec fn flow_control_of(s: Seq<char>) -> Option<FlowControl> {
    if s == "hardware"@ || s == "Hardware"@ {
        Some(FlowControl::Hardware)
    } else if s == "software"@ || s == "Software"@ {
        Some(FlowControl::Software)
    } else if s == "none"@ || s == "None"@ {
        Some(FlowControl::Off)
    } else {
        None
    }
}

/// The parity setting that a token names, if any.
pub open spec fn parity_of(s: Seq<char>) -> Option<Parity> {
    if s == "odd"@ || s == "Odd"@ {
        Some(Parity::Odd)
    } else if s == "even"@ || s == "Even"@ {
        Some(Parity::Even)
    } else if s == "none"@ || s == "None"@ {
        Some(Parity::Off)
    } else {
        None
    }
}

/// The stop-bits setting that a token names, if any.
pub open spec fn stop_bits_of(s: Seq<char>) -> Option<StopBits> {
    if s == "one"@ || s == "One"@ {
        Some(StopBits::One)
    } else if s == "two"@ || s == "Two"@ {
        Some(StopBits::Two)
    } else {
        None
    }
}

/// What parsing a token gives: the setting it names, or a configuration
/// error whose message is `complaint` followed by the token.
pub open spec fn parsed<T>(
    found: Option<T>,
    complaint: Seq<char>,
    token: Seq<char>,
    res: Result<T, SerialError>,
) -> bool {
    match found {
        Some(v) => res matches Ok(r) && r == v,
        None => res matches Err(e) && e@ == SerialErrorView::InvalidConfig(complaint + token),
    }
}

fn unknown_token(complaint: &str, token: &str) -> (e: SerialError)
    ensures
        e@ == SerialErrorView::InvalidConfig(complaint@ + token@),
{
    let mut m = String::from_str(complaint);
    m.append(token);
    SerialError::InvalidConfig(m)
}

impl DataBits {
    /// Reads a data-bits token, in lower case or capitalised.
    pub fn from_str(s: &str) -> (res: Result<DataBits, SerialError>)
        ensures
            parsed(data_bits_of(s@), "unknown data bits: "@, s@, res),
    {
        if str_eq(s, "five") || str_eq(s, "Five") {
            Ok(DataBits::Five)
        } else if str_eq(s, "six") || str_eq(s, "Six") {
            Ok(DataBits::Six)
        } else if str_eq(s, "seven") || str_eq(s, "Seven") {
            Ok(DataBits::Seven)
        } else if str_eq(s, "eight") || str_eq(s, "Eight") {
            Ok(DataBits::Eight)
        } else {
            Err(unknown_token("unknown data bits: ", s))
        }
    }

    /// The lower-case word for this setting.
    pub open spec fn word(self) -> Seq<char> {
        match self {
            DataBits::Five => "five"@,
            DataBits::Six => "six"@,
            DataBits::Seven => "seven"@,
            DataBits::Eight => "eight"@,
        }
    }

    /// The number of bits this setting stands for.
    pub fn bits(&self) -> (n: u8)
        ensures
            n == match *self {
                DataBits::Five => 5u8,
                DataBits::Six => 6u8,
                DataBits::Seven => 7u8,
                DataBits::Eight => 8u8,
            },
    {
        match self {
            DataBits::Five => 5,
            DataBits::Six => 6,
            DataBits::Seven => 7,
            DataBits::Eight => 8,
        }
    }

    /// The display text: the label `DataBits: ` and the lower-case word.
    pub fn to_text(&self) -> (s: String)
        ensures
            s@ == "DataBits: "@ + self.word(),
    {
        let mut s = String::from_str("DataBits: ");
        match self {
            DataBits::Five => s.append("five"),
            DataBits::Six => s.append("six"),
            DataBits::Seven => s.append("seven"),
            DataBits::Eight => s.append("eight"),
        }
        s
    }
}

impl FlowControl {
    /// Reads a flow-control token, in lower case or capitalised.
    pub fn from_str(s: &str) -> (res: Result<FlowControl, SerialError>)
        ensures
            parsed(flow_control_of(s@), "unknown flow control: "@, s@, res),
    {
        if str_eq(s, "hardware") || str_eq(s, "Hardware") {
            Ok(FlowControl::Hardware)
        } else if str_eq(s, "software") || str_eq(s, "Software") {
            Ok(FlowControl::Software)
        } else if str_eq(s, "none") || str_eq(s, "None") {
            Ok(FlowControl::Off)
        } else {
            Err(unknown_token("unknown flow control: ", s))
        }
    }

    /// The lower-case word for this setting.
    pub open spec fn word(self) -> Seq<char> {
        match self {
            FlowControl::Hardware => "hardware"@,
            FlowControl::Software => "software"@,
            FlowControl::Off => "none"@,
        }
    }

    /// The display text: the lower-case word.
    pub fn to_text(&self) -> (s: String)
        ensures
            s@ == self.word(),
    {
        match self {
            FlowControl::Hardware => String::from_str("hardware"),
            FlowControl::Software => String::from_str("software"),
            FlowControl::Off => String::from_str("none"),
        }
    }
}

impl Parity {
    /// Reads a parity token, in lower case or capitalised.
    pub fn from_str(s: &str) -> (res: Result<Parity, SerialError>)
        ensures
            parsed(parity_of(s@), "unknown parity: "@, s@, res),
    {
        if str_eq(s, "odd") || str_eq(s, "Odd") {
            Ok(Parity::Odd)
        } else if str_eq(s, "even") || str_eq(s, "Even") {
            Ok(Parity::Even)
        } else if str_eq(s, "none") || str_eq(s, "None") {
            Ok(Parity::Off)
        } else {
            Err(unknown_token("unknown parity: ", s))
        }
    }

    /// The lower-case word for this setting.
    pub open spec fn word(self) -> Seq<char> {
        match self {
            Parity::Odd => "odd"@,
            Parity::Even => "even"@,
            Parity::Off => "none"@,
        }
    }

    /// The display text: the lower-case word.
    pub fn to_text(&self) -> (s: String)
        ensures
            s@ == self.word(),
    {
        match self {
            Parity::Odd => String::from_str("odd"),
            Parity::Even => String::from_str("even"),
            Parity::Off => String::from_str("none"),
        }
    }
}

impl StopBits {
    /// Reads a stop-bits token, in lower case or capitalised.
    pub fn from_str(s: &str) -> (res: Result<StopBits, SerialError>)
        ensures
            parsed(stop_bits_of(s@), "unknown stop bits: "@, s@, res),
    {
        if str_eq(s, "one") || str_eq(s, "One") {
            Ok(StopBits::One)
        } else if str_eq(s, "two") || str_eq(s, "Two") {
            Ok(StopBits::Two)
        } else {
            Err(unknown_token("unknown stop bits: ", s))
        }
    }

    /// The lower-case word for this setting.
    pub open spec fn word(self) -> Seq<char> {
        match self {
            StopBits::One => "one"@,
            StopBits::Two => "two"@,
        }
    }

    /// The number of stop bits this setting stands for.
    pub fn bits(&self) -> (n: u8)
        ensures
            n == match *self {
                StopBits::One => 1u8,
                StopBits::Two => 2u8,
            },
    {
        match self {
            StopBits::One => 1,
            StopBits::Two => 2,
        }
    }

    /// The display text: the lower-case word.
    pub fn to_text(&self) -> (s: String)
        ensures
            s@ == self.word(),
    {
        match self {
            StopBits::One => String::from_str("one"),
            StopBits::Two => String::from_str("two"),
        }
    }
}

/// What the strict command-layer parsers give: the setting named by a
/// capitalised token, or an `InvalidParam` error with a fixed message.
pub open spec fn strictly_parsed<T>(
    found: Option<T>,
    complaint: Seq<char>,
    res: Result<T, CmdError>,
) -> bool {
    match found {
        Some(v) => res matches Ok(r) && r == v,
        None => res matches Err(e) && e.code == CmdErrorCode::InvalidParam && e.msg@ == complaint,
    }
}

fn invalid_param(complaint: &str) -> (e: CmdError)
    ensures
        e.code == CmdErrorCode::InvalidParam,
        e.msg@ == complaint@,
{
    CmdError { code: CmdErrorCode::InvalidParam, msg: String::from_str(complaint) }
}

/// The data-bits setting named by a capitalised token.
pub open spec fn strict_data_bits_of(s: Seq<char>) -> Option<DataBits> {
    if s == "Five"@ {
        Some(DataBits::Five)
    } else if s == "Six"@ {
        Some(DataBits::Six)
    } else if s == "Seven"@ {
        Some(DataBits::Seven)
    } else if s == "Eight"@ {
        Some(DataBits::Eight)
    } else {
        None
    }
}

/// The flow-control setting named by a capitalised token.
pub open spec fn strict_flow_control_of(s: Seq<char>) -> Option<FlowControl> {
    if s == "None"@ {
        Some(FlowControl::Off)
    } else if s == "Software"@ {
        Some(FlowControl::Software)
    } else if s == "Hardware"@ {
        Some(FlowControl::Hardware)
    } else {
        None
    }
}

/// The parity setting named by a capitalised token.
pub open spec fn strict_parity_of(s: Seq<char>) -> Option<Parity> {
    if s == "None"@ {
        Some(Parity::Off)
    } else if s == "Odd"@ {
        Some(Parity::Odd)
    } else if s == "Even"@ {
        Some(Parity::Even)
    } else {
        None
    }
}

/// The stop-bits setting named by a capitalised token.
pub open spec fn strict_stop_bits_of(s: Seq<char>) -> Option<StopBits> {
    if s == "One"@ {
        Some(StopBits::One)
    } else if s == "Two"@ {
        Some(StopBits::Two)
    } else {
        None
    }
}

/// Reads a capitalised data-bits token for the command layer.
pub fn parse_data_bits(value: &str) -> (res: Result<DataBits, CmdError>)
    ensures
        strictly_parsed(
            strict_data_bits_of(value@),
            "the data_bits param must be one of: Five, Six, Seven, Eight"@,
            res,
        ),
{
    if str_eq(value, "Five") {
        Ok(DataBits::Five)
    } else if str_eq(value, "Six") {
        Ok(DataBits::Six)
    } else if str_eq(value, "Seven") {
        Ok(DataBits::Seven)
    } else if str_eq(value, "Eight") {
        Ok(DataBits::Eight)
    } else {
        Err(invalid_param("the data_bits param must be one of: Five, Six, Seven, Eight"))
    }
}

/// Reads a capitalised flow-control token for the command layer.
pub fn parse_flow_control(value: &str) -> (res: Result<FlowControl, CmdError>)
    ensures
        strictly_parsed(
            strict_flow_control_of(value@),
            "the flow_control param must be one of: None, Software, Hardware"@,
            res,
        ),
{
    if str_eq(value, "None") {
        Ok(FlowControl::Off)
    } else if str_eq(value, "Software") {
        Ok(FlowControl::Software)
    } else if str_eq(value, "Hardware") {
        Ok(FlowControl::Hardware)
    } else {
        Err(invalid_param("the flow_control param must be one of: None, Software, Hardware"))
    }
}

/// Reads a capitalised parity token for the command layer.
pub fn parse_parity(value: &str) -> (res: Result<Parity, CmdError>)
    ensures
        strictly_parsed(
            strict_parity_of(value@),
            "the parity param must be one of: None, Odd, Even"@,
            res,
        ),
{
    if str_eq(value, "None") {
        Ok(Parity::Off)
    } else if str_eq(value, "Odd") {
        Ok(Parity::Odd)
    } else if str_eq(value, "Even") {
        Ok(Parity::Even)
    } else {
        Err(invalid_param("the parity param must be one of: None, Odd, Even"))
    }
}

/// Reads a capitalised stop-bits token for the command layer.
pub fn parse_stop_bits(value: &str) -> (res: Result<StopBits, CmdError>)
    ensures
        strictly_parsed(
            strict_stop_bits_of(value@),
            "the stop_bits param must be one of: One, Two"@,
            res,
        ),
{
    if str_eq(value, "One") {
        Ok(StopBits::One)
    } else if str_eq(value, "Two") {
        Ok(StopBits::Two)
    } else {
        Err(invalid_param("the stop_bits param must be one of: One, Two"))
    }
}

} // verus!
