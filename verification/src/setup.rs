use vstd::prelude::*;
use vstd::string::{StringExecFns, StringSliceAdditionalSpecFns};
use vstd::utf8::{decode_utf8, encode_utf8, is_char_boundary};
use crate::text::{has_prefix, str_eq, to_uppercase, trim, trimmed, uppercase_of};

verus! {

/// What one line of the device's setup shell asks for.
#[derive(Debug, PartialEq, Eq)]
pub enum SetupCommand {
    /// Show the help text.
    Help,
    /// Remember this network name.
    WifiSsid(String),
    /// Remember this network password.
    WifiPass(String),
    /// Connect with what was remembered.
    WifiConnect,
    /// Report the state of the network.
    WifiStatus,
    /// Scan for networks.
    WifiScan,
    /// Forget the stored credentials.
    WifiClear,
    /// Switch to the protocol mode that this word names.
    Mode(String),
    /// Set the simulated temperature to this number.
    SetTemp(String),
    /// Set the simulated humidity to this number.
    SetHumid(String),
    /// Set the simulated engine speed to this number.
    SetRpm(String),
    /// Set the simulated road speed to this number.
    SetSpeed(String),
    /// Report the state of the device.
    Status,
    /// Nothing that the shell knows.
    Unknown,
}

/// Mathematical value of a [`SetupCommand`].
pub enum SetupCommandView {
    Help,
    WifiSsid(Seq<char>),
    WifiPass(Seq<char>),
    WifiConnect,
    WifiStatus,
    WifiScan,
    WifiClear,
    Mode(Seq<char>),
    SetTemp(Seq<char>),
    SetHumid(Seq<char>),
    SetRpm(Seq<char>),
    SetSpeed(Seq<char>),
    Status,
    Unknown,
}

impl View for SetupCommand {
    type V = SetupCommandView;

    open spec fn view(&self) -> SetupCommandView {
        match self {
            SetupCommand::Help => SetupCommandView::Help,
            SetupCommand::WifiSsid(a) => SetupCommandView::WifiSsid(a@),
            SetupCommand::WifiPass(a) => SetupCommandView::WifiPass(a@),
            SetupCommand::WifiConnect => SetupCommandView::WifiConnect,
            SetupCommand::WifiStatus => SetupCommandView::WifiStatus,
            SetupCommand::WifiScan => SetupCommandView::WifiScan,
            SetupCommand::WifiClear => SetupCommandView::WifiClear,
            SetupCommand::Mode(a) => SetupCommandView::Mode(a@),
            SetupCommand::SetTemp(a) => SetupCommandView::SetTemp(a@),
            SetupCommand::SetHumid(a) => SetupCommandView::SetHumid(a@),
            SetupCommand::SetRpm(a) => SetupCommandView::SetRpm(a@),
            SetupCommand::SetSpeed(a) => SetupCommandView::SetSpeed(a@),
            SetupCommand::Status => SetupCommandView::Status,
            SetupCommand::Unknown => SetupCommandView::Unknown,
        }
    }
}

/// The mathematical value of an optional command.
pub open spec fn opt_command(o: Option<SetupCommand>) -> Option<SetupCommandView> {
    match o {
        Some(c) => Some(c@),
        None => None,
    }
}

/// The argument of a line whose keyword takes `at` bytes: what stands
/// behind those bytes, without white space at either end. There is none
/// where the line is shorter than that or the cut falls inside a character.
pub open spec fn argument_of(line: Seq<char>, at: nat) -> Option<Seq<char>> {
    let bytes = encode_utf8(line);
    if is_char_boundary(bytes, at as int) {
        Some(trimmed(decode_utf8(bytes.subrange(at as int, bytes.len() as int))))
    } else {
        None
    }
}

/// Whether a line goes to the setup shell whatever the protocol mode is,
/// judged by the line in upper case.
pub open spec fn is_setup_line_spec(upper: Seq<char>) -> bool {
    ||| "WIFI_"@.is_prefix_of(upper)
    ||| upper == "HELP"@
    ||| "MODE="@.is_prefix_of(upper)
    ||| "SET_"@.is_prefix_of(upper)
    ||| upper == "STATUS"@
}

/// What a line asks of the setup shell, given the line and the same line in
/// upper case. The keyword is looked for in the upper-case line; the
/// argument is cut out of the line as it came, behind as many bytes as the
/// keyword has. There is no answer where the argument cannot be cut out.
pub open spec fn setup_command_of(line: Seq<char>, upper: Seq<char>) -> Option<
    SetupCommandView,
> {
    if upper == "HELP"@ {
        Some(SetupCommandView::Help)
    } else if "WIFI_SSID="@.is_prefix_of(upper) {
        match argument_of(line, 10) {
            Some(a) => Some(SetupCommandView::WifiSsid(a)),
            None => None,
        }
    } else if "WIFI_PASS="@.is_prefix_of(upper) {
        match argument_of(line, 10) {
            Some(a) => Some(SetupCommandView::WifiPass(a)),
            None => None,
        }
    } else if upper == "WIFI_CONNECT"@ {
        Some(SetupCommandView::WifiConnect)
    } else if upper == "WIFI_STATUS"@ {
        Some(SetupCommandView::WifiStatus)
    } else if upper == "WIFI_SCAN"@ {
        Some(SetupCommandView::WifiScan)
    } else if upper == "WIFI_CLEAR"@ {
        Some(SetupCommandView::WifiClear)
    } else if "MODE="@.is_prefix_of(upper) {
        match argument_of(line, 5) {
            Some(a) => Some(SetupCommandView::Mode(a)),
            None => None,
        }
    } else if "SET_TEMP="@.is_prefix_of(upper) {
        match argument_of(line, 9) {
            Some(a) => Some(SetupCommandView::SetTemp(a)),
            None => None,
        }
    } else if "SET_HUMID="@.is_prefix_of(upper) {
        match argument_of(line, 10) {
            Some(a) => Some(SetupCommandView::SetHumid(a)),
            None => None,
        }
    } else if "SET_RPM="@.is_prefix_of(upper) {
        match argument_of(line, 8) {
            Some(a) => Some(SetupCommandView::SetRpm(a)),
            None => None,
        }
    } else if "SET_SPEED="@.is_prefix_of(upper) {
        match argument_of(line, 10) {
            Some(a) => Some(SetupCommandView::SetSpeed(a)),
            None => None,
        }
    } else if upper == "STATUS"@ {
        Some(SetupCommandView::Status)
    } else {
        Some(SetupCommandView::Unknown)
    }
}

/// Cuts the argument out of a line.
fn argument(line: &str, at: usize) -> (arg: Option<String>)
    ensures
        crate::port::opt_text(arg) == argument_of(line@, at as nat),
{
    if line.is_char_boundary(at) {
        let (_, tail) = line.split_at(at);
        proof {
            vstd::utf8::encode_utf8_decode_utf8(tail@);
            assert(tail.spec_bytes() == line.spec_bytes().subrange(
                at as int,
                line.spec_bytes().len() as int,
            ));
        }
        Some(String::from_str(trim(tail)))
    } else {
        None
    }
}

/// Decides whether a line goes to the setup shell whatever the protocol
/// mode is, given the line in upper case.
pub fn is_setup_line(upper: &str) -> (yes: bool)
    ensures
        yes == is_setup_line_spec(upper@),
{
    has_prefix(upper, "WIFI_") || str_eq(upper, "HELP") || has_prefix(upper, "MODE=")
        || has_prefix(upper, "SET_") || str_eq(upper, "STATUS")
}

/// Decides whether a line goes to the setup shell whatever the protocol
/// mode is.
pub fn routes_to_setup(line: &str) -> (yes: bool)
    ensures
        yes == is_setup_line_spec(uppercase_of(line@)),
{
    let upper = to_uppercase(line);
    is_setup_line(upper.as_str())
}

/// Decides what a line asks of the setup shell, given the line and the same
/// line in upper case. The answer is `None` only where the argument cannot
/// be cut out of the line.
pub fn classify_setup_command(line: &str, upper: &str) -> (command: Option<SetupCommand>)
    ensures
        opt_command(command) == setup_command_of(line@, upper@),
{
    if str_eq(upper, "HELP") {
        Some(SetupCommand::Help)
    } else if has_prefix(upper, "WIFI_SSID=") {
        match argument(line, 10) {
            Some(a) => Some(SetupCommand::WifiSsid(a)),
            None => None,
        }
    } else if has_prefix(upper, "WIFI_PASS=") {
        match argument(line, 10) {
            Some(a) => Some(SetupCommand::WifiPass(a)),
            None => None,
        }
    } else if str_eq(upper, "WIFI_CONNECT") {
        Some(SetupCommand::WifiConnect)
    } else if str_eq(upper, "WIFI_STATUS") {
        Some(SetupCommand::WifiStatus)
    } else if str_eq(upper, "WIFI_SCAN") {
        Some(SetupCommand::WifiScan)
    } else if str_eq(upper, "WIFI_CLEAR") {
        Some(SetupCommand::WifiClear)
    } else if has_prefix(upper, "MODE=") {
        match argument(line, 5) {
            Some(a) => Some(SetupCommand::Mode(a)),
            None => None,
        }
    } else if has_prefix(upper, "SET_TEMP=") {
        match argument(line, 9) {
            Some(a) => Some(SetupCommand::SetTemp(a)),
            None => None,
        }
    } else if has_prefix(upper, "SET_HUMID=") {
        match argument(line, 10) {
            Some(a) => Some(SetupCommand::SetHumid(a)),
            None => None,
        }
    } else if has_prefix(upper, "SET_RPM=") {
        match argument(line, 8) {
            Some(a) => Some(SetupCommand::SetRpm(a)),
            None => None,
        }
    } else if has_prefix(upper, "SET_SPEED=") {
        match argument(line, 10) {
            Some(a) => Some(SetupCommand::SetSpeed(a)),
            None => None,
        }
    } else if str_eq(upper, "STATUS") {
        Some(SetupCommand::Status)
    } else {
        Some(SetupCommand::Unknown)
    }
}

/// Decides what a line asks of the setup shell. The line is put in upper
/// case to find the keyword. The answer is `None` only where the argument
/// cannot be cut out of the line.
pub fn parse_setup_command(line: &str) -> (command: Option<SetupCommand>)
    ensures
        opt_command(command) == setup_command_of(line@, uppercase_of(line@)),
{
    let upper = to_uppercase(line);
    classify_setup_command(line, upper.as_str())
}

} // verus!
