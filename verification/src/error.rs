use vstd::prelude::*;
use vstd::string::StringExecFns;

verus! {

/// What can go wrong at the command boundary of the serial layer.
#[derive(Debug, PartialEq, Eq)]
pub enum SerialError {
    /// No port of this name has been discovered.
    PortNotFound(String),
    /// The operating system refused to open or configure the port.
    OpenFailed { port: String, message: String },
    /// The port has no live session.
    PortNotOpen(String),
    /// A write to the port failed.
    WriteFailed { port: String, message: String },
    /// A read from the port failed.
    ReadFailed { port: String, message: String },
    /// A line parameter was not understood.
    InvalidConfig(String),
    /// The port already has a live session.
    PortAlreadyOpen(String),
    /// An operation on the port took too long.
    Timeout(String),
}

/// Mathematical value of a [`SerialError`].
pub enum SerialErrorView {
    PortNotFound(Seq<char>),
    OpenFailed { port: Seq<char>, message: Seq<char> },
    PortNotOpen(Seq<char>),
    WriteFailed { port: Seq<char>, message: Seq<char> },
    ReadFailed { port: Seq<char>, message: Seq<char> },
    InvalidConfig(Seq<char>),
    PortAlreadyOpen(Seq<char>),
    Timeout(Seq<char>),
}

impl View for SerialError {
    type V = SerialErrorView;

    open spec fn view(&self) -> SerialErrorView {
        match self {
            SerialError::PortNotFound(p) => SerialErrorView::PortNotFound(p@),
            SerialError::OpenFailed { port, message } => SerialErrorView::OpenFailed {
                port: port@,
                message: message@,
            },
            SerialError::PortNotOpen(p) => SerialErrorView::PortNotOpen(p@),
            SerialError::WriteFailed { port, message } => SerialErrorView::WriteFailed {
                port: port@,
                message: message@,
            },
            SerialError::ReadFailed { port, message } => SerialErrorView::ReadFailed {
                port: port@,
                message: message@,
            },
            SerialError::InvalidConfig(m) => SerialErrorView::InvalidConfig(m@),
            SerialError::PortAlreadyOpen(p) => SerialErrorView::PortAlreadyOpen(p@),
            SerialError::Timeout(p) => SerialErrorView::Timeout(p@),
        }
    }
}

/// The text shown to a caller for each error.
pub open spec fn error_text(e: SerialErrorView) -> Seq<char> {
    match e {
        SerialErrorView::PortNotFound(p) => "Port '"@ + p + "' not found"@,
        SerialErrorView::OpenFailed { port, message } => "Failed to open port '"@ + port + "': "@
            + message,
        SerialErrorView::PortNotOpen(p) => "Port '"@ + p + "' is not open"@,
        SerialErrorView::WriteFailed { port, message } => "Failed to write to port '"@ + port
            + "': "@ + message,
        SerialErrorView::ReadFailed { port, message } => "Failed to read from port '"@ + port
            + "': "@ + message,
        SerialErrorView::InvalidConfig(m) => "Invalid configuration: "@ + m,
        SerialErrorView::PortAlreadyOpen(p) => "Port '"@ + p + "' is already open"@,
        SerialErrorView::Timeout(p) => "Operation timed out for port '"@ + p + "'"@,
    }
}

/// Joins three pieces of text.
pub fn join3(a: &str, b: &str, c: &str) -> (s: String)
    ensures
        s@ == a@ + b@ + c@,
{
    let mut s = String::from_str(a);
    s.append(b);
    s.append(c);
    s
}

impl SerialError {
    /// The error for a command that could not reach its session: the queue
    /// refused it, or the completion signal never came. A caller sees this
    /// exactly as it sees a port that is not open.
    pub fn channel_gone(port_name: &str) -> (e: SerialError)
        ensures
            e@ == SerialErrorView::PortNotOpen(port_name@),
    {
        SerialError::PortNotOpen(String::from_str(port_name))
    }

    /// The descriptive message of this error.
    pub fn message(&self) -> (s: String)
        ensures
            s@ == error_text(self@),
    {
        match self {
            SerialError::PortNotFound(p) => join3("Port '", p.as_str(), "' not found"),
            SerialError::OpenFailed { port, message } => {
                let mut s = join3("Failed to open port '", port.as_str(), "': ");
                s.append(message.as_str());
                s
            },
            SerialError::PortNotOpen(p) => join3("Port '", p.as_str(), "' is not open"),
            SerialError::WriteFailed { port, message } => {
                let mut s = join3("Failed to write to port '", port.as_str(), "': ");
                s.append(message.as_str());
                s
            },
            SerialError::ReadFailed { port, message } => {
                let mut s = join3("Failed to read from port '", port.as_str(), "': ");
                s.append(message.as_str());
                s
            },
            SerialError::InvalidConfig(m) => {
                let mut s = String::from_str("Invalid configuration: ");
                s.append(m.as_str());
                s
            },
            SerialError::PortAlreadyOpen(p) => join3("Port '", p.as_str(), "' is already open"),
            SerialError::Timeout(p) => join3("Operation timed out for port '", p.as_str(), "'"),
        }
    }
}

/// What a command hands back when it fails: a failure of the serial layer
/// or one of the program around it.
#[derive(Debug, PartialEq, Eq)]
pub enum AppError {
    /// Serial port error
    Serial(SerialError),
    /// State access error
    StateError(String),
    /// IO error, with its text
    Io(String),
    /// Serialization error, with its text
    Serialization(String),
    /// Generic error with context
    Other(String),
}

/// Mathematical value of an [`AppError`].
pub enum AppErrorView {
    Serial(SerialErrorView),
    StateError(Seq<char>),
    Io(Seq<char>),
    Serialization(Seq<char>),
    Other(Seq<char>),
}

impl View for AppError {
    type V = AppErrorView;

    open spec fn view(&self) -> AppErrorView {
        match self {
            AppError::Serial(e) => AppErrorView::Serial(e@),
            AppError::StateError(m) => AppErrorView::StateError(m@),
            AppError::Io(m) => AppErrorView::Io(m@),
            AppError::Serialization(m) => AppErrorView::Serialization(m@),
            AppError::Other(m) => AppErrorView::Other(m@),
        }
    }
}

/// The single message that a failed command carries across the boundary.
pub open spec fn app_error_text(e: AppErrorView) -> Seq<char> {
    match e {
        AppErrorView::Serial(inner) => error_text(inner),
        AppErrorView::StateError(m) => "Failed to access application state: "@ + m,
        AppErrorView::Io(m) => "IO error: "@ + m,
        AppErrorView::Serialization(m) => "Serialization error: "@ + m,
        AppErrorView::Other(m) => m,
    }
}

fn prefixed(prefix: &str, text: &str) -> (s: String)
    ensures
        s@ == prefix@ + text@,
{
    let mut s = String::from_str(prefix);
    s.append(text);
    s
}

impl AppError {
    /// The descriptive message of this error.
    pub fn message(&self) -> (s: String)
        ensures
            s@ == app_error_text(self@),
    {
        match self {
            AppError::Serial(inner) => inner.message(),
            AppError::StateError(m) => prefixed("Failed to access application state: ", m.as_str()),
            AppError::Io(m) => prefixed("IO error: ", m.as_str()),
            AppError::Serialization(m) => prefixed("Serialization error: ", m.as_str()),
            AppError::Other(m) => m.clone(),
        }
    }
}

impl From<SerialError> for AppError {
    fn from(value: SerialError) -> (e: AppError) {
        AppError::Serial(value)
    }
}

impl vstd::std_specs::convert::FromSpecImpl<SerialError> for AppError {
    open spec fn obeys_from_spec() -> bool {
        true
    }

    open spec fn from_spec(value: SerialError) -> AppError {
        AppError::Serial(value)
    }
}

/// Failures inside the manager that are not the port's own.
#[derive(Clone, Copy, Debug, PartialEq, Eq, Structural)]
pub enum RustErrorType {
    NoError,
    ErrorAcquireRwLock,
    ChannelDisconnected,
    HashMapError,
}

/// The kinds of failure a serial device reports.
#[derive(Clone, Copy, Debug, PartialEq, Eq, Structural)]
pub enum SerialErrorKind {
    NoDevice,
    InvalidInput,
    Unknown,
    Io,
}

/// Where a failure came from: the device or the manager.
#[derive(Clone, Copy, Debug, PartialEq, Eq, Structural)]
pub enum ErrorType {
    Serial(SerialErrorKind),
    Rust(RustErrorType),
}

/// A failure as the manager's internals report it.
#[derive(Debug, PartialEq, Eq)]
pub struct InnerError {
    pub code: ErrorType,
    pub msg: String,
}

impl Clone for InnerError {
    fn clone(&self) -> (c: InnerError)
        ensures
            c.code == self.code,
            c.msg@ == self.msg@,
    {
        InnerError { code: self.code, msg: self.msg.clone() }
    }
}

/// The closed set of codes that the command layer hands to callers.
#[derive(Clone, Copy, Debug, PartialEq, Eq, Structural)]
pub enum CmdErrorCode {
    NoError,
    RustRwLock,
    RustChannelDisconnect,
    RustAsyncTimeout,
    RustHashMapError,
    RustCreateFileFailed,
    SerialNoDevice,
    SerialInvalidInput,
    SerialUnknown,
    SerialIoError,
    InvalidParam,
}

/// A failure as the command layer reports it.
#[derive(Debug, PartialEq, Eq)]
pub struct CmdError {
    pub code: CmdErrorCode,
    pub msg: String,
}

impl Clone for CmdError {
    fn clone(&self) -> (c: CmdError)
        ensures
            c.code == self.code,
            c.msg@ == self.msg@,
    {
        CmdError { code: self.code, msg: self.msg.clone() }
    }
}

/// The table from internal failure kinds to command-layer codes.
pub open spec fn command_code(code: ErrorType) -> CmdErrorCode {
    match code {
        ErrorType::Rust(RustErrorType::ErrorAcquireRwLock) => CmdErrorCode::RustRwLock,
        ErrorType::Rust(RustErrorType::ChannelDisconnected) => CmdErrorCode::RustChannelDisconnect,
        ErrorType::Rust(RustErrorType::NoError) => CmdErrorCode::NoError,
        ErrorType::Rust(RustErrorType::HashMapError) => CmdErrorCode::RustHashMapError,
        ErrorType::Serial(SerialErrorKind::InvalidInput) => CmdErrorCode::SerialInvalidInput,
        ErrorType::Serial(SerialErrorKind::NoDevice) => CmdErrorCode::SerialNoDevice,
        ErrorType::Serial(SerialErrorKind::Unknown) => CmdErrorCode::SerialUnknown,
        ErrorType::Serial(SerialErrorKind::Io) => CmdErrorCode::SerialIoError,
    }
}

impl Default for ErrorType {
    fn default() -> (e: ErrorType)
        ensures
            e == ErrorType::Rust(RustErrorType::NoError),
    {
        ErrorType::Rust(RustErrorType::NoError)
    }
}

impl From<InnerError> for CmdError {
    fn from(value: InnerError) -> (e: CmdError) {
        let code = match value.code {
            ErrorType::Rust(rust_error) => match rust_error {
                RustErrorType::ErrorAcquireRwLock => CmdErrorCode::RustRwLock,
                RustErrorType::ChannelDisconnected => CmdErrorCode::RustChannelDisconnect,
                RustErrorType::NoError => CmdErrorCode::NoError,
                RustErrorType::HashMapError => CmdErrorCode::RustHashMapError,
            },
            ErrorType::Serial(serial_error) => match serial_error {
                SerialErrorKind::InvalidInput => CmdErrorCode::SerialInvalidInput,
                SerialErrorKind::NoDevice => CmdErrorCode::SerialNoDevice,
                SerialErrorKind::Unknown => CmdErrorCode::SerialUnknown,
                SerialErrorKind::Io => CmdErrorCode::SerialIoError,
            },
        };
        CmdError { code, msg: value.msg }
    }
}

impl vstd::std_specs::convert::FromSpecImpl<InnerError> for CmdError {
    open spec fn obeys_from_spec() -> bool {
        true
    }

    open spec fn from_spec(value: InnerError) -> CmdError {
        CmdError { code: command_code(value.code), msg: value.msg }
    }
}

} // verus!
