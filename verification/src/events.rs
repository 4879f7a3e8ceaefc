use vstd::prelude::*;
use vstd::string::StringExecFns;
use crate::clock::timestamp_now_ms;
use crate::session::{ExitCause, ExitCauseView};

verus! {

/// Name under which the opening of a port is announced.
pub const PORT_OPENED: &'static str = "port_opened";

/// Name under which the closing of a port is announced.
pub const PORT_CLOSED: &'static str = "port_closed";

/// Name under which received data is announced.
pub const PORT_READ: &'static str = "port_read";

/// Name under which a failure of a port is announced.
pub const PORT_ERROR: &'static str = "port_error";

/// Announces bytes that arrived on a port.
#[derive(Debug, PartialEq, Eq)]
pub struct PortReadEvent {
    /// Name of the port that received data
    pub port_name: String,
    /// Timestamp when data was received (milliseconds since Unix epoch)
    pub timestamp_ms: u128,
    /// The raw data bytes received
    pub data: Vec<u8>,
}

/// Mathematical value of a [`PortReadEvent`].
pub struct PortReadEventView {
    pub port_name: Seq<char>,
    pub timestamp_ms: u128,
    pub data: Seq<u8>,
}

impl View for PortReadEvent {
    type V = PortReadEventView;

    open spec fn view(&self) -> PortReadEventView {
        PortReadEventView {
            port_name: self.port_name@,
            timestamp_ms: self.timestamp_ms,
            data: self.data@,
        }
    }
}

impl PortReadEvent {
    /// An event stamped with the current time.
    pub fn new(port_name: String, data: Vec<u8>) -> (e: PortReadEvent)
        ensures
            e@.port_name == port_name@,
            e@.data == data@,
    {
        PortReadEvent::with_timestamp(port_name, data, timestamp_now_ms())
    }

    /// An event stamped with the given time.
    pub fn with_timestamp(port_name: String, data: Vec<u8>, timestamp_ms: u128) -> (e:
        PortReadEvent)
        ensures
            e@ == (PortReadEventView { port_name: port_name@, timestamp_ms, data: data@ }),
    {
        PortReadEvent { port_name, timestamp_ms, data }
    }
}

/// Announces that a port was opened.
#[derive(Debug, PartialEq, Eq)]
pub struct PortOpenedEvent {
    /// Name of the port that was opened
    pub port_name: String,
    /// Timestamp when port was opened (milliseconds since Unix epoch)
    pub timestamp_ms: u128,
}

impl PortOpenedEvent {
    /// An event stamped with the current time.
    pub fn new(port_name: String) -> (e: PortOpenedEvent)
        ensures
            e.port_name@ == port_name@,
    {
        PortOpenedEvent::with_timestamp(port_name, timestamp_now_ms())
    }

    /// An event stamped with the given time.
    pub fn with_timestamp(port_name: String, timestamp_ms: u128) -> (e: PortOpenedEvent)
        ensures
            e.port_name@ == port_name@,
            e.timestamp_ms == timestamp_ms,
    {
        PortOpenedEvent { port_name, timestamp_ms }
    }
}

/// Reason why a port was closed.
#[derive(Clone, Copy, Debug, PartialEq, Eq, Structural)]
pub enum PortCloseReason {
    /// User explicitly requested close
    UserRequested,
    /// Connection was lost unexpectedly
    ConnectionLost,
    /// An error occurred
    Error,
    /// Operation timed out
    Timeout,
}

impl PortCloseReason {
    /// The words that stand for this reason.
    pub open spec fn words(self) -> Seq<char> {
        match self {
            PortCloseReason::UserRequested => "User Requested"@,
            PortCloseReason::ConnectionLost => "Connection Lost"@,
            PortCloseReason::Error => "Error"@,
            PortCloseReason::Timeout => "Timeout"@,
        }
    }

    /// The display text of this reason.
    pub fn to_text(&self) -> (s: String)
        ensures
            s@ == self.words(),
    {
        match self {
            PortCloseReason::UserRequested => String::from_str("User Requested"),
            PortCloseReason::ConnectionLost => String::from_str("Connection Lost"),
            PortCloseReason::Error => String::from_str("Error"),
            PortCloseReason::Timeout => String::from_str("Timeout"),
        }
    }
}

/// Announces that a port was closed, and why.
#[derive(Debug, PartialEq, Eq)]
pub struct PortClosedEvent {
    /// Name of the port that was closed
    pub port_name: String,
    /// Reason for closure, as text
    pub reason: String,
    /// Timestamp when port was closed (milliseconds since Unix epoch)
    pub timestamp_ms: u128,
}

/// Mathematical value of a [`PortClosedEvent`].
pub struct PortClosedEventView {
    pub port_name: Seq<char>,
    pub reason: Seq<char>,
    pub timestamp_ms: u128,
}

impl View for PortClosedEvent {
    type V = PortClosedEventView;

    open spec fn view(&self) -> PortClosedEventView {
        PortClosedEventView {
            port_name: self.port_name@,
            reason: self.reason@,
            timestamp_ms: self.timestamp_ms,
        }
    }
}

/// The reason text of a close caused by an error with the given message.
pub open spec fn error_reason(message: Seq<char>) -> Seq<char> {
    PortCloseReason::Error.words() + ": "@ + message
}

/// The reason text that tells callers why a session ended. A close that the
/// user asked for reads differently from every unsolicited one.
pub open spec fn exit_reason(cause: ExitCauseView) -> Seq<char> {
    match cause {
        ExitCauseView::UserRequested => PortCloseReason::UserRequested.words(),
        ExitCauseView::ConnectionLost => PortCloseReason::ConnectionLost.words(),
        ExitCauseView::Error(message) => error_reason(message),
    }
}

fn error_reason_text(message: &str) -> (s: String)
    ensures
        s@ == error_reason(message@),
{
    let mut s = PortCloseReason::Error.to_text();
    s.append(": ");
    s.append(message);
    s
}

impl PortClosedEvent {
    /// A close that the user asked for, stamped with the current time.
    pub fn user_requested(port_name: String) -> (e: PortClosedEvent)
        ensures
            e@.port_name == port_name@,
            e@.reason == PortCloseReason::UserRequested.words(),
    {
        PortClosedEvent {
            port_name,
            reason: PortCloseReason::UserRequested.to_text(),
            timestamp_ms: timestamp_now_ms(),
        }
    }

    /// A close caused by an error, stamped with the current time.
    pub fn error(port_name: String, message: &str) -> (e: PortClosedEvent)
        ensures
            e@.port_name == port_name@,
            e@.reason == error_reason(message@),
    {
        PortClosedEvent {
            port_name,
            reason: error_reason_text(message),
            timestamp_ms: timestamp_now_ms(),
        }
    }

    /// A close caused by a lost connection, stamped with the current time.
    pub fn connection_lost(port_name: String) -> (e: PortClosedEvent)
        ensures
            e@.port_name == port_name@,
            e@.reason == PortCloseReason::ConnectionLost.words(),
    {
        PortClosedEvent {
            port_name,
            reason: PortCloseReason::ConnectionLost.to_text(),
            timestamp_ms: timestamp_now_ms(),
        }
    }

    /// The announcement for a session that ended for `cause` at the given
    /// time.
    pub fn for_exit(port_name: String, cause: &ExitCause, timestamp_ms: u128) -> (e:
        PortClosedEvent)
        ensures
            e@ == (PortClosedEventView {
                port_name: port_name@,
                reason: exit_reason(cause@),
                timestamp_ms,
            }),
    {
        let reason = match cause {
            ExitCause::UserRequested => PortCloseReason::UserRequested.to_text(),
            ExitCause::ConnectionLost => PortCloseReason::ConnectionLost.to_text(),
            ExitCause::Error(message) => error_reason_text(message.as_str()),
        };
        PortClosedEvent { port_name, reason, timestamp_ms }
    }
}

/// The reason of a close that the user asked for differs from the reason of
/// every close that nobody asked for, so a caller can tell the two apart.
pub proof fn lemma_user_close_is_distinguishable(cause: ExitCauseView)
    requires
        !(cause is UserRequested),
    ensures
        exit_reason(cause) != exit_reason(ExitCauseView::UserRequested),
{
    reveal_strlit("User Requested");
    reveal_strlit("Connection Lost");
    reveal_strlit("Error");
    reveal_strlit(": ");
    let user = exit_reason(ExitCauseView::UserRequested);
    assert(user[0] == 'U');
    match cause {
        ExitCauseView::UserRequested => {},
        ExitCauseView::ConnectionLost => {
            assert(exit_reason(cause)[0] == 'C');
        },
        ExitCauseView::Error(message) => {
            assert(exit_reason(cause)[0] == 'E');
        },
    }
}

/// Bytes that arrived, with the time of arrival.
#[derive(Debug, PartialEq, Eq)]
pub struct ReadPortMessage {
    pub timestamp_ms: u128,
    pub data: Vec<u8>,
}

/// What a session's reader hands on: received data or a failure's text.
#[derive(Debug, PartialEq, Eq)]
pub enum SerialEvent {
    Message(PortReadEvent),
    Error(String),
}

/// Mathematical value of a [`SerialEvent`].
pub enum SerialEventView {
    Message(PortReadEventView),
    Error(Seq<char>),
}

impl View for SerialEvent {
    type V = SerialEventView;

    open spec fn view(&self) -> SerialEventView {
        match self {
            SerialEvent::Message(e) => SerialEventView::Message(e@),
            SerialEvent::Error(m) => SerialEventView::Error(m@),
        }
    }
}

impl ReadPortMessage {
    /// The announcement of this message for a port.
    pub fn for_port(self, port_name: String) -> (e: PortReadEvent)
        ensures
            e@ == (PortReadEventView {
                port_name: port_name@,
                timestamp_ms: self.timestamp_ms,
                data: self.data@,
            }),
    {
        PortReadEvent { port_name, timestamp_ms: self.timestamp_ms, data: self.data }
    }
}

} // verus!
