use vstd::prelude::*;
use crate::command::{Command, CommandView, WriteCmd, WriteCmdView};
use crate::error::{SerialError, SerialErrorView};
use crate::port::ModemStatus;

verus! {

/// The four stages of a session's life.
#[derive(Clone, Copy, Debug, PartialEq, Eq, Structural)]
pub enum SessionState {
    /// Spawned; the port is not ready and nothing is serviced yet.
    Starting,
    /// The loop serves reads, commands and status polls, one at a time.
    Running,
    /// The loop has stopped; the port is about to be released.
    Draining,
    /// The port is released and the exit has been reported.
    Closed,
}

/// Why a session stopped.
#[derive(Debug, PartialEq, Eq)]
pub enum ExitCause {
    /// A caller sent a close command.
    UserRequested,
    /// The stream ended or every sender went away.
    ConnectionLost,
    /// A read failed, with the failure's text.
    Error(String),
}

/// Mathematical value of an [`ExitCause`].
pub enum ExitCauseView {
    UserRequested,
    ConnectionLost,
    Error(Seq<char>),
}

impl View for ExitCause {
    type V = ExitCauseView;

    open spec fn view(&self) -> ExitCauseView {
        match self {
            ExitCause::UserRequested => ExitCauseView::UserRequested,
            ExitCause::ConnectionLost => ExitCauseView::ConnectionLost,
            ExitCause::Error(m) => ExitCauseView::Error(m@),
        }
    }
}

impl Clone for ExitCause {
    fn clone(&self) -> (c: ExitCause)
        ensures
            c@ == self@,
    {
        match self {
            ExitCause::UserRequested => ExitCause::UserRequested,
            ExitCause::ConnectionLost => ExitCause::ConnectionLost,
            ExitCause::Error(m) => ExitCause::Error(m.clone()),
        }
    }
}

/// The exit cause of a session, if it has one, as a mathematical value.
pub open spec fn opt_cause(o: Option<ExitCause>) -> Option<ExitCauseView> {
    match o {
        Some(c) => Some(c@),
        None => None,
    }
}

/// What leaves a session towards subscribers and the audit log.
#[derive(Debug, PartialEq, Eq)]
pub enum Event {
    /// Bytes that arrived, with the time of arrival.
    Data { bytes: Vec<u8>, timestamp_ms: u128 },
    /// The modem lines changed to this snapshot.
    StatusChanged(ModemStatus),
    /// The transport failed.
    Error { message: String },
}

/// Mathematical value of an [`Event`].
pub enum EventView {
    Data { bytes: Seq<u8>, timestamp_ms: u128 },
    StatusChanged(ModemStatus),
    Error { message: Seq<char> },
}

impl View for Event {
    type V = EventView;

    open spec fn view(&self) -> EventView {
        match self {
            Event::Data { bytes, timestamp_ms } => EventView::Data {
                bytes: bytes@,
                timestamp_ms: *timestamp_ms,
            },
            Event::StatusChanged(s) => EventView::StatusChanged(*s),
            Event::Error { message } => EventView::Error { message: message@ },
        }
    }
}

/// The one thing that became ready in an iteration of the loop.
#[derive(Debug, PartialEq, Eq)]
pub enum SessionInput {
    /// The port is configured and ready.
    Started,
    /// A read completed with these bytes; none means the stream ended.
    ReadReady { data: Vec<u8>, timestamp_ms: u128 },
    /// A read failed.
    ReadFailed { message: String },
    /// The next queued command.
    Command(Command),
    /// The command queue has no sender left.
    ChannelClosed,
    /// The poll timer fired; these are the modem lines read just now.
    Tick(ModemStatus),
}

/// Mathematical value of a [`SessionInput`].
pub enum SessionInputView {
    Started,
    ReadReady { data: Seq<u8>, timestamp_ms: u128 },
    ReadFailed { message: Seq<char> },
    Command(CommandView),
    ChannelClosed,
    Tick(ModemStatus),
}

impl View for SessionInput {
    type V = SessionInputView;

    open spec fn view(&self) -> SessionInputView {
        match self {
            SessionInput::Started => SessionInputView::Started,
            SessionInput::ReadReady { data, timestamp_ms } => SessionInputView::ReadReady {
                data: data@,
                timestamp_ms: *timestamp_ms,
            },
            SessionInput::ReadFailed { message } => SessionInputView::ReadFailed {
                message: message@,
            },
            SessionInput::Command(c) => SessionInputView::Command(c@),
            SessionInput::ChannelClosed => SessionInputView::ChannelClosed,
            SessionInput::Tick(s) => SessionInputView::Tick(*s),
        }
    }
}

/// One thing the owner of the port must do, in the order given.
#[derive(Debug, PartialEq, Eq)]
pub enum SessionAction {
    /// Hand this event to the event sink.
    Emit(Event),
    /// Add this many bytes to the port's count of bytes read.
    CountRead(usize),
    /// Write all of these bytes before anything else, and log them as sent.
    /// Whether the write succeeds or fails, the actions that follow are
    /// carried out.
    Write { message_id: String, data: Vec<u8> },
    /// Add this many bytes to the port's count of bytes written.
    CountWritten(usize),
    /// Fire the completion signal of the command being serviced. What the
    /// signal carries is decided by [`ack_outcome`]: behind a write, the
    /// outcome of that write, so a failed write is reported to its sender
    /// and to nobody else.
    Ack,
    /// Set the RTS line; a failure is logged and nothing more.
    SetRts(bool),
    /// Set the DTR line; a failure is logged and nothing more.
    SetDtr(bool),
    /// Release the hardware handle.
    ReleaseHandle,
    /// Drop the receiving end of the command queue.
    CloseChannel,
    /// Tell the lifecycle coordinator that the session is over, and why.
    NotifyExit(ExitCause),
}

/// Mathematical value of a [`SessionAction`].
pub enum SessionActionView {
    Emit(EventView),
    CountRead(nat),
    Write { message_id: Seq<char>, data: Seq<u8> },
    CountWritten(nat),
    Ack,
    SetRts(bool),
    SetDtr(bool),
    ReleaseHandle,
    CloseChannel,
    NotifyExit(ExitCauseView),
}

impl View for SessionAction {
    type V = SessionActionView;

    open spec fn view(&self) -> SessionActionView {
        match self {
            SessionAction::Emit(e) => SessionActionView::Emit(e@),
            SessionAction::CountRead(n) => SessionActionView::CountRead(*n as nat),
            SessionAction::Write { message_id, data } => SessionActionView::Write {
                message_id: message_id@,
                data: data@,
            },
            SessionAction::CountWritten(n) => SessionActionView::CountWritten(*n as nat),
            SessionAction::Ack => SessionActionView::Ack,
            SessionAction::SetRts(b) => SessionActionView::SetRts(*b),
            SessionAction::SetDtr(b) => SessionActionView::SetDtr(*b),
            SessionAction::ReleaseHandle => SessionActionView::ReleaseHandle,
            SessionAction::CloseChannel => SessionActionView::CloseChannel,
            SessionAction::NotifyExit(c) => SessionActionView::NotifyExit(c@),
        }
    }
}

/// The mathematical values of a list of actions, in order.
pub open spec fn action_views(actions: Seq<SessionAction>) -> Seq<SessionActionView> {
    Seq::new(actions.len(), |i: int| actions[i]@)
}

/// Mathematical value of a [`Session`].
pub struct SessionView {
    pub state: SessionState,
    pub last_status: ModemStatus,
    pub exit: Option<ExitCauseView>,
}

/// The completion signal of a command, if its sender waits for one.
pub open spec fn ack_of(wants_ack: bool) -> Seq<SessionActionView> {
    if wants_ack {
        seq![SessionActionView::Ack]
    } else {
        Seq::empty()
    }
}

/// The session after it stopped for `cause`.
pub open spec fn stopped(s: SessionView, cause: ExitCauseView) -> SessionView {
    SessionView { state: SessionState::Draining, exit: Some(cause), ..s }
}

/// What a running session does with one command.
pub open spec fn serve_command(s: SessionView, c: CommandView) -> (
    SessionView,
    Seq<SessionActionView>,
) {
    match c.cmd {
        WriteCmdView::Message { message_id, data } => (
            s,
            seq![SessionActionView::Write { message_id, data }] + ack_of(c.wants_ack)
                + seq![SessionActionView::CountWritten(data.len())],
        ),
        WriteCmdView::Rts(level) => (s, seq![SessionActionView::SetRts(level)] + ack_of(
            c.wants_ack,
        )),
        WriteCmdView::Dtr(level) => (s, seq![SessionActionView::SetDtr(level)] + ack_of(
            c.wants_ack,
        )),
        WriteCmdView::Close => (stopped(s, ExitCauseView::UserRequested), ack_of(c.wants_ack)),
    }
}

/// The transition function of a session: the state after one input, and the
/// actions that the input calls for, in order.
///
/// Before the port is ready only `Started` has an effect. A running session
/// serves exactly the input given. Once it has stopped, nothing is served.
pub open spec fn step_spec(s: SessionView, input: SessionInputView) -> (
    SessionView,
    Seq<SessionActionView>,
) {
    match s.state {
        SessionState::Starting => match input {
            SessionInputView::Started => (
                SessionView { state: SessionState::Running, ..s },
                Seq::empty(),
            ),
            _ => (s, Seq::empty()),
        },
        SessionState::Running => match input {
            SessionInputView::Started => (s, Seq::empty()),
            SessionInputView::ReadReady { data, timestamp_ms } => if data.len() == 0 {
                (stopped(s, ExitCauseView::ConnectionLost), Seq::empty())
            } else {
                (
                    s,
                    seq![
                        SessionActionView::Emit(EventView::Data { bytes: data, timestamp_ms }),
                        SessionActionView::CountRead(data.len()),
                    ],
                )
            },
            SessionInputView::ReadFailed { message } => (
                stopped(s, ExitCauseView::Error(message)),
                seq![SessionActionView::Emit(EventView::Error { message })],
            ),
            SessionInputView::Command(c) => serve_command(s, c),
            SessionInputView::ChannelClosed => (
                stopped(s, ExitCauseView::ConnectionLost),
                Seq::empty(),
            ),
            SessionInputView::Tick(status) => if status != s.last_status {
                (
                    SessionView { last_status: status, ..s },
                    seq![SessionActionView::Emit(EventView::StatusChanged(status))],
                )
            } else {
                (s, Seq::empty())
            },
        },
        SessionState::Draining => (s, Seq::empty()),
        SessionState::Closed => (s, Seq::empty()),
    }
}

/// The teardown of a stopped session: it releases the handle, drops the
/// queue's receiver and reports the exit. In any other state nothing happens.
pub open spec fn finish_spec(s: SessionView) -> (SessionView, Seq<SessionActionView>) {
    if s.state == SessionState::Draining && s.exit is Some {
        (
            SessionView { state: SessionState::Closed, ..s },
            seq![
                SessionActionView::ReleaseHandle,
                SessionActionView::CloseChannel,
                SessionActionView::NotifyExit(s.exit->Some_0),
            ],
        )
    } else {
        (s, Seq::empty())
    }
}

/// The decisions of one port's session: its stage, the last modem snapshot it
/// published, and why it stopped.
#[derive(Debug, PartialEq, Eq)]
pub struct Session {
    state: SessionState,
    last_status: ModemStatus,
    exit: Option<ExitCause>,
}

impl View for Session {
    type V = SessionView;

    closed spec fn view(&self) -> SessionView {
        SessionView {
            state: self.state,
            last_status: self.last_status,
            exit: opt_cause(self.exit),
        }
    }
}

impl Session {
    /// A session is well formed when it has an exit cause exactly in the
    /// stages after the loop has stopped.
    pub open spec fn wf(&self) -> bool {
        self@.exit is Some <==> (self@.state == SessionState::Draining || self@.state
            == SessionState::Closed)
    }

    /// A freshly spawned session: starting, all modem lines low.
    pub fn new() -> (s: Session)
        ensures
            s.wf(),
            s@ == (SessionView {
                state: SessionState::Starting,
                last_status: ModemStatus { cts: false, dsr: false, cd: false, ring: false },
                exit: None,
            }),
    {
        Session { state: SessionState::Starting, last_status: ModemStatus::idle(), exit: None }
    }

    /// The stage the session is in.
    pub fn state(&self) -> (st: SessionState)
        ensures
            st == self@.state,
    {
        self.state
    }

    /// The modem snapshot published last.
    pub fn last_status(&self) -> (st: ModemStatus)
        ensures
            st == self@.last_status,
    {
        self.last_status
    }

    /// Why the session stopped, once it has.
    pub fn exit_cause(&self) -> (c: Option<ExitCause>)
        ensures
            opt_cause(c) == self@.exit,
    {
        match &self.exit {
            Some(c) => Some(c.clone()),
            None => None,
        }
    }

    /// Serves one input and returns what the owner of the port must do.
    pub fn step(&mut self, input: SessionInput) -> (actions: Vec<SessionAction>)
        ensures
            old(self).wf() ==> final(self).wf(),
            final(self)@ == step_spec(old(self)@, input@).0,
            action_views(actions@) == step_spec(old(self)@, input@).1,
    {
        let mut actions: Vec<SessionAction> = Vec::new();
        match self.state {
            SessionState::Starting => {
                match input {
                    SessionInput::Started => {
                        self.state = SessionState::Running;
                    },
                    _ => {},
                }
            },
            SessionState::Running => {
                match input {
                    SessionInput::Started => {},
                    SessionInput::ReadReady { data, timestamp_ms } => {
                        let n = data.len();
                        if n == 0 {
                            self.state = SessionState::Draining;
                            self.exit = Some(ExitCause::ConnectionLost);
                        } else {
                            actions.push(SessionAction::Emit(Event::Data { bytes: data, timestamp_ms }));
                            actions.push(SessionAction::CountRead(n));
                        }
                    },
                    SessionInput::ReadFailed { message } => {
                        actions.push(
                            SessionAction::Emit(Event::Error { message: message.clone() }),
                        );
                        self.state = SessionState::Draining;
                        self.exit = Some(ExitCause::Error(message));
                    },
                    SessionInput::Command(c) => {
                        let wants_ack = c.wants_ack;
                        match c.cmd {
                            WriteCmd::Message(m) => {
                                let n = m.data.len();
                                actions.push(
                                    SessionAction::Write { message_id: m.message_id, data: m.data },
                                );
                                if wants_ack {
                                    actions.push(SessionAction::Ack);
                                }
                                actions.push(SessionAction::CountWritten(n));
                            },
                            WriteCmd::Rts(r) => {
                                actions.push(SessionAction::SetRts(r.rts));
                                if wants_ack {
                                    actions.push(SessionAction::Ack);
                                }
                            },
                            WriteCmd::Dtr(d) => {
                                actions.push(SessionAction::SetDtr(d.dtr));
                                if wants_ack {
                                    actions.push(SessionAction::Ack);
                                }
                            },
                            WriteCmd::Close => {
                                if wants_ack {
                                    actions.push(SessionAction::Ack);
                                }
                                self.state = SessionState::Draining;
                                self.exit = Some(ExitCause::UserRequested);
                            },
                        }
                    },
                    SessionInput::ChannelClosed => {
                        self.state = SessionState::Draining;
                        self.exit = Some(ExitCause::ConnectionLost);
                    },
                    SessionInput::Tick(status) => {
                        if status.differs_from(&self.last_status) {
                            self.last_status = status;
                            actions.push(SessionAction::Emit(Event::StatusChanged(status)));
                        }
                    },
                }
            },
            SessionState::Draining => {},
            SessionState::Closed => {},
        }
        assert(action_views(actions@) =~= step_spec(old(self)@, input@).1);
        actions
    }

    /// Tears a stopped session down: the first call after the loop stopped
    /// returns the release of the handle, the closing of the queue and the
    /// exit report; every other call returns nothing and changes nothing.
    pub fn finish(&mut self) -> (actions: Vec<SessionAction>)
        ensures
            old(self).wf() ==> final(self).wf(),
            final(self)@ == finish_spec(old(self)@).0,
            action_views(actions@) == finish_spec(old(self)@).1,
    {
        let mut actions: Vec<SessionAction> = Vec::new();
        if self.state == SessionState::Draining {
            match &self.exit {
                Some(cause) => {
                    actions.push(SessionAction::ReleaseHandle);
                    actions.push(SessionAction::CloseChannel);
                    actions.push(SessionAction::NotifyExit(cause.clone()));
                    self.state = SessionState::Closed;
                },
                None => {},
            }
        }
        assert(action_views(actions@) =~= finish_spec(old(self)@).1);
        actions
    }
}

/// What a completion signal tells the sender of a command: success, or how
/// the write that the command asked for failed. A command that asked for no
/// write, or whose write went through, is told success.
pub open spec fn ack_outcome_spec(port_name: Seq<char>, failed_write: Option<Seq<char>>) -> Result<
    (),
    SerialErrorView,
> {
    match failed_write {
        None => Ok(()),
        Some(message) => Err(SerialErrorView::WriteFailed { port: port_name, message }),
    }
}

/// Decides what the completion signal fired by [`SessionAction::Ack`]
/// carries. `failed_write` is the failure's text if the write that the
/// command asked for was attempted and failed, and nothing otherwise. A
/// failed write is reported here and nowhere else; it does not stop the
/// session.
pub fn ack_outcome(port_name: &str, failed_write: Option<String>) -> (outcome: Result<
    (),
    SerialError,
>)
    ensures
        match outcome {
            Ok(_) => ack_outcome_spec(port_name@, crate::port::opt_text(failed_write)) == Ok::<
                (),
                SerialErrorView,
            >(()),
            Err(e) => ack_outcome_spec(port_name@, crate::port::opt_text(failed_write)) == Err::<
                (),
                SerialErrorView,
            >(e@),
        },
{
    match failed_write {
        None => Ok(()),
        Some(message) => Err(
            SerialError::WriteFailed { port: port_name.to_owned(), message },
        ),
    }
}

/// The mathematical values of a list of queued commands, in order.
pub open spec fn command_views(cmds: Seq<Command>) -> Seq<CommandView> {
    Seq::new(cmds.len(), |i: int| cmds[i]@)
}

/// What a session does with a queue of commands, taken front to back: the
/// session afterwards, every action in order, and how many commands it
/// served. A command is served only while the session is running.
pub open spec fn run_spec(s: SessionView, cmds: Seq<CommandView>) -> (
    SessionView,
    Seq<SessionActionView>,
    nat,
)
    decreases cmds.len(),
{
    if cmds.len() == 0 || s.state != SessionState::Running {
        (s, Seq::empty(), 0)
    } else {
        let (s1, first) = step_spec(s, SessionInputView::Command(cmds[0]));
        let (s2, rest, n) = run_spec(s1, cmds.skip(1));
        (s2, first + rest, n + 1)
    }
}

/// The byte strings that a list of actions puts on the wire, in order.
pub open spec fn wire_writes(actions: Seq<SessionActionView>) -> Seq<Seq<u8>>
    decreases actions.len(),
{
    if actions.len() == 0 {
        Seq::empty()
    } else {
        match actions[0] {
            SessionActionView::Write { message_id, data } => seq![data] + wire_writes(
                actions.skip(1),
            ),
            _ => wire_writes(actions.skip(1)),
        }
    }
}

/// The number of completion signals in a list of actions.
pub open spec fn ack_count(actions: Seq<SessionActionView>) -> nat
    decreases actions.len(),
{
    if actions.len() == 0 {
        0
    } else if actions[0] is Ack {
        1 + ack_count(actions.skip(1))
    } else {
        ack_count(actions.skip(1))
    }
}

/// What came of a queue of commands.
#[derive(Debug, PartialEq, Eq)]
pub struct QueueRun {
    /// Every action the commands called for, in order.
    pub actions: Vec<SessionAction>,
    /// How many commands, from the front, the session served.
    pub serviced: usize,
}

impl Session {
    /// Serves the commands of a queue front to back until the queue is empty
    /// or the session stops. Commands behind the point where it stopped are
    /// never served.
    pub fn run_commands(&mut self, cmds: &Vec<Command>) -> (run: QueueRun)
        ensures
            old(self).wf() ==> final(self).wf(),
            final(self)@ == run_spec(old(self)@, command_views(cmds@)).0,
            action_views(run.actions@) == run_spec(old(self)@, command_views(cmds@)).1,
            run.serviced == run_spec(old(self)@, command_views(cmds@)).2,
            run.serviced <= cmds@.len(),
    {
        let ghost all = command_views(cmds@);
        let mut actions: Vec<SessionAction> = Vec::new();
        let mut i: usize = 0;
        proof {
            assert(all.skip(0) =~= all);
        }
        while i < cmds.len() && self.state == SessionState::Running
            invariant
                old(self).wf() ==> self.wf(),
                i <= cmds@.len(),
                all == command_views(cmds@),
                run_spec(old(self)@, all).0 == run_spec(self@, all.skip(i as int)).0,
                run_spec(old(self)@, all).1 == action_views(actions@) + run_spec(
                    self@,
                    all.skip(i as int),
                ).1,
                run_spec(old(self)@, all).2 == i + run_spec(self@, all.skip(i as int)).2,
            decreases cmds@.len() - i,
        {
            let ghost before = self@;
            let ghost done = action_views(actions@);
            let mut more = self.step(SessionInput::Command(cmds[i].clone()));
            proof {
                let rest = all.skip(i as int);
                assert(rest[0] == cmds@[i as int]@);
                assert(rest.skip(1) =~= all.skip(i + 1));
                assert(action_views(more@) == step_spec(
                    before,
                    SessionInputView::Command(rest[0]),
                ).1);
            }
            let ghost added = action_views(more@);
            let ghost old_actions = actions@;
            let ghost more_seq = more@;
            actions.append(&mut more);
            proof {
                assert(actions@ == old_actions + more_seq);
                assert(action_views(actions@) =~= done + added);
                assert((done + added) + run_spec(self@, all.skip(i + 1)).1 =~= done + (added
                    + run_spec(self@, all.skip(i + 1)).1));
            }
            i += 1;
        }
        proof {
            assert(action_views(actions@) + Seq::<SessionActionView>::empty() =~= action_views(
                actions@,
            ));
        }
        QueueRun { actions, serviced: i }
    }
}

} // verus!
