use vstd::prelude::*;

verus! {

/// Copies a byte vector.
pub fn clone_bytes(v: &Vec<u8>) -> (c: Vec<u8>)
    ensures
        c@ == v@,
{
    let mut c: Vec<u8> = Vec::new();
    let mut i: usize = 0;
    while i < v.len()
        invariant
            i <= v@.len(),
            c@ == v@.take(i as int),
        decreases v@.len() - i,
    {
        c.push(v[i]);
        assert(v@.take(i as int).push(v@[i as int]) =~= v@.take(i + 1));
        i += 1;
    }
    assert(v@.take(v@.len() as int) =~= v@);
    c
}

/// Bytes to put on the wire, with the caller's correlation id.
#[derive(Debug, PartialEq, Eq)]
pub struct WritePortMessage {
    pub message_id: String,
    pub data: Vec<u8>,
}

/// A new level for the RTS line.
#[derive(Clone, Copy, Debug, PartialEq, Eq, Structural)]
pub struct WritePortRequestToSend {
    pub rts: bool,
}

/// A new level for the DTR line.
#[derive(Clone, Copy, Debug, PartialEq, Eq, Structural)]
pub struct WritePortDataTerminalReady {
    pub dtr: bool,
}

/// What a caller can ask of a session.
#[derive(Debug, PartialEq, Eq)]
pub enum WriteCmd {
    Message(WritePortMessage),
    Rts(WritePortRequestToSend),
    Dtr(WritePortDataTerminalReady),
    Close,
}

/// Mathematical value of a [`WriteCmd`].
pub enum WriteCmdView {
    Message { message_id: Seq<char>, data: Seq<u8> },
    Rts(bool),
    Dtr(bool),
    Close,
}

impl View for WriteCmd {
    type V = WriteCmdView;

    open spec fn view(&self) -> WriteCmdView {
        match self {
            WriteCmd::Message(m) => WriteCmdView::Message {
                message_id: m.message_id@,
                data: m.data@,
            },
            WriteCmd::Rts(r) => WriteCmdView::Rts(r.rts),
            WriteCmd::Dtr(d) => WriteCmdView::Dtr(d.dtr),
            WriteCmd::Close => WriteCmdView::Close,
        }
    }
}

impl Clone for WriteCmd {
    fn clone(&self) -> (c: WriteCmd)
        ensures
            c@ == self@,
    {
        match self {
            WriteCmd::Message(m) => WriteCmd::Message(
                WritePortMessage { message_id: m.message_id.clone(), data: clone_bytes(&m.data) },
            ),
            WriteCmd::Rts(r) => WriteCmd::Rts(*r),
            WriteCmd::Dtr(d) => WriteCmd::Dtr(*d),
            WriteCmd::Close => WriteCmd::Close,
        }
    }
}

/// One entry of a session's command queue: the command, and whether its
/// sender waits for a completion signal.
#[derive(Debug, PartialEq, Eq)]
pub struct Command {
    pub cmd: WriteCmd,
    pub wants_ack: bool,
}

/// Mathematical value of a [`Command`].
pub struct CommandView {
    pub cmd: WriteCmdView,
    pub wants_ack: bool,
}

impl View for Command {
    type V = CommandView;

    open spec fn view(&self) -> CommandView {
        CommandView { cmd: self.cmd@, wants_ack: self.wants_ack }
    }
}

impl Clone for Command {
    fn clone(&self) -> (c: Command)
        ensures
            c@ == self@,
    {
        Command { cmd: self.cmd.clone(), wants_ack: self.wants_ack }
    }
}

impl Command {
    /// A write of `data` whose sender waits for the completion signal.
    pub fn write(message_id: String, data: Vec<u8>) -> (c: Command)
        ensures
            c@ == (CommandView {
                cmd: WriteCmdView::Message { message_id: message_id@, data: data@ },
                wants_ack: true,
            }),
    {
        Command { cmd: WriteCmd::Message(WritePortMessage { message_id, data }), wants_ack: true }
    }

    /// A change of the RTS line whose sender waits for the completion signal.
    pub fn set_rts(rts: bool) -> (c: Command)
        ensures
            c@ == (CommandView { cmd: WriteCmdView::Rts(rts), wants_ack: true }),
    {
        Command { cmd: WriteCmd::Rts(WritePortRequestToSend { rts }), wants_ack: true }
    }

    /// A change of the DTR line whose sender waits for the completion signal.
    pub fn set_dtr(dtr: bool) -> (c: Command)
        ensures
            c@ == (CommandView { cmd: WriteCmdView::Dtr(dtr), wants_ack: true }),
    {
        Command { cmd: WriteCmd::Dtr(WritePortDataTerminalReady { dtr }), wants_ack: true }
    }

    /// A close request whose sender waits for the completion signal.
    pub fn close() -> (c: Command)
        ensures
            c@ == (CommandView { cmd: WriteCmdView::Close, wants_ack: true }),
    {
        Command { cmd: WriteCmd::Close, wants_ack: true }
    }
}

} // verus!
