use vstd::prelude::*;
use crate::audit::{AuditDraft, AuditDraftView, Direction};
use crate::events::{
    exit_reason, PortClosedEvent, PortClosedEventView, PortReadEvent, PortReadEventView,
};
use crate::registry::{
    handle_index, owns, settled, with_read, with_status, with_written, Registry, RegistryView,
    SessionHandle,
};
use crate::session::{Event, EventView, SessionAction, SessionActionView};

verus! {

/// The identities under which one session's traffic is announced and
/// logged.
#[derive(Debug, PartialEq, Eq)]
pub struct SessionContext {
    pub port_name: String,
    pub session_id: String,
    pub device_fingerprint: String,
}

/// Mathematical value of a [`SessionContext`].
pub struct SessionContextView {
    pub port_name: Seq<char>,
    pub session_id: Seq<char>,
    pub device_fingerprint: Seq<char>,
}

impl View for SessionContext {
    type V = SessionContextView;

    open spec fn view(&self) -> SessionContextView {
        SessionContextView {
            port_name: self.port_name@,
            session_id: self.session_id@,
            device_fingerprint: self.device_fingerprint@,
        }
    }
}

/// What subscribers are told.
#[derive(Debug, PartialEq, Eq)]
pub enum Notification {
    /// Bytes arrived on a port.
    PortRead(PortReadEvent),
    /// A port failed.
    PortError { port_name: String, message: String },
    /// A port was closed.
    PortClosed(PortClosedEvent),
}

/// Mathematical value of a [`Notification`].
pub enum NotificationView {
    PortRead(PortReadEventView),
    PortError { port_name: Seq<char>, message: Seq<char> },
    PortClosed(PortClosedEventView),
}

impl View for Notification {
    type V = NotificationView;

    open spec fn view(&self) -> NotificationView {
        match self {
            Notification::PortRead(e) => NotificationView::PortRead(e@),
            Notification::PortError { port_name, message } => NotificationView::PortError {
                port_name: port_name@,
                message: message@,
            },
            Notification::PortClosed(e) => NotificationView::PortClosed(e@),
        }
    }
}

/// Something that leaves the core: a notification for the subscribers, or a
/// draft for the audit log.
#[derive(Debug, PartialEq, Eq)]
pub enum Outbound {
    Notify(Notification),
    Store(AuditDraft),
}

/// Mathematical value of an [`Outbound`].
pub enum OutboundView {
    Notify(NotificationView),
    Store(AuditDraftView),
}

impl View for Outbound {
    type V = OutboundView;

    open spec fn view(&self) -> OutboundView {
        match self {
            Outbound::Notify(n) => OutboundView::Notify(n@),
            Outbound::Store(d) => OutboundView::Store(d@),
        }
    }
}

/// The mathematical values of a list of outbound items, in order.
pub open spec fn outbound_views(out: Seq<Outbound>) -> Seq<OutboundView> {
    Seq::new(out.len(), |i: int| out[i]@)
}

/// The draft that logs received bytes.
pub open spec fn rx_draft(ctx: SessionContextView, data: Seq<u8>) -> AuditDraftView {
    AuditDraftView {
        device_fingerprint: ctx.device_fingerprint,
        session_id: ctx.session_id,
        vid: None,
        pid: None,
        serial_number: None,
        port_name: ctx.port_name,
        direction: Direction::Rx,
        data,
    }
}

/// The draft that logs written bytes.
pub open spec fn tx_draft(ctx: SessionContextView, data: Seq<u8>) -> AuditDraftView {
    AuditDraftView {
        device_fingerprint: ctx.device_fingerprint,
        session_id: ctx.session_id,
        vid: None,
        pid: None,
        serial_number: None,
        port_name: ctx.port_name,
        direction: Direction::Tx,
        data,
    }
}

/// What the bookkeeping does with one action of a session: the registry
/// afterwards, and what leaves the core, in order.
///
/// Received data is announced and logged. A write is logged with the bytes
/// that were handed to the wire. A changed modem snapshot goes into the
/// port's profile. A failure is announced. The two counters are kept. The
/// end of the session closes the
/// port, drops its handle and is announced with the cause. The actions that
/// concern the hardware and the queue leave the books alone.
pub open spec fn relay_spec<H>(
    r: RegistryView<H>,
    ctx: SessionContextView,
    action: SessionActionView,
    now: u128,
) -> (RegistryView<H>, Seq<OutboundView>) {
    match action {
        SessionActionView::Emit(EventView::Data { bytes, timestamp_ms }) => (
            r,
            seq![
                OutboundView::Notify(
                    NotificationView::PortRead(
                        PortReadEventView { port_name: ctx.port_name, timestamp_ms, data: bytes },
                    ),
                ),
                OutboundView::Store(rx_draft(ctx, bytes)),
            ],
        ),
        SessionActionView::Emit(EventView::StatusChanged(status)) => (
            RegistryView { ports: with_status(r.ports, ctx.port_name, status), ..r },
            Seq::empty(),
        ),
        SessionActionView::Emit(EventView::Error { message }) => (
            r,
            seq![
                OutboundView::Notify(
                    NotificationView::PortError { port_name: ctx.port_name, message },
                ),
            ],
        ),
        SessionActionView::CountRead(n) => (
            RegistryView { ports: with_read(r.ports, ctx.port_name, n), ..r },
            Seq::empty(),
        ),
        SessionActionView::Write { message_id, data } => (
            r,
            seq![OutboundView::Store(tx_draft(ctx, data))],
        ),
        SessionActionView::CountWritten(n) => (
            RegistryView { ports: with_written(r.ports, ctx.port_name, n), ..r },
            Seq::empty(),
        ),
        SessionActionView::NotifyExit(cause) => (
            settled(r, ctx.port_name, ctx.session_id),
            if owns(r, ctx.port_name, ctx.session_id) {
                seq![
                    OutboundView::Notify(
                        NotificationView::PortClosed(
                            PortClosedEventView {
                                port_name: ctx.port_name,
                                reason: exit_reason(cause),
                                timestamp_ms: now,
                            },
                        ),
                    ),
                ]
            } else {
                Seq::empty()
            },
        ),
        SessionActionView::Ack => (r, Seq::empty()),
        SessionActionView::SetRts(level) => (r, Seq::empty()),
        SessionActionView::SetDtr(level) => (r, Seq::empty()),
        SessionActionView::ReleaseHandle => (r, Seq::empty()),
        SessionActionView::CloseChannel => (r, Seq::empty()),
    }
}

/// What came of relaying one action.
#[derive(Debug, PartialEq, Eq)]
pub struct Relayed<H> {
    /// What leaves the core, in order.
    pub out: Vec<Outbound>,
    /// The handle that was dropped from the registry, if the session ended.
    pub released: Option<SessionHandle<H>>,
}

fn rx_draft_of(ctx: &SessionContext, data: Vec<u8>) -> (d: AuditDraft)
    ensures
        d@ == rx_draft(ctx@, data@),
{
    AuditDraft {
        device_fingerprint: ctx.device_fingerprint.clone(),
        session_id: ctx.session_id.clone(),
        vid: None,
        pid: None,
        serial_number: None,
        port_name: ctx.port_name.clone(),
        direction: Direction::Rx,
        data,
    }
}

fn tx_draft_of(ctx: &SessionContext, data: Vec<u8>) -> (d: AuditDraft)
    ensures
        d@ == tx_draft(ctx@, data@),
{
    AuditDraft {
        device_fingerprint: ctx.device_fingerprint.clone(),
        session_id: ctx.session_id.clone(),
        vid: None,
        pid: None,
        serial_number: None,
        port_name: ctx.port_name.clone(),
        direction: Direction::Tx,
        data,
    }
}

/// Keeps the books for one action of a session: updates the registry and
/// says what is to be announced and logged. `now` is the time that an
/// announcement of the session's end carries.
pub fn relay_action<H>(
    registry: &mut Registry<H>,
    ctx: &SessionContext,
    action: SessionAction,
    now: u128,
) -> (done: Relayed<H>)
    requires
        old(registry).wf(),
    ensures
        final(registry).wf(),
        final(registry)@ == relay_spec(old(registry)@, ctx@, action@, now).0,
        outbound_views(done.out@) == relay_spec(old(registry)@, ctx@, action@, now).1,
        match done.released {
            Some(h) => action is NotifyExit && owns(
                old(registry)@,
                ctx@.port_name,
                ctx@.session_id,
            ) && h@ == old(registry)@.handles[handle_index(
                old(registry)@.handles,
                ctx@.port_name,
            )],
            None => !(action is NotifyExit && owns(
                old(registry)@,
                ctx@.port_name,
                ctx@.session_id,
            )),
        },
{
    let mut out: Vec<Outbound> = Vec::new();
    let mut released: Option<SessionHandle<H>> = None;
    let name = ctx.port_name.as_str();
    let ghost before = registry@;
    match action {
        SessionAction::Emit(event) => {
            match event {
                Event::Data { bytes, timestamp_ms } => {
                    let copy = crate::command::clone_bytes(&bytes);
                    out.push(
                        Outbound::Notify(
                            Notification::PortRead(
                                PortReadEvent::with_timestamp(
                                    ctx.port_name.clone(),
                                    bytes,
                                    timestamp_ms,
                                ),
                            ),
                        ),
                    );
                    out.push(Outbound::Store(rx_draft_of(ctx, copy)));
                },
                Event::StatusChanged(status) => {
                    registry.update_modem_status(name, status);
                },
                Event::Error { message } => {
                    out.push(
                        Outbound::Notify(
                            Notification::PortError { port_name: ctx.port_name.clone(), message },
                        ),
                    );
                },
            }
        },
        SessionAction::CountRead(n) => {
            registry.record_read(name, n);
        },
        SessionAction::Write { message_id, data } => {
            out.push(Outbound::Store(tx_draft_of(ctx, data)));
        },
        SessionAction::CountWritten(n) => {
            registry.record_written(name, n);
        },
        SessionAction::NotifyExit(cause) => {
            released = registry.session_exited(name, ctx.session_id.as_str());
            if released.is_some() {
                out.push(
                    Outbound::Notify(
                        Notification::PortClosed(
                            PortClosedEvent::for_exit(ctx.port_name.clone(), &cause, now),
                        ),
                    ),
                );
            }
        },
        _ => {},
    }
    assert(registry@.ports =~= relay_spec(before, ctx@, action@, now).0.ports);
    assert(registry@.handles =~= relay_spec(before, ctx@, action@, now).0.handles);
    assert(outbound_views(out@) =~= relay_spec(before, ctx@, action@, now).1);
    Relayed { out, released }
}

} // verus!
