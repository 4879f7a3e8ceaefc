use vstd::prelude::*;
use crate::audit::AuditDraftView;
use crate::audit_proofs::stored;
use crate::command::{CommandView, WriteCmdView};
use crate::events::{error_reason, exit_reason, PortClosedEventView};
use crate::port::PortStatus;
use crate::registry::{
    closed, handle_index, held, index_of, known, lemma_closed_wf, owns, with_written,
    RegistryView,
};
use crate::relay::{
    relay_spec, tx_draft, NotificationView, OutboundView, SessionContextView,
};
use crate::session::{
    finish_spec, step_spec, SessionActionView, SessionInputView, SessionState, SessionView,
};

verus! {

/// What the bookkeeping does with a list of actions, taken in order: the
/// registry afterwards and everything that leaves the core.
pub open spec fn relay_all<H>(
    r: RegistryView<H>,
    ctx: SessionContextView,
    actions: Seq<SessionActionView>,
    now: u128,
) -> (RegistryView<H>, Seq<OutboundView>)
    decreases actions.len(),
{
    if actions.len() == 0 {
        (r, Seq::empty())
    } else {
        let (next, out) = relay_spec(r, ctx, actions[0], now);
        let (last, more) = relay_all(next, ctx, actions.skip(1), now);
        (last, out + more)
    }
}

/// Every exit settles the registry. When a session that holds its port has
/// stopped, is torn down and its actions are relayed, the session is closed, the registry is
/// well formed, the port's row is closed, no handle for the port is held,
/// and exactly one announcement leaves: that the port was closed, with the
/// reason of the exit.
pub proof fn lemma_exit_closes_the_port<H>(
    r: RegistryView<H>,
    ctx: SessionContextView,
    s: SessionView,
    now: u128,
)
    requires
        r.wf(),
        owns(r, ctx.port_name, ctx.session_id),
        s.state == SessionState::Draining,
        s.exit is Some,
    ensures
        ({
            let (gone, teardown) = finish_spec(s);
            let (after, out) = relay_all(r, ctx, teardown, now);
            &&& gone.state == SessionState::Closed
            &&& after == closed(r, ctx.port_name)
            &&& after.wf()
            &&& !held(after.handles, ctx.port_name)
            &&& after.ports[index_of(r.ports, ctx.port_name)].port_status == PortStatus::Closed
            &&& out == seq![
                OutboundView::Notify(
                    NotificationView::PortClosed(
                        PortClosedEventView {
                            port_name: ctx.port_name,
                            reason: exit_reason(s.exit->Some_0),
                            timestamp_ms: now,
                        },
                    ),
                ),
            ]
        }),
{
    let (gone, teardown) = finish_spec(s);
    let none = Seq::<OutboundView>::empty();
    lemma_closed_wf(r, ctx.port_name);
    let at = handle_index(r.handles, ctx.port_name);
    assert(0 <= at < r.handles.len() && r.handles[at].port_name == ctx.port_name);
    assert(known(r.ports, r.handles[at].port_name));
    let t1 = teardown.skip(1);
    let t2 = t1.skip(1);
    let t3 = t2.skip(1);
    assert(t3.len() == 0);
    assert(t2[0] == teardown[2]);
    assert(t1[0] == teardown[1]);
    let end = relay_all(closed(r, ctx.port_name), ctx, t3, now);
    assert(end == (closed(r, ctx.port_name), none));
    let step2 = relay_all(r, ctx, t2, now);
    assert(step2.0 == closed(r, ctx.port_name));
    assert(step2.1 =~= relay_spec(r, ctx, teardown[2], now).1);
    let step1 = relay_all(r, ctx, t1, now);
    assert(step1.0 == step2.0);
    assert(step1.1 =~= step2.1);
    let step0 = relay_all(r, ctx, teardown, now);
    assert(step0.0 == step1.0);
    assert(step0.1 =~= step1.1);
}

/// Registry consistency after a failure. When a read fails in a running
/// session that holds its port, the failure is announced, the session stops and is torn down,
/// and once its actions are relayed the port's row is closed and its handle
/// is gone, which a later lookup or discovery shows. The announcements
/// are, in order, the failure and the closing of the port with the failure
/// as its reason.
pub proof fn lemma_read_failure_closes_the_port<H>(
    r: RegistryView<H>,
    ctx: SessionContextView,
    s: SessionView,
    message: Seq<char>,
    now: u128,
)
    requires
        r.wf(),
        owns(r, ctx.port_name, ctx.session_id),
        s.state == SessionState::Running,
    ensures
        ({
            let (stopped, told) = step_spec(s, SessionInputView::ReadFailed { message });
            let (gone, teardown) = finish_spec(stopped);
            let (after, out) = relay_all(r, ctx, told + teardown, now);
            &&& gone.state == SessionState::Closed
            &&& after == closed(r, ctx.port_name)
            &&& after.wf()
            &&& !held(after.handles, ctx.port_name)
            &&& after.ports[index_of(r.ports, ctx.port_name)].port_status == PortStatus::Closed
            &&& out == seq![
                OutboundView::Notify(
                    NotificationView::PortError { port_name: ctx.port_name, message },
                ),
                OutboundView::Notify(
                    NotificationView::PortClosed(
                        PortClosedEventView {
                            port_name: ctx.port_name,
                            reason: error_reason(message),
                            timestamp_ms: now,
                        },
                    ),
                ),
            ]
        }),
{
    let (stopped, told) = step_spec(s, SessionInputView::ReadFailed { message });
    let (gone, teardown) = finish_spec(stopped);
    lemma_exit_closes_the_port(r, ctx, stopped, now);
    let all = told + teardown;
    assert(all[0] == told[0]);
    assert(all.skip(1) =~= teardown);
    let first = relay_spec(r, ctx, all[0], now);
    assert(first.0 == r);
    let rest = relay_all(r, ctx, teardown, now);
    let whole = relay_all(r, ctx, all, now);
    assert(whole.0 == rest.0);
    assert(whole.1 =~= first.1 + rest.1);
}

/// A processed write is logged and counted. When a running session serves
/// a write of `data` and its actions are relayed in order, exactly one draft
/// goes to the audit log: it is marked as sent, carries the session's id,
/// fingerprint and port name, and holds the bytes of the write. The port's
/// count of bytes written grows by their number, and nothing else in the
/// registry changes.
pub proof fn lemma_processed_write_is_logged_and_counted<H>(
    r: RegistryView<H>,
    ctx: SessionContextView,
    s: SessionView,
    message_id: Seq<char>,
    data: Seq<u8>,
    wants_ack: bool,
    now: u128,
)
    requires
        s.state == SessionState::Running,
    ensures
        ({
            let command = CommandView {
                cmd: WriteCmdView::Message { message_id, data },
                wants_ack,
            };
            let (after_step, actions) = step_spec(s, SessionInputView::Command(command));
            let (after, out) = relay_all(r, ctx, actions, now);
            &&& after_step == s
            &&& stored(out) == seq![tx_draft(ctx, data)]
            &&& after.ports == with_written(r.ports, ctx.port_name, data.len())
            &&& after.handles == r.handles
        }),
{
    let command = CommandView { cmd: WriteCmdView::Message { message_id, data }, wants_ack };
    let actions = step_spec(s, SessionInputView::Command(command)).1;
    let none = Seq::<OutboundView>::empty();
    let draft = seq![OutboundView::Store(tx_draft(ctx, data))];
    let counted = RegistryView { ports: with_written(r.ports, ctx.port_name, data.len()), ..r };
    assert(stored(draft) =~= seq![tx_draft(ctx, data)]) by {
        assert(draft.drop_last().len() == 0);
        assert(stored(draft.drop_last()) =~= Seq::<AuditDraftView>::empty());
    }
    let t1 = actions.skip(1);
    assert(actions[0] == SessionActionView::Write { message_id, data });
    if wants_ack {
        let t2 = t1.skip(1);
        let t3 = t2.skip(1);
        assert(t3.len() == 0);
        assert(t1[0] == SessionActionView::Ack);
        assert(t2[0] == SessionActionView::CountWritten(data.len()));
        assert(relay_all(counted, ctx, t3, now) == (counted, none));
        let last = relay_all(r, ctx, t2, now);
        assert(last.0 == counted);
        assert(last.1 =~= none);
        let mid = relay_all(r, ctx, t1, now);
        assert(mid.0 == counted);
        assert(mid.1 =~= none);
        let whole = relay_all(r, ctx, actions, now);
        assert(whole.0 == counted);
        assert(whole.1 =~= draft);
    } else {
        let t2 = t1.skip(1);
        assert(t2.len() == 0);
        assert(t1[0] == SessionActionView::CountWritten(data.len()));
        assert(relay_all(counted, ctx, t2, now) == (counted, none));
        let mid = relay_all(r, ctx, t1, now);
        assert(mid.0 == counted);
        assert(mid.1 =~= none);
        let whole = relay_all(r, ctx, actions, now);
        assert(whole.0 == counted);
        assert(whole.1 =~= draft);
    }
}

} // verus!
