use vstd::prelude::*;
use crate::command::{CommandView, WriteCmdView};
use crate::port::ModemStatus;
use crate::session::{
    ack_count, ack_of, finish_spec, run_spec, serve_command, step_spec, wire_writes, EventView,
    ExitCauseView, SessionActionView, SessionInputView, SessionState, SessionView,
};

verus! {

/// The payloads of the write commands in a queue, in queue order.
pub open spec fn wanted_writes(cmds: Seq<CommandView>) -> Seq<Seq<u8>>
    decreases cmds.len(),
{
    if cmds.len() == 0 {
        Seq::empty()
    } else {
        match cmds[0].cmd {
            WriteCmdView::Message { message_id, data } => seq![data] + wanted_writes(
                cmds.skip(1),
            ),
            _ => wanted_writes(cmds.skip(1)),
        }
    }
}

/// The number of commands in a queue whose sender waits for a completion
/// signal.
pub open spec fn acks_wanted(cmds: Seq<CommandView>) -> nat
    decreases cmds.len(),
{
    if cmds.len() == 0 {
        0
    } else if cmds[0].wants_ack {
        1 + acks_wanted(cmds.skip(1))
    } else {
        acks_wanted(cmds.skip(1))
    }
}

/// Whether a queue holds no close command.
pub open spec fn no_close(cmds: Seq<CommandView>) -> bool {
    forall|i: int| 0 <= i < cmds.len() ==> !(#[trigger] cmds[i].cmd is Close)
}

/// The wire writes of two action lists, one after the other, are the writes
/// of the first followed by those of the second.
pub proof fn lemma_wire_writes_concat(a: Seq<SessionActionView>, b: Seq<SessionActionView>)
    ensures
        wire_writes(a + b) == wire_writes(a) + wire_writes(b),
    decreases a.len(),
{
    if a.len() == 0 {
        assert(a + b =~= b);
        assert(wire_writes(a) + wire_writes(b) =~= wire_writes(b));
    } else {
        assert((a + b).skip(1) =~= a.skip(1) + b);
        lemma_wire_writes_concat(a.skip(1), b);
        assert((a + b)[0] == a[0]);
        match a[0] {
            SessionActionView::Write { message_id, data } => {
                assert((seq![data] + wire_writes(a.skip(1))) + wire_writes(b) =~= seq![data] + (
                wire_writes(a.skip(1)) + wire_writes(b)));
            },
            _ => {},
        }
    }
}

/// The completion signals of two action lists, one after the other, are
/// counted by adding the two counts.
pub proof fn lemma_ack_count_concat(a: Seq<SessionActionView>, b: Seq<SessionActionView>)
    ensures
        ack_count(a + b) == ack_count(a) + ack_count(b),
    decreases a.len(),
{
    if a.len() == 0 {
        assert(a + b =~= b);
    } else {
        assert((a + b).skip(1) =~= a.skip(1) + b);
        lemma_ack_count_concat(a.skip(1), b);
        assert((a + b)[0] == a[0]);
    }
}

/// What a single action puts on the wire, and how many signals it fires.
pub proof fn lemma_single_action(a: SessionActionView)
    ensures
        wire_writes(seq![a]) == (match a {
            SessionActionView::Write { message_id, data } => seq![data],
            _ => Seq::<Seq<u8>>::empty(),
        }),
        ack_count(seq![a]) == (if a is Ack {
            1nat
        } else {
            0nat
        }),
{
    let one = seq![a];
    let none = one.skip(1);
    assert(none.len() == 0);
    assert(wire_writes(none) =~= Seq::<Seq<u8>>::empty());
    assert(ack_count(none) == 0);
    assert(one[0] == a);
    match a {
        SessionActionView::Write { message_id, data } => {
            assert(wire_writes(one) =~= seq![data]);
        },
        _ => {
            assert(wire_writes(one) =~= Seq::<Seq<u8>>::empty());
        },
    }
}

/// What one served command puts on the wire and how many signals it fires:
/// a write puts exactly its payload, every other command nothing; the signal
/// fires exactly if the sender waits for it.
pub proof fn lemma_one_command(s: SessionView, c: CommandView)
    ensures
        wire_writes(serve_command(s, c).1) == wanted_writes(seq![c]),
        ack_count(serve_command(s, c).1) == acks_wanted(seq![c]),
        !(c.cmd is Close) ==> serve_command(s, c).0 == s,
        c.cmd is Close ==> serve_command(s, c).0 == (SessionView {
            state: SessionState::Draining,
            exit: Some(ExitCauseView::UserRequested),
            ..s
        }),
{
    let acts = serve_command(s, c).1;
    let one = seq![c];
    assert(one.skip(1) =~= Seq::<CommandView>::empty());
    assert(wanted_writes(one.skip(1)) =~= Seq::<Seq<u8>>::empty());
    assert(acks_wanted(one.skip(1)) == 0);
    let none = Seq::<Seq<u8>>::empty();
    let ack = ack_of(c.wants_ack);
    if c.wants_ack {
        lemma_single_action(SessionActionView::Ack);
    }
    assert(wire_writes(ack) =~= none);
    assert(ack_count(ack) == acks_wanted(one));
    match c.cmd {
        WriteCmdView::Message { message_id, data } => {
            let w = seq![SessionActionView::Write { message_id, data }];
            let n = seq![SessionActionView::CountWritten(data.len())];
            lemma_single_action(SessionActionView::Write { message_id, data });
            lemma_single_action(SessionActionView::CountWritten(data.len()));
            lemma_wire_writes_concat(w + ack, n);
            lemma_wire_writes_concat(w, ack);
            lemma_ack_count_concat(w + ack, n);
            lemma_ack_count_concat(w, ack);
            assert(wire_writes(acts) =~= seq![data]);
            assert(wanted_writes(one) =~= seq![data]);
        },
        WriteCmdView::Rts(level) => {
            let w = seq![SessionActionView::SetRts(level)];
            lemma_single_action(SessionActionView::SetRts(level));
            lemma_wire_writes_concat(w, ack);
            lemma_ack_count_concat(w, ack);
            assert(wire_writes(acts) =~= none);
            assert(wanted_writes(one) =~= none);
        },
        WriteCmdView::Dtr(level) => {
            let w = seq![SessionActionView::SetDtr(level)];
            lemma_single_action(SessionActionView::SetDtr(level));
            lemma_wire_writes_concat(w, ack);
            lemma_ack_count_concat(w, ack);
            assert(wire_writes(acts) =~= none);
            assert(wanted_writes(one) =~= none);
        },
        WriteCmdView::Close => {
            assert(wanted_writes(one) =~= none);
        },
    }
}

/// The write payloads of two queues, one after the other.
pub proof fn lemma_wanted_writes_first(cmds: Seq<CommandView>)
    requires
        cmds.len() > 0,
    ensures
        wanted_writes(cmds) == wanted_writes(seq![cmds[0]]) + wanted_writes(cmds.skip(1)),
        acks_wanted(cmds) == acks_wanted(seq![cmds[0]]) + acks_wanted(cmds.skip(1)),
{
    let one = seq![cmds[0]];
    assert(one.skip(1) =~= Seq::<CommandView>::empty());
    assert(wanted_writes(one.skip(1)) =~= Seq::<Seq<u8>>::empty());
    assert(acks_wanted(one.skip(1)) == 0);
    match cmds[0].cmd {
        WriteCmdView::Message { message_id, data } => {
            assert(wanted_writes(one) =~= seq![data]);
        },
        _ => {
            assert(wanted_writes(one) =~= Seq::<Seq<u8>>::empty());
            assert(wanted_writes(one) + wanted_writes(cmds.skip(1)) =~= wanted_writes(
                cmds.skip(1),
            ));
        },
    }
}

/// Write ordering. A running session that is handed a queue without a close
/// command serves all of it: the payloads of the write commands reach the
/// wire in queue order, each waiting sender gets its signal, and the session
/// stays as it was.
pub proof fn lemma_writes_keep_order(s: SessionView, cmds: Seq<CommandView>)
    requires
        s.state == SessionState::Running,
        no_close(cmds),
    ensures
        run_spec(s, cmds).0 == s,
        wire_writes(run_spec(s, cmds).1) == wanted_writes(cmds),
        ack_count(run_spec(s, cmds).1) == acks_wanted(cmds),
        run_spec(s, cmds).2 == cmds.len(),
    decreases cmds.len(),
{
    if cmds.len() == 0 {
    } else {
        let rest = cmds.skip(1);
        assert(!(cmds[0].cmd is Close));
        assert(no_close(rest)) by {
            assert forall|i: int| 0 <= i < rest.len() implies !(#[trigger] rest[i].cmd is Close) by {
                assert(rest[i] == cmds[i + 1]);
            }
        }
        lemma_one_command(s, cmds[0]);
        lemma_writes_keep_order(s, rest);
        lemma_wanted_writes_first(cmds);
        let first = serve_command(s, cmds[0]).1;
        lemma_wire_writes_concat(first, run_spec(s, rest).1);
        lemma_ack_count_concat(first, run_spec(s, rest).1);
    }
}

/// The payloads of a queue of commands, one for one; a command that is not
/// a write counts as an empty payload.
pub open spec fn payloads(cmds: Seq<CommandView>) -> Seq<Seq<u8>> {
    Seq::new(
        cmds.len(),
        |i: int|
            match cmds[i].cmd {
                WriteCmdView::Message { message_id, data } => data,
                _ => Seq::empty(),
            },
    )
}

/// A queue made of writes only has no close command, and the payloads that
/// it wants written are the payloads of its commands, one for one. With
/// the law of write ordering: the payloads of any run of writes reach the
/// wire in the order of the queue.
pub proof fn lemma_all_writes(cmds: Seq<CommandView>)
    requires
        forall|i: int| 0 <= i < cmds.len() ==> #[trigger] cmds[i].cmd is Message,
    ensures
        no_close(cmds),
        wanted_writes(cmds) == payloads(cmds),
    decreases cmds.len(),
{
    if cmds.len() == 0 {
        assert(wanted_writes(cmds) =~= payloads(cmds));
    } else {
        let rest = cmds.skip(1);
        assert forall|i: int| 0 <= i < rest.len() implies #[trigger] rest[i].cmd is Message by {
            assert(rest[i] == cmds[i + 1]);
        }
        lemma_all_writes(rest);
        assert(cmds[0].cmd is Message);
        assert forall|i: int| 0 <= i < cmds.len() implies !(#[trigger] cmds[i].cmd is Close) by {
            assert(cmds[i].cmd is Message);
        }
        assert forall|i: int| 0 <= i < rest.len() implies payloads(rest)[i] == payloads(cmds)[i
            + 1] by {
            assert(rest[i] == cmds[i + 1]);
        }
        assert(wanted_writes(cmds) =~= payloads(cmds));
    }
}

/// Close ends the queue. When the first close command of a queue stands at
/// place `k`, a running session serves the commands up to and including it
/// and none behind it: the outcome is that of the queue cut off after the
/// close. The writes in front of the close reach the wire in order, the
/// signals fired are those of the commands served, and the session ends up
/// draining at the user's request.
pub proof fn lemma_close_ends_queue(s: SessionView, cmds: Seq<CommandView>, k: int)
    requires
        s.state == SessionState::Running,
        0 <= k < cmds.len(),
        cmds[k].cmd is Close,
        no_close(cmds.take(k)),
    ensures
        run_spec(s, cmds) == run_spec(s, cmds.take(k + 1)),
        run_spec(s, cmds).2 == k + 1,
        run_spec(s, cmds).0 == (SessionView {
            state: SessionState::Draining,
            exit: Some(ExitCauseView::UserRequested),
            ..s
        }),
        wire_writes(run_spec(s, cmds).1) == wanted_writes(cmds.take(k)),
        ack_count(run_spec(s, cmds).1) == acks_wanted(cmds.take(k + 1)),
    decreases k,
{
    let cut = cmds.take(k + 1);
    let rest = cmds.skip(1);
    assert(cut[0] == cmds[0]);
    assert(cut.skip(1) =~= rest.take(k));
    lemma_one_command(s, cmds[0]);
    lemma_wanted_writes_first(cut);
    let first = serve_command(s, cmds[0]).1;
    if k == 0 {
        let s1 = serve_command(s, cmds[0]).0;
        assert(s1.state == SessionState::Draining);
        assert(run_spec(s1, rest) == (s1, Seq::<SessionActionView>::empty(), 0nat));
        assert(run_spec(s1, cut.skip(1)) == (s1, Seq::<SessionActionView>::empty(), 0nat));
        assert(first + Seq::<SessionActionView>::empty() =~= first);
        assert(cmds.take(0) =~= Seq::<CommandView>::empty());
        assert(wanted_writes(cmds.take(0)) =~= Seq::<Seq<u8>>::empty());
        assert(wanted_writes(seq![cmds[0]]) =~= Seq::<Seq<u8>>::empty()) by {
            assert(seq![cmds[0]].skip(1) =~= Seq::<CommandView>::empty());
        }
        assert(cut.skip(1) =~= Seq::<CommandView>::empty());
        assert(acks_wanted(cut.skip(1)) == 0);
    } else {
        assert(cmds.take(k)[0] == cmds[0]);
        assert(!(cmds[0].cmd is Close));
        assert(rest[k - 1] == cmds[k]);
        assert(no_close(rest.take(k - 1))) by {
            assert forall|i: int| 0 <= i < rest.take(k - 1).len() implies !(
            #[trigger] rest.take(k - 1)[i].cmd is Close) by {
                assert(rest.take(k - 1)[i] == cmds.take(k)[i + 1]);
            }
        }
        lemma_close_ends_queue(s, rest, k - 1);
        assert(cut.skip(1) =~= rest.take(k));
        assert(cmds.take(k).skip(1) =~= rest.take(k - 1));
        lemma_wanted_writes_first(cmds.take(k));
        lemma_wire_writes_concat(first, run_spec(s, rest).1);
        lemma_ack_count_concat(first, run_spec(s, rest).1);
    }
}

/// Status diffing, the quiet half. Once a running session has seen a
/// snapshot of the modem lines, seeing the same snapshot again emits nothing
/// and changes nothing.
pub proof fn lemma_same_status_is_silent(s: SessionView, status: ModemStatus)
    requires
        s.state == SessionState::Running,
    ensures
        ({
            let after = step_spec(s, SessionInputView::Tick(status)).0;
            step_spec(after, SessionInputView::Tick(status)) == (
                after,
                Seq::<SessionActionView>::empty(),
            )
        }),
        status == s.last_status ==> step_spec(s, SessionInputView::Tick(status)) == (
            s,
            Seq::<SessionActionView>::empty(),
        ),
{
}

/// Status diffing, the loud half. A snapshot that differs from the one
/// published last emits exactly one status event, which carries the new
/// snapshot, and becomes the one published last.
pub proof fn lemma_changed_status_emits_once(s: SessionView, status: ModemStatus)
    requires
        s.state == SessionState::Running,
        status != s.last_status,
    ensures
        step_spec(s, SessionInputView::Tick(status)).1 == seq![
            SessionActionView::Emit(EventView::StatusChanged(status)),
        ],
        step_spec(s, SessionInputView::Tick(status)).0 == (SessionView {
            last_status: status,
            ..s
        }),
{
}

/// A session reports its exit exactly once: the teardown of a draining
/// session closes it, and a second teardown does nothing.
pub proof fn lemma_exit_reported_once(s: SessionView)
    requires
        s.state == SessionState::Draining,
        s.exit is Some,
    ensures
        finish_spec(s).0.state == SessionState::Closed,
        finish_spec(s).1 == seq![
            SessionActionView::ReleaseHandle,
            SessionActionView::CloseChannel,
            SessionActionView::NotifyExit(s.exit->Some_0),
        ],
        finish_spec(finish_spec(s).0) == (finish_spec(s).0, Seq::<SessionActionView>::empty()),
{
}

/// A session that has stopped serves nothing: whatever arrives, it emits no
/// action and stays as it is.
pub proof fn lemma_stopped_serves_nothing(s: SessionView, input: SessionInputView)
    requires
        s.state == SessionState::Draining || s.state == SessionState::Closed,
    ensures
        step_spec(s, input) == (s, Seq::<SessionActionView>::empty()),
{
}

/// A read failure stops the session: it emits the error, and the teardown
/// that follows reports an exit with that error.
pub proof fn lemma_read_failure_stops(s: SessionView, message: Seq<char>)
    requires
        s.state == SessionState::Running,
    ensures
        ({
            let (after, actions) = step_spec(s, SessionInputView::ReadFailed { message });
            &&& actions == seq![SessionActionView::Emit(EventView::Error { message })]
            &&& after.state == SessionState::Draining
            &&& finish_spec(after).0.state == SessionState::Closed
            &&& finish_spec(after).1 == seq![
                SessionActionView::ReleaseHandle,
                SessionActionView::CloseChannel,
                SessionActionView::NotifyExit(ExitCauseView::Error(message)),
            ]
        }),
{
}

/// First in, first out. Serving two queues one after the other is serving
/// them as one queue: the session ends up the same, the actions of the first
/// queue come before those of the second, and the counts of served commands
/// add up.
pub proof fn lemma_queue_is_served_in_order(
    s: SessionView,
    first: Seq<CommandView>,
    second: Seq<CommandView>,
)
    ensures
        run_spec(s, first + second).0 == run_spec(run_spec(s, first).0, second).0,
        run_spec(s, first + second).1 == run_spec(s, first).1 + run_spec(
            run_spec(s, first).0,
            second,
        ).1,
        run_spec(s, first + second).2 == run_spec(s, first).2 + run_spec(
            run_spec(s, first).0,
            second,
        ).2,
    decreases first.len(),
{
    let none = Seq::<SessionActionView>::empty();
    if first.len() == 0 {
        assert(first + second =~= second);
        assert(none + run_spec(s, second).1 =~= run_spec(s, second).1);
    } else if s.state != SessionState::Running {
        assert(run_spec(s, first) == (s, none, 0nat));
        assert(run_spec(s, second) == (s, none, 0nat));
        assert(run_spec(s, first + second) == (s, none, 0nat));
        assert(none + none =~= none);
    } else {
        let all = first + second;
        assert(all[0] == first[0]);
        assert(all.skip(1) =~= first.skip(1) + second);
        let (mid, head) = step_spec(s, SessionInputView::Command(first[0]));
        lemma_queue_is_served_in_order(mid, first.skip(1), second);
        let a = run_spec(mid, first.skip(1));
        let b = run_spec(a.0, second);
        assert(head + (a.1 + b.1) =~= (head + a.1) + b.1);
    }
}

} // verus!
