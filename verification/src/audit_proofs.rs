use vstd::prelude::*;
use crate::audit::{
    insert_desc, recorded, session_newest_first, AuditDraftView, AuditRecordView, Direction,
};
use crate::registry::RegistryView;
use crate::relay::{relay_spec, rx_draft, tx_draft, OutboundView, SessionContextView};
use crate::session::{EventView, SessionActionView};

verus! {

/// No record of a list is newer than a record in front of it.
pub open spec fn newest_first(s: Seq<AuditRecordView>) -> bool {
    forall|a: int, b: int|
        0 <= a < b < s.len() ==> (#[trigger] s[a]).timestamp_ms >= (#[trigger] s[b]).timestamp_ms
}

/// The drafts that a list of outbound items hands to the audit log, in
/// order.
pub open spec fn stored(out: Seq<OutboundView>) -> Seq<AuditDraftView>
    decreases out.len(),
{
    if out.len() == 0 {
        Seq::empty()
    } else {
        match out.last() {
            OutboundView::Store(d) => stored(out.drop_last()).push(d),
            _ => stored(out.drop_last()),
        }
    }
}

/// Putting a record into a list that is newest first gives a list that is
/// newest first, one longer, and holds the old records and the new one.
pub proof fn lemma_insert_desc_keeps_order(sorted: Seq<AuditRecordView>, r: AuditRecordView)
    requires
        newest_first(sorted),
    ensures
        newest_first(insert_desc(sorted, r)),
        insert_desc(sorted, r).len() == sorted.len() + 1,
        insert_desc(sorted, r).to_multiset() == sorted.to_multiset().insert(r),
        forall|k: int|
            0 <= k < insert_desc(sorted, r).len() ==> (#[trigger] insert_desc(
                sorted,
                r,
            )[k]).timestamp_ms >= r.timestamp_ms || (sorted.len() > 0 && insert_desc(
                sorted,
                r,
            )[k].timestamp_ms >= sorted.last().timestamp_ms),
    decreases sorted.len(),
{
    let after = insert_desc(sorted, r);
    if sorted.len() == 0 {
        sorted.to_multiset_ensures();
        assert(after =~= sorted.push(r));
    } else if sorted.last().timestamp_ms >= r.timestamp_ms {
        sorted.to_multiset_ensures();
        assert forall|a: int, b: int| 0 <= a < b < after.len() implies (
        #[trigger] after[a]).timestamp_ms >= (#[trigger] after[b]).timestamp_ms by {
            if b == sorted.len() {
                if a < sorted.len() - 1 {
                    assert(sorted[a].timestamp_ms >= sorted[sorted.len() - 1].timestamp_ms);
                }
            } else {
                assert(sorted[a].timestamp_ms >= sorted[b].timestamp_ms);
            }
        }
        assert forall|k: int| 0 <= k < after.len() implies (#[trigger] after[k]).timestamp_ms
            >= r.timestamp_ms by {
            if k < sorted.len() - 1 {
                assert(sorted[k].timestamp_ms >= sorted[sorted.len() - 1].timestamp_ms);
            }
        }
    } else {
        let front = sorted.drop_last();
        let last = sorted.last();
        assert(newest_first(front)) by {
            assert forall|a: int, b: int| 0 <= a < b < front.len() implies (
            #[trigger] front[a]).timestamp_ms >= (#[trigger] front[b]).timestamp_ms by {
                assert(sorted[a].timestamp_ms >= sorted[b].timestamp_ms);
            }
        }
        lemma_insert_desc_keeps_order(front, r);
        let mid = insert_desc(front, r);
        assert(after == mid.push(last));
        mid.to_multiset_ensures();
        front.to_multiset_ensures();
        assert(sorted =~= front.push(last));
        assert(after.to_multiset() =~= sorted.to_multiset().insert(r));
        assert forall|k: int| 0 <= k < mid.len() implies (#[trigger] mid[k]).timestamp_ms
            >= last.timestamp_ms by {
            if mid[k].timestamp_ms >= r.timestamp_ms {
            } else {
                assert(front.len() > 0 && mid[k].timestamp_ms >= front.last().timestamp_ms);
                assert(sorted[front.len() - 1].timestamp_ms >= sorted[sorted.len()
                    - 1].timestamp_ms);
            }
        }
        assert forall|a: int, b: int| 0 <= a < b < after.len() implies (
        #[trigger] after[a]).timestamp_ms >= (#[trigger] after[b]).timestamp_ms by {
            if b < mid.len() {
                assert(mid[a].timestamp_ms >= mid[b].timestamp_ms);
            } else {
                assert(after[a] == mid[a]);
            }
        }
        assert forall|k: int| 0 <= k < after.len() implies (#[trigger] after[k]).timestamp_ms
            >= r.timestamp_ms || (sorted.len() > 0 && after[k].timestamp_ms
            >= sorted.last().timestamp_ms) by {
            if k < mid.len() {
                assert(after[k] == mid[k]);
            }
        }
    }
}

/// A session's page of the journal is ordered and complete. The records
/// that a query for a session draws on are newest first, and they are
/// exactly the journal's records of that session: each as often as the
/// journal holds it, and no record of another session.
pub proof fn lemma_session_query_is_ordered_and_complete(
    log: Seq<AuditRecordView>,
    session_id: Seq<char>,
)
    ensures
        newest_first(session_newest_first(log, session_id)),
        forall|x: AuditRecordView| #[trigger]
            session_newest_first(log, session_id).to_multiset().count(x) == (if x.session_id
                == session_id {
                log.to_multiset().count(x)
            } else {
                0
            }),
    decreases log.len(),
{
    let res = session_newest_first(log, session_id);
    if log.len() == 0 {
        res.to_multiset_ensures();
        log.to_multiset_ensures();
        assert forall|x: AuditRecordView| #[trigger]
            res.to_multiset().count(x) == (if x.session_id == session_id {
                log.to_multiset().count(x)
            } else {
                0
            }) by {
            assert(!res.contains(x));
            assert(!log.contains(x));
        }
    } else {
        let front = log.drop_last();
        let last = log.last();
        lemma_session_query_is_ordered_and_complete(front, session_id);
        let prev = session_newest_first(front, session_id);
        front.to_multiset_ensures();
        assert(log =~= front.push(last));
        assert(log.to_multiset() =~= front.to_multiset().insert(last));
        if last.session_id == session_id {
            lemma_insert_desc_keeps_order(prev, last);
            assert forall|x: AuditRecordView| #[trigger]
                res.to_multiset().count(x) == (if x.session_id == session_id {
                    log.to_multiset().count(x)
                } else {
                    0
                }) by {
                assert(prev.to_multiset().count(x) == (if x.session_id == session_id {
                    front.to_multiset().count(x)
                } else {
                    0
                }));
            }
        } else {
            assert forall|x: AuditRecordView| #[trigger]
                res.to_multiset().count(x) == (if x.session_id == session_id {
                    log.to_multiset().count(x)
                } else {
                    0
                }) by {
                assert(prev.to_multiset().count(x) == (if x.session_id == session_id {
                    front.to_multiset().count(x)
                } else {
                    0
                }));
            }
        }
    }
}

/// Audit fidelity. Received bytes `data` in a session hand exactly one
/// draft to the audit log. The record written for it is marked as received,
/// carries the session's id and holds exactly those bytes; the journal grows
/// by that record alone, and the session's records grow by one.
pub proof fn lemma_received_data_is_logged_once<H>(
    r: RegistryView<H>,
    ctx: SessionContextView,
    data: Seq<u8>,
    timestamp_ms: u128,
    now: u128,
    log: Seq<AuditRecordView>,
    id: i64,
    stamp: i64,
)
    ensures
        ({
            let out = relay_spec(
                r,
                ctx,
                SessionActionView::Emit(EventView::Data { bytes: data, timestamp_ms }),
                now,
            ).1;
            let record = recorded(rx_draft(ctx, data), id, stamp);
            &&& stored(out) == seq![rx_draft(ctx, data)]
            &&& record.direction == Direction::Rx
            &&& record.session_id == ctx.session_id
            &&& record.data == data
            &&& session_newest_first(log.push(record), ctx.session_id).len()
                == session_newest_first(log, ctx.session_id).len() + 1
            &&& session_newest_first(log.push(record), ctx.session_id).contains(record)
        }),
{
    let out = relay_spec(
        r,
        ctx,
        SessionActionView::Emit(EventView::Data { bytes: data, timestamp_ms }),
        now,
    ).1;
    let record = recorded(rx_draft(ctx, data), id, stamp);
    let one = out.drop_last();
    assert(one.len() == 1);
    assert(one.drop_last().len() == 0);
    assert(stored(one.drop_last()) =~= Seq::<AuditDraftView>::empty());
    assert(stored(one) =~= Seq::<AuditDraftView>::empty());
    assert(stored(out) =~= seq![rx_draft(ctx, data)]);
    let grown = log.push(record);
    assert(grown.drop_last() =~= log);
    assert(grown.last() == record);
    let prev = session_newest_first(log, ctx.session_id);
    lemma_session_query_is_ordered_and_complete(log, ctx.session_id);
    lemma_insert_desc_keeps_order(prev, record);
    let res = session_newest_first(grown, ctx.session_id);
    assert(res == insert_desc(prev, record));
    res.to_multiset_ensures();
    assert(res.to_multiset().count(record) > 0);
}

/// Only received data is logged: a status change or a failure hands nothing
/// to the audit log.
pub proof fn lemma_other_events_are_not_logged<H>(
    r: RegistryView<H>,
    ctx: SessionContextView,
    event: EventView,
    now: u128,
)
    requires
        !(event is Data),
    ensures
        stored(relay_spec(r, ctx, SessionActionView::Emit(event), now).1) == Seq::<
            AuditDraftView,
        >::empty(),
{
    let out = relay_spec(r, ctx, SessionActionView::Emit(event), now).1;
    match event {
        EventView::Data { bytes, timestamp_ms } => {},
        EventView::StatusChanged(s) => {},
        EventView::Error { message } => {
            assert(out.drop_last().len() == 0);
            assert(stored(out.drop_last()) =~= Seq::<AuditDraftView>::empty());
        },
    }
}

/// Written bytes are logged as they are. A write of `data` in a session
/// hands exactly one draft to the audit log. The record written for it is
/// marked as sent, carries the session's id, fingerprint and port name, and
/// holds exactly those bytes; the journal grows by that record alone.
pub proof fn lemma_written_data_is_logged_once<H>(
    r: RegistryView<H>,
    ctx: SessionContextView,
    message_id: Seq<char>,
    data: Seq<u8>,
    now: u128,
    log: Seq<AuditRecordView>,
    id: i64,
    stamp: i64,
)
    ensures
        ({
            let (after, out) = relay_spec(
                r,
                ctx,
                SessionActionView::Write { message_id, data },
                now,
            );
            let record = recorded(tx_draft(ctx, data), id, stamp);
            &&& after == r
            &&& stored(out) == seq![tx_draft(ctx, data)]
            &&& record.direction == Direction::Tx
            &&& record.session_id == ctx.session_id
            &&& record.device_fingerprint == ctx.device_fingerprint
            &&& record.port_name == ctx.port_name
            &&& record.data == data
            &&& session_newest_first(log.push(record), ctx.session_id).len()
                == session_newest_first(log, ctx.session_id).len() + 1
            &&& session_newest_first(log.push(record), ctx.session_id).contains(record)
        }),
{
    let out = relay_spec(r, ctx, SessionActionView::Write { message_id, data }, now).1;
    let record = recorded(tx_draft(ctx, data), id, stamp);
    assert(out.drop_last().len() == 0);
    assert(stored(out.drop_last()) =~= Seq::<AuditDraftView>::empty());
    assert(stored(out) =~= seq![tx_draft(ctx, data)]);
    let grown = log.push(record);
    assert(grown.drop_last() =~= log);
    assert(grown.last() == record);
    let prev = session_newest_first(log, ctx.session_id);
    lemma_session_query_is_ordered_and_complete(log, ctx.session_id);
    lemma_insert_desc_keeps_order(prev, record);
    let res = session_newest_first(grown, ctx.session_id);
    assert(res == insert_desc(prev, record));
    res.to_multiset_ensures();
    assert(res.to_multiset().count(record) > 0);
}

} // verus!
