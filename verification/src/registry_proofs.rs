use vstd::prelude::*;
use crate::error::SerialErrorView;
use crate::port::PortStatus;
use crate::registry::{
    closed, handle_index, held, index_of, known, lemma_closed_wf, lemma_merge_one_wf,
    lemma_opened_wf, merge, merge_one, opened, owns, plan_spec, requested_profile, settled,
    commit_spec, early_refusal,
    OpenPlanView, OpenRequestView, PortDescriptorView, RegistryView, SessionHandleView,
};

verus! {

/// Discovery keeps what is there. Merging an enumeration into a well-formed
/// registry leaves it well formed, never shortens the table, leaves every
/// row that was known before exactly as it was (so an open session is never
/// overwritten and a name never disappears), and leaves every enumerated
/// name known.
pub proof fn lemma_discovery_keeps_rows<H>(
    r: RegistryView<H>,
    base: int,
    found: Seq<PortDescriptorView>,
)
    requires
        r.wf(),
        0 <= base <= r.ports.len(),
        forall|i: int| base <= i < r.ports.len() ==> (#[trigger] r.ports[i]).port_status is Closed,
    ensures
        (RegistryView { ports: merge(r.ports, base, found), handles: r.handles }).wf(),
        merge(r.ports, base, found).len() >= r.ports.len(),
        forall|i: int| 0 <= i < base ==> merge(r.ports, base, found)[i] == r.ports[i],
        forall|i: int|
            0 <= i < r.ports.len() ==> (#[trigger] merge(r.ports, base, found)[i]).port_name
                == r.ports[i].port_name,
        forall|k: int|
            0 <= k < found.len() ==> known(merge(r.ports, base, found), (#[trigger] found[k]).name),
    decreases found.len(),
{
    if found.len() > 0 {
        let next = merge_one(r.ports, base, found[0]);
        let r1 = RegistryView { ports: next, handles: r.handles };
        lemma_merge_one_wf(r, base, found[0]);
        lemma_discovery_keeps_rows(r1, base, found.skip(1));
        let last = merge(r.ports, base, found);
        assert(last == merge(next, base, found.skip(1)));
        assert forall|i: int| 0 <= i < r.ports.len() implies (#[trigger] last[i]).port_name
            == r.ports[i].port_name by {
            assert(next[i].port_name == r.ports[i].port_name);
        }
        assert forall|k: int| 0 <= k < found.len() implies known(
            last,
            (#[trigger] found[k]).name,
        ) by {
            if k == 0 {
                let at = index_of(next, found[0].name);
                assert(0 <= at < next.len() && next[at].port_name == found[0].name);
                assert(last[at].port_name == found[0].name);
            } else {
                assert(found.skip(1)[k - 1] == found[k]);
            }
        }
    }
}

/// Single owner, the invariant. In a well-formed registry two handles with
/// the same port name are one and the same handle.
pub proof fn lemma_single_owner<H>(r: RegistryView<H>, i: int, j: int)
    requires
        r.wf(),
        0 <= i < r.handles.len(),
        0 <= j < r.handles.len(),
        r.handles[i].port_name == r.handles[j].port_name,
    ensures
        i == j,
{
}

/// Single owner, the refusal. Planning an open for a name that has a live
/// session fails: with the already-open error if the line parameters are
/// good, with their configuration error if not. Entering a session for
/// such a name fails too, whatever the session id and the sender.
pub proof fn lemma_second_open_fails<H>(
    r: RegistryView<H>,
    req: OpenRequestView,
    plan: OpenPlanView,
    session_id: Seq<char>,
    sender: H,
)
    requires
        r.wf(),
        held(r.handles, req.port_name),
        plan.port_name == req.port_name,
    ensures
        plan_spec(r, req) is Err,
        requested_profile(req) is Ok ==> plan_spec(r, req) == Err::<
            OpenPlanView,
            SerialErrorView,
        >(SerialErrorView::PortAlreadyOpen(req.port_name)),
        commit_spec(r, plan, session_id, sender) == Err::<RegistryView<H>, SerialErrorView>(
            SerialErrorView::PortAlreadyOpen(req.port_name),
        ),
{
    let j = handle_index(r.handles, req.port_name);
    assert(0 <= j < r.handles.len() && r.handles[j].port_name == req.port_name);
    assert(known(r.ports, r.handles[j].port_name));
}

/// Single owner, from open to open. Once a session has been entered for a
/// name, the name is held, and every further plan to open it and every
/// further attempt to enter a session for it fails.
pub proof fn lemma_open_then_open_fails<H>(
    r: RegistryView<H>,
    plan: OpenPlanView,
    session_id: Seq<char>,
    sender: H,
    req: OpenRequestView,
    next_id: Seq<char>,
    next_sender: H,
)
    requires
        r.wf(),
        commit_spec(r, plan, session_id, sender) is Ok,
        req.port_name == plan.port_name,
    ensures
        commit_spec(r, plan, session_id, sender)->Ok_0.wf(),
        plan_spec(commit_spec(r, plan, session_id, sender)->Ok_0, req) is Err,
        commit_spec(commit_spec(r, plan, session_id, sender)->Ok_0, plan, next_id, next_sender)
            is Err,
{
    let handle = SessionHandleView { port_name: plan.port_name, session_id, sender };
    lemma_opened_wf(r, plan.port_name, plan.profile, handle);
    let after = opened(r, plan.port_name, plan.profile, handle);
    lemma_second_open_fails(after, req, plan, next_id, next_sender);
}

/// What is refused before the enumeration is refused by planning too, with
/// the same error; and what is not refused early fails in planning only for
/// a name that is unknown.
pub proof fn lemma_early_refusal_agrees<H>(r: RegistryView<H>, req: OpenRequestView)
    requires
        r.wf(),
    ensures
        early_refusal(r, req) matches Some(e) ==> plan_spec(r, req) == Err::<
            OpenPlanView,
            SerialErrorView,
        >(e),
        early_refusal(r, req) is None ==> (plan_spec(r, req) is Ok || plan_spec(r, req) == Err::<
            OpenPlanView,
            SerialErrorView,
        >(SerialErrorView::PortNotFound(req.port_name))),
{
    if held(r.handles, req.port_name) {
        let j = handle_index(r.handles, req.port_name);
        assert(0 <= j < r.handles.len() && r.handles[j].port_name == req.port_name);
        assert(known(r.ports, r.handles[j].port_name));
    }
}

/// A plan that was made stays good until something else enters or leaves:
/// on the registry it was made for, entering its session succeeds.
pub proof fn lemma_a_plan_can_be_entered<H>(
    r: RegistryView<H>,
    req: OpenRequestView,
    session_id: Seq<char>,
    sender: H,
)
    requires
        r.wf(),
        plan_spec(r, req) is Ok,
    ensures
        commit_spec(r, plan_spec(r, req)->Ok_0, session_id, sender) is Ok,
        commit_spec(r, plan_spec(r, req)->Ok_0, session_id, sender)->Ok_0.wf(),
        owns(commit_spec(r, plan_spec(r, req)->Ok_0, session_id, sender)->Ok_0, req.port_name, session_id),
{
    let plan = plan_spec(r, req)->Ok_0;
    let handle = SessionHandleView { port_name: plan.port_name, session_id, sender };
    lemma_opened_wf(r, plan.port_name, plan.profile, handle);
    let after = opened(r, plan.port_name, plan.profile, handle);
    let n = r.handles.len() as int;
    assert(after.handles[n] == handle);
    let at = handle_index(after.handles, plan.port_name);
    assert(0 <= at < after.handles.len() && after.handles[at].port_name == plan.port_name);
    assert(after.handles[n].port_name == plan.port_name);
    assert(at == n);
}

/// Registry consistency after an exit. Once the end of the session that
/// holds a port has been settled, the row is closed and no handle is held;
/// a discovery that follows still shows the row closed, at the same place.
pub proof fn lemma_exit_leaves_port_closed<H>(
    r: RegistryView<H>,
    name: Seq<char>,
    session_id: Seq<char>,
    found: Seq<PortDescriptorView>,
)
    requires
        r.wf(),
        owns(r, name, session_id),
    ensures
        known(r.ports, name),
        settled(r, name, session_id).wf(),
        !held(settled(r, name, session_id).handles, name),
        settled(r, name, session_id).ports[index_of(r.ports, name)].port_name == name,
        settled(r, name, session_id).ports[index_of(r.ports, name)].port_status
            == PortStatus::Closed,
        merge(settled(r, name, session_id).ports, r.ports.len() as int, found)[index_of(
            r.ports,
            name,
        )] == settled(r, name, session_id).ports[index_of(r.ports, name)],
{
    let at = handle_index(r.handles, name);
    assert(0 <= at < r.handles.len() && r.handles[at].port_name == name);
    assert(known(r.ports, r.handles[at].port_name));
    lemma_closed_wf(r, name);
    let i = index_of(r.ports, name);
    assert(0 <= i < r.ports.len() && r.ports[i].port_name == name);
    lemma_discovery_keeps_rows(closed(r, name), r.ports.len() as int, found);
}

/// Single owner, at the exit. The end of a session that does not hold the
/// port changes nothing: it cannot close a port that another session holds.
pub proof fn lemma_foreign_exit_changes_nothing<H>(
    r: RegistryView<H>,
    name: Seq<char>,
    session_id: Seq<char>,
)
    requires
        r.wf(),
        !owns(r, name, session_id),
    ensures
        settled(r, name, session_id) == r,
{
}

/// After an exit the port can be opened again: once the session that holds
/// a port has been settled, a plan with good line parameters succeeds.
pub proof fn lemma_exit_frees_the_port<H>(
    r: RegistryView<H>,
    name: Seq<char>,
    session_id: Seq<char>,
    req: OpenRequestView,
)
    requires
        r.wf(),
        owns(r, name, session_id),
        req.port_name == name,
        requested_profile(req) is Ok,
    ensures
        plan_spec(settled(r, name, session_id), req) is Ok,
{
    let at = handle_index(r.handles, name);
    assert(0 <= at < r.handles.len() && r.handles[at].port_name == name);
    assert(known(r.ports, r.handles[at].port_name));
    lemma_closed_wf(r, name);
}

/// Settling the end of a session touches one port only: every other row is
/// as it was, and every handle of another port is still held.
pub proof fn lemma_exit_spares_other_ports<H>(r: RegistryView<H>, name: Seq<char>, other: Seq<char>)
    requires
        r.wf(),
        other != name,
    ensures
        known(r.ports, other) ==> closed(r, name).ports[index_of(r.ports, other)]
            == r.ports[index_of(r.ports, other)],
        held(r.handles, other) == held(closed(r, name).handles, other),
{
    if known(r.ports, other) {
        let i = index_of(r.ports, other);
        assert(0 <= i < r.ports.len() && r.ports[i].port_name == other);
    }
    let after = closed(r, name).handles;
    if held(r.handles, name) {
        let j = handle_index(r.handles, name);
        assert(0 <= j < r.handles.len() && r.handles[j].port_name == name);
        if held(r.handles, other) {
            let h = handle_index(r.handles, other);
            assert(0 <= h < r.handles.len() && r.handles[h].port_name == other);
            let h2 = if h < j {
                h
            } else {
                h - 1
            };
            assert(after[h2] == r.handles[h]);
            assert(after[h2].port_name == other);
        }
        if held(after, other) {
            let h = handle_index(after, other);
            assert(0 <= h < after.len() && after[h].port_name == other);
            let h0 = if h < j {
                h
            } else {
                h + 1
            };
            assert(after[h] == r.handles[h0]);
            assert(r.handles[h0].port_name == other);
        }
    }
}

} // verus!
