use vstd::prelude::*;
use crate::error::{SerialError, SerialErrorView};
use crate::fingerprint::{fingerprint_of, generate_device_fingerprint};
use crate::ids::generate_session_id;
use crate::port::{
    ModemStatus, OpenedPortProfile, PortInfo, PortInfoView, PortStatus, PortType, PortTypeView,
};
use crate::serial::{
    data_bits_of, flow_control_of, parity_of, stop_bits_of, DataBits, FlowControl, Parity,
    StopBits,
};
use crate::text::str_eq;

verus! {

/// What discovery reports of one port: its name and how it is attached.
#[derive(Debug, PartialEq, Eq)]
pub struct PortDescriptor {
    pub name: String,
    pub port_type: PortType,
}

/// Mathematical value of a [`PortDescriptor`].
pub struct PortDescriptorView {
    pub name: Seq<char>,
    pub port_type: PortTypeView,
}

impl View for PortDescriptor {
    type V = PortDescriptorView;

    open spec fn view(&self) -> PortDescriptorView {
        PortDescriptorView { name: self.name@, port_type: self.port_type@ }
    }
}

/// The capability that the registry holds while a session is alive: the
/// session's id and the sending end of its command queue.
#[derive(Debug, PartialEq, Eq)]
pub struct SessionHandle<H> {
    pub port_name: String,
    pub session_id: String,
    pub sender: H,
}

/// Mathematical value of a [`SessionHandle`].
pub struct SessionHandleView<H> {
    pub port_name: Seq<char>,
    pub session_id: Seq<char>,
    pub sender: H,
}

impl<H> View for SessionHandle<H> {
    type V = SessionHandleView<H>;

    open spec fn view(&self) -> SessionHandleView<H> {
        SessionHandleView {
            port_name: self.port_name@,
            session_id: self.session_id@,
            sender: self.sender,
        }
    }
}

/// The mathematical values of a list of port rows, in order.
pub open spec fn port_views(ports: Seq<PortInfo>) -> Seq<PortInfoView> {
    Seq::new(ports.len(), |i: int| ports[i]@)
}

/// The mathematical values of a list of handles, in order.
pub open spec fn handle_views<H>(handles: Seq<SessionHandle<H>>) -> Seq<SessionHandleView<H>> {
    Seq::new(handles.len(), |i: int| handles[i]@)
}

/// The mathematical values of a list of descriptors, in order.
pub open spec fn descriptor_views(found: Seq<PortDescriptor>) -> Seq<PortDescriptorView> {
    Seq::new(found.len(), |i: int| found[i]@)
}

/// Whether a row for `name` exists.
pub open spec fn known(ports: Seq<PortInfoView>, name: Seq<char>) -> bool {
    exists|i: int| 0 <= i < ports.len() && #[trigger] ports[i].port_name == name
}

/// The place of the row for `name`, where one exists.
pub open spec fn index_of(ports: Seq<PortInfoView>, name: Seq<char>) -> int {
    choose|i: int| 0 <= i < ports.len() && #[trigger] ports[i].port_name == name
}

/// Whether a live handle for `name` exists.
pub open spec fn held<H>(handles: Seq<SessionHandleView<H>>, name: Seq<char>) -> bool {
    exists|i: int| 0 <= i < handles.len() && #[trigger] handles[i].port_name == name
}

/// The place of the handle for `name`, where one exists.
pub open spec fn handle_index<H>(handles: Seq<SessionHandleView<H>>, name: Seq<char>) -> int {
    choose|i: int| 0 <= i < handles.len() && #[trigger] handles[i].port_name == name
}

/// No two rows carry the same name.
pub open spec fn distinct_ports(ports: Seq<PortInfoView>) -> bool {
    forall|i: int, j: int|
        0 <= i < ports.len() && 0 <= j < ports.len() && #[trigger] ports[i].port_name
            == #[trigger] ports[j].port_name ==> i == j
}

/// No two handles carry the same name.
pub open spec fn distinct_handles<H>(handles: Seq<SessionHandleView<H>>) -> bool {
    forall|i: int, j: int|
        0 <= i < handles.len() && 0 <= j < handles.len() && #[trigger] handles[i].port_name
            == #[trigger] handles[j].port_name ==> i == j
}

/// Mathematical value of a [`Registry`]: its rows in order of discovery and
/// its live handles.
pub struct RegistryView<H> {
    pub ports: Seq<PortInfoView>,
    pub handles: Seq<SessionHandleView<H>>,
}

impl<H> RegistryView<H> {
    /// The registry's invariant: one row per name, at most one handle per
    /// name, and a row is open exactly when a handle for its name is held.
    pub open spec fn wf(self) -> bool {
        &&& distinct_ports(self.ports)
        &&& distinct_handles(self.handles)
        &&& forall|i: int|
            0 <= i < self.ports.len() ==> ((#[trigger] self.ports[i]).port_status is Opened
                <==> held(self.handles, self.ports[i].port_name))
        &&& forall|j: int|
            0 <= j < self.handles.len() ==> known(
                self.ports,
                (#[trigger] self.handles[j]).port_name,
            )
    }
}

/// The row that discovery creates for a port it has not seen before.
pub open spec fn fresh_row(d: PortDescriptorView) -> PortInfoView {
    PortInfoView {
        port_name: d.name,
        port_type: d.port_type,
        port_status: PortStatus::Closed,
        bytes_read: 0,
        bytes_write: 0,
    }
}

/// The rows after one discovered port is merged in. A name that was known
/// before this discovery (it stands among the first `base` rows) keeps its
/// row untouched. A name that this discovery has already added takes the
/// later description. Any other name gets a fresh row at the end.
pub open spec fn merge_one(ports: Seq<PortInfoView>, base: int, d: PortDescriptorView) -> Seq<
    PortInfoView,
> {
    if !known(ports, d.name) {
        ports.push(fresh_row(d))
    } else if index_of(ports, d.name) < base {
        ports
    } else {
        ports.update(index_of(ports, d.name), fresh_row(d))
    }
}

/// The rows after a whole discovery is merged in, port by port.
pub open spec fn merge(
    ports: Seq<PortInfoView>,
    base: int,
    found: Seq<PortDescriptorView>,
) -> Seq<PortInfoView>
    decreases found.len(),
{
    if found.len() == 0 {
        ports
    } else {
        merge(merge_one(ports, base, found[0]), base, found.skip(1))
    }
}

/// The authoritative table of known ports and live sessions. `H` is the
/// sending end of a session's command queue.
pub struct Registry<H> {
    ports: Vec<PortInfo>,
    handles: Vec<SessionHandle<H>>,
}

impl<H> View for Registry<H> {
    type V = RegistryView<H>;

    closed spec fn view(&self) -> RegistryView<H> {
        RegistryView { ports: port_views(self.ports@), handles: handle_views(self.handles@) }
    }
}

/// In a list of distinct rows, the place of a name is the place where it is
/// found.
pub proof fn lemma_index_is_unique(ports: Seq<PortInfoView>, i: int)
    requires
        distinct_ports(ports),
        0 <= i < ports.len(),
    ensures
        known(ports, ports[i].port_name),
        index_of(ports, ports[i].port_name) == i,
{
    let name = ports[i].port_name;
    assert(ports[i].port_name == name);
    let j = index_of(ports, name);
    assert(0 <= j < ports.len() && ports[j].port_name == name);
}

/// In a list of distinct handles, the place of a name is the place where it
/// is found.
pub proof fn lemma_handle_index_is_unique<H>(handles: Seq<SessionHandleView<H>>, i: int)
    requires
        distinct_handles(handles),
        0 <= i < handles.len(),
    ensures
        held(handles, handles[i].port_name),
        handle_index(handles, handles[i].port_name) == i,
{
    let name = handles[i].port_name;
    assert(handles[i].port_name == name);
    let j = handle_index(handles, name);
    assert(0 <= j < handles.len() && handles[j].port_name == name);
}

impl<H> Registry<H> {
    /// Whether the registry's invariant holds.
    pub open spec fn wf(&self) -> bool {
        self@.wf()
    }

    /// A registry that knows no port.
    pub fn new() -> (r: Registry<H>)
        ensures
            r.wf(),
            r@.ports == Seq::<PortInfoView>::empty(),
            r@.handles == Seq::<SessionHandleView<H>>::empty(),
    {
        let r = Registry { ports: Vec::new(), handles: Vec::new() };
        assert(r@.ports =~= Seq::<PortInfoView>::empty());
        assert(r@.handles =~= Seq::<SessionHandleView<H>>::empty());
        r
    }

    fn find_port(&self, name: &str) -> (at: Option<usize>)
        requires
            self.wf(),
        ensures
            match at {
                Some(i) => known(self@.ports, name@) && i == index_of(self@.ports, name@) && i
                    < self.ports@.len(),
                None => !known(self@.ports, name@),
            },
    {
        let mut i: usize = 0;
        while i < self.ports.len()
            invariant
                i <= self.ports@.len(),
                self.wf(),
                forall|k: int| 0 <= k < i ==> (#[trigger] self@.ports[k]).port_name != name@,
            decreases self.ports@.len() - i,
        {
            if str_eq(self.ports[i].port_name.as_str(), name) {
                proof {
                    assert(self@.ports[i as int].port_name == name@);
                    lemma_index_is_unique(self@.ports, i as int);
                }
                return Some(i);
            }
            i += 1;
        }
        None
    }

    fn find_handle(&self, name: &str) -> (at: Option<usize>)
        requires
            self.wf(),
        ensures
            match at {
                Some(i) => held(self@.handles, name@) && i == handle_index(self@.handles, name@)
                    && i < self.handles@.len(),
                None => !held(self@.handles, name@),
            },
    {
        let mut i: usize = 0;
        while i < self.handles.len()
            invariant
                i <= self.handles@.len(),
                self.wf(),
                forall|k: int| 0 <= k < i ==> (#[trigger] self@.handles[k]).port_name != name@,
            decreases self.handles@.len() - i,
        {
            if str_eq(self.handles[i].port_name.as_str(), name) {
                proof {
                    assert(self@.handles[i as int].port_name == name@);
                    lemma_handle_index_is_unique(self@.handles, i as int);
                }
                return Some(i);
            }
            i += 1;
        }
        None
    }

    /// The row of a port, if the port is known.
    pub fn get(&self, name: &str) -> (row: Option<&PortInfo>)
        requires
            self.wf(),
        ensures
            match row {
                Some(p) => known(self@.ports, name@) && p@ == self@.ports[index_of(
                    self@.ports,
                    name@,
                )],
                None => !known(self@.ports, name@),
            },
    {
        match self.find_port(name) {
            Some(i) => Some(&self.ports[i]),
            None => None,
        }
    }

    /// Whether a port has a live session.
    pub fn is_open(&self, name: &str) -> (open: bool)
        requires
            self.wf(),
        ensures
            open == held(self@.handles, name@),
    {
        self.find_handle(name).is_some()
    }

    /// A copy of every row, in order of discovery.
    pub fn all(&self) -> (rows: Vec<PortInfo>)
        ensures
            port_views(rows@) == self@.ports,
    {
        let mut rows: Vec<PortInfo> = Vec::new();
        let mut i: usize = 0;
        while i < self.ports.len()
            invariant
                i <= self.ports@.len(),
                rows@.len() == i,
                forall|k: int| 0 <= k < i ==> (#[trigger] rows@[k])@ == self.ports@[k]@,
            decreases self.ports@.len() - i,
        {
            rows.push(self.ports[i].clone());
            i += 1;
        }
        assert(port_views(rows@) =~= self@.ports);
        rows
    }
}

/// Merging one discovered port keeps the registry's invariant, provided
/// every row added by this discovery is still closed.
pub proof fn lemma_merge_one_wf<H>(r: RegistryView<H>, base: int, d: PortDescriptorView)
    requires
        r.wf(),
        0 <= base <= r.ports.len(),
        forall|i: int| base <= i < r.ports.len() ==> (#[trigger] r.ports[i]).port_status is Closed,
    ensures
        (RegistryView { ports: merge_one(r.ports, base, d), handles: r.handles }).wf(),
        merge_one(r.ports, base, d).len() >= r.ports.len(),
        forall|i: int|
            base <= i < merge_one(r.ports, base, d).len() ==> (#[trigger] merge_one(
                r.ports,
                base,
                d,
            )[i]).port_status is Closed,
        forall|i: int| 0 <= i < base ==> merge_one(r.ports, base, d)[i] == r.ports[i],
        forall|i: int|
            0 <= i < r.ports.len() ==> (#[trigger] merge_one(r.ports, base, d)[i]).port_name
                == r.ports[i].port_name,
        known(merge_one(r.ports, base, d), d.name),
{
    let after = merge_one(r.ports, base, d);
    let r2 = RegistryView { ports: after, handles: r.handles };
    if !known(r.ports, d.name) {
        let n = r.ports.len() as int;
        assert(after[n].port_name == d.name);
        assert(!held(r.handles, d.name)) by {
            if held(r.handles, d.name) {
                let j = handle_index(r.handles, d.name);
                assert(known(r.ports, r.handles[j].port_name));
            }
        }
        assert forall|i: int| 0 <= i < after.len() implies ((#[trigger] after[i]).port_status is Opened
            <==> held(r2.handles, after[i].port_name)) by {
            if i < n {
                assert(after[i] == r.ports[i]);
            }
        }
        assert forall|j: int| 0 <= j < r2.handles.len() implies known(
            after,
            (#[trigger] r2.handles[j]).port_name,
        ) by {
            let name = r.handles[j].port_name;
            assert(known(r.ports, name));
            let i = index_of(r.ports, name);
            assert(after[i].port_name == name);
        }
        assert(distinct_ports(after)) by {
            assert forall|i: int, j: int|
                0 <= i < after.len() && 0 <= j < after.len() && #[trigger] after[i].port_name
                    == #[trigger] after[j].port_name implies i == j by {
                if i < n && j < n {
                    assert(r.ports[i].port_name == r.ports[j].port_name);
                } else if i < n {
                    assert(r.ports[i].port_name == d.name);
                } else if j < n {
                    assert(r.ports[j].port_name == d.name);
                }
            }
        }
    } else {
        let at = index_of(r.ports, d.name);
        assert(0 <= at < r.ports.len() && r.ports[at].port_name == d.name);
        if at < base {
            assert(after[at].port_name == d.name);
        } else {
            assert(after[at].port_name == d.name);
            assert(r.ports[at].port_status is Closed);
            assert(!held(r.handles, d.name));
            assert forall|i: int| 0 <= i < after.len() implies ((
            #[trigger] after[i]).port_status is Opened <==> held(
                r2.handles,
                after[i].port_name,
            )) by {
                if i != at {
                    assert(after[i] == r.ports[i]);
                }
            }
            assert forall|j: int| 0 <= j < r2.handles.len() implies known(
                after,
                (#[trigger] r2.handles[j]).port_name,
            ) by {
                let name = r.handles[j].port_name;
                assert(known(r.ports, name));
                let i = index_of(r.ports, name);
                assert(after[i].port_name == name);
            }
            assert(distinct_ports(after)) by {
                assert forall|i: int, j: int|
                    0 <= i < after.len() && 0 <= j < after.len() && #[trigger] after[i].port_name
                        == #[trigger] after[j].port_name implies i == j by {
                    assert(after[i].port_name == r.ports[i].port_name);
                    assert(after[j].port_name == r.ports[j].port_name);
                }
            }
        }
    }
}

impl<H> Registry<H> {
    /// Merges a fresh enumeration of the system's ports into the table and
    /// returns a copy of every row. A port seen for the first time gets a
    /// closed row with zero counters; a port that was known before keeps its
    /// row as it is, open or closed; no row is ever removed.
    pub fn discover(&mut self, found: &Vec<PortDescriptor>) -> (rows: Vec<PortInfo>)
        requires
            old(self).wf(),
        ensures
            final(self).wf(),
            final(self)@.ports == merge(
                old(self)@.ports,
                old(self)@.ports.len() as int,
                descriptor_views(found@),
            ),
            final(self)@.handles == old(self)@.handles,
            port_views(rows@) == final(self)@.ports,
    {
        let base = self.ports.len();
        let ghost all = descriptor_views(found@);
        let mut k: usize = 0;
        proof {
            assert(all.skip(0) =~= all);
        }
        while k < found.len()
            invariant
                self.wf(),
                k <= found@.len(),
                all == descriptor_views(found@),
                base == old(self)@.ports.len(),
                base <= self@.ports.len(),
                self@.handles == old(self)@.handles,
                forall|i: int|
                    base <= i < self@.ports.len() ==> (#[trigger] self@.ports[i]).port_status is Closed,
                merge(old(self)@.ports, base as int, all) == merge(
                    self@.ports,
                    base as int,
                    all.skip(k as int),
                ),
            decreases found@.len() - k,
        {
            let d = &found[k];
            let ghost before = self@;
            proof {
                let rest = all.skip(k as int);
                assert(rest[0] == d@);
                assert(rest.skip(1) =~= all.skip(k + 1));
                lemma_merge_one_wf(before, base as int, d@);
            }
            let row = PortInfo {
                port_name: d.name.clone(),
                port_type: d.port_type.clone(),
                port_status: PortStatus::Closed,
                bytes_read: 0,
                bytes_write: 0,
            };
            assert(row@ == fresh_row(d@));
            match self.find_port(d.name.as_str()) {
                None => {
                    self.ports.push(row);
                    assert(self@.ports =~= before.ports.push(fresh_row(d@)));
                },
                Some(i) => {
                    if i >= base {
                        self.ports.set(i, row);
                        assert(self@.ports =~= before.ports.update(i as int, fresh_row(d@)));
                    }
                },
            }
            assert(self@.ports == merge_one(before.ports, base as int, d@));
            assert(self@.handles == before.handles);
            k += 1;
        }
        self.all()
    }
}

/// What a caller asks for when it opens a port. The four line parameters
/// arrive as tokens and are read before anything else happens.
#[derive(Debug, PartialEq, Eq)]
pub struct OpenRequest {
    pub port_name: String,
    pub baud_rate: u32,
    pub data_bits: String,
    pub flow_control: String,
    pub parity: String,
    pub stop_bits: String,
    pub data_terminal_ready: bool,
    pub timeout_ms: u64,
}

/// Mathematical value of an [`OpenRequest`].
pub struct OpenRequestView {
    pub port_name: Seq<char>,
    pub baud_rate: u32,
    pub data_bits: Seq<char>,
    pub flow_control: Seq<char>,
    pub parity: Seq<char>,
    pub stop_bits: Seq<char>,
    pub data_terminal_ready: bool,
    pub timeout_ms: u64,
}

impl View for OpenRequest {
    type V = OpenRequestView;

    open spec fn view(&self) -> OpenRequestView {
        OpenRequestView {
            port_name: self.port_name@,
            baud_rate: self.baud_rate,
            data_bits: self.data_bits@,
            flow_control: self.flow_control@,
            parity: self.parity@,
            stop_bits: self.stop_bits@,
            data_terminal_ready: self.data_terminal_ready,
            timeout_ms: self.timeout_ms,
        }
    }
}

/// Everything that is settled before the hardware is touched: the profile
/// the port will have, the initial DTR level, and the device identity under
/// which the session's traffic is logged. The session id is minted later,
/// when the session is entered.
#[derive(Debug, PartialEq, Eq)]
pub struct OpenPlan {
    pub port_name: String,
    pub profile: OpenedPortProfile,
    pub data_terminal_ready: bool,
    pub device_fingerprint: String,
}

/// Mathematical value of an [`OpenPlan`].
pub struct OpenPlanView {
    pub port_name: Seq<char>,
    pub profile: OpenedPortProfile,
    pub data_terminal_ready: bool,
    pub device_fingerprint: Seq<char>,
}

impl View for OpenPlan {
    type V = OpenPlanView;

    open spec fn view(&self) -> OpenPlanView {
        OpenPlanView {
            port_name: self.port_name@,
            profile: self.profile,
            data_terminal_ready: self.data_terminal_ready,
            device_fingerprint: self.device_fingerprint@,
        }
    }
}

/// What a successful open hands back, so that log queries can be scoped.
#[derive(Debug, PartialEq, Eq)]
pub struct OpenPortResult {
    pub session_id: String,
}

/// The profile that a request asks for, with every modem line low; or the
/// configuration error for the first token that names no setting, taken in
/// the order data bits, flow control, parity, stop bits.
pub open spec fn requested_profile(req: OpenRequestView) -> Result<
    OpenedPortProfile,
    SerialErrorView,
> {
    if data_bits_of(req.data_bits) is None {
        Err(SerialErrorView::InvalidConfig("unknown data bits: "@ + req.data_bits))
    } else if flow_control_of(req.flow_control) is None {
        Err(SerialErrorView::InvalidConfig("unknown flow control: "@ + req.flow_control))
    } else if parity_of(req.parity) is None {
        Err(SerialErrorView::InvalidConfig("unknown parity: "@ + req.parity))
    } else if stop_bits_of(req.stop_bits) is None {
        Err(SerialErrorView::InvalidConfig("unknown stop bits: "@ + req.stop_bits))
    } else {
        Ok(
            OpenedPortProfile {
                baud_rate: req.baud_rate,
                flow_control: flow_control_of(req.flow_control)->Some_0,
                data_bits: data_bits_of(req.data_bits)->Some_0,
                parity: parity_of(req.parity)->Some_0,
                stop_bits: stop_bits_of(req.stop_bits)->Some_0,
                carrier_detect: false,
                clear_to_send: false,
                data_set_ready: false,
                ring_indicator: false,
                timeout_ms: req.timeout_ms,
            },
        )
    }
}

/// The outcome of planning an open: a configuration error first, then an
/// unknown name, then a name that is already open; otherwise the plan.
pub open spec fn plan_spec<H>(r: RegistryView<H>, req: OpenRequestView) -> Result<
    OpenPlanView,
    SerialErrorView,
> {
    match requested_profile(req) {
        Err(e) => Err(e),
        Ok(profile) => if !known(r.ports, req.port_name) {
            Err(SerialErrorView::PortNotFound(req.port_name))
        } else if held(r.handles, req.port_name) {
            Err(SerialErrorView::PortAlreadyOpen(req.port_name))
        } else {
            Ok(
                OpenPlanView {
                    port_name: req.port_name,
                    profile,
                    data_terminal_ready: req.data_terminal_ready,
                    device_fingerprint: fingerprint_of(
                        req.port_name,
                        r.ports[index_of(r.ports, req.port_name)].port_type,
                    ),
                },
            )
        },
    }
}

/// Whether an outcome has the given mathematical value.
pub open spec fn plan_matches(
    res: Result<OpenPlan, SerialError>,
    expected: Result<OpenPlanView, SerialErrorView>,
) -> bool {
    match res {
        Ok(plan) => expected == Ok::<OpenPlanView, SerialErrorView>(plan@),
        Err(e) => expected == Err::<OpenPlanView, SerialErrorView>(e@),
    }
}

/// What can be refused before the system's ports are enumerated: a line
/// parameter that names no setting, or a port that already has a live
/// session. Whether the name is known is decided after the enumeration.
pub open spec fn early_refusal<H>(r: RegistryView<H>, req: OpenRequestView) -> Option<
    SerialErrorView,
> {
    match requested_profile(req) {
        Err(e) => Some(e),
        Ok(_) => if held(r.handles, req.port_name) {
            Some(SerialErrorView::PortAlreadyOpen(req.port_name))
        } else {
            None
        },
    }
}

/// The registry after a session for `name` is entered: the row is open with
/// the given profile and the handle is held.
pub open spec fn opened<H>(
    r: RegistryView<H>,
    name: Seq<char>,
    profile: OpenedPortProfile,
    handle: SessionHandleView<H>,
) -> RegistryView<H> {
    RegistryView {
        ports: r.ports.update(
            index_of(r.ports, name),
            PortInfoView {
                port_status: PortStatus::Opened(profile),
                ..r.ports[index_of(r.ports, name)]
            },
        ),
        handles: r.handles.push(handle),
    }
}

/// The registry after the session for `name` is gone: the row, if there is
/// one, is closed, and no handle for the name is held.
pub open spec fn closed<H>(r: RegistryView<H>, name: Seq<char>) -> RegistryView<H> {
    RegistryView {
        ports: if known(r.ports, name) {
            r.ports.update(
                index_of(r.ports, name),
                PortInfoView {
                    port_status: PortStatus::Closed,
                    ..r.ports[index_of(r.ports, name)]
                },
            )
        } else {
            r.ports
        },
        handles: if held(r.handles, name) {
            r.handles.remove(handle_index(r.handles, name))
        } else {
            r.handles
        },
    }
}

/// The outcome of entering the session of a plan under a session id: the
/// registry with the port open and the handle held, or the error for a name
/// that is unknown or has a live session by now.
pub open spec fn commit_spec<H>(
    r: RegistryView<H>,
    plan: OpenPlanView,
    session_id: Seq<char>,
    sender: H,
) -> Result<RegistryView<H>, SerialErrorView> {
    if !known(r.ports, plan.port_name) {
        Err(SerialErrorView::PortNotFound(plan.port_name))
    } else if held(r.handles, plan.port_name) {
        Err(SerialErrorView::PortAlreadyOpen(plan.port_name))
    } else {
        Ok(
            opened(
                r,
                plan.port_name,
                plan.profile,
                SessionHandleView { port_name: plan.port_name, session_id, sender },
            ),
        )
    }
}

/// Whether the session `session_id` is the one that holds the port `name`.
pub open spec fn owns<H>(r: RegistryView<H>, name: Seq<char>, session_id: Seq<char>) -> bool {
    held(r.handles, name) && r.handles[handle_index(r.handles, name)].session_id == session_id
}

/// The registry after the session `session_id` of the port `name` has
/// ended: if that session holds the port, the port is closed and its handle
/// is gone; the end of any other session changes nothing.
pub open spec fn settled<H>(
    r: RegistryView<H>,
    name: Seq<char>,
    session_id: Seq<char>,
) -> RegistryView<H> {
    if owns(r, name, session_id) {
        closed(r, name)
    } else {
        r
    }
}

/// A byte counter after `n` more bytes; it stops at the largest value it can
/// hold.
pub open spec fn counted(total: u128, n: nat) -> u128 {
    if total + n > u128::MAX {
        u128::MAX
    } else {
        (total + n) as u128
    }
}

/// The rows after `n` bytes read are counted for `name`.
pub open spec fn with_read(ports: Seq<PortInfoView>, name: Seq<char>, n: nat) -> Seq<
    PortInfoView,
> {
    if known(ports, name) {
        let i = index_of(ports, name);
        ports.update(i, PortInfoView { bytes_read: counted(ports[i].bytes_read, n), ..ports[i] })
    } else {
        ports
    }
}

/// The rows after `n` bytes written are counted for `name`.
pub open spec fn with_written(ports: Seq<PortInfoView>, name: Seq<char>, n: nat) -> Seq<
    PortInfoView,
> {
    if known(ports, name) {
        let i = index_of(ports, name);
        ports.update(
            i,
            PortInfoView { bytes_write: counted(ports[i].bytes_write, n), ..ports[i] },
        )
    } else {
        ports
    }
}

/// Whether a modem snapshot would change the row of `name`: the port is open
/// and at least one line differs from the profile.
pub open spec fn status_changes(ports: Seq<PortInfoView>, name: Seq<char>, status: ModemStatus) -> bool {
    known(ports, name) && (match ports[index_of(ports, name)].port_status {
        PortStatus::Opened(profile) => profile.lines() != status,
        PortStatus::Closed => false,
    })
}

/// The rows after a modem snapshot is recorded for `name`.
pub open spec fn with_status(ports: Seq<PortInfoView>, name: Seq<char>, status: ModemStatus) -> Seq<
    PortInfoView,
> {
    if status_changes(ports, name, status) {
        let i = index_of(ports, name);
        ports.update(
            i,
            PortInfoView {
                port_status: PortStatus::Opened(
                    ports[i].port_status->Opened_0.with_lines(status),
                ),
                ..ports[i]
            },
        )
    } else {
        ports
    }
}

/// Replacing a row by one of the same name that is open exactly if the old
/// one was keeps the registry's invariant.
pub proof fn lemma_update_keeps_wf<H>(r: RegistryView<H>, i: int, row: PortInfoView)
    requires
        r.wf(),
        0 <= i < r.ports.len(),
        row.port_name == r.ports[i].port_name,
        row.port_status is Opened <==> r.ports[i].port_status is Opened,
    ensures
        (RegistryView { ports: r.ports.update(i, row), handles: r.handles }).wf(),
{
    let after = r.ports.update(i, row);
    assert forall|k: int| 0 <= k < after.len() implies (#[trigger] after[k]).port_name
        == r.ports[k].port_name by {}
    assert(distinct_ports(after)) by {
        assert forall|a: int, b: int|
            0 <= a < after.len() && 0 <= b < after.len() && #[trigger] after[a].port_name
                == #[trigger] after[b].port_name implies a == b by {
            assert(r.ports[a].port_name == r.ports[b].port_name);
        }
    }
    assert forall|k: int| 0 <= k < after.len() implies ((#[trigger] after[k]).port_status is Opened
        <==> held(r.handles, after[k].port_name)) by {
        assert(r.ports[k].port_status is Opened <==> held(r.handles, r.ports[k].port_name));
    }
    assert forall|j: int| 0 <= j < r.handles.len() implies known(
        after,
        (#[trigger] r.handles[j]).port_name,
    ) by {
        let name = r.handles[j].port_name;
        assert(known(r.ports, name));
        let k = index_of(r.ports, name);
        assert(after[k].port_name == name);
    }
}

/// Entering a session for a known port that has none keeps the registry's
/// invariant.
pub proof fn lemma_opened_wf<H>(
    r: RegistryView<H>,
    name: Seq<char>,
    profile: OpenedPortProfile,
    handle: SessionHandleView<H>,
)
    requires
        r.wf(),
        known(r.ports, name),
        !held(r.handles, name),
        handle.port_name == name,
    ensures
        opened(r, name, profile, handle).wf(),
        held(opened(r, name, profile, handle).handles, name),
        known(opened(r, name, profile, handle).ports, name),
        opened(r, name, profile, handle).ports[index_of(r.ports, name)].port_status
            == PortStatus::Opened(profile),
{
    let after = opened(r, name, profile, handle);
    let i = index_of(r.ports, name);
    assert(0 <= i < r.ports.len() && r.ports[i].port_name == name);
    let n = r.handles.len() as int;
    assert(after.handles[n].port_name == name);
    assert(after.ports[i].port_name == name);
    assert forall|k: int| 0 <= k < after.ports.len() implies (#[trigger] after.ports[k]).port_name
        == r.ports[k].port_name by {}
    assert(distinct_ports(after.ports)) by {
        assert forall|a: int, b: int|
            0 <= a < after.ports.len() && 0 <= b < after.ports.len()
                && #[trigger] after.ports[a].port_name
                == #[trigger] after.ports[b].port_name implies a == b by {
            assert(r.ports[a].port_name == r.ports[b].port_name);
        }
    }
    assert(distinct_handles(after.handles)) by {
        assert forall|a: int, b: int|
            0 <= a < after.handles.len() && 0 <= b < after.handles.len()
                && #[trigger] after.handles[a].port_name
                == #[trigger] after.handles[b].port_name implies a == b by {
            if a < n && b < n {
                assert(r.handles[a].port_name == r.handles[b].port_name);
            } else if a < n {
                assert(r.handles[a].port_name == name);
            } else if b < n {
                assert(r.handles[b].port_name == name);
            }
        }
    }
    assert forall|k: int| 0 <= k < after.ports.len() implies ((
    #[trigger] after.ports[k]).port_status is Opened <==> held(
        after.handles,
        after.ports[k].port_name,
    )) by {
        let pname = after.ports[k].port_name;
        assert(r.ports[k].port_status is Opened <==> held(r.handles, r.ports[k].port_name));
        if k == i {
        } else {
            assert(r.ports[k].port_name != name);
            if held(r.handles, pname) {
                let j = handle_index(r.handles, pname);
                assert(after.handles[j].port_name == pname);
            }
            if held(after.handles, pname) {
                let j = handle_index(after.handles, pname);
                assert(j < n);
                assert(r.handles[j].port_name == pname);
            }
        }
    }
    assert forall|j: int| 0 <= j < after.handles.len() implies known(
        after.ports,
        (#[trigger] after.handles[j]).port_name,
    ) by {
        if j < n {
            let hname = r.handles[j].port_name;
            assert(known(r.ports, hname));
            let k = index_of(r.ports, hname);
            assert(after.ports[k].port_name == hname);
        }
    }
}

/// Dropping the session of a port keeps the registry's invariant, and leaves
/// the port closed with no handle held.
pub proof fn lemma_closed_wf<H>(r: RegistryView<H>, name: Seq<char>)
    requires
        r.wf(),
    ensures
        closed(r, name).wf(),
        !held(closed(r, name).handles, name),
        known(r.ports, name) ==> known(closed(r, name).ports, name) && closed(
            r,
            name,
        ).ports[index_of(r.ports, name)].port_status == PortStatus::Closed,
        closed(r, name).ports.len() == r.ports.len(),
{
    let after = closed(r, name);
    assert forall|k: int| 0 <= k < after.ports.len() implies (#[trigger] after.ports[k]).port_name
        == r.ports[k].port_name by {}
    assert(distinct_ports(after.ports)) by {
        assert forall|a: int, b: int|
            0 <= a < after.ports.len() && 0 <= b < after.ports.len()
                && #[trigger] after.ports[a].port_name
                == #[trigger] after.ports[b].port_name implies a == b by {
            assert(r.ports[a].port_name == r.ports[b].port_name);
        }
    }
    if held(r.handles, name) {
        let j = handle_index(r.handles, name);
        assert(0 <= j < r.handles.len() && r.handles[j].port_name == name);
        assert(known(r.ports, r.handles[j].port_name));
        let i = index_of(r.ports, name);
        assert(0 <= i < r.ports.len() && r.ports[i].port_name == name);
        assert(after.ports[i].port_name == name);
        assert forall|a: int| 0 <= a < after.handles.len() implies (
        #[trigger] after.handles[a]).port_name != name by {
            if a < j {
                assert(r.handles[a].port_name != name);
            } else {
                assert(after.handles[a] == r.handles[a + 1]);
                assert(r.handles[a + 1].port_name != name);
            }
        }
        assert(distinct_handles(after.handles)) by {
            assert forall|a: int, b: int|
                0 <= a < after.handles.len() && 0 <= b < after.handles.len()
                    && #[trigger] after.handles[a].port_name
                    == #[trigger] after.handles[b].port_name implies a == b by {
                let a0 = if a < j {
                    a
                } else {
                    a + 1
                };
                let b0 = if b < j {
                    b
                } else {
                    b + 1
                };
                assert(after.handles[a] == r.handles[a0]);
                assert(after.handles[b] == r.handles[b0]);
                assert(r.handles[a0].port_name == r.handles[b0].port_name);
            }
        }
        assert forall|k: int| 0 <= k < after.ports.len() implies ((
        #[trigger] after.ports[k]).port_status is Opened <==> held(
            after.handles,
            after.ports[k].port_name,
        )) by {
            let pname = after.ports[k].port_name;
            assert(r.ports[k].port_status is Opened <==> held(r.handles, r.ports[k].port_name));
            if k == i {
            } else {
                assert(pname != name);
                if held(r.handles, pname) {
                    let h = handle_index(r.handles, pname);
                    assert(h != j);
                    let h2 = if h < j {
                        h
                    } else {
                        h - 1
                    };
                    assert(after.handles[h2] == r.handles[h]);
                    assert(after.handles[h2].port_name == pname);
                }
                if held(after.handles, pname) {
                    let h = handle_index(after.handles, pname);
                    let h0 = if h < j {
                        h
                    } else {
                        h + 1
                    };
                    assert(after.handles[h] == r.handles[h0]);
                    assert(r.handles[h0].port_name == pname);
                }
            }
        }
        assert forall|a: int| 0 <= a < after.handles.len() implies known(
            after.ports,
            (#[trigger] after.handles[a]).port_name,
        ) by {
            let a0 = if a < j {
                a
            } else {
                a + 1
            };
            assert(after.handles[a] == r.handles[a0]);
            let hname = r.handles[a0].port_name;
            assert(known(r.ports, hname));
            let k = index_of(r.ports, hname);
            assert(after.ports[k].port_name == hname);
        }
    } else {
        if known(r.ports, name) {
            let i = index_of(r.ports, name);
            assert(0 <= i < r.ports.len() && r.ports[i].port_name == name);
            assert(r.ports[i].port_status is Opened <==> held(r.handles, r.ports[i].port_name));
            assert(after.ports[i].port_name == name);
            lemma_update_keeps_wf(
                r,
                i,
                PortInfoView { port_status: PortStatus::Closed, ..r.ports[i] },
            );
        }
    }
}

fn parse_profile(req: &OpenRequest) -> (res: Result<OpenedPortProfile, SerialError>)
    ensures
        match res {
            Ok(p) => requested_profile(req@) == Ok::<OpenedPortProfile, SerialErrorView>(p),
            Err(e) => requested_profile(req@) == Err::<OpenedPortProfile, SerialErrorView>(e@),
        },
{
    let data_bits = match DataBits::from_str(req.data_bits.as_str()) {
        Ok(v) => v,
        Err(e) => {
            return Err(e);
        },
    };
    let flow_control = match FlowControl::from_str(req.flow_control.as_str()) {
        Ok(v) => v,
        Err(e) => {
            return Err(e);
        },
    };
    let parity = match Parity::from_str(req.parity.as_str()) {
        Ok(v) => v,
        Err(e) => {
            return Err(e);
        },
    };
    let stop_bits = match StopBits::from_str(req.stop_bits.as_str()) {
        Ok(v) => v,
        Err(e) => {
            return Err(e);
        },
    };
    Ok(
        OpenedPortProfile {
            baud_rate: req.baud_rate,
            flow_control,
            data_bits,
            parity,
            stop_bits,
            carrier_detect: false,
            clear_to_send: false,
            data_set_ready: false,
            ring_indicator: false,
            timeout_ms: req.timeout_ms,
        },
    )
}

impl<H> Registry<H> {
    /// Refuses what can be refused before the system's ports are enumerated:
    /// first a bad line parameter, then a port that is already open. The
    /// registry is not changed, so a second open of an open port has no side
    /// effect.
    pub fn check_request(&self, req: &OpenRequest) -> (res: Result<(), SerialError>)
        requires
            self.wf(),
        ensures
            match res {
                Ok(_) => early_refusal(self@, req@) is None,
                Err(e) => early_refusal(self@, req@) == Some(e@),
            },
    {
        match parse_profile(req) {
            Ok(_) => {},
            Err(e) => {
                return Err(e);
            },
        }
        if self.find_handle(req.port_name.as_str()).is_some() {
            return Err(SerialError::PortAlreadyOpen(req.port_name.clone()));
        }
        Ok(())
    }

    /// Settles an open before the hardware is touched. The line parameters
    /// are read first, so a bad token is reported whatever the registry
    /// holds; then the name must be known and must have no live session. The
    /// registry is not changed.
    pub fn plan_open(&self, req: &OpenRequest) -> (res: Result<OpenPlan, SerialError>)
        requires
            self.wf(),
        ensures
            plan_matches(res, plan_spec(self@, req@)),
    {
        let profile = match parse_profile(req) {
            Ok(p) => p,
            Err(e) => {
                return Err(e);
            },
        };
        let name = req.port_name.as_str();
        let at = match self.find_port(name) {
            Some(i) => i,
            None => {
                return Err(SerialError::PortNotFound(req.port_name.clone()));
            },
        };
        if self.find_handle(name).is_some() {
            return Err(SerialError::PortAlreadyOpen(req.port_name.clone()));
        }
        let device_fingerprint = generate_device_fingerprint(name, &self.ports[at].port_type);
        Ok(
            OpenPlan {
                port_name: req.port_name.clone(),
                profile,
                data_terminal_ready: req.data_terminal_ready,
                device_fingerprint,
            },
        )
    }

    /// Enters the session of a plan whose hardware is open, under the given
    /// session id: the row becomes open with the plan's profile and the
    /// handle is held. If the name is unknown, or has a live session by now,
    /// nothing changes and the sender is dropped.
    pub fn commit_open(&mut self, plan: OpenPlan, session_id: String, sender: H) -> (res: Result<
        OpenPortResult,
        SerialError,
    >)
        requires
            old(self).wf(),
        ensures
            final(self).wf(),
            match res {
                Ok(r) => r.session_id@ == session_id@ && commit_spec(
                    old(self)@,
                    plan@,
                    session_id@,
                    sender,
                ) == Ok::<RegistryView<H>, SerialErrorView>(final(self)@),
                Err(e) => final(self)@ == old(self)@ && commit_spec(
                    old(self)@,
                    plan@,
                    session_id@,
                    sender,
                ) == Err::<RegistryView<H>, SerialErrorView>(e@),
            },
    {
        let at = match self.find_port(plan.port_name.as_str()) {
            Some(i) => i,
            None => {
                return Err(SerialError::PortNotFound(plan.port_name));
            },
        };
        if self.find_handle(plan.port_name.as_str()).is_some() {
            return Err(SerialError::PortAlreadyOpen(plan.port_name));
        }
        let ghost before = self@;
        let ghost hv = SessionHandleView {
            port_name: plan@.port_name,
            session_id: session_id@,
            sender,
        };
        proof {
            lemma_opened_wf(before, plan@.port_name, plan.profile, hv);
        }
        let mut row = self.ports[at].clone();
        row.port_status = PortStatus::Opened(plan.profile);
        self.ports.set(at, row);
        let result = OpenPortResult { session_id: session_id.clone() };
        self.handles.push(SessionHandle { port_name: plan.port_name, session_id, sender });
        proof {
            let want = opened(before, plan@.port_name, plan.profile, hv);
            assert(self@.ports =~= want.ports);
            assert(self@.handles =~= want.handles);
        }
        Ok(result)
    }

    /// Enters the session of a plan whose hardware is open and mints the
    /// session id for it. The id is minted only once nothing can refuse the
    /// session any more: an unknown name and a live session are reported
    /// before the generator is reached. The id is random; whatever it is, the
    /// outcome is the one that entering under that id gives.
    pub fn enter_session(&mut self, plan: OpenPlan, sender: H) -> (res: Result<
        OpenPortResult,
        SerialError,
    >)
        requires
            old(self).wf(),
        ensures
            final(self).wf(),
            match res {
                Ok(r) => r.session_id@.len() == 36 && commit_spec(
                    old(self)@,
                    plan@,
                    r.session_id@,
                    sender,
                ) == Ok::<RegistryView<H>, SerialErrorView>(final(self)@),
                Err(e) => final(self)@ == old(self)@ && (forall|id: Seq<char>| #[trigger]
                    commit_spec(old(self)@, plan@, id, sender) == Err::<
                        RegistryView<H>,
                        SerialErrorView,
                    >(e@)),
            },
    {
        if self.find_port(plan.port_name.as_str()).is_none() {
            return Err(SerialError::PortNotFound(plan.port_name));
        }
        if self.find_handle(plan.port_name.as_str()).is_some() {
            return Err(SerialError::PortAlreadyOpen(plan.port_name));
        }
        let session_id = generate_session_id();
        self.commit_open(plan, session_id, sender)
    }

    /// The live handle of a port, or the not-open error.
    pub fn handle(&self, name: &str) -> (res: Result<&SessionHandle<H>, SerialError>)
        requires
            self.wf(),
        ensures
            match res {
                Ok(h) => held(self@.handles, name@) && h@ == self@.handles[handle_index(
                    self@.handles,
                    name@,
                )],
                Err(e) => !held(self@.handles, name@) && e@ == SerialErrorView::PortNotOpen(
                    name@,
                ),
            },
    {
        match self.find_handle(name) {
            Some(i) => Ok(&self.handles[i]),
            None => Err(SerialError::PortNotOpen(name.to_owned())),
        }
    }

    /// Counts `n` more bytes read on a port. An unknown name changes nothing.
    pub fn record_read(&mut self, name: &str, n: usize)
        requires
            old(self).wf(),
        ensures
            final(self).wf(),
            final(self)@.ports == with_read(old(self)@.ports, name@, n as nat),
            final(self)@.handles == old(self)@.handles,
    {
        match self.find_port(name) {
            Some(i) => {
                let ghost before = self@;
                let mut row = self.ports[i].clone();
                row.bytes_read = row.bytes_read.saturating_add(n as u128);
                proof {
                    lemma_update_keeps_wf(before, i as int, row@);
                }
                self.ports.set(i, row);
                assert(self@.ports =~= with_read(before.ports, name@, n as nat));
                assert(self@.handles == before.handles);
            },
            None => {},
        }
    }

    /// Counts `n` more bytes written on a port, whether or not the write
    /// succeeded. An unknown name changes nothing.
    pub fn record_written(&mut self, name: &str, n: usize)
        requires
            old(self).wf(),
        ensures
            final(self).wf(),
            final(self)@.ports == with_written(old(self)@.ports, name@, n as nat),
            final(self)@.handles == old(self)@.handles,
    {
        match self.find_port(name) {
            Some(i) => {
                let ghost before = self@;
                let mut row = self.ports[i].clone();
                row.bytes_write = row.bytes_write.saturating_add(n as u128);
                proof {
                    lemma_update_keeps_wf(before, i as int, row@);
                }
                self.ports.set(i, row);
                assert(self@.ports =~= with_written(before.ports, name@, n as nat));
                assert(self@.handles == before.handles);
            },
            None => {},
        }
    }

    /// Records a snapshot of the modem lines for an open port and says
    /// whether it changed the row. A closed or unknown port is left alone.
    pub fn update_modem_status(&mut self, name: &str, status: ModemStatus) -> (changed: bool)
        requires
            old(self).wf(),
        ensures
            final(self).wf(),
            changed == status_changes(old(self)@.ports, name@, status),
            final(self)@.ports == with_status(old(self)@.ports, name@, status),
            final(self)@.handles == old(self)@.handles,
    {
        match self.find_port(name) {
            Some(i) => {
                match self.ports[i].port_status {
                    PortStatus::Opened(profile) => {
                        if profile.modem_lines().differs_from(&status) {
                            let ghost before = self@;
                            let mut row = self.ports[i].clone();
                            let mut updated = profile;
                            updated.carrier_detect = status.cd;
                            updated.clear_to_send = status.cts;
                            updated.data_set_ready = status.dsr;
                            updated.ring_indicator = status.ring;
                            row.port_status = PortStatus::Opened(updated);
                            proof {
                                assert(updated == profile.with_lines(status));
                                lemma_update_keeps_wf(before, i as int, row@);
                            }
                            self.ports.set(i, row);
                            assert(self@.ports =~= with_status(before.ports, name@, status));
                            assert(self@.handles == before.handles);
                            true
                        } else {
                            false
                        }
                    },
                    PortStatus::Closed => false,
                }
            },
            None => false,
        }
    }

    /// Settles the registry after a session has ended, for whatever reason.
    /// If the session is the one that holds the port, first the row is
    /// closed, then the handle is taken out and returned. A session that does
    /// not hold the port leaves the registry as it is.
    pub fn session_exited(&mut self, name: &str, session_id: &str) -> (gone: Option<
        SessionHandle<H>,
    >)
        requires
            old(self).wf(),
        ensures
            final(self).wf(),
            final(self)@ == settled(old(self)@, name@, session_id@),
            match gone {
                Some(h) => owns(old(self)@, name@, session_id@) && h@
                    == old(self)@.handles[handle_index(old(self)@.handles, name@)],
                None => !owns(old(self)@, name@, session_id@),
            },
    {
        let ghost before = self@;
        let at = match self.find_handle(name) {
            Some(at) => at,
            None => {
                return None;
            },
        };
        if !str_eq(self.handles[at].session_id.as_str(), session_id) {
            return None;
        }
        proof {
            lemma_closed_wf(before, name@);
            assert(known(before.ports, before.handles[at as int].port_name));
        }
        match self.find_port(name) {
            Some(i) => {
                let mut row = self.ports[i].clone();
                row.port_status = PortStatus::Closed;
                self.ports.set(i, row);
            },
            None => {},
        }
        assert(self@.ports =~= closed(before, name@).ports);
        let h = self.handles.remove(at);
        assert(self@.handles =~= closed(before, name@).handles);
        Some(h)
    }
}

} // verus!
