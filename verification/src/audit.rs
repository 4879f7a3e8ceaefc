use vstd::prelude::*;
use vstd::string::StringExecFns;
use crate::command::clone_bytes;
use crate::port::{clone_opt_text, opt_text};
use crate::text::str_eq;

verus! {

/// Which way a logged transfer went.
#[derive(Clone, Copy, Debug, PartialEq, Eq, Structural)]
pub enum Direction {
    /// From the device to the caller.
    Rx,
    /// From the caller to the device.
    Tx,
}

impl Direction {
    /// The stored word for this direction.
    pub open spec fn word(self) -> Seq<char> {
        match self {
            Direction::Rx => "RX"@,
            Direction::Tx => "TX"@,
        }
    }

    /// The stored word for this direction: `RX` or `TX`.
    pub fn to_text(&self) -> (s: String)
        ensures
            s@ == self.word(),
    {
        match self {
            Direction::Rx => String::from_str("RX"),
            Direction::Tx => String::from_str("TX"),
        }
    }
}

/// A transfer that is to be logged; the store adds the id and the time.
#[derive(Debug, PartialEq, Eq)]
pub struct AuditDraft {
    pub device_fingerprint: String,
    pub session_id: String,
    pub vid: Option<String>,
    pub pid: Option<String>,
    pub serial_number: Option<String>,
    pub port_name: String,
    pub direction: Direction,
    pub data: Vec<u8>,
}

/// Mathematical value of an [`AuditDraft`].
pub struct AuditDraftView {
    pub device_fingerprint: Seq<char>,
    pub session_id: Seq<char>,
    pub vid: Option<Seq<char>>,
    pub pid: Option<Seq<char>>,
    pub serial_number: Option<Seq<char>>,
    pub port_name: Seq<char>,
    pub direction: Direction,
    pub data: Seq<u8>,
}

impl View for AuditDraft {
    type V = AuditDraftView;

    open spec fn view(&self) -> AuditDraftView {
        AuditDraftView {
            device_fingerprint: self.device_fingerprint@,
            session_id: self.session_id@,
            vid: opt_text(self.vid),
            pid: opt_text(self.pid),
            serial_number: opt_text(self.serial_number),
            port_name: self.port_name@,
            direction: self.direction,
            data: self.data@,
        }
    }
}

/// One logged transfer. Immutable once written.
#[derive(Debug, PartialEq, Eq)]
pub struct AuditRecord {
    pub id: i64,
    pub device_fingerprint: String,
    pub session_id: String,
    pub vid: Option<String>,
    pub pid: Option<String>,
    pub serial_number: Option<String>,
    pub port_name: String,
    pub direction: Direction,
    pub timestamp_ms: i64,
    pub data: Vec<u8>,
}

/// Mathematical value of an [`AuditRecord`].
pub struct AuditRecordView {
    pub id: i64,
    pub device_fingerprint: Seq<char>,
    pub session_id: Seq<char>,
    pub vid: Option<Seq<char>>,
    pub pid: Option<Seq<char>>,
    pub serial_number: Option<Seq<char>>,
    pub port_name: Seq<char>,
    pub direction: Direction,
    pub timestamp_ms: i64,
    pub data: Seq<u8>,
}

impl View for AuditRecord {
    type V = AuditRecordView;

    open spec fn view(&self) -> AuditRecordView {
        AuditRecordView {
            id: self.id,
            device_fingerprint: self.device_fingerprint@,
            session_id: self.session_id@,
            vid: opt_text(self.vid),
            pid: opt_text(self.pid),
            serial_number: opt_text(self.serial_number),
            port_name: self.port_name@,
            direction: self.direction,
            timestamp_ms: self.timestamp_ms,
            data: self.data@,
        }
    }
}

impl Clone for AuditRecord {
    fn clone(&self) -> (c: AuditRecord)
        ensures
            c@ == self@,
    {
        AuditRecord {
            id: self.id,
            device_fingerprint: self.device_fingerprint.clone(),
            session_id: self.session_id.clone(),
            vid: clone_opt_text(&self.vid),
            pid: clone_opt_text(&self.pid),
            serial_number: clone_opt_text(&self.serial_number),
            port_name: self.port_name.clone(),
            direction: self.direction,
            timestamp_ms: self.timestamp_ms,
            data: clone_bytes(&self.data),
        }
    }
}

/// The record that the store writes for a draft.
pub open spec fn recorded(draft: AuditDraftView, id: i64, timestamp_ms: i64) -> AuditRecordView {
    AuditRecordView {
        id,
        device_fingerprint: draft.device_fingerprint,
        session_id: draft.session_id,
        vid: draft.vid,
        pid: draft.pid,
        serial_number: draft.serial_number,
        port_name: draft.port_name,
        direction: draft.direction,
        timestamp_ms,
        data: draft.data,
    }
}

/// The mathematical values of a list of records, in order.
pub open spec fn record_views(records: Seq<AuditRecord>) -> Seq<AuditRecordView> {
    Seq::new(records.len(), |i: int| records[i]@)
}

/// A list of records, newest first, after one more record is put in: it
/// goes behind every record that is as new or newer.
pub open spec fn insert_desc(sorted: Seq<AuditRecordView>, r: AuditRecordView) -> Seq<
    AuditRecordView,
>
    decreases sorted.len(),
{
    if sorted.len() == 0 {
        seq![r]
    } else if sorted.last().timestamp_ms >= r.timestamp_ms {
        sorted.push(r)
    } else {
        insert_desc(sorted.drop_last(), r).push(sorted.last())
    }
}

/// The records of one session, newest first; records of the same time stay
/// in the order in which they were written.
pub open spec fn session_newest_first(log: Seq<AuditRecordView>, session_id: Seq<char>) -> Seq<
    AuditRecordView,
>
    decreases log.len(),
{
    if log.len() == 0 {
        Seq::empty()
    } else if log.last().session_id == session_id {
        insert_desc(session_newest_first(log.drop_last(), session_id), log.last())
    } else {
        session_newest_first(log.drop_last(), session_id)
    }
}

/// The records of one device, newest first; records of the same time stay
/// in the order in which they were written.
pub open spec fn device_newest_first(log: Seq<AuditRecordView>, fingerprint: Seq<char>) -> Seq<
    AuditRecordView,
>
    decreases log.len(),
{
    if log.len() == 0 {
        Seq::empty()
    } else if log.last().device_fingerprint == fingerprint {
        insert_desc(device_newest_first(log.drop_last(), fingerprint), log.last())
    } else {
        device_newest_first(log.drop_last(), fingerprint)
    }
}

/// One page of a list: at most `limit` entries, after the first `offset`.
pub open spec fn page(s: Seq<AuditRecordView>, limit: nat, offset: nat) -> Seq<AuditRecordView> {
    let from = if offset < s.len() {
        offset as int
    } else {
        s.len() as int
    };
    let to = if offset + limit < s.len() {
        (offset + limit) as int
    } else {
        s.len() as int
    };
    s.subrange(from, to)
}

/// Putting a record in at place `at` is what `insert_desc` does, when every
/// record from `at` on is older and the record in front of `at`, if there is
/// one, is as new or newer.
pub proof fn lemma_insert_desc_at(sorted: Seq<AuditRecordView>, r: AuditRecordView, at: int)
    requires
        0 <= at <= sorted.len(),
        forall|k: int| at <= k < sorted.len() ==> (#[trigger] sorted[k]).timestamp_ms
            < r.timestamp_ms,
        at > 0 ==> sorted[at - 1].timestamp_ms >= r.timestamp_ms,
    ensures
        insert_desc(sorted, r) == sorted.insert(at, r),
    decreases sorted.len() - at,
{
    if sorted.len() == 0 {
        assert(sorted.insert(at, r) =~= seq![r]);
    } else if at == sorted.len() {
        assert(sorted.insert(at, r) =~= sorted.push(r));
    } else {
        let front = sorted.drop_last();
        assert(sorted.last().timestamp_ms < r.timestamp_ms);
        assert forall|k: int| at <= k < front.len() implies (#[trigger] front[k]).timestamp_ms
            < r.timestamp_ms by {
            assert(front[k] == sorted[k]);
        }
        if at > 0 {
            assert(front[at - 1] == sorted[at - 1]);
        }
        lemma_insert_desc_at(front, r, at);
        assert(front.insert(at, r).push(sorted.last()) =~= sorted.insert(at, r));
    }
}

/// The append-only journal of transfers. Ids are given by the journal,
/// counting up from one; nothing is ever changed or removed.
pub struct AuditLog {
    records: Vec<AuditRecord>,
}

impl View for AuditLog {
    type V = Seq<AuditRecordView>;

    closed spec fn view(&self) -> Seq<AuditRecordView> {
        record_views(self.records@)
    }
}

/// The ids of a journal count up from one in the order of writing.
pub open spec fn ids_count_up(log: Seq<AuditRecordView>) -> bool {
    forall|i: int| 0 <= i < log.len() ==> (#[trigger] log[i]).id == i + 1
}

impl AuditLog {
    /// The journal's invariant.
    pub open spec fn wf(&self) -> bool {
        ids_count_up(self@)
    }

    /// An empty journal.
    pub fn new() -> (log: AuditLog)
        ensures
            log.wf(),
            log@ == Seq::<AuditRecordView>::empty(),
    {
        let log = AuditLog { records: Vec::new() };
        assert(log@ =~= Seq::<AuditRecordView>::empty());
        log
    }

    /// The number of records written so far.
    pub fn len(&self) -> (n: usize)
        ensures
            n == self@.len(),
    {
        self.records.len()
    }

    /// Writes one record for a draft, stamped with the given time, and
    /// returns its id: one more than the number of records written before.
    /// Nothing is written, and `None` is returned, only when no further id
    /// can be given.
    pub fn insert(&mut self, draft: AuditDraft, timestamp_ms: i64) -> (id: Option<i64>)
        ensures
            old(self).wf() ==> final(self).wf(),
            match id {
                Some(n) => n == old(self)@.len() + 1 && final(self)@ == old(self)@.push(
                    recorded(draft@, n, timestamp_ms),
                ),
                None => old(self)@.len() >= i64::MAX && final(self)@ == old(self)@,
            },
    {
        let n = self.records.len();
        if n as u64 >= 0x7fff_ffff_ffff_ffffu64 {
            return None;
        }
        let id = (n as u64 + 1) as i64;
        let ghost before = self@;
        self.records.push(
            AuditRecord {
                id,
                device_fingerprint: draft.device_fingerprint,
                session_id: draft.session_id,
                vid: draft.vid,
                pid: draft.pid,
                serial_number: draft.serial_number,
                port_name: draft.port_name,
                direction: draft.direction,
                timestamp_ms,
                data: draft.data,
            },
        );
        assert(self@ =~= before.push(recorded(draft@, id, timestamp_ms)));
        Some(id)
    }

    /// The records of one session, newest first, a page at a time.
    pub fn get_by_session(&self, session_id: &str, limit: usize, offset: usize) -> (rows: Vec<
        AuditRecord,
    >)
        ensures
            record_views(rows@) == page(
                session_newest_first(self@, session_id@),
                limit as nat,
                offset as nat,
            ),
    {
        let mut sorted: Vec<AuditRecord> = Vec::new();
        let mut i: usize = 0;
        assert(self@.take(0) =~= Seq::<AuditRecordView>::empty());
        while i < self.records.len()
            invariant
                i <= self.records@.len(),
                record_views(sorted@) == session_newest_first(self@.take(i as int), session_id@),
            decreases self.records@.len() - i,
        {
            proof {
                let upto = self@.take(i + 1);
                assert(upto.drop_last() =~= self@.take(i as int));
                assert(upto.last() == self.records@[i as int]@);
            }
            if str_eq(self.records[i].session_id.as_str(), session_id) {
                put_in(&mut sorted, self.records[i].clone());
            }
            i += 1;
        }
        assert(self@.take(self@.len() as int) =~= self@);
        take_page(&sorted, limit, offset)
    }

    /// The records of one device, newest first, a page at a time.
    pub fn get_by_device(&self, fingerprint: &str, limit: usize, offset: usize) -> (rows: Vec<
        AuditRecord,
    >)
        ensures
            record_views(rows@) == page(
                device_newest_first(self@, fingerprint@),
                limit as nat,
                offset as nat,
            ),
    {
        let mut sorted: Vec<AuditRecord> = Vec::new();
        let mut i: usize = 0;
        assert(self@.take(0) =~= Seq::<AuditRecordView>::empty());
        while i < self.records.len()
            invariant
                i <= self.records@.len(),
                record_views(sorted@) == device_newest_first(self@.take(i as int), fingerprint@),
            decreases self.records@.len() - i,
        {
            proof {
                let upto = self@.take(i + 1);
                assert(upto.drop_last() =~= self@.take(i as int));
                assert(upto.last() == self.records@[i as int]@);
            }
            if str_eq(self.records[i].device_fingerprint.as_str(), fingerprint) {
                put_in(&mut sorted, self.records[i].clone());
            }
            i += 1;
        }
        assert(self@.take(self@.len() as int) =~= self@);
        take_page(&sorted, limit, offset)
    }
}

/// Puts a record into a list that is kept newest first.
fn put_in(sorted: &mut Vec<AuditRecord>, r: AuditRecord)
    ensures
        record_views(final(sorted)@) == insert_desc(record_views(old(sorted)@), r@),
{
    let ghost before = record_views(sorted@);
    let mut at: usize = sorted.len();
    while at > 0 && sorted[at - 1].timestamp_ms < r.timestamp_ms
        invariant
            at <= sorted@.len(),
            sorted@ == old(sorted)@,
            forall|k: int|
                at <= k < sorted@.len() ==> (#[trigger] before[k]).timestamp_ms < r.timestamp_ms,
            before == record_views(sorted@),
        decreases at,
    {
        at -= 1;
    }
    proof {
        if at > 0 {
            assert(before[at - 1].timestamp_ms >= r.timestamp_ms);
        }
        lemma_insert_desc_at(before, r@, at as int);
    }
    sorted.insert(at, r);
    assert(record_views(sorted@) =~= before.insert(at as int, r@));
}

/// Copies one page out of a list.
fn take_page(all: &Vec<AuditRecord>, limit: usize, offset: usize) -> (rows: Vec<AuditRecord>)
    ensures
        record_views(rows@) == page(record_views(all@), limit as nat, offset as nat),
{
    let n = all.len();
    let from = if offset < n {
        offset
    } else {
        n
    };
    let to = if limit < n - from {
        from + limit
    } else {
        n
    };
    let mut rows: Vec<AuditRecord> = Vec::new();
    let mut i: usize = from;
    while i < to
        invariant
            from <= i <= to <= all@.len(),
            rows@.len() == i - from,
            forall|k: int| 0 <= k < rows@.len() ==> (#[trigger] rows@[k])@ == all@[from + k]@,
        decreases to - i,
    {
        rows.push(all[i].clone());
        i += 1;
    }
    assert(record_views(rows@) =~= page(record_views(all@), limit as nat, offset as nat));
    rows
}

/// One record as it is handed to a caller that asked for a session's log.
#[derive(Debug, PartialEq, Eq)]
pub struct LogEntryDto {
    pub id: i64,
    pub session_id: String,
    pub device_fingerprint: String,
    pub port_name: String,
    pub direction: String,
    pub timestamp: i64,
    pub data: Vec<u8>,
}

/// Mathematical value of a [`LogEntryDto`].
pub struct LogEntryDtoView {
    pub id: i64,
    pub session_id: Seq<char>,
    pub device_fingerprint: Seq<char>,
    pub port_name: Seq<char>,
    pub direction: Seq<char>,
    pub timestamp: i64,
    pub data: Seq<u8>,
}

impl View for LogEntryDto {
    type V = LogEntryDtoView;

    open spec fn view(&self) -> LogEntryDtoView {
        LogEntryDtoView {
            id: self.id,
            session_id: self.session_id@,
            device_fingerprint: self.device_fingerprint@,
            port_name: self.port_name@,
            direction: self.direction@,
            timestamp: self.timestamp,
            data: self.data@,
        }
    }
}

/// What a caller sees of a record: everything but the USB details, with the
/// direction as its stored word.
pub open spec fn entry_of(r: AuditRecordView) -> LogEntryDtoView {
    LogEntryDtoView {
        id: r.id,
        session_id: r.session_id,
        device_fingerprint: r.device_fingerprint,
        port_name: r.port_name,
        direction: r.direction.word(),
        timestamp: r.timestamp_ms,
        data: r.data,
    }
}

/// The mathematical values of a list of entries, in order.
pub open spec fn entry_views(entries: Seq<LogEntryDto>) -> Seq<LogEntryDtoView> {
    Seq::new(entries.len(), |i: int| entries[i]@)
}

impl LogEntryDto {
    /// The entry that shows a record to a caller.
    pub fn from_record(r: AuditRecord) -> (e: LogEntryDto)
        ensures
            e@ == entry_of(r@),
    {
        LogEntryDto {
            id: r.id,
            session_id: r.session_id,
            device_fingerprint: r.device_fingerprint,
            port_name: r.port_name,
            direction: r.direction.to_text(),
            timestamp: r.timestamp_ms,
            data: r.data,
        }
    }
}

impl AuditLog {
    /// The log of one session as a caller sees it: newest first, a page at a
    /// time.
    pub fn get_logs(&self, session_id: &str, limit: usize, offset: usize) -> (entries: Vec<
        LogEntryDto,
    >)
        ensures
            entry_views(entries@) == page(
                session_newest_first(self@, session_id@),
                limit as nat,
                offset as nat,
            ).map_values(|r: AuditRecordView| entry_of(r)),
    {
        let rows = self.get_by_session(session_id, limit, offset);
        let mut entries: Vec<LogEntryDto> = Vec::new();
        let mut i: usize = 0;
        while i < rows.len()
            invariant
                i <= rows@.len(),
                entries@.len() == i,
                forall|k: int| 0 <= k < i ==> (#[trigger] entries@[k])@ == entry_of(rows@[k]@),
            decreases rows@.len() - i,
        {
            entries.push(LogEntryDto::from_record(rows[i].clone()));
            i += 1;
        }
        assert(entry_views(entries@) =~= record_views(rows@).map_values(
            |r: AuditRecordView| entry_of(r),
        ));
        entries
    }
}

} // verus!
