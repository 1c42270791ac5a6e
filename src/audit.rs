//! The audit log: an append-only sequence of records, a buffer of pending
//! field changes, and four read-only queries.
use vstd::prelude::*;
use crate::types::{
    event_views, AccountId, CallContext, ContractDataChanged, EventView, FunctionCalled,
    SaleEvent,
};

verus! {

/// One field mutation that has not been written to the log yet.
#[derive(Clone, Debug, PartialEq, Eq)]
pub struct FieldChange {
    pub field_name: String,
    pub old_value: String,
    pub new_value: String,
}

pub struct ChangeView {
    pub field_name: Seq<char>,
    pub old_value: Seq<char>,
    pub new_value: Seq<char>,
}

impl View for FieldChange {
    type V = ChangeView;

    open spec fn view(&self) -> ChangeView {
        ChangeView {
            field_name: self.field_name@,
            old_value: self.old_value@,
            new_value: self.new_value@,
        }
    }
}

pub open spec fn change_views(s: Seq<FieldChange>) -> Seq<ChangeView> {
    s.map_values(|c: FieldChange| c@)
}

impl FieldChange {
    /// A copy equal to `self`.
    pub fn duplicate(&self) -> (r: FieldChange)
        ensures
            r == *self,
    {
        FieldChange {
            field_name: self.field_name.clone(),
            old_value: self.old_value.clone(),
            new_value: self.new_value.clone(),
        }
    }
}

/// A record of the log: a call with the changes it made, or a single field
/// change written directly.
#[derive(Clone, Debug, PartialEq, Eq)]
pub enum AuditLogEntry {
    FunctionCall {
        caller: AccountId,
        timestamp: u64,
        function_name: String,
        request_id: u64,
        field_changes: Vec<FieldChange>,
    },
    DirectFieldChange {
        field_name: String,
        changed_by: AccountId,
        old_value: String,
        new_value: String,
        block_number: u64,
        timestamp: u64,
    },
}

pub enum EntryView {
    FunctionCall {
        caller: AccountId,
        timestamp: u64,
        function_name: Seq<char>,
        request_id: u64,
        field_changes: Seq<ChangeView>,
    },
    DirectFieldChange {
        field_name: Seq<char>,
        changed_by: AccountId,
        old_value: Seq<char>,
        new_value: Seq<char>,
        block_number: u64,
        timestamp: u64,
    },
}

impl View for AuditLogEntry {
    type V = EntryView;

    open spec fn view(&self) -> EntryView {
        match self {
            AuditLogEntry::FunctionCall {
                caller,
                timestamp,
                function_name,
                request_id,
                field_changes,
            } => EntryView::FunctionCall {
                caller: *caller,
                timestamp: *timestamp,
                function_name: function_name@,
                request_id: *request_id,
                field_changes: change_views(field_changes@),
            },
            AuditLogEntry::DirectFieldChange {
                field_name,
                changed_by,
                old_value,
                new_value,
                block_number,
                timestamp,
            } => EntryView::DirectFieldChange {
                field_name: field_name@,
                changed_by: *changed_by,
                old_value: old_value@,
                new_value: new_value@,
                block_number: *block_number,
                timestamp: *timestamp,
            },
        }
    }
}

pub open spec fn entry_views(s: Seq<AuditLogEntry>) -> Seq<EntryView> {
    s.map_values(|e: AuditLogEntry| e@)
}

fn copy_changes(v: &Vec<FieldChange>) -> (r: Vec<FieldChange>)
    ensures
        r@ == v@,
{
    let mut r: Vec<FieldChange> = Vec::new();
    let mut i: usize = 0;
    while i < v.len()
        invariant
            0 <= i <= v@.len(),
            r@ == v@.take(i as int),
        decreases v@.len() - i,
    {
        r.push(v[i].duplicate());
        assert(r@ =~= v@.take(i as int + 1));
        i = i + 1;
    }
    assert(v@.take(v@.len() as int) =~= v@);
    r
}

impl AuditLogEntry {
    /// A copy with the same view.
    pub fn duplicate(&self) -> (r: AuditLogEntry)
        ensures
            r@ == self@,
    {
        match self {
            AuditLogEntry::FunctionCall {
                caller,
                timestamp,
                function_name,
                request_id,
                field_changes,
            } => AuditLogEntry::FunctionCall {
                caller: *caller,
                timestamp: *timestamp,
                function_name: function_name.clone(),
                request_id: *request_id,
                field_changes: copy_changes(field_changes),
            },
            AuditLogEntry::DirectFieldChange {
                field_name,
                changed_by,
                old_value,
                new_value,
                block_number,
                timestamp,
            } => AuditLogEntry::DirectFieldChange {
                field_name: field_name.clone(),
                changed_by: *changed_by,
                old_value: old_value.clone(),
                new_value: new_value.clone(),
                block_number: *block_number,
                timestamp: *timestamp,
            },
        }
    }
}

/// A record of a call, with the changes that the call buffered.
pub open spec fn is_call(e: EntryView) -> bool {
    e is FunctionCall
}

/// A record that carries at least one field change.
pub open spec fn has_changes(e: EntryView) -> bool {
    match e {
        EntryView::DirectFieldChange { .. } => true,
        EntryView::FunctionCall { field_changes, .. } => field_changes.len() > 0,
    }
}

/// A record that changed the field `name`, directly or among a call's changes.
pub open spec fn touches(e: EntryView, name: Seq<char>) -> bool {
    match e {
        EntryView::DirectFieldChange { field_name, .. } => field_name == name,
        EntryView::FunctionCall { field_changes, .. } => exists|k: int|
            0 <= k < field_changes.len() && #[trigger] field_changes[k].field_name == name,
    }
}

/// The records of `s` that satisfy `p`, in order.
pub open spec fn select(s: Seq<EntryView>, p: spec_fn(EntryView) -> bool) -> Seq<EntryView>
    decreases s.len(),
{
    if s.len() == 0 {
        Seq::empty()
    } else if p(s.last()) {
        select(s.drop_last(), p).push(s.last())
    } else {
        select(s.drop_last(), p)
    }
}

/// The first `n` elements of `s`, or all of them when there are fewer.
pub open spec fn at_most(s: Seq<EntryView>, n: int) -> Seq<EntryView> {
    if s.len() <= n {
        s
    } else {
        s.take(n)
    }
}

/// The records from index `start` on; none when `start` is past the end.
pub open spec fn tail_from(s: Seq<EntryView>, start: int) -> Seq<EntryView> {
    if start < s.len() {
        s.subrange(start, s.len() as int)
    } else {
        Seq::empty()
    }
}

/// The records with indices in `[start, min(start + limit, len))`.
pub open spec fn log_range(s: Seq<EntryView>, start: int, limit: int) -> Seq<EntryView> {
    let end = if start + limit < s.len() { start + limit } else { s.len() as int };
    if start < end {
        s.subrange(start, end)
    } else {
        Seq::empty()
    }
}

pub open spec fn call_filter() -> spec_fn(EntryView) -> bool {
    |e: EntryView| is_call(e)
}

pub open spec fn change_filter() -> spec_fn(EntryView) -> bool {
    |e: EntryView| has_changes(e)
}

pub open spec fn field_filter(name: Seq<char>) -> spec_fn(EntryView) -> bool {
    |e: EntryView| touches(e, name)
}

/// What selecting from a prefix gives is a prefix of what selecting from the
/// whole gives.
pub proof fn lemma_select_prefix(s: Seq<EntryView>, k: int, p: spec_fn(EntryView) -> bool)
    requires
        0 <= k <= s.len(),
    ensures
        select(s.take(k), p).len() <= select(s, p).len(),
        select(s, p).take(select(s.take(k), p).len() as int) == select(s.take(k), p),
    decreases s.len(),
{
    if k == s.len() {
        assert(s.take(k) =~= s);
        assert(select(s, p).take(select(s, p).len() as int) =~= select(s, p));
    } else {
        let t = s.drop_last();
        assert(s.take(k) =~= t.take(k));
        lemma_select_prefix(t, k, p);
        let a = select(s.take(k), p);
        assert(select(s, p).take(a.len() as int) =~= select(t, p).take(a.len() as int));
    }
}

/// Selecting from a sequence extended by one record.
pub proof fn lemma_select_push(s: Seq<EntryView>, e: EntryView, p: spec_fn(EntryView) -> bool)
    ensures
        select(s.push(e), p) == if p(e) { select(s, p).push(e) } else { select(s, p) },
{
    assert(s.push(e).drop_last() =~= s);
}

/// Every selected record is a record of `s` that satisfies `p`, and every such
/// record is selected.
pub proof fn lemma_select_members(s: Seq<EntryView>, p: spec_fn(EntryView) -> bool)
    ensures
        forall|e: EntryView| #[trigger] select(s, p).contains(e) <==> (s.contains(e) && p(e)),
    decreases s.len(),
{
    if s.len() > 0 {
        let t = s.drop_last();
        lemma_select_members(t, p);
        assert(s =~= t.push(s.last()));
        assert forall|e: EntryView| select(s, p).contains(e) <==> (s.contains(e) && p(e)) by {
            if s.contains(e) && p(e) {
                let j = choose|j: int| 0 <= j < s.len() && s[j] == e;
                if j < t.len() {
                    assert(t[j] == e);
                    assert(t.contains(e));
                    assert(select(t, p).contains(e));
                    let m = choose|m: int| 0 <= m < select(t, p).len() && select(t, p)[m] == e;
                    assert(select(s, p)[m] == e);
                } else {
                    assert(select(s, p)[select(s, p).len() - 1] == e);
                }
            }
            if select(s, p).contains(e) {
                let j = choose|j: int| 0 <= j < select(s, p).len() && select(s, p)[j] == e;
                if p(s.last()) && j == select(s, p).len() - 1 {
                    assert(s[s.len() - 1] == e);
                } else {
                    assert(select(t, p)[j] == e);
                    assert(select(t, p).contains(e));
                    assert(t.contains(e) && p(e));
                    let i = choose|i: int| 0 <= i < t.len() && t[i] == e;
                    assert(s[i] == e);
                }
            }
        }
    }
}

/// The record of a call by `ctx.caller` that carries `changes`.
pub open spec fn call_entry(
    ctx: CallContext,
    name: Seq<char>,
    request_id: u64,
    changes: Seq<ChangeView>,
) -> EntryView {
    EntryView::FunctionCall {
        caller: ctx.caller,
        timestamp: ctx.timestamp,
        function_name: name,
        request_id,
        field_changes: changes,
    }
}

/// The record of one field change written directly.
pub open spec fn direct_entry(
    ctx: CallContext,
    field: Seq<char>,
    old_value: Seq<char>,
    new_value: Seq<char>,
) -> EntryView {
    EntryView::DirectFieldChange {
        field_name: field,
        changed_by: ctx.caller,
        old_value,
        new_value,
        block_number: ctx.block_number,
        timestamp: ctx.timestamp,
    }
}

/// The log after one more record: the count saturates at the largest index.
pub open spec fn appended(s: Seq<EntryView>, e: EntryView) -> Seq<EntryView> {
    if s.len() < u64::MAX {
        s.push(e)
    } else {
        s
    }
}

/// The notification that a field changed.
pub open spec fn changed_event(
    ctx: CallContext,
    field: Seq<char>,
    old_value: Seq<char>,
    new_value: Seq<char>,
) -> EventView {
    EventView::ContractDataChanged {
        field_name: field,
        changed_by: ctx.caller,
        old_value,
        new_value,
        block_number: ctx.block_number,
        timestamp: ctx.timestamp,
    }
}

/// One notification per change, in order.
pub open spec fn changes_events(ctx: CallContext, changes: Seq<ChangeView>) -> Seq<EventView> {
    Seq::new(
        changes.len(),
        |i: int|
            changed_event(ctx, changes[i].field_name, changes[i].old_value, changes[i].new_value),
    )
}

/// The notifications of a call: the call itself, then each change it carries.
pub open spec fn call_events(
    ctx: CallContext,
    name: Seq<char>,
    request_id: u64,
    changes: Seq<ChangeView>,
) -> Seq<EventView> {
    seq![
        EventView::FunctionCalled {
            caller: ctx.caller,
            function_name: name,
            request_id,
            timestamp: ctx.timestamp,
        },
    ] + changes_events(ctx, changes)
}

/// The audit log of an agreement with its buffer of pending changes.
pub struct AuditLog {
    entries: Vec<AuditLogEntry>,
    pending: Vec<FieldChange>,
}

pub struct AuditLogView {
    pub entries: Seq<EntryView>,
    pub pending: Seq<ChangeView>,
}

impl View for AuditLog {
    type V = AuditLogView;

    closed spec fn view(&self) -> AuditLogView {
        AuditLogView { entries: entry_views(self.entries@), pending: change_views(self.pending@) }
    }
}

fn is_call_entry(e: &AuditLogEntry) -> (r: bool)
    ensures
        r == is_call(e@),
{
    match e {
        AuditLogEntry::FunctionCall { .. } => true,
        AuditLogEntry::DirectFieldChange { .. } => false,
    }
}

fn has_changes_entry(e: &AuditLogEntry) -> (r: bool)
    ensures
        r == has_changes(e@),
{
    match e {
        AuditLogEntry::FunctionCall { field_changes, .. } => field_changes.len() > 0,
        AuditLogEntry::DirectFieldChange { .. } => true,
    }
}

fn touches_entry(e: &AuditLogEntry, name: &String) -> (r: bool)
    ensures
        r == touches(e@, name@),
{
    match e {
        AuditLogEntry::FunctionCall { field_changes, .. } => {
            let ghost cs = change_views(field_changes@);
            let mut k: usize = 0;
            while k < field_changes.len()
                invariant
                    0 <= k <= field_changes@.len(),
                    cs == change_views(field_changes@),
                    e@ is FunctionCall,
                    e@->field_changes == cs,
                    forall|j: int| 0 <= j < k ==> cs[j].field_name != name@,
                decreases field_changes@.len() - k,
            {
                if field_changes[k].field_name == *name {
                    assert(cs[k as int] == field_changes@[k as int]@);
                    assert(cs[k as int].field_name == name@);
                    assert(touches(e@, name@));
                    return true;
                }
                k = k + 1;
            }
            false
        },
        AuditLogEntry::DirectFieldChange { field_name, .. } => *field_name == *name,
    }
}

impl AuditLog {
    /// An empty log with nothing pending.
    pub fn new() -> (r: AuditLog)
        ensures
            r@.entries == Seq::<EntryView>::empty(),
            r@.pending == Seq::<ChangeView>::empty(),
    {
        let r = AuditLog { entries: Vec::new(), pending: Vec::new() };
        assert(r@.entries =~= Seq::<EntryView>::empty());
        assert(r@.pending =~= Seq::<ChangeView>::empty());
        r
    }

    /// The number of records: one past the last valid index.
    pub fn count(&self) -> (r: u64)
        ensures
            r == self@.entries.len(),
    {
        self.entries.len() as u64
    }

    /// Buffers a change for the next call record; writes nothing to the log.
    pub fn buffer_change(&mut self, change: FieldChange)
        ensures
            final(self)@.entries == old(self)@.entries,
            final(self)@.pending == old(self)@.pending.push(change@),
    {
        self.pending.push(change);
        assert(self@.pending =~= old(self)@.pending.push(change@));
    }

    fn append(&mut self, e: AuditLogEntry)
        ensures
            final(self)@.entries == appended(old(self)@.entries, e@),
            final(self)@.pending == old(self)@.pending,
    {
        if (self.entries.len() as u64) < u64::MAX {
            self.entries.push(e);
            assert(self@.entries =~= old(self)@.entries.push(e@));
        }
    }

    /// Writes one call record that takes over every pending change, then
    /// raises the call's notification and one per change, in buffer order.
    pub fn record_call(
        &mut self,
        events: &mut Vec<SaleEvent>,
        ctx: &CallContext,
        name: &str,
        request_id: u64,
    )
        ensures
            final(self)@.entries == appended(
                old(self)@.entries,
                call_entry(*ctx, name@, request_id, old(self)@.pending),
            ),
            final(self)@.pending == Seq::<ChangeView>::empty(),
            event_views(final(events)@) == event_views(old(events)@) + call_events(
                *ctx,
                name@,
                request_id,
                old(self)@.pending,
            ),
    {
        let mut changes: Vec<FieldChange> = Vec::new();
        core::mem::swap(&mut changes, &mut self.pending);
        assert(self@.pending =~= Seq::<ChangeView>::empty());
        let ghost pend = change_views(changes@);
        let entry = AuditLogEntry::FunctionCall {
            caller: ctx.caller,
            timestamp: ctx.timestamp,
            function_name: String::from_str(name),
            request_id,
            field_changes: copy_changes(&changes),
        };
        self.append(entry);
        let ghost ev0 = event_views(events@);
        events.push(
            SaleEvent::FunctionCalled(
                FunctionCalled {
                    caller: ctx.caller,
                    function_name: String::from_str(name),
                    request_id,
                    timestamp: ctx.timestamp,
                },
            ),
        );
        let ghost head = ev0 + call_events(*ctx, name@, request_id, pend).take(1);
        assert(event_views(events@) =~= head);
        let mut i: usize = 0;
        while i < changes.len()
            invariant
                0 <= i <= changes@.len(),
                pend == change_views(changes@),
                event_views(events@) == ev0 + call_events(*ctx, name@, request_id, pend).take(
                    i as int + 1,
                ),
            decreases changes@.len() - i,
        {
            let c = &changes[i];
            let ghost before = events@;
            proof {
                assert(pend[i as int] == changes@[i as int]@);
                assert(call_events(*ctx, name@, request_id, pend)[i as int + 1] == changed_event(
                    *ctx,
                    c.field_name@,
                    c.old_value@,
                    c.new_value@,
                ));
            }
            events.push(
                SaleEvent::ContractDataChanged(
                    ContractDataChanged {
                        field_name: c.field_name.clone(),
                        changed_by: ctx.caller,
                        old_value: c.old_value.clone(),
                        new_value: c.new_value.clone(),
                        block_number: ctx.block_number,
                        timestamp: ctx.timestamp,
                    },
                ),
            );
            assert(event_views(events@) =~= event_views(before).push(
                changed_event(*ctx, c.field_name@, c.old_value@, c.new_value@),
            ));
            assert(event_views(events@) =~= ev0 + call_events(*ctx, name@, request_id, pend).take(
                i as int + 2,
            ));
            i = i + 1;
        }
        assert(call_events(*ctx, name@, request_id, pend).take(changes@.len() as int + 1)
            =~= call_events(*ctx, name@, request_id, pend));
    }

    /// The records with indices in `[start, min(start + limit, count))`, in
    /// index order.
    pub fn entries_in_range(&self, start: u64, limit: u64) -> (r: Vec<AuditLogEntry>)
        ensures
            entry_views(r@) == log_range(self@.entries, start as int, limit as int),
            r@.len() <= limit,
    {
        let ghost es = self@.entries;
        assert(es == entry_views(self.entries@));
        let len = self.entries.len();
        let count = len as u64;
        let end: u64 = if start < count && limit < count - start {
            start + limit
        } else {
            count
        };
        let mut r: Vec<AuditLogEntry> = Vec::new();
        if end <= start {
            assert(entry_views(r@) =~= log_range(es, start as int, limit as int));
            return r;
        }
        let first = start as usize;
        let stop = end as usize;
        let mut i: usize = first;
        assert(entry_views(r@) =~= es.subrange(start as int, start as int));
        while i < stop
            invariant
                first <= i <= stop,
                first == start,
                stop == end,
                stop <= len,
                len == self.entries@.len(),
                es == entry_views(self.entries@),
                entry_views(r@) == es.subrange(start as int, i as int),
            decreases stop - i,
        {
            let ghost before = r@;
            let d = self.entries[i].duplicate();
            r.push(d);
            assert(entry_views(r@) =~= entry_views(before).push(d@));
            assert(entry_views(r@) =~= es.subrange(start as int, i as int + 1));
            i = i + 1;
        }
        assert(entry_views(r@) =~= log_range(es, start as int, limit as int));
        r
    }

    /// Scans from `start`, keeping the records that satisfy the chosen test,
    /// and stops once `limit` are kept.
    fn scan(&self, start: u64, limit: u64, calls_only: bool) -> (r: Vec<AuditLogEntry>)
        ensures
            entry_views(r@) == at_most(
                select(
                    tail_from(self@.entries, start as int),
                    if calls_only {
                        call_filter()
                    } else {
                        change_filter()
                    },
                ),
                limit as int,
            ),
    {
        let ghost p = if calls_only {
            call_filter()
        } else {
            change_filter()
        };
        let ghost es = self@.entries;
        assert(es == entry_views(self.entries@));
        let ghost tail = tail_from(es, start as int);
        let len = self.entries.len();
        let mut r: Vec<AuditLogEntry> = Vec::new();
        if start >= len as u64 {
            assert(tail =~= Seq::<EntryView>::empty());
            assert(entry_views(r@) =~= Seq::<EntryView>::empty());
            return r;
        }
        let first = start as usize;
        let mut i: usize = first;
        assert(entry_views(r@) =~= select(tail.take(0), p));
        while i < len
            invariant
                first <= i <= len,
                first == start,
                first < len,
                len == self.entries@.len(),
                es == entry_views(self.entries@),
                tail == es.subrange(first as int, len as int),
                p == if calls_only {
                    call_filter()
                } else {
                    change_filter()
                },
                r@.len() <= limit,
                entry_views(r@) == select(tail.take(i - first), p),
            ensures
                first <= i <= len,
                i == len || r@.len() == limit,
                entry_views(r@) == select(tail.take(i - first), p),
            decreases len - i,
        {
            if r.len() as u64 >= limit {
                break;
            }
            let e = &self.entries[i];
            let keep = if calls_only {
                is_call_entry(e)
            } else {
                has_changes_entry(e)
            };
            let ghost before = r@;
            proof {
                let t = tail.take(i - first + 1);
                assert(t.drop_last() =~= tail.take(i - first));
                assert(tail[i - first] == es[i as int]);
                assert(t.last() == e@);
                assert(select(t, p) == if p(e@) {
                    select(tail.take(i - first), p).push(e@)
                } else {
                    select(tail.take(i - first), p)
                });
            }
            if keep {
                let d = e.duplicate();
                r.push(d);
                assert(entry_views(r@) =~= entry_views(before).push(d@));
            }
            i = i + 1;
        }
        proof {
            let k = i - first;
            lemma_select_prefix(tail, k, p);
            let full = select(tail, p);
            if i == len {
                assert(tail.take(k) =~= tail);
            } else if full.len() <= limit {
                assert(full.take(full.len() as int) =~= full);
            }
        }
        r
    }

    /// The call records from `start` on, at most `limit` of them.
    pub fn function_calls(&self, start: u64, limit: u64) -> (r: Vec<AuditLogEntry>)
        ensures
            entry_views(r@) == at_most(
                select(tail_from(self@.entries, start as int), call_filter()),
                limit as int,
            ),
    {
        self.scan(start, limit, true)
    }

    /// The records that carry field changes from `start` on, at most `limit` of
    /// them: every direct change, and each call with a change.
    pub fn field_changes(&self, start: u64, limit: u64) -> (r: Vec<AuditLogEntry>)
        ensures
            entry_views(r@) == at_most(
                select(tail_from(self@.entries, start as int), change_filter()),
                limit as int,
            ),
    {
        self.scan(start, limit, false)
    }

    /// Every record, from the first, that changed the field `name`; each at
    /// most once.
    pub fn field_changes_by_field(&self, name: &String) -> (r: Vec<AuditLogEntry>)
        ensures
            entry_views(r@) == select(self@.entries, field_filter(name@)),
    {
        let ghost p = field_filter(name@);
        let ghost es = self@.entries;
        assert(es == entry_views(self.entries@));
        let mut r: Vec<AuditLogEntry> = Vec::new();
        let mut i: usize = 0;
        assert(entry_views(r@) =~= select(es.take(0), p));
        while i < self.entries.len()
            invariant
                0 <= i <= es.len(),
                es == self@.entries,
                es == entry_views(self.entries@),
                p == field_filter(name@),
                entry_views(r@) == select(es.take(i as int), p),
            decreases es.len() - i,
        {
            let e = &self.entries[i];
            let ghost before = r@;
            proof {
                let t = es.take(i as int + 1);
                assert(t.drop_last() =~= es.take(i as int));
                assert(es[i as int] == self.entries@[i as int]@);
                assert(t.last() == e@);
                assert(select(t, p) == if p(e@) {
                    select(es.take(i as int), p).push(e@)
                } else {
                    select(es.take(i as int), p)
                });
            }
            if touches_entry(e, name) {
                let d = e.duplicate();
                r.push(d);
                assert(entry_views(r@) =~= entry_views(before).push(d@));
            }
            i = i + 1;
        }
        assert(es.take(i as int) =~= es);
        r
    }

    /// Writes one field change straight to the log, bypassing the buffer, and
    /// raises its notification.
    pub fn record_direct(
        &mut self,
        events: &mut Vec<SaleEvent>,
        ctx: &CallContext,
        field: &str,
        old_value: String,
        new_value: String,
    )
        ensures
            final(self)@.entries == appended(
                old(self)@.entries,
                direct_entry(*ctx, field@, old_value@, new_value@),
            ),
            final(self)@.pending == old(self)@.pending,
            event_views(final(events)@) == event_views(old(events)@).push(
                changed_event(*ctx, field@, old_value@, new_value@),
            ),
    {
        let entry = AuditLogEntry::DirectFieldChange {
            field_name: String::from_str(field),
            changed_by: ctx.caller,
            old_value: old_value.clone(),
            new_value: new_value.clone(),
            block_number: ctx.block_number,
            timestamp: ctx.timestamp,
        };
        self.append(entry);
        let ghost ev0 = event_views(events@);
        events.push(
            SaleEvent::ContractDataChanged(
                ContractDataChanged {
                    field_name: String::from_str(field),
                    changed_by: ctx.caller,
                    old_value,
                    new_value,
                    block_number: ctx.block_number,
                    timestamp: ctx.timestamp,
                },
            ),
        );
        assert(event_views(events@) =~= ev0.push(
            changed_event(*ctx, field@, old_value@, new_value@),
        ));
    }
}

} // verus!
