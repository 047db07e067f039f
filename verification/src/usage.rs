//! Token usage: one record per call of a model, and sums over records.
//!
//! Usage is counted in tokens and calls. Points in time are nanoseconds since
//! the Unix epoch.

use vstd::prelude::*;
use chrono::Utc;
use crate::collections::{self, Table};
use crate::duplicate::Duplicate;
use crate::text;
use crate::time;

verus! {

// ─── UsageRecord ────────────────────────────────────────────────────────────

/// What one call of a model used.
#[derive(Debug, PartialEq)]
pub struct UsageRecord {
    /// The session that the call belongs to.
    pub session_id: String,
    /// The model that answered.
    pub model: String,
    /// Who provides the model.
    pub provider: String,
    /// The tokens that went in.
    pub prompt_tokens: u32,
    /// The tokens that came out.
    pub completion_tokens: u32,
    /// When the call was made.
    pub timestamp: i128,
    /// Whether the counts are estimates, because the provider gave none.
    pub is_estimated: bool,
    /// Further facts about the call.
    pub metadata: Table<String>,
}

/// The contents of a [`UsageRecord`].
#[verifier::ext_equal]
pub struct UsageRecordView {
    pub session_id: Seq<char>,
    pub model: Seq<char>,
    pub provider: Seq<char>,
    pub prompt_tokens: u32,
    pub completion_tokens: u32,
    pub timestamp: i128,
    pub is_estimated: bool,
    pub metadata: Seq<(Seq<char>, Seq<char>)>,
}

impl DeepView for UsageRecord {
    type V = UsageRecordView;

    open spec fn deep_view(&self) -> UsageRecordView {
        UsageRecordView {
            session_id: self.session_id.deep_view(),
            model: self.model.deep_view(),
            provider: self.provider.deep_view(),
            prompt_tokens: self.prompt_tokens,
            completion_tokens: self.completion_tokens,
            timestamp: self.timestamp,
            is_estimated: self.is_estimated,
            metadata: self.metadata.deep_view(),
        }
    }
}

impl Duplicate for UsageRecord {
    fn duplicate(&self) -> (copy: Self) {
        UsageRecord {
            session_id: self.session_id.duplicate(),
            model: self.model.duplicate(),
            provider: self.provider.duplicate(),
            prompt_tokens: self.prompt_tokens,
            completion_tokens: self.completion_tokens,
            timestamp: self.timestamp,
            is_estimated: self.is_estimated,
            metadata: self.metadata.duplicate(),
        }
    }
}

impl Clone for UsageRecord {
    fn clone(&self) -> (copy: Self)
        ensures
            copy.deep_view() == self.deep_view(),
    {
        self.duplicate()
    }
}

/// `chrono::Utc::now`: the whole seconds since the Unix epoch, and the
/// nanoseconds beyond them. It rests on the clock: nothing is said of the
/// result.
#[verifier::external_body]
fn now() -> (time: (i64, u32)) {
    let time = Utc::now();
    (time.timestamp(), time.timestamp_subsec_nanos())
}

impl UsageRecord {
    /// A record of a call that was made just now.
    pub fn new(
        session_id: String,
        model: String,
        provider: String,
        prompt_tokens: u32,
        completion_tokens: u32,
    ) -> (r: Self)
        ensures
            r.deep_view() == (UsageRecordView {
                session_id: session_id@,
                model: model@,
                provider: provider@,
                prompt_tokens,
                completion_tokens,
                timestamp: r.timestamp,
                is_estimated: false,
                metadata: Seq::empty(),
            }),
    {
        let (secs, nanos) = now();
        let timestamp = time::at(secs, nanos);
        UsageRecord::with_timestamp(
            session_id,
            model,
            provider,
            prompt_tokens,
            completion_tokens,
            timestamp,
            Table::new(),
        )
    }

    /// A record of a call that was made at a known time.
    pub fn with_timestamp(
        session_id: String,
        model: String,
        provider: String,
        prompt_tokens: u32,
        completion_tokens: u32,
        timestamp: i128,
        metadata: Table<String>,
    ) -> (r: Self)
        ensures
            r.deep_view() == (UsageRecordView {
                session_id: session_id@,
                model: model@,
                provider: provider@,
                prompt_tokens,
                completion_tokens,
                timestamp,
                is_estimated: false,
                metadata: metadata.deep_view(),
            }),
    {
        UsageRecord {
            session_id,
            model,
            provider,
            prompt_tokens,
            completion_tokens,
            timestamp,
            is_estimated: false,
            metadata,
        }
    }

    /// The tokens of this call, in and out.
    pub fn total_tokens(&self) -> (n: u64)
        ensures
            n == self.prompt_tokens + self.completion_tokens,
    {
        self.prompt_tokens as u64 + self.completion_tokens as u64
    }

    /// This record with a further fact.
    pub fn with_metadata(self, key: String, value: String) -> (r: Self)
        ensures
            r.deep_view() == (UsageRecordView {
                metadata: collections::entered(self.deep_view().metadata, key@, value@),
                ..self.deep_view()
            }),
    {
        let mut r = self;
        let mut metadata = r.metadata.duplicate();
        metadata.insert(key, value);
        r.metadata = metadata;
        r
    }

    /// This record with estimated counts.
    pub fn estimated(self, prompt_tokens: u32, completion_tokens: u32) -> (r: Self)
        ensures
            r.deep_view() == (UsageRecordView {
                prompt_tokens,
                completion_tokens,
                is_estimated: true,
                ..self.deep_view()
            }),
    {
        UsageRecord { prompt_tokens, completion_tokens, is_estimated: true, ..self }
    }
}

// ─── Sums ───────────────────────────────────────────────────────────────────

/// The tokens that went in, over all records.
pub open spec fn prompt_sum(records: Seq<UsageRecordView>) -> nat
    decreases records.len(),
{
    if records.len() == 0 {
        0
    } else {
        prompt_sum(records.drop_last()) + records.last().prompt_tokens as nat
    }
}

/// The tokens that came out, over all records.
pub open spec fn completion_sum(records: Seq<UsageRecordView>) -> nat
    decreases records.len(),
{
    if records.len() == 0 {
        0
    } else {
        completion_sum(records.drop_last()) + records.last().completion_tokens as nat
    }
}

/// The number of records whose counts are estimates.
pub open spec fn estimated_count(records: Seq<UsageRecordView>) -> nat
    decreases records.len(),
{
    if records.len() == 0 {
        0
    } else {
        estimated_count(records.drop_last()) + (if records.last().is_estimated {
            1nat
        } else {
            0nat
        })
    }
}

/// The time of the earliest of the records.
pub open spec fn earliest(records: Seq<UsageRecordView>) -> i128
    recommends
        records.len() > 0,
    decreases records.len(),
{
    if records.len() <= 1 {
        records[0].timestamp
    } else {
        let before = earliest(records.drop_last());
        if records.last().timestamp < before {
            records.last().timestamp
        } else {
            before
        }
    }
}

/// The time of the latest of the records.
pub open spec fn latest(records: Seq<UsageRecordView>) -> i128
    recommends
        records.len() > 0,
    decreases records.len(),
{
    if records.len() <= 1 {
        records[0].timestamp
    } else {
        let before = latest(records.drop_last());
        if before < records.last().timestamp {
            records.last().timestamp
        } else {
            before
        }
    }
}

/// The tokens of all records can be counted in 64 bits.
pub open spec fn countable(records: Seq<UsageRecordView>) -> bool {
    prompt_sum(records) + completion_sum(records) <= u64::MAX
}

// ─── UsageSummary ───────────────────────────────────────────────────────────

/// Sums over records.
#[derive(Debug, PartialEq)]
pub struct UsageSummary {
    /// The tokens in and out.
    pub total_tokens: u64,
    /// The tokens in.
    pub prompt_tokens: u64,
    /// The tokens out.
    pub completion_tokens: u64,
    /// The number of calls.
    pub call_count: u64,
    /// The number of calls with estimated counts.
    pub estimated_call_count: u64,
    /// When the first call was made.
    pub first_call: i128,
    /// When the last call was made.
    pub last_call: i128,
}

/// The contents of a [`UsageSummary`].
#[verifier::ext_equal]
pub struct UsageSummaryView {
    pub total_tokens: u64,
    pub prompt_tokens: u64,
    pub completion_tokens: u64,
    pub call_count: u64,
    pub estimated_call_count: u64,
    pub first_call: i128,
    pub last_call: i128,
}

impl DeepView for UsageSummary {
    type V = UsageSummaryView;

    open spec fn deep_view(&self) -> UsageSummaryView {
        UsageSummaryView {
            total_tokens: self.total_tokens,
            prompt_tokens: self.prompt_tokens,
            completion_tokens: self.completion_tokens,
            call_count: self.call_count,
            estimated_call_count: self.estimated_call_count,
            first_call: self.first_call,
            last_call: self.last_call,
        }
    }
}

impl Duplicate for UsageSummary {
    fn duplicate(&self) -> (copy: Self) {
        UsageSummary {
            total_tokens: self.total_tokens,
            prompt_tokens: self.prompt_tokens,
            completion_tokens: self.completion_tokens,
            call_count: self.call_count,
            estimated_call_count: self.estimated_call_count,
            first_call: self.first_call,
            last_call: self.last_call,
        }
    }
}

impl Clone for UsageSummary {
    fn clone(&self) -> (copy: Self)
        ensures
            copy.deep_view() == self.deep_view(),
    {
        self.duplicate()
    }
}

/// The counts of `summary` are those of `records`.
pub open spec fn counts_up(summary: UsageSummaryView, records: Seq<UsageRecordView>) -> bool {
    &&& summary.total_tokens == prompt_sum(records) + completion_sum(records)
    &&& summary.prompt_tokens == prompt_sum(records)
    &&& summary.completion_tokens == completion_sum(records)
    &&& summary.call_count == records.len()
    &&& summary.estimated_call_count == estimated_count(records)
}

/// `summary` sums up `records`. Of the times it says nothing where there are no
/// records.
pub open spec fn sums_up(summary: UsageSummaryView, records: Seq<UsageRecordView>) -> bool {
    &&& counts_up(summary, records)
    &&& records.len() > 0 ==> summary.first_call == earliest(records) && summary.last_call
        == latest(records)
}

/// A summary with one record more. The last call is then the one of this record,
/// and so is the first where there was none before.
pub open spec fn with_record(summary: UsageSummaryView, record: UsageRecordView) -> UsageSummaryView {
    UsageSummaryView {
        total_tokens: (summary.total_tokens + record.prompt_tokens
            + record.completion_tokens) as u64,
        prompt_tokens: (summary.prompt_tokens + record.prompt_tokens) as u64,
        completion_tokens: (summary.completion_tokens + record.completion_tokens) as u64,
        call_count: (summary.call_count + 1) as u64,
        estimated_call_count: (summary.estimated_call_count + (if record.is_estimated {
            1int
        } else {
            0int
        })) as u64,
        first_call: if summary.call_count == 0 {
            record.timestamp
        } else {
            summary.first_call
        },
        last_call: record.timestamp,
    }
}

proof fn lemma_counts_grow(records: Seq<UsageRecordView>, i: int)
    requires
        0 <= i <= records.len(),
    ensures
        prompt_sum(records.take(i)) <= prompt_sum(records),
        completion_sum(records.take(i)) <= completion_sum(records),
        estimated_count(records) <= records.len(),
    decreases records.len(),
{
    if i == records.len() {
        assert(records.take(i) =~= records);
        if records.len() > 0 {
            lemma_counts_grow(records.drop_last(), i - 1);
        }
    } else {
        lemma_counts_grow(records.drop_last(), i);
        assert(records.drop_last().take(i) =~= records.take(i));
    }
}

impl UsageSummary {
    /// The sums over no records, at a given time.
    pub fn empty_at(time: i128) -> (r: Self)
        ensures
            r == (UsageSummary {
                total_tokens: 0,
                prompt_tokens: 0,
                completion_tokens: 0,
                call_count: 0,
                estimated_call_count: 0,
                first_call: time,
                last_call: time,
            }),
            sums_up(r.deep_view(), Seq::empty()),
    {
        UsageSummary {
            total_tokens: 0,
            prompt_tokens: 0,
            completion_tokens: 0,
            call_count: 0,
            estimated_call_count: 0,
            first_call: time,
            last_call: time,
        }
    }

    /// The sums over no records. Both times are those of the call.
    pub fn empty() -> (r: Self)
        ensures
            sums_up(r.deep_view(), Seq::empty()),
    {
        let (secs, nanos) = now();
        UsageSummary::empty_at(time::at(secs, nanos))
    }

    /// The sums over `records`.
    pub fn from_records(records: &Vec<UsageRecord>) -> (r: Self)
        requires
            countable(records.deep_view()),
        ensures
            sums_up(r.deep_view(), records.deep_view()),
    {
        if records.len() == 0 {
            assert(records.deep_view() =~= Seq::<UsageRecordView>::empty());
            return UsageSummary::empty();
        }
        let ghost all = records.deep_view();
        let first = records[0].timestamp;
        let mut r = UsageSummary::empty_at(first);
        let mut i: usize = 0;
        while i < records.len()
            invariant
                i <= records.len(),
                all == records.deep_view(),
                countable(all),
                i == 0 ==> r.first_call == first && r.last_call == first,
                first == all[0].timestamp,
                sums_up(r.deep_view(), all.take(i as int)),
            decreases records.len() - i,
        {
            proof {
                let next = all.take(i + 1);
                assert(next.drop_last() =~= all.take(i as int));
                assert(all[i as int] == records@[i as int].deep_view());
                lemma_counts_grow(all, i + 1);
                lemma_counts_grow(all.take(i as int), i as int);
            }
            let record = &records[i];
            r.prompt_tokens = r.prompt_tokens + record.prompt_tokens as u64;
            r.completion_tokens = r.completion_tokens + record.completion_tokens as u64;
            r.total_tokens = r.total_tokens + record.total_tokens();
            r.call_count = r.call_count + 1;
            if record.is_estimated {
                r.estimated_call_count = r.estimated_call_count + 1;
            }
            if record.timestamp < r.first_call {
                r.first_call = record.timestamp;
            }
            if r.last_call < record.timestamp {
                r.last_call = record.timestamp;
            }
            i = i + 1;
        }
        assert(all.take(i as int) =~= all);
        r
    }

    /// Adds a record. The last call is then the one of this record, and so is
    /// the first where there was none before.
    pub fn add_record(&mut self, record: &UsageRecord)
        requires
            old(self).total_tokens + record.prompt_tokens + record.completion_tokens <= u64::MAX,
            old(self).prompt_tokens + record.prompt_tokens <= u64::MAX,
            old(self).completion_tokens + record.completion_tokens <= u64::MAX,
            old(self).call_count < u64::MAX,
            old(self).estimated_call_count < u64::MAX,
        ensures
            final(self).deep_view() == with_record(old(self).deep_view(), record.deep_view()),
    {
        self.total_tokens = self.total_tokens + record.total_tokens();
        self.prompt_tokens = self.prompt_tokens + record.prompt_tokens as u64;
        self.completion_tokens = self.completion_tokens + record.completion_tokens as u64;
        self.call_count = self.call_count + 1;
        if record.is_estimated {
            self.estimated_call_count = self.estimated_call_count + 1;
        }
        self.last_call = record.timestamp;
        if self.call_count == 1 {
            self.first_call = record.timestamp;
        }
    }
}

impl Default for UsageSummary {
    fn default() -> (r: Self)
        ensures
            sums_up(r.deep_view(), Seq::empty()),
    {
        UsageSummary::empty()
    }
}

/// The records stand in the order of their times.
pub open spec fn in_time_order(records: Seq<UsageRecordView>) -> bool {
    forall|i: int, j: int|
        0 <= i <= j < records.len() ==> (#[trigger] records[i]).timestamp <= (
        #[trigger] records[j]).timestamp
}

/// What is left after a record was added sums up one record more: its counts
/// always, and its times where the records came in the order of their times.
pub proof fn law_adding_sums_up(
    before: UsageSummaryView,
    records: Seq<UsageRecordView>,
    record: UsageRecordView,
)
    requires
        sums_up(before, records),
        countable(records.push(record)),
        records.len() < u64::MAX,
    ensures
        counts_up(with_record(before, record), records.push(record)),
        in_time_order(records.push(record)) ==> sums_up(
            with_record(before, record),
            records.push(record),
        ),
{
    let more = records.push(record);
    assert(more.drop_last() =~= records);
    lemma_counts_grow(records, 0);
    if records.len() > 0 && in_time_order(more) {
        lemma_time_order(records, record);
    }
}

proof fn lemma_time_order(records: Seq<UsageRecordView>, record: UsageRecordView)
    requires
        records.len() > 0,
        in_time_order(records.push(record)),
    ensures
        earliest(records) <= record.timestamp,
        latest(records) <= record.timestamp,
    decreases records.len(),
{
    let more = records.push(record);
    assert(more[records.len() - 1].timestamp <= more[records.len() as int].timestamp);
    if records.len() > 1 {
        let front = records.drop_last();
        assert(in_time_order(front.push(record))) by {
            let less = front.push(record);
            assert forall|i: int, j: int| 0 <= i <= j < less.len() implies (
            #[trigger] less[i]).timestamp <= (#[trigger] less[j]).timestamp by {
                let a = if i < front.len() {
                    i
                } else {
                    records.len() as int
                };
                let b = if j < front.len() {
                    j
                } else {
                    records.len() as int
                };
                assert(less[i] == more[a] && less[j] == more[b]);
            }
        }
        lemma_time_order(front, record);
    }
}

/// The earliest time is no later, and the latest no earlier, than that of any
/// record, and both are times of records.
pub proof fn law_times_bound(records: Seq<UsageRecordView>)
    requires
        records.len() > 0,
    ensures
        forall|i: int|
            0 <= i < records.len() ==> earliest(records) <= (#[trigger] records[i]).timestamp
                <= latest(records),
        exists|i: int| 0 <= i < records.len() && earliest(records) == (#[trigger] records[i]).timestamp,
        exists|i: int| 0 <= i < records.len() && latest(records) == (#[trigger] records[i]).timestamp,
    decreases records.len(),
{
    let n = records.len() - 1;
    assert(records[n] == records.last());
    if records.len() > 1 {
        let front = records.drop_last();
        law_times_bound(front);
        let e = choose|i: int| 0 <= i < front.len() && earliest(front) == (#[trigger] front[i]).timestamp;
        let l = choose|i: int| 0 <= i < front.len() && latest(front) == (#[trigger] front[i]).timestamp;
        assert(front[e] == records[e] && front[l] == records[l]);
        assert forall|i: int| 0 <= i < records.len() implies earliest(records) <= (
        #[trigger] records[i]).timestamp <= latest(records) by {
            if i < n {
                assert(front[i] == records[i]);
            }
        }
    }
}

// ─── InMemoryUsageTracker ───────────────────────────────────────────────────

/// The records of a session, in order.
pub open spec fn of_session(records: Seq<UsageRecordView>, session_id: Seq<char>) -> Seq<
    UsageRecordView,
> {
    records.filter(|r: UsageRecordView| r.session_id == session_id)
}

/// The records of all other sessions, in order.
pub open spec fn not_of_session(records: Seq<UsageRecordView>, session_id: Seq<char>) -> Seq<
    UsageRecordView,
> {
    records.filter(|r: UsageRecordView| r.session_id != session_id)
}

/// The records of a model, in order.
pub open spec fn of_model(records: Seq<UsageRecordView>, model: Seq<char>) -> Seq<UsageRecordView> {
    records.filter(|r: UsageRecordView| r.model == model)
}

/// `table` sums up the records of each model under its name, and holds no other
/// name.
pub open spec fn sums_up_models(
    table: Seq<(Seq<char>, UsageSummaryView)>,
    records: Seq<UsageRecordView>,
) -> bool {
    forall|model: Seq<char>|
        match #[trigger] collections::lookup(table, model) {
            Some(summary) => of_model(records, model).len() > 0 && sums_up(
                summary,
                of_model(records, model),
            ),
            None => of_model(records, model).len() == 0,
        }
}

proof fn lemma_filter_sums(records: Seq<UsageRecordView>, keep: spec_fn(UsageRecordView) -> bool)
    ensures
        prompt_sum(records.filter(keep)) <= prompt_sum(records),
        completion_sum(records.filter(keep)) <= completion_sum(records),
    decreases records.len(),
{
    reveal(Seq::filter);
    if records.len() > 0 {
        let front = records.drop_last();
        lemma_filter_sums(front, keep);
        let kept = front.filter(keep);
        assert(kept.push(records.last()).drop_last() =~= kept);
    }
}

/// The records of a session, in order.
fn select_session(records: &Vec<UsageRecord>, session_id: &str, wanted: bool) -> (r: Vec<
    UsageRecord,
>)
    ensures
        wanted ==> r.deep_view() == of_session(records.deep_view(), session_id@),
        !wanted ==> r.deep_view() == not_of_session(records.deep_view(), session_id@),
{
    let ghost all = records.deep_view();
    let ghost of = |r: UsageRecordView| r.session_id == session_id@;
    let ghost not_of = |r: UsageRecordView| r.session_id != session_id@;
    let mut out: Vec<UsageRecord> = Vec::new();
    let mut i: usize = 0;
    proof {
        reveal(Seq::filter);
        assert(all.take(0).filter(of) =~= out.deep_view());
        assert(all.take(0).filter(not_of) =~= out.deep_view());
    }
    while i < records.len()
        invariant
            i <= records.len(),
            all == records.deep_view(),
            of == (|r: UsageRecordView| r.session_id == session_id@),
            not_of == (|r: UsageRecordView| r.session_id != session_id@),
            wanted ==> out.deep_view() == all.take(i as int).filter(of),
            !wanted ==> out.deep_view() == all.take(i as int).filter(not_of),
        decreases records.len() - i,
    {
        let ghost before = out.deep_view();
        proof {
            reveal(Seq::filter);
            assert(all.take(i + 1).drop_last() =~= all.take(i as int));
            assert(all[i as int] == records@[i as int].deep_view());
        }
        if text::same(records[i].session_id.as_str(), session_id) == wanted {
            let record = records[i].duplicate();
            out.push(record);
            assert(out.deep_view() =~= before.push(all[i as int]));
        }
        i = i + 1;
    }
    assert(all.take(i as int) =~= all);
    out
}

/// The records of a model, in order.
fn select_model(records: &Vec<UsageRecord>, model: &str) -> (r: Vec<UsageRecord>)
    ensures
        r.deep_view() == of_model(records.deep_view(), model@),
{
    let ghost all = records.deep_view();
    let ghost keep = |r: UsageRecordView| r.model == model@;
    let mut out: Vec<UsageRecord> = Vec::new();
    let mut i: usize = 0;
    proof {
        reveal(Seq::filter);
        assert(all.take(0).filter(keep) =~= out.deep_view());
    }
    while i < records.len()
        invariant
            i <= records.len(),
            all == records.deep_view(),
            keep == (|r: UsageRecordView| r.model == model@),
            out.deep_view() == all.take(i as int).filter(keep),
        decreases records.len() - i,
    {
        let ghost before = out.deep_view();
        proof {
            reveal(Seq::filter);
            assert(all.take(i + 1).drop_last() =~= all.take(i as int));
            assert(all[i as int] == records@[i as int].deep_view());
        }
        if text::same(records[i].model.as_str(), model) {
            let record = records[i].duplicate();
            out.push(record);
            assert(out.deep_view() =~= before.push(all[i as int]));
        }
        i = i + 1;
    }
    assert(all.take(i as int) =~= all);
    out
}

/// The sums over the records of each model.
pub fn summarize_models(records: &Vec<UsageRecord>) -> (r: Table<UsageSummary>)
    requires
        countable(records.deep_view()),
    ensures
        sums_up_models(r.deep_view(), records.deep_view()),
{
    let ghost all = records.deep_view();
    let mut table: Table<UsageSummary> = Table::new();
    let mut i: usize = 0;
    while i < records.len()
        invariant
            i <= records.len(),
            all == records.deep_view(),
            countable(all),
            forall|k: int|
                0 <= k < i ==> collections::lookup(
                    table.deep_view(),
                    (#[trigger] all[k]).model,
                ) is Some,
            forall|model: Seq<char>|
                (#[trigger] collections::lookup(table.deep_view(), model)) matches Some(summary)
                    ==> of_model(all, model).len() > 0 && sums_up(summary, of_model(all, model)),
        decreases records.len() - i,
    {
        let ghost name = all[i as int].model;
        assert(all[i as int] == records@[i as int].deep_view());
        let model = records[i].model.as_str();
        if !table.contains_key(model) {
            let of = select_model(records, model);
            proof {
                lemma_filter_sums(all, |r: UsageRecordView| r.model == name);
                collections::lemma_filter_item(
                    all,
                    |r: UsageRecordView| r.model == name,
                    all[i as int],
                );
                assert(of.deep_view().contains(all[i as int]));
            }
            let summary = UsageSummary::from_records(&of);
            let ghost before = table.deep_view();
            table.insert(model.to_string(), summary);
            proof {
                assert forall|other: Seq<char>|
                    (#[trigger] collections::lookup(table.deep_view(), other)) == (if other == name {
                        Some(summary.deep_view())
                    } else {
                        collections::lookup(before, other)
                    }) by {
                    collections::law_lookup_after_insert(
                        before,
                        name,
                        summary.deep_view(),
                        other,
                    );
                }
            }
        }
        i = i + 1;
    }
    proof {
        assert forall|model: Seq<char>|
            match #[trigger] collections::lookup(table.deep_view(), model) {
                Some(summary) => of_model(all, model).len() > 0 && sums_up(
                    summary,
                    of_model(all, model),
                ),
                None => of_model(all, model).len() == 0,
            } by {
            let of = of_model(all, model);
            if of.len() > 0 {
                collections::lemma_filter_item(all, |r: UsageRecordView| r.model == model, of[0]);
                assert(of.contains(of[0]));
                let k = choose|k: int| 0 <= k < all.len() && all[k] == of[0];
                assert(collections::lookup(table.deep_view(), all[k].model) is Some);
            }
        }
    }
    table
}

/// The usage of all sessions, held in memory.
#[derive(Debug)]
pub struct InMemoryUsageTracker {
    records: Vec<UsageRecord>,
}

impl InMemoryUsageTracker {
    /// All records, oldest first.
    pub closed spec fn contents(&self) -> Seq<UsageRecordView> {
        self.records.deep_view()
    }

    /// A tracker without records.
    pub fn new() -> (r: Self)
        ensures
            r.contents() == Seq::<UsageRecordView>::empty(),
    {
        let r = InMemoryUsageTracker { records: Vec::new() };
        assert(r.contents() =~= Seq::<UsageRecordView>::empty());
        r
    }

    /// Records a call.
    pub fn record_usage(&mut self, record: UsageRecord)
        ensures
            final(self).contents() == old(self).contents().push(record.deep_view()),
    {
        self.records.push(record);
        assert(self.contents() =~= old(self).contents().push(record.deep_view()));
    }

    /// The sums over the records of a session.
    pub fn session_usage(&self, session_id: &str) -> (r: UsageSummary)
        requires
            countable(of_session(self.contents(), session_id@)),
        ensures
            sums_up(r.deep_view(), of_session(self.contents(), session_id@)),
    {
        let records = self.session_records(session_id);
        UsageSummary::from_records(&records)
    }

    /// The sums over all records.
    pub fn global_usage(&self) -> (r: UsageSummary)
        requires
            countable(self.contents()),
        ensures
            sums_up(r.deep_view(), self.contents()),
    {
        UsageSummary::from_records(&self.records)
    }

    /// The sums over the records of a session, by model.
    pub fn usage_by_model(&self, session_id: &str) -> (r: Table<UsageSummary>)
        requires
            countable(of_session(self.contents(), session_id@)),
        ensures
            sums_up_models(r.deep_view(), of_session(self.contents(), session_id@)),
    {
        let records = self.session_records(session_id);
        summarize_models(&records)
    }

    /// The sums over all records, by model.
    pub fn usage_by_model_global(&self) -> (r: Table<UsageSummary>)
        requires
            countable(self.contents()),
        ensures
            sums_up_models(r.deep_view(), self.contents()),
    {
        summarize_models(&self.records)
    }

    /// The records of a session, oldest first.
    pub fn session_records(&self, session_id: &str) -> (r: Vec<UsageRecord>)
        ensures
            r.deep_view() == of_session(self.contents(), session_id@),
    {
        select_session(&self.records, session_id, true)
    }

    /// All records, oldest first.
    pub fn global_records(&self) -> (r: Vec<UsageRecord>)
        ensures
            r.deep_view() == self.contents(),
    {
        self.records.duplicate()
    }

    /// Forgets the records of a session.
    pub fn clear_session(&mut self, session_id: &str)
        ensures
            final(self).contents() == not_of_session(old(self).contents(), session_id@),
    {
        self.records = select_session(&self.records, session_id, false);
    }

    /// Forgets all records.
    pub fn clear_all(&mut self)
        ensures
            final(self).contents() == Seq::<UsageRecordView>::empty(),
    {
        self.records = Vec::new();
        assert(self.contents() =~= Seq::<UsageRecordView>::empty());
    }
}

impl Default for InMemoryUsageTracker {
    fn default() -> (r: Self)
        ensures
            r.contents() == Seq::<UsageRecordView>::empty(),
    {
        InMemoryUsageTracker::new()
    }
}

/// A recorded call is the last of its session's records, and leaves those of
/// every other session as they were.
pub proof fn law_record_then_read(
    records: Seq<UsageRecordView>,
    record: UsageRecordView,
    other: Seq<char>,
)
    ensures
        of_session(records.push(record), record.session_id) == of_session(
            records,
            record.session_id,
        ).push(record),
        other != record.session_id ==> of_session(records.push(record), other) == of_session(
            records,
            other,
        ),
{
    reveal(Seq::filter);
    assert(records.push(record).drop_last() =~= records);
}

/// A session that was cleared has no records left, and every other session has
/// those it had.
pub proof fn law_clear_session(
    records: Seq<UsageRecordView>,
    session_id: Seq<char>,
    other: Seq<char>,
)
    ensures
        of_session(not_of_session(records, session_id), session_id) == Seq::<
            UsageRecordView,
        >::empty(),
        other != session_id ==> of_session(not_of_session(records, session_id), other)
            == of_session(records, other),
    decreases records.len(),
{
    reveal(Seq::filter);
    if records.len() > 0 {
        let front = records.drop_last();
        law_clear_session(front, session_id, other);
        let kept = not_of_session(front, session_id);
        assert(kept.push(records.last()).drop_last() =~= kept);
    } else {
        assert(not_of_session(records, session_id) =~= Seq::<UsageRecordView>::empty());
        assert(of_session(records, other) =~= Seq::<UsageRecordView>::empty());
    }
}

/// The counts of a session and of all others add up to the counts of all.
pub proof fn law_sessions_add_up(records: Seq<UsageRecordView>, session_id: Seq<char>)
    ensures
        of_session(records, session_id).len() + not_of_session(records, session_id).len()
            == records.len(),
        prompt_sum(of_session(records, session_id)) + prompt_sum(
            not_of_session(records, session_id),
        ) == prompt_sum(records),
        completion_sum(of_session(records, session_id)) + completion_sum(
            not_of_session(records, session_id),
        ) == completion_sum(records),
    decreases records.len(),
{
    reveal(Seq::filter);
    if records.len() > 0 {
        let front = records.drop_last();
        law_sessions_add_up(front, session_id);
        let of = of_session(front, session_id);
        let rest = not_of_session(front, session_id);
        assert(of.push(records.last()).drop_last() =~= of);
        assert(rest.push(records.last()).drop_last() =~= rest);
    }
}

/// Over no records every sum is nought, and over one record more each sum grows by what
/// the record says; the first call is the earliest and the last call the latest of them.
pub proof fn law_sums_grow(
    before: UsageSummaryView,
    after: UsageSummaryView,
    records: Seq<UsageRecordView>,
    record: UsageRecordView,
)
    requires
        sums_up(before, records),
        sums_up(after, records.push(record)),
    ensures
        after.prompt_tokens == before.prompt_tokens + record.prompt_tokens,
        after.completion_tokens == before.completion_tokens + record.completion_tokens,
        after.total_tokens == before.total_tokens + record.prompt_tokens
            + record.completion_tokens,
        after.call_count == before.call_count + 1,
        record.is_estimated ==> after.estimated_call_count == before.estimated_call_count + 1,
        !record.is_estimated ==> after.estimated_call_count == before.estimated_call_count,
        after.first_call <= record.timestamp <= after.last_call,
        records.len() == 0 ==> {
            &&& before.prompt_tokens == 0
            &&& before.completion_tokens == 0
            &&& before.total_tokens == 0
            &&& before.call_count == 0
            &&& before.estimated_call_count == 0
            &&& after.first_call == record.timestamp
            &&& after.last_call == record.timestamp
        },
        records.len() > 0 ==> {
            &&& after.first_call <= before.first_call
            &&& after.last_call >= before.last_call
            &&& after.first_call == before.first_call || after.first_call == record.timestamp
            &&& after.last_call == before.last_call || after.last_call == record.timestamp
        },
{
    assert(records.push(record).drop_last() =~= records);
}

/// A record that is added to a summary adds what it says to each sum, is the last call, and
/// is the first where there was none.
pub proof fn law_added_record(summary: UsageSummaryView, record: UsageRecordView)
    requires
        summary.total_tokens + record.prompt_tokens + record.completion_tokens <= u64::MAX,
        summary.prompt_tokens + record.prompt_tokens <= u64::MAX,
        summary.completion_tokens + record.completion_tokens <= u64::MAX,
        summary.call_count < u64::MAX,
        summary.estimated_call_count < u64::MAX,
    ensures
        ({
            let after = with_record(summary, record);
            &&& after.total_tokens == summary.total_tokens + record.prompt_tokens
                + record.completion_tokens
            &&& after.prompt_tokens == summary.prompt_tokens + record.prompt_tokens
            &&& after.completion_tokens == summary.completion_tokens + record.completion_tokens
            &&& after.call_count == summary.call_count + 1
            &&& record.is_estimated ==> after.estimated_call_count
                == summary.estimated_call_count + 1
            &&& !record.is_estimated ==> after.estimated_call_count
                == summary.estimated_call_count
            &&& after.last_call == record.timestamp
            &&& summary.call_count == 0 ==> after.first_call == record.timestamp
            &&& summary.call_count > 0 ==> after.first_call == summary.first_call
        }),
{
}

/// A recorded call is among those of its model, the last of them, and among those of no
/// other.
pub proof fn law_models_share_out_the_calls(
    records: Seq<UsageRecordView>,
    record: UsageRecordView,
    other: Seq<char>,
)
    ensures
        of_model(records.push(record), record.model) == of_model(records, record.model).push(
            record,
        ),
        other != record.model ==> of_model(records.push(record), other) == of_model(records, other),
        of_model(Seq::empty(), other).len() == 0,
        of_session(Seq::empty(), other).len() == 0,
{
    reveal(Seq::filter);
    assert(records.push(record).drop_last() =~= records);
}

/// Sums by model: the model of every recorded call has an entry, which sums up the calls of
/// that model, and no other name has one.
pub proof fn law_sums_by_model(
    table: Seq<(Seq<char>, UsageSummaryView)>,
    records: Seq<UsageRecordView>,
    model: Seq<char>,
)
    requires
        sums_up_models(table, records),
    ensures
        collections::lookup(table, model) is Some <==> exists|i: int|
            0 <= i < records.len() && (#[trigger] records[i]).model == model,
        collections::lookup(table, model) matches Some(summary) ==> {
            &&& summary.prompt_tokens == prompt_sum(
                records.filter(|r: UsageRecordView| r.model == model),
            )
            &&& summary.completion_tokens == completion_sum(
                records.filter(|r: UsageRecordView| r.model == model),
            )
            &&& summary.call_count == records.filter(|r: UsageRecordView| r.model == model).len()
        },
{
    let of = of_model(records, model);
    let keep = |r: UsageRecordView| r.model == model;
    if of.len() > 0 {
        collections::lemma_filter_item(records, keep, of[0]);
        assert(of.contains(of[0]));
        let i = choose|i: int| 0 <= i < records.len() && records[i] == of[0];
        assert(records[i].model == model);
    }
    if exists|i: int| 0 <= i < records.len() && (#[trigger] records[i]).model == model {
        let i = choose|i: int| 0 <= i < records.len() && (#[trigger] records[i]).model == model;
        collections::lemma_filter_item(records, keep, records[i]);
        assert(of.contains(records[i]));
    }
}

} // verus!
