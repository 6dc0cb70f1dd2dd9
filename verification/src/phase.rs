//! The phases of a benchmark: a workload together with the executor that
//! walks through it.
//!
//! A write phase generates its workload and keeps a second, independent copy
//! of it. The read phase that follows takes that copy, shuffles it, and looks
//! every record up again: it asks for what was written, in an order that has
//! nothing to do with the order of writing.

use rand::rngs::ThreadRng;
use vstd::prelude::*;
use crate::config::{BenchmarkConfig, TableId, TableLayout};
use crate::executor::{
    applied,
    lemma_batch_boundaries,
    schedule,
    Action,
    BatchExecutor,
    PhaseKind,
    PhaseMode,
};
use crate::workload::{
    all_blobs_fit,
    all_fit,
    copy_blobs,
    copy_records,
    generate_blobs,
    generate_buffered,
    generate_sampled,
    same_blobs,
    same_records,
    shuffled,
    DuplicateRecord,
    Record,
};

verus! {

/// A write phase that is ready to run.
#[derive(Debug)]
pub struct WritePhase<T> {
    /// The table that is written.
    pub table: TableId,
    /// The workload, in the order in which it is written.
    pub records: Vec<T>,
    /// A copy of the workload for the read phase that follows.
    pub retained: Vec<T>,
    /// Says which step comes next.
    pub executor: BatchExecutor,
}

/// A read phase that is ready to run.
#[derive(Debug)]
pub struct ReadPhase<T> {
    /// The table that is read.
    pub table: TableId,
    /// The records that are looked up, in the order of the lookups.
    pub records: Vec<T>,
    /// Says which step comes next.
    pub executor: BatchExecutor,
}

/// Writing a plain table.
pub open spec fn plain_write() -> PhaseMode {
    PhaseMode { layout: TableLayout::PlainKV, kind: PhaseKind::Write }
}

/// Reading a plain table.
pub open spec fn plain_read() -> PhaseMode {
    PhaseMode { layout: TableLayout::PlainKV, kind: PhaseKind::Read }
}

/// Writing a duplicate-key table.
pub open spec fn duplicate_write() -> PhaseMode {
    PhaseMode { layout: TableLayout::DuplicateKey, kind: PhaseKind::Write }
}

/// Reading a duplicate-key table.
pub open spec fn duplicate_read() -> PhaseMode {
    PhaseMode { layout: TableLayout::DuplicateKey, kind: PhaseKind::Read }
}

/// Whether `executor` stands at the start of a phase of kind `mode` over `total` records.
pub open spec fn at_start(
    executor: &BatchExecutor,
    mode: PhaseMode,
    total: int,
    batch_size: u64,
) -> bool {
    &&& executor.mode() == mode
    &&& executor.total() == total
    &&& executor.batch_size() == batch_size
    &&& !executor.is_aborted()
    &&& executor.remaining() == schedule(mode, total, batch_size as int)
}

/// The write phase of the small table: a fresh workload of the small profile,
/// written `job_divide` records to a transaction.
pub fn benchmark_put_small_table(
    config: &BenchmarkConfig,
    rng: &mut ThreadRng,
    job_divide: u64,
) -> (phase: WritePhase<Record>)
    requires
        job_divide > 0,
    ensures
        phase.table == TableId::Small,
        phase.records@.len() == config.small.commit_count,
        all_fit(phase.records@, config.small),
        same_records(phase.retained@, phase.records@),
        at_start(&phase.executor, plain_write(), config.small.commit_count as int, job_divide),
{
    let records = generate_sampled(&config.small, rng);
    let retained = copy_records(&records);
    let executor = BatchExecutor::new(
        PhaseMode { layout: TableLayout::PlainKV, kind: PhaseKind::Write },
        records.len(),
        job_divide,
    );
    WritePhase { table: TableId::Small, records, retained, executor }
}

/// The write phase of the large table: a fresh workload of the large profile,
/// written `job_divide` records to a transaction.
pub fn benchmark_put_large_table(
    config: &BenchmarkConfig,
    rng: &mut ThreadRng,
    job_divide: u64,
) -> (phase: WritePhase<Record>)
    requires
        job_divide > 0,
    ensures
        phase.table == TableId::Large,
        phase.records@.len() == config.large.commit_count,
        all_fit(phase.records@, config.large),
        same_records(phase.retained@, phase.records@),
        at_start(&phase.executor, plain_write(), config.large.commit_count as int, job_divide),
{
    let records = generate_buffered(&config.large, rng);
    let retained = copy_records(&records);
    let executor = BatchExecutor::new(
        PhaseMode { layout: TableLayout::PlainKV, kind: PhaseKind::Write },
        records.len(),
        job_divide,
    );
    WritePhase { table: TableId::Large, records, retained, executor }
}

/// The write phase of the small table in the duplicate-key layout: a fresh
/// workload of blobs of the small profile, inserted through a cursor,
/// `job_divide` blobs to a transaction.
pub fn benchmark_put_small_table_dup(
    config: &BenchmarkConfig,
    rng: &mut ThreadRng,
    job_divide: u64,
) -> (phase: WritePhase<DuplicateRecord>)
    requires
        job_divide > 0,
        config.small.blob_length() <= usize::MAX,
    ensures
        phase.table == TableId::Small,
        phase.records@.len() == config.small.commit_count,
        all_blobs_fit(phase.records@, config.small),
        same_blobs(phase.retained@, phase.records@),
        at_start(&phase.executor, duplicate_write(), config.small.commit_count as int, job_divide),
{
    let records = generate_blobs(&config.small, rng);
    let retained = copy_blobs(&records);
    let executor = BatchExecutor::new(
        PhaseMode { layout: TableLayout::DuplicateKey, kind: PhaseKind::Write },
        records.len(),
        job_divide,
    );
    WritePhase { table: TableId::Small, records, retained, executor }
}

/// The read phase of the small table: `data` in a random order, looked up
/// `job_divide` records to a read-only transaction.
pub fn benchmark_read_small_table(rng: &mut ThreadRng, job_divide: u64, data: Vec<Record>) -> (phase:
    ReadPhase<Record>)
    requires
        job_divide > 0,
    ensures
        phase.table == TableId::Small,
        phase.records@.to_multiset() == data@.to_multiset(),
        phase.records@.len() == data@.len(),
        at_start(&phase.executor, plain_read(), data@.len() as int, job_divide),
{
    let records = shuffled(rng, data);
    let executor = BatchExecutor::new(
        PhaseMode { layout: TableLayout::PlainKV, kind: PhaseKind::Read },
        records.len(),
        job_divide,
    );
    ReadPhase { table: TableId::Small, records, executor }
}

/// The read phase of the large table: `data` in a random order, looked up
/// `job_divide` records to a read-only transaction.
pub fn benchmark_read_large_table(rng: &mut ThreadRng, job_divide: u64, data: Vec<Record>) -> (phase:
    ReadPhase<Record>)
    requires
        job_divide > 0,
    ensures
        phase.table == TableId::Large,
        phase.records@.to_multiset() == data@.to_multiset(),
        phase.records@.len() == data@.len(),
        at_start(&phase.executor, plain_read(), data@.len() as int, job_divide),
{
    let records = shuffled(rng, data);
    let executor = BatchExecutor::new(
        PhaseMode { layout: TableLayout::PlainKV, kind: PhaseKind::Read },
        records.len(),
        job_divide,
    );
    ReadPhase { table: TableId::Large, records, executor }
}

/// The read phase of the small table in the duplicate-key layout: `data` in a
/// random order, looked up through a cursor, `job_divide` blobs to a
/// read-only transaction.
pub fn benchmark_read_small_table_dup(
    rng: &mut ThreadRng,
    job_divide: u64,
    data: Vec<DuplicateRecord>,
) -> (phase: ReadPhase<DuplicateRecord>)
    requires
        job_divide > 0,
    ensures
        phase.table == TableId::Small,
        phase.records@.to_multiset() == data@.to_multiset(),
        phase.records@.len() == data@.len(),
        at_start(&phase.executor, duplicate_read(), data@.len() as int, job_divide),
{
    let records = shuffled(rng, data);
    let executor = BatchExecutor::new(
        PhaseMode { layout: TableLayout::DuplicateKey, kind: PhaseKind::Read },
        records.len(),
        job_divide,
    );
    ReadPhase { table: TableId::Small, records, executor }
}

/// What an operation asks of the storage engine, in bytes.
#[derive(Clone, Copy, Debug, PartialEq, Eq)]
pub enum Request<'a> {
    /// Store `value` under `key`, in place of what is there.
    Put { key: &'a [u8], value: &'a [u8] },
    /// Insert `blob` among the values of `outer_key`.
    CursorPut { outer_key: &'a [u8], blob: &'a [u8] },
    /// Look up `key`.
    Get { key: &'a [u8] },
    /// Look up, among the values of `outer_key`, the one that `inner_key` names.
    GetBoth { outer_key: &'a [u8], inner_key: &'a [u8] },
}

/// What a [`Request`] holds.
pub enum RequestView {
    Put { key: Seq<u8>, value: Seq<u8> },
    CursorPut { outer_key: Seq<u8>, blob: Seq<u8> },
    Get { key: Seq<u8> },
    GetBoth { outer_key: Seq<u8>, inner_key: Seq<u8> },
}

impl<'a> View for Request<'a> {
    type V = RequestView;

    open spec fn view(&self) -> RequestView {
        match *self {
            Request::Put { key, value } => RequestView::Put { key: key@, value: value@ },
            Request::CursorPut { outer_key, blob } => RequestView::CursorPut {
                outer_key: outer_key@,
                blob: blob@,
            },
            Request::Get { key } => RequestView::Get { key: key@ },
            Request::GetBoth { outer_key, inner_key } => RequestView::GetBoth {
                outer_key: outer_key@,
                inner_key: inner_key@,
            },
        }
    }
}

/// What a step on a plain table asks of the engine: a record is stored
/// under its key and looked up by its key. Steps that apply no record of
/// `records` ask nothing, and neither do the steps of the other layout.
pub open spec fn spec_plain_request(records: Seq<Record>, action: Action) -> Option<RequestView> {
    match action {
        Action::Put { index } if index < records.len() => Some(
            RequestView::Put { key: records[index as int].key@, value: records[index as int].value@ },
        ),
        Action::Get { index } if index < records.len() => Some(
            RequestView::Get { key: records[index as int].key@ },
        ),
        _ => None,
    }
}

/// What a step on a duplicate-key table asks of the engine: the whole blob
/// is stored under the shared empty key, and looked up under that key by
/// its leading bytes, as many as its key is long. Steps that apply no
/// record of `records` ask nothing, and neither do the steps of the other
/// layout.
pub open spec fn spec_duplicate_request(
    records: Seq<DuplicateRecord>,
    action: Action,
) -> Option<RequestView> {
    match action {
        Action::CursorPut { index } if index < records.len() => Some(
            RequestView::CursorPut {
                outer_key: Seq::empty(),
                blob: records[index as int]@.bytes,
            },
        ),
        Action::GetBoth { index } if index < records.len() => Some(
            RequestView::GetBoth {
                outer_key: Seq::empty(),
                inner_key: records[index as int].spec_inner_key(),
            },
        ),
        _ => None,
    }
}

/// Whether `request` is exactly what `expected` says.
pub open spec fn is_request(request: Option<Request>, expected: Option<RequestView>) -> bool {
    match expected {
        Some(view) => request matches Some(r) && r@ == view,
        None => request is None,
    }
}

/// The bytes that a step on a plain table hands to the engine.
pub fn plain_request<'a>(records: &'a Vec<Record>, action: Action) -> (request: Option<
    Request<'a>,
>)
    ensures
        is_request(request, spec_plain_request(records@, action)),
{
    match action {
        Action::Put { index } => {
            if index < records.len() {
                let record = &records[index];
                Some(Request::Put { key: record.key.as_slice(), value: record.value.as_slice() })
            } else {
                None
            }
        },
        Action::Get { index } => {
            if index < records.len() {
                Some(Request::Get { key: records[index].key.as_slice() })
            } else {
                None
            }
        },
        _ => None,
    }
}

/// The bytes that a step on a duplicate-key table hands to the engine.
pub fn duplicate_request<'a>(records: &'a Vec<DuplicateRecord>, action: Action) -> (request:
    Option<Request<'a>>)
    ensures
        is_request(request, spec_duplicate_request(records@, action)),
{
    match action {
        Action::CursorPut { index } => {
            if index < records.len() {
                let blob = records[index].bytes();
                let outer_key = vstd::slice::slice_subrange(blob, 0, 0);
                assert(outer_key@ =~= Seq::<u8>::empty());
                Some(Request::CursorPut { outer_key, blob })
            } else {
                None
            }
        },
        Action::GetBoth { index } => {
            if index < records.len() {
                let record = &records[index];
                let outer_key = vstd::slice::slice_subrange(record.bytes(), 0, 0);
                assert(outer_key@ =~= Seq::<u8>::empty());
                Some(Request::GetBoth { outer_key, inner_key: record.inner_key() })
            } else {
                None
            }
        },
        _ => None,
    }
}

/// The records that a phase of the given kind applies, in order.
pub open spec fn phase_records(
    layout: TableLayout,
    kind: PhaseKind,
    total: nat,
    job_divide: u64,
) -> Seq<usize> {
    applied(schedule(PhaseMode { layout, kind }, total as int, job_divide as int))
}

/// Whether the write phase over `written` stores a record that equals `record`.
pub open spec fn is_stored<T>(
    written: Seq<T>,
    layout: TableLayout,
    job_divide: u64,
    record: T,
) -> bool {
    exists|i: int|
        0 <= i < phase_records(layout, PhaseKind::Write, written.len(), job_divide).len() && {
            let stored = #[trigger] phase_records(
                layout,
                PhaseKind::Write,
                written.len(),
                job_divide,
            )[i];
            stored < written.len() && written[stored as int] == record
        }
}

/// Every lookup asks for what was stored.
///
/// Let a workload be written in whole batches, so that no record is left
/// over, and let the read phase run over the same records in any order.
/// Then every record that the read phase looks up is a record that a step of
/// the write phase has stored.
pub proof fn lemma_lookups_were_stored<T>(
    written: Seq<T>,
    looked_up: Seq<T>,
    layout: TableLayout,
    job_divide: u64,
)
    requires
        job_divide > 0,
        written.len() <= usize::MAX,
        written.len() % (job_divide as nat) == 0,
        looked_up.to_multiset() == written.to_multiset(),
    ensures
        forall|j: int|
            0 <= j < phase_records(layout, PhaseKind::Read, looked_up.len(), job_divide).len()
                ==> {
                let read = #[trigger] phase_records(
                    layout,
                    PhaseKind::Read,
                    looked_up.len(),
                    job_divide,
                )[j];
                read < looked_up.len() && is_stored(
                    written,
                    layout,
                    job_divide,
                    looked_up[read as int],
                )
            },
{
    let total = written.len();
    let writes = phase_records(layout, PhaseKind::Write, total, job_divide);
    let reads = phase_records(layout, PhaseKind::Read, looked_up.len(), job_divide);
    written.to_multiset_ensures();
    looked_up.to_multiset_ensures();
    assert(looked_up.len() == total);
    lemma_batch_boundaries(PhaseMode { layout, kind: PhaseKind::Write }, total as usize, job_divide);
    lemma_batch_boundaries(PhaseMode { layout, kind: PhaseKind::Read }, total as usize, job_divide);
    assert forall|j: int| 0 <= j < reads.len() implies (#[trigger] reads[j]) < looked_up.len()
        && is_stored(written, layout, job_divide, looked_up[reads[j] as int]) by {
        let record = looked_up[j];
        assert(reads[j] == j);
        assert(looked_up.contains(record));
        assert(written.to_multiset().count(record) > 0);
        assert(written.contains(record));
        let i = choose|i: int| 0 <= i < written.len() && written[i] == record;
        assert(writes[i] == i);
    }
}

} // verus!
