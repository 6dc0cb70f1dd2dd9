//! The configuration matrix: which configurations are benchmarked, in which
//! order, and under which labels their measurements are reported.

use vstd::prelude::*;
use crate::config::{
    BenchmarkConfig,
    Durability,
    MappingMode,
    StorageConfiguration,
    TableLayout,
    DEFAULT_BATCH_SIZE,
    EXTENDED_BATCH_SIZE,
    ITERATIONS,
};
use crate::measure::{BenchmarkResult, MeasurementRecord};
use crate::orchestrator::{
    mdbx_benchmark_put,
    mdbx_benchmark_put_dup,
    mdbx_benchmark_read,
    mdbx_benchmark_read_dup,
    plan_of,
    progress_length,
    BenchmarkKind,
    ConfigurationRun,
    RunPlan,
};

verus! {

/// One configuration of the benchmark, under the label of its results.
#[derive(Clone, Copy, Debug, PartialEq, Eq)]
pub struct BenchmarkCase {
    pub label: &'static str,
    pub kind: BenchmarkKind,
    pub storage: StorageConfiguration,
    /// Operations per transaction.
    pub job_divide: u64,
    /// Number of iterations.
    pub iterations: u64,
}

/// Name of the group of results of a layout.
pub open spec fn spec_group_name(layout: TableLayout) -> &'static str {
    match layout {
        TableLayout::PlainKV => "Benchmark MDBX Traditionnal Key/Pair",
        TableLayout::DuplicateKey => "Benchmark MDBX ZeroKey value w cursors",
    }
}

/// Name of the group of results of a layout.
pub fn group_name(layout: TableLayout) -> (name: &'static str)
    ensures
        name == spec_group_name(layout),
{
    match layout {
        TableLayout::PlainKV => "Benchmark MDBX Traditionnal Key/Pair",
        TableLayout::DuplicateKey => "Benchmark MDBX ZeroKey value w cursors",
    }
}

/// `plain` for the plain layout, `duplicate` for the duplicate-key layout.
pub open spec fn by_layout(
    layout: TableLayout,
    plain: &'static str,
    duplicate: &'static str,
) -> &'static str {
    match layout {
        TableLayout::PlainKV => plain,
        TableLayout::DuplicateKey => duplicate,
    }
}

/// A configuration that times writes.
pub open spec fn put_case(
    label: &'static str,
    layout: TableLayout,
    durability: Durability,
    mapping: MappingMode,
    job_divide: u64,
) -> BenchmarkCase {
    BenchmarkCase {
        label,
        kind: BenchmarkKind::Put,
        storage: StorageConfiguration { durability, mapping, layout },
        job_divide,
        iterations: ITERATIONS,
    }
}

/// A configuration that times lookups. Nothing is flushed while it runs, so
/// that the cost of durable writes stays out of what is measured.
pub open spec fn read_case(
    label: &'static str,
    layout: TableLayout,
    mapping: MappingMode,
) -> BenchmarkCase {
    BenchmarkCase {
        label,
        kind: BenchmarkKind::Read,
        storage: StorageConfiguration { durability: Durability::UtterlyNoSync, mapping, layout },
        job_divide: DEFAULT_BATCH_SIZE,
        iterations: ITERATIONS,
    }
}

/// The four write configurations of every run: two durabilities on two mappings.
pub open spec fn standard_writes(layout: TableLayout) -> Seq<BenchmarkCase> {
    seq![
        put_case(
            by_layout(layout, "T K/P SM::Durable | WriteMap", "ZKey SM::Durable | WriteMap"),
            layout,
            Durability::Durable,
            MappingMode::MemoryMapped,
            DEFAULT_BATCH_SIZE,
        ),
        put_case(
            by_layout(layout, "T K/P SM::SafeNoSync | WriteMap", "ZKey SM::SafeNoSync | WriteMap"),
            layout,
            Durability::SafeNoSync,
            MappingMode::MemoryMapped,
            DEFAULT_BATCH_SIZE,
        ),
        put_case(
            by_layout(layout, "T K/P SM::Durable | NoWriteMap", "ZKey SM::Durable | NoWriteMap"),
            layout,
            Durability::Durable,
            MappingMode::Unmapped,
            DEFAULT_BATCH_SIZE,
        ),
        put_case(
            by_layout(
                layout,
                "T K/P SM::SafeNoSync | NoWriteMap",
                "ZKey SM::SafeNoSync | NoWriteMap",
            ),
            layout,
            Durability::SafeNoSync,
            MappingMode::Unmapped,
            DEFAULT_BATCH_SIZE,
        ),
    ]
}

/// The two write configurations more of an extended run: larger transactions.
pub open spec fn extended_writes(layout: TableLayout) -> Seq<BenchmarkCase> {
    seq![
        put_case(
            by_layout(
                layout,
                "T K/P SM::Durable | WriteMap | J10K",
                "ZKey SM::Durable | WriteMap | J10K",
            ),
            layout,
            Durability::Durable,
            MappingMode::MemoryMapped,
            EXTENDED_BATCH_SIZE,
        ),
        put_case(
            by_layout(
                layout,
                "T K/P SM::SafeNoSync | WriteMap | J10K",
                "ZKey SM::SafeNoSync | WriteMap | J10K",
            ),
            layout,
            Durability::SafeNoSync,
            MappingMode::MemoryMapped,
            EXTENDED_BATCH_SIZE,
        ),
    ]
}

/// The two read configurations: one on each mapping.
pub open spec fn reads(layout: TableLayout) -> Seq<BenchmarkCase> {
    seq![
        read_case(
            by_layout(layout, "T K/P Read | WriteMap", "ZKey Read | WriteMap"),
            layout,
            MappingMode::MemoryMapped,
        ),
        read_case(
            by_layout(layout, "T K/P Read | NoWriteMap", "ZKey Read | NoWriteMap"),
            layout,
            MappingMode::Unmapped,
        ),
    ]
}

/// The configurations of a layout, in the order in which they run.
pub open spec fn matrix(layout: TableLayout, extended: bool) -> Seq<BenchmarkCase> {
    standard_writes(layout) + (if extended {
        extended_writes(layout)
    } else {
        Seq::empty()
    }) + reads(layout)
}

fn label_for(layout: TableLayout, plain: &'static str, duplicate: &'static str) -> (label:
    &'static str)
    ensures
        label == by_layout(layout, plain, duplicate),
{
    match layout {
        TableLayout::PlainKV => plain,
        TableLayout::DuplicateKey => duplicate,
    }
}

fn put_case_of(
    label: &'static str,
    layout: TableLayout,
    durability: Durability,
    mapping: MappingMode,
    job_divide: u64,
) -> (case: BenchmarkCase)
    ensures
        case == put_case(label, layout, durability, mapping, job_divide),
{
    BenchmarkCase {
        label,
        kind: BenchmarkKind::Put,
        storage: StorageConfiguration { durability, mapping, layout },
        job_divide,
        iterations: ITERATIONS,
    }
}

fn read_case_of(label: &'static str, layout: TableLayout, mapping: MappingMode) -> (case:
    BenchmarkCase)
    ensures
        case == read_case(label, layout, mapping),
{
    BenchmarkCase {
        label,
        kind: BenchmarkKind::Read,
        storage: StorageConfiguration { durability: Durability::UtterlyNoSync, mapping, layout },
        job_divide: DEFAULT_BATCH_SIZE,
        iterations: ITERATIONS,
    }
}

/// The configurations of a layout, in the order in which they run: the
/// writes on every pairing of durable and deferred flushing with the two
/// mappings, in an extended run two more with larger transactions, and the
/// reads on the two mappings.
pub fn benchmark_cases(layout: TableLayout, extended: bool) -> (cases: Vec<BenchmarkCase>)
    ensures
        cases@ == matrix(layout, extended),
{
    let mut cases: Vec<BenchmarkCase> = Vec::new();
    cases.push(
        put_case_of(
            label_for(layout, "T K/P SM::Durable | WriteMap", "ZKey SM::Durable | WriteMap"),
            layout,
            Durability::Durable,
            MappingMode::MemoryMapped,
            DEFAULT_BATCH_SIZE,
        ),
    );
    cases.push(
        put_case_of(
            label_for(layout, "T K/P SM::SafeNoSync | WriteMap", "ZKey SM::SafeNoSync | WriteMap"),
            layout,
            Durability::SafeNoSync,
            MappingMode::MemoryMapped,
            DEFAULT_BATCH_SIZE,
        ),
    );
    cases.push(
        put_case_of(
            label_for(layout, "T K/P SM::Durable | NoWriteMap", "ZKey SM::Durable | NoWriteMap"),
            layout,
            Durability::Durable,
            MappingMode::Unmapped,
            DEFAULT_BATCH_SIZE,
        ),
    );
    cases.push(
        put_case_of(
            label_for(
                layout,
                "T K/P SM::SafeNoSync | NoWriteMap",
                "ZKey SM::SafeNoSync | NoWriteMap",
            ),
            layout,
            Durability::SafeNoSync,
            MappingMode::Unmapped,
            DEFAULT_BATCH_SIZE,
        ),
    );
    if extended {
        cases.push(
            put_case_of(
                label_for(
                    layout,
                    "T K/P SM::Durable | WriteMap | J10K",
                    "ZKey SM::Durable | WriteMap | J10K",
                ),
                layout,
                Durability::Durable,
                MappingMode::MemoryMapped,
                EXTENDED_BATCH_SIZE,
            ),
        );
        cases.push(
            put_case_of(
                label_for(
                    layout,
                    "T K/P SM::SafeNoSync | WriteMap | J10K",
                    "ZKey SM::SafeNoSync | WriteMap | J10K",
                ),
                layout,
                Durability::SafeNoSync,
                MappingMode::MemoryMapped,
                EXTENDED_BATCH_SIZE,
            ),
        );
    }
    cases.push(
        read_case_of(
            label_for(layout, "T K/P Read | WriteMap", "ZKey Read | WriteMap"),
            layout,
            MappingMode::MemoryMapped,
        ),
    );
    cases.push(
        read_case_of(
            label_for(layout, "T K/P Read | NoWriteMap", "ZKey Read | NoWriteMap"),
            layout,
            MappingMode::Unmapped,
        ),
    );
    assert(cases@ =~= matrix(layout, extended));
    cases
}

impl BenchmarkCase {
    /// The plan of the case over the tables of `config`.
    pub open spec fn plan(&self, config: BenchmarkConfig) -> RunPlan {
        plan_of(config, self.kind, self.storage, self.job_divide, self.iterations)
    }

    /// A run of the case that stands before its first stage.
    pub fn start(&self, config: &BenchmarkConfig) -> (run: ConfigurationRun)
        requires
            progress_length(*config, self.storage.layout) <= u64::MAX,
        ensures
            run.is_fresh(self.plan(*config)),
    {
        let mapping = self.storage.mapping;
        let sync_mode = self.storage.durability;
        match self.storage.layout {
            TableLayout::PlainKV => match self.kind {
                BenchmarkKind::Put => mdbx_benchmark_put(
                    config,
                    mapping,
                    sync_mode,
                    self.job_divide,
                    self.iterations,
                ),
                BenchmarkKind::Read => mdbx_benchmark_read(
                    config,
                    mapping,
                    sync_mode,
                    self.job_divide,
                    self.iterations,
                ),
            },
            TableLayout::DuplicateKey => match self.kind {
                BenchmarkKind::Put => mdbx_benchmark_put_dup(
                    config,
                    mapping,
                    sync_mode,
                    self.job_divide,
                    self.iterations,
                ),
                BenchmarkKind::Read => mdbx_benchmark_read_dup(
                    config,
                    mapping,
                    sync_mode,
                    self.job_divide,
                    self.iterations,
                ),
            },
        }
    }
}

/// Whether `group` holds `measurements` under the labels of the
/// configurations of `layout`, in their order.
pub open spec fn is_group_of(
    group: BenchmarkResult,
    layout: TableLayout,
    extended: bool,
    measurements: Seq<Vec<MeasurementRecord>>,
) -> bool {
    &&& group.name@ == spec_group_name(layout)@
    &&& group.configurations@.len() == measurements.len()
    &&& forall|i: int|
        0 <= i < measurements.len() ==> {
            &&& (#[trigger] group.configurations@[i]).label@ == matrix(layout, extended)[i].label@
            &&& group.configurations@[i].measurements == measurements[i]
        }
}

/// Groups the measurements of the configurations of a layout.
///
/// `measurements` holds what the configurations of [`benchmark_cases`] have
/// measured, in their order. The result carries the name of the group and
/// every list of measurements under the label of its configuration. It is
/// `None` where the number of lists is not the number of configurations.
pub fn assemble(
    layout: TableLayout,
    extended: bool,
    measurements: Vec<Vec<MeasurementRecord>>,
) -> (result: Option<BenchmarkResult>)
    ensures
        result is Some <==> measurements@.len() == matrix(layout, extended).len(),
        result matches Some(group) ==> is_group_of(group, layout, extended, measurements@),
{
    let cases = benchmark_cases(layout, extended);
    if measurements.len() != cases.len() {
        return None;
    }
    let mut group = BenchmarkResult::new(group_name(layout));
    let mut left = measurements;
    let mut done: usize = 0;
    while done < cases.len()
        invariant
            cases@ == matrix(layout, extended),
            done <= cases@.len(),
            left@.len() == cases@.len() - done,
            measurements@.len() == cases@.len(),
            forall|i: int| 0 <= i < left@.len() ==> left@[i] == measurements@[done + i],
            group.name@ == spec_group_name(layout)@,
            group.configurations@.len() == done,
            forall|i: int|
                0 <= i < done ==> {
                    &&& (#[trigger] group.configurations@[i]).label@ == matrix(
                        layout,
                        extended,
                    )[i].label@
                    &&& group.configurations@[i].measurements == measurements@[i]
                },
        decreases cases@.len() - done,
    {
        let ghost before = group.configurations@;
        let next = left.remove(0);
        group.push(next, cases[done].label);
        proof {
            assert forall|i: int| 0 <= i < done + 1 implies {
                &&& (#[trigger] group.configurations@[i]).label@ == matrix(
                    layout,
                    extended,
                )[i].label@
                &&& group.configurations@[i].measurements == measurements@[i]
            } by {
                if i < done {
                    assert(group.configurations@[i] == before[i]);
                }
            }
        }
        done = done + 1;
    }
    Some(group)
}

} // verus!
