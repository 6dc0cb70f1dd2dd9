//! The orchestrator: the stages that every iteration of a configuration
//! goes through.
//!
//! A [`ConfigurationRun`] hands out the stages of one configuration, one at a
//! time, takes back what each of them measured, and puts together one
//! [`MeasurementRecord`] for every iteration. A stage that fails ends the
//! run: nothing is retried, and a run that was aborted yields no measurements.

use vstd::prelude::*;
use crate::config::{
    BenchmarkConfig,
    Durability,
    MappingMode,
    StorageConfiguration,
    TableId,
    TableLayout,
};
use crate::measure::{IterationLog, LogView, MeasurementRecord, PhaseDuration};

verus! {

/// What a configuration measures.
#[derive(Clone, Copy, Debug, PartialEq, Eq, Structural)]
pub enum BenchmarkKind {
    /// The write phases are timed.
    Put,
    /// The tables are written, then the read phases are timed.
    Read,
}

/// Everything that fixes the stages of a configuration.
#[derive(Clone, Copy, Debug, PartialEq, Eq, Structural)]
pub struct RunPlan {
    pub kind: BenchmarkKind,
    pub storage: StorageConfiguration,
    /// Operations per transaction.
    pub job_divide: u64,
    /// Number of iterations.
    pub iterations: u64,
    /// Length of the progress indicator: the records of one pass over the tables.
    pub progress_length: u64,
}

/// One stage of a configuration, to be performed by the driver.
#[derive(Clone, Copy, Debug, PartialEq, Eq, Structural)]
pub enum Stage {
    /// Enter the execution context of iteration `iteration`, which is
    /// shared with no other iteration.
    BeginIteration { iteration: u64 },
    /// Destroy the storage instance and make a fresh one.
    Provision { storage: StorageConfiguration },
    /// Show a progress indicator of the given length.
    OpenProgress { length: u64 },
    /// Generate the workload of `table`, write it, and time the writing.
    Write { table: TableId, job_divide: u64 },
    /// Finish the progress indicator.
    CloseProgress,
    /// The durations measured so far in this iteration are dropped. Nothing
    /// is to be done for it.
    DiscardDurations,
    /// Shuffle what was written to `table`, look it up, and time the lookups.
    Read { table: TableId, job_divide: u64 },
    /// Take the size of the storage file.
    SampleSize,
    /// Leave the execution context of the iteration.
    EndIteration,
    /// Every iteration has run.
    Finished,
    /// A stage has failed, or was answered with something it does not
    /// yield: the run is abandoned.
    Abort,
}

/// What the driver reports of the stage that was handed out last.
#[derive(Clone, Copy, Debug, PartialEq, Eq, Structural)]
pub enum StageResult {
    /// The stage is done; it measures nothing.
    Done,
    /// The phase is done and took this long.
    Timed { duration: PhaseDuration },
    /// The storage file has this many bytes.
    Size { bytes: u64 },
    /// The stage failed.
    Failed,
}

/// The write phases of one iteration: the large table first.
pub open spec fn write_stages(plan: RunPlan) -> Seq<Stage> {
    match plan.storage.layout {
        TableLayout::PlainKV => seq![
            Stage::Write { table: TableId::Large, job_divide: plan.job_divide },
            Stage::Write { table: TableId::Small, job_divide: plan.job_divide },
        ],
        TableLayout::DuplicateKey => seq![
            Stage::Write { table: TableId::Small, job_divide: plan.job_divide },
        ],
    }
}

/// The read phases of one iteration: the large table first.
pub open spec fn read_stages(plan: RunPlan) -> Seq<Stage> {
    match plan.storage.layout {
        TableLayout::PlainKV => seq![
            Stage::Read { table: TableId::Large, job_divide: plan.job_divide },
            Stage::Read { table: TableId::Small, job_divide: plan.job_divide },
        ],
        TableLayout::DuplicateKey => seq![
            Stage::Read { table: TableId::Small, job_divide: plan.job_divide },
        ],
    }
}

/// What follows the write phases where the read phases are measured: the
/// durations of the writes are dropped and the tables are read under a
/// progress indicator of their own.
pub open spec fn reread_stages(plan: RunPlan) -> Seq<Stage> {
    match plan.kind {
        BenchmarkKind::Put => Seq::empty(),
        BenchmarkKind::Read => seq![
            Stage::CloseProgress,
            Stage::DiscardDurations,
            Stage::OpenProgress { length: plan.progress_length },
        ] + read_stages(plan),
    }
}

/// The stages of one iteration, in order.
pub open spec fn iteration_script(plan: RunPlan, iteration: u64) -> Seq<Stage> {
    seq![
        Stage::BeginIteration { iteration },
        Stage::Provision { storage: plan.storage },
        Stage::OpenProgress { length: plan.progress_length },
    ] + write_stages(plan) + reread_stages(plan) + seq![
        Stage::CloseProgress,
        Stage::SampleSize,
        Stage::EndIteration,
    ]
}

/// The stages of the iterations from number `from` on, in order.
pub open spec fn run_script(plan: RunPlan, from: int) -> Seq<Stage>
    decreases plan.iterations - from,
{
    if 0 <= from < plan.iterations {
        iteration_script(plan, from as u64) + run_script(plan, from + 1)
    } else {
        Seq::empty()
    }
}

/// Whether `result` is what `stage` yields where it succeeds.
pub open spec fn answers(stage: Stage, result: StageResult) -> bool {
    match stage {
        Stage::Write { .. } => result is Timed,
        Stage::Read { .. } => result is Timed,
        Stage::SampleSize => result is Size,
        _ => result is Done,
    }
}

/// Whether `result` is in order while `pending` waits for its result.
/// Before the first stage only `Done` is.
pub open spec fn accepted(pending: Option<Stage>, result: StageResult) -> bool {
    match pending {
        Some(stage) => answers(stage, result),
        None => result is Done,
    }
}

/// The log of the iteration once `pending` has yielded `result`.
pub open spec fn log_after(log: LogView, pending: Option<Stage>, result: StageResult) -> LogView {
    match (pending, result) {
        (Some(Stage::BeginIteration { .. }), _) => LogView::empty(),
        (Some(Stage::Write { .. }), StageResult::Timed { duration }) => log.record(duration),
        (Some(Stage::Read { .. }), StageResult::Timed { duration }) => log.record(duration),
        (Some(Stage::DiscardDurations), _) => log.discard(),
        (Some(Stage::SampleSize), StageResult::Size { bytes }) => log.with_size(bytes),
        _ => log,
    }
}

/// The record of an iteration with the given log: both durations in the
/// plain layout, zero and the one duration in the duplicate-key layout.
pub open spec fn record_of(layout: TableLayout, log: LogView) -> MeasurementRecord {
    match layout {
        TableLayout::PlainKV => log.pair_record(),
        TableLayout::DuplicateKey => log.single_record(),
    }
}

/// The measurements of the run once `pending` is done: the end of an
/// iteration adds the record of that iteration.
pub open spec fn measurements_after(
    measurements: Seq<MeasurementRecord>,
    layout: TableLayout,
    log: LogView,
    pending: Option<Stage>,
) -> Seq<MeasurementRecord> {
    match pending {
        Some(Stage::EndIteration) => measurements.push(record_of(layout, log)),
        _ => measurements,
    }
}

/// Number of durations in the log once the first `applied` stages of
/// `script` are done.
spec fn durations_after(script: Seq<Stage>, applied: int) -> nat
    decreases applied,
{
    if applied <= 0 {
        0
    } else {
        match script[applied - 1] {
            Stage::BeginIteration { .. } => 0,
            Stage::DiscardDurations => 0,
            Stage::Write { .. } => durations_after(script, applied - 1) + 1,
            Stage::Read { .. } => durations_after(script, applied - 1) + 1,
            _ => durations_after(script, applied - 1),
        }
    }
}

/// Number of timed phases that make the record of an iteration.
spec fn durations_due(layout: TableLayout) -> nat {
    match layout {
        TableLayout::PlainKV => 2,
        TableLayout::DuplicateKey => 1,
    }
}

proof fn lemma_script_shape(plan: RunPlan, iteration: u64)
    ensures
        iteration_script(plan, iteration) =~= iteration_script(plan, 0).update(
            0,
            Stage::BeginIteration { iteration },
        ),
        iteration_script(plan, iteration).len() == iteration_script(plan, 0).len(),
        7 <= iteration_script(plan, 0).len() <= 13,
        iteration_script(plan, 0)[iteration_script(plan, 0).len() - 1] == Stage::EndIteration,
        forall|i: int|
            0 <= i < iteration_script(plan, 0).len() - 1 ==> #[trigger] iteration_script(plan, 0)[i]
                != Stage::EndIteration,
        forall|i: int|
            1 <= i < iteration_script(plan, 0).len() ==> !(#[trigger] iteration_script(
                plan,
                0,
            )[i] is BeginIteration),
        durations_after(iteration_script(plan, 0), iteration_script(plan, 0).len() - 1)
            == durations_due(plan.storage.layout),
{
    let script = iteration_script(plan, 0);
    let head = seq![
        Stage::BeginIteration { iteration: 0 },
        Stage::Provision { storage: plan.storage },
        Stage::OpenProgress { length: plan.progress_length },
    ];
    let tail = seq![Stage::CloseProgress, Stage::SampleSize, Stage::EndIteration];
    let write_large = Stage::Write { table: TableId::Large, job_divide: plan.job_divide };
    let write_small = Stage::Write { table: TableId::Small, job_divide: plan.job_divide };
    let read_large = Stage::Read { table: TableId::Large, job_divide: plan.job_divide };
    let read_small = Stage::Read { table: TableId::Small, job_divide: plan.job_divide };
    let reopen = seq![
        Stage::CloseProgress,
        Stage::DiscardDurations,
        Stage::OpenProgress { length: plan.progress_length },
    ];
    reveal_with_fuel(durations_after, 14);
    match (plan.kind, plan.storage.layout) {
        (BenchmarkKind::Put, TableLayout::PlainKV) => {
            assert(script =~= head + seq![write_large, write_small] + tail);
            assert(script.len() == 8);
        },
        (BenchmarkKind::Put, TableLayout::DuplicateKey) => {
            assert(script =~= head + seq![write_small] + tail);
            assert(script.len() == 7);
        },
        (BenchmarkKind::Read, TableLayout::PlainKV) => {
            assert(script =~= head + seq![write_large, write_small] + reopen + seq![
                read_large,
                read_small,
            ] + tail);
            assert(script.len() == 13);
        },
        (BenchmarkKind::Read, TableLayout::DuplicateKey) => {
            assert(script =~= head + seq![write_small] + reopen + seq![read_small] + tail);
            assert(script.len() == 11);
        },
    }
}

/// Hands out the stages of one configuration and collects its measurements.
#[derive(Debug)]
pub struct ConfigurationRun {
    plan: RunPlan,
    /// The stages of an iteration; the first of them differs by iteration.
    template: Vec<Stage>,
    /// Iterations that are complete.
    iteration: u64,
    /// Stages of the current iteration that were handed out.
    emitted: usize,
    log: IterationLog,
    measurements: Vec<MeasurementRecord>,
    aborted: bool,
}

fn answers_to(stage: Stage, result: StageResult) -> (ok: bool)
    ensures
        ok == answers(stage, result),
{
    match stage {
        Stage::Write { .. } => match result {
            StageResult::Timed { .. } => true,
            _ => false,
        },
        Stage::Read { .. } => match result {
            StageResult::Timed { .. } => true,
            _ => false,
        },
        Stage::SampleSize => match result {
            StageResult::Size { .. } => true,
            _ => false,
        },
        _ => match result {
            StageResult::Done => true,
            _ => false,
        },
    }
}

fn script_template(plan: RunPlan) -> (template: Vec<Stage>)
    ensures
        template@ == iteration_script(plan, 0),
{
    let mut template: Vec<Stage> = Vec::new();
    template.push(Stage::BeginIteration { iteration: 0 });
    template.push(Stage::Provision { storage: plan.storage });
    template.push(Stage::OpenProgress { length: plan.progress_length });
    match plan.storage.layout {
        TableLayout::PlainKV => {
            template.push(Stage::Write { table: TableId::Large, job_divide: plan.job_divide });
            template.push(Stage::Write { table: TableId::Small, job_divide: plan.job_divide });
        },
        TableLayout::DuplicateKey => {
            template.push(Stage::Write { table: TableId::Small, job_divide: plan.job_divide });
        },
    }
    match plan.kind {
        BenchmarkKind::Put => {},
        BenchmarkKind::Read => {
            template.push(Stage::CloseProgress);
            template.push(Stage::DiscardDurations);
            template.push(Stage::OpenProgress { length: plan.progress_length });
            match plan.storage.layout {
                TableLayout::PlainKV => {
                    template.push(
                        Stage::Read { table: TableId::Large, job_divide: plan.job_divide },
                    );
                    template.push(
                        Stage::Read { table: TableId::Small, job_divide: plan.job_divide },
                    );
                },
                TableLayout::DuplicateKey => {
                    template.push(
                        Stage::Read { table: TableId::Small, job_divide: plan.job_divide },
                    );
                },
            }
        },
    }
    template.push(Stage::CloseProgress);
    template.push(Stage::SampleSize);
    template.push(Stage::EndIteration);
    assert(template@ =~= iteration_script(plan, 0));
    template
}

impl ConfigurationRun {
    #[verifier::type_invariant]
    spec fn inv(self) -> bool {
        self.aborted || {
            &&& self.template@ == iteration_script(self.plan, 0)
            &&& self.iteration <= self.plan.iterations
            &&& self.emitted <= self.template@.len()
            &&& self.iteration == self.plan.iterations ==> self.emitted == 0
            &&& self.measurements@.len() == self.iteration
            &&& self.emitted > 1 ==> self.log@.durations.len() == durations_after(
                self.template@,
                self.emitted - 1,
            )
        }
    }

    /// What fixes the stages of the run.
    pub closed spec fn plan(&self) -> RunPlan {
        self.plan
    }

    /// Whether the run was abandoned.
    pub closed spec fn is_aborted(&self) -> bool {
        self.aborted
    }

    /// The stage that was handed out and has not reported back.
    pub closed spec fn pending(&self) -> Option<Stage> {
        if self.aborted || self.emitted == 0 {
            None
        } else {
            Some(iteration_script(self.plan, self.iteration)[self.emitted - 1])
        }
    }

    /// What the current iteration has measured so far.
    pub closed spec fn log(&self) -> LogView {
        self.log@
    }

    /// The records of the iterations that are complete, oldest first.
    pub closed spec fn measurements(&self) -> Seq<MeasurementRecord> {
        self.measurements@
    }

    /// The stages that are still to be handed out, if none of them fails.
    pub closed spec fn remaining(&self) -> Seq<Stage> {
        if self.aborted || self.iteration >= self.plan.iterations {
            Seq::empty()
        } else {
            iteration_script(self.plan, self.iteration).skip(self.emitted as int) + run_script(
                self.plan,
                self.iteration + 1,
            )
        }
    }

    /// Whether every stage was handed out and has reported back.
    pub open spec fn is_finished(&self) -> bool {
        &&& !self.is_aborted()
        &&& self.pending() is None
        &&& self.remaining().len() == 0
    }

    /// Whether the run stands before its first stage.
    pub open spec fn is_fresh(&self, plan: RunPlan) -> bool {
        &&& self.plan() == plan
        &&& !self.is_aborted()
        &&& self.pending() is None
        &&& self.log() == LogView::empty()
        &&& self.measurements().len() == 0
        &&& self.remaining() == run_script(plan, 0)
    }

    /// A run of `plan` that stands before its first stage.
    pub fn new(plan: RunPlan) -> (run: ConfigurationRun)
        ensures
            run.is_fresh(plan),
    {
        let run = ConfigurationRun {
            plan,
            template: script_template(plan),
            iteration: 0,
            emitted: 0,
            log: IterationLog::new(),
            measurements: Vec::new(),
            aborted: false,
        };
        proof {
            if 0 < plan.iterations {
                assert(iteration_script(plan, 0).skip(0) =~= iteration_script(plan, 0));
            }
        }
        run
    }

    fn abandoned(plan: RunPlan) -> (run: ConfigurationRun)
        ensures
            run.plan() == plan,
            run.is_aborted(),
    {
        ConfigurationRun {
            plan,
            template: Vec::new(),
            iteration: 0,
            emitted: 0,
            log: IterationLog::new(),
            measurements: Vec::new(),
            aborted: true,
        }
    }

    /// Hands out the next stage.
    ///
    /// `result` reports on the stage handed out before: `Timed` for a phase,
    /// `Size` for the sampling of the size, `Done` for every other stage and
    /// for the first call. Anything else, `Failed` above all, abandons the
    /// run, and every later call answers `Abort`. Otherwise the result is
    /// taken into the log of the iteration, the end of an iteration adds its
    /// record to the measurements, and the stages come in the order of
    /// [`run_script`], with `Finished` after the last.
    pub fn advance(&mut self, result: StageResult) -> (stage: Stage)
        ensures
            final(self).plan() == old(self).plan(),
            (old(self).is_aborted() || !accepted(old(self).pending(), result)) ==> {
                &&& stage == Stage::Abort
                &&& final(self).is_aborted()
                &&& final(self).pending() is None
                &&& final(self).remaining() == Seq::<Stage>::empty()
            },
            (!old(self).is_aborted() && accepted(old(self).pending(), result)) ==> {
                &&& !final(self).is_aborted()
                &&& final(self).log() == log_after(old(self).log(), old(self).pending(), result)
                &&& final(self).measurements() == measurements_after(
                    old(self).measurements(),
                    old(self).plan().storage.layout,
                    old(self).log(),
                    old(self).pending(),
                )
                &&& old(self).remaining().len() > 0 ==> {
                    &&& stage == old(self).remaining()[0]
                    &&& final(self).remaining() == old(self).remaining().skip(1)
                    &&& final(self).pending() == Some(stage)
                }
                &&& old(self).remaining().len() == 0 ==> {
                    &&& stage == Stage::Finished
                    &&& final(self).is_finished()
                }
            },
    {
        proof {
            use_type_invariant(&*self);
        }
        let mut state = ConfigurationRun::abandoned(self.plan);
        core::mem::swap(self, &mut state);
        let ConfigurationRun { plan, template, iteration, emitted, log, measurements, aborted } =
            state;
        if aborted {
            return Stage::Abort;
        }
        let ghost before = iteration_script(plan, iteration).skip(emitted as int) + run_script(
            plan,
            iteration + 1,
        );
        proof {
            lemma_script_shape(plan, iteration);
        }
        let mut log = log;
        let mut measurements = measurements;
        let mut iteration = iteration;
        let mut emitted = emitted;
        if emitted == 0 {
            match result {
                StageResult::Done => {},
                _ => {
                    return Stage::Abort;
                },
            }
        } else {
            let pending = if emitted == 1 {
                Stage::BeginIteration { iteration }
            } else {
                template[emitted - 1]
            };
            if !answers_to(pending, result) {
                return Stage::Abort;
            }
            match pending {
                Stage::BeginIteration { .. } => {
                    log = IterationLog::new();
                },
                Stage::Write { .. } => {
                    if let StageResult::Timed { duration } = result {
                        log.record(duration);
                    }
                },
                Stage::Read { .. } => {
                    if let StageResult::Timed { duration } = result {
                        log.record(duration);
                    }
                },
                Stage::DiscardDurations => {
                    log.discard();
                },
                Stage::SampleSize => {
                    if let StageResult::Size { bytes } = result {
                        log.set_size(bytes);
                    }
                },
                Stage::EndIteration => {
                    let record = match plan.storage.layout {
                        TableLayout::PlainKV => log.pair(),
                        TableLayout::DuplicateKey => log.single(),
                    };
                    match record {
                        Some(record) => {
                            measurements.push(record);
                        },
                        None => {
                            assert(false);
                        },
                    }
                    iteration = iteration + 1;
                    emitted = 0;
                },
                _ => {},
            }
        }
        if iteration < plan.iterations {
            proof {
                lemma_script_shape(plan, iteration);
            }
            let stage = if emitted == 0 {
                Stage::BeginIteration { iteration }
            } else {
                template[emitted]
            };
            *self =
            ConfigurationRun {
                plan,
                template,
                iteration,
                emitted: emitted + 1,
                log,
                measurements,
                aborted: false,
            };
            assert(self.remaining() =~= before.skip(1));
            stage
        } else {
            *self =
            ConfigurationRun {
                plan,
                template,
                iteration,
                emitted: 0,
                log,
                measurements,
                aborted: false,
            };
            Stage::Finished
        }
    }

    /// What the run has measured: one record for every iteration, in the
    /// order of the iterations. `None` unless the run is finished: a run that
    /// was abandoned, or stopped half-way, yields nothing.
    pub fn into_measurements(self) -> (measurements: Option<Vec<MeasurementRecord>>)
        ensures
            measurements is Some <==> self.is_finished(),
            measurements matches Some(records) ==> {
                &&& records@ == self.measurements()
                &&& records@.len() == self.plan().iterations
            },
    {
        proof {
            use_type_invariant(&self);
            lemma_script_shape(self.plan, self.iteration);
        }
        if !self.aborted && self.emitted == 0 && self.iteration >= self.plan.iterations {
            Some(self.measurements)
        } else {
            None
        }
    }
}

/// Length of the progress indicator of a configuration: the records of one
/// pass over the tables that the layout uses.
pub open spec fn progress_length(config: BenchmarkConfig, layout: TableLayout) -> int {
    match layout {
        TableLayout::PlainKV => config.small.commit_count + config.large.commit_count,
        TableLayout::DuplicateKey => config.small.commit_count as int,
    }
}

/// The plan of a configuration over the tables of `config`.
pub open spec fn plan_of(
    config: BenchmarkConfig,
    kind: BenchmarkKind,
    storage: StorageConfiguration,
    job_divide: u64,
    num_iter: u64,
) -> RunPlan {
    RunPlan {
        kind,
        storage,
        job_divide,
        iterations: num_iter,
        progress_length: progress_length(config, storage.layout) as u64,
    }
}

fn plain_progress(config: &BenchmarkConfig) -> (length: u64)
    requires
        progress_length(*config, TableLayout::PlainKV) <= u64::MAX,
    ensures
        length == progress_length(*config, TableLayout::PlainKV),
{
    config.small.commit_count as u64 + config.large.commit_count as u64
}

/// The run that times the writes to the plain tables: in every iteration
/// the large table is written, then the small one.
pub fn mdbx_benchmark_put(
    config: &BenchmarkConfig,
    mapping: MappingMode,
    sync_mode: Durability,
    job_divide: u64,
    num_iter: u64,
) -> (run: ConfigurationRun)
    requires
        progress_length(*config, TableLayout::PlainKV) <= u64::MAX,
    ensures
        run.is_fresh(
            plan_of(
                *config,
                BenchmarkKind::Put,
                StorageConfiguration {
                    durability: sync_mode,
                    mapping,
                    layout: TableLayout::PlainKV,
                },
                job_divide,
                num_iter,
            ),
        ),
{
    ConfigurationRun::new(
        RunPlan {
            kind: BenchmarkKind::Put,
            storage: StorageConfiguration {
                durability: sync_mode,
                mapping,
                layout: TableLayout::PlainKV,
            },
            job_divide,
            iterations: num_iter,
            progress_length: plain_progress(config),
        },
    )
}

/// The run that times the writes to the duplicate-key table.
pub fn mdbx_benchmark_put_dup(
    config: &BenchmarkConfig,
    mapping: MappingMode,
    sync_mode: Durability,
    job_divide: u64,
    num_iter: u64,
) -> (run: ConfigurationRun)
    ensures
        run.is_fresh(
            plan_of(
                *config,
                BenchmarkKind::Put,
                StorageConfiguration {
                    durability: sync_mode,
                    mapping,
                    layout: TableLayout::DuplicateKey,
                },
                job_divide,
                num_iter,
            ),
        ),
{
    ConfigurationRun::new(
        RunPlan {
            kind: BenchmarkKind::Put,
            storage: StorageConfiguration {
                durability: sync_mode,
                mapping,
                layout: TableLayout::DuplicateKey,
            },
            job_divide,
            iterations: num_iter,
            progress_length: config.small.commit_count as u64,
        },
    )
}

/// The run that times the lookups in the plain tables: in every iteration
/// both tables are written, the durations of the writes are dropped, and
/// then the large table is read, then the small one.
pub fn mdbx_benchmark_read(
    config: &BenchmarkConfig,
    mapping: MappingMode,
    sync_mode: Durability,
    job_divide: u64,
    num_iter: u64,
) -> (run: ConfigurationRun)
    requires
        progress_length(*config, TableLayout::PlainKV) <= u64::MAX,
    ensures
        run.is_fresh(
            plan_of(
                *config,
                BenchmarkKind::Read,
                StorageConfiguration {
                    durability: sync_mode,
                    mapping,
                    layout: TableLayout::PlainKV,
                },
                job_divide,
                num_iter,
            ),
        ),
{
    ConfigurationRun::new(
        RunPlan {
            kind: BenchmarkKind::Read,
            storage: StorageConfiguration {
                durability: sync_mode,
                mapping,
                layout: TableLayout::PlainKV,
            },
            job_divide,
            iterations: num_iter,
            progress_length: plain_progress(config),
        },
    )
}

/// The run that times the lookups in the duplicate-key table: in every
/// iteration the table is written, the duration of the writes is dropped,
/// and then the table is read.
pub fn mdbx_benchmark_read_dup(
    config: &BenchmarkConfig,
    mapping: MappingMode,
    sync_mode: Durability,
    job_divide: u64,
    num_iter: u64,
) -> (run: ConfigurationRun)
    ensures
        run.is_fresh(
            plan_of(
                *config,
                BenchmarkKind::Read,
                StorageConfiguration {
                    durability: sync_mode,
                    mapping,
                    layout: TableLayout::DuplicateKey,
                },
                job_divide,
                num_iter,
            ),
        ),
{
    ConfigurationRun::new(
        RunPlan {
            kind: BenchmarkKind::Read,
            storage: StorageConfiguration {
                durability: sync_mode,
                mapping,
                layout: TableLayout::DuplicateKey,
            },
            job_divide,
            iterations: num_iter,
            progress_length: config.small.commit_count as u64,
        },
    )
}

} // verus!
