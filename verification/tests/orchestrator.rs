use mdbx_bench::config::{
    BenchmarkConfig, Durability, MappingMode, RecordProfile, StorageConfiguration, TableId,
    TableLayout,
};
use mdbx_bench::executor::{Action, BatchExecutor, Outcome, PhaseKind, PhaseMode};
use mdbx_bench::measure::{MeasurementRecord, PhaseDuration};
use mdbx_bench::matrix::{assemble, benchmark_cases, group_name, BenchmarkCase};
use mdbx_bench::orchestrator::{BenchmarkKind, ConfigurationRun, RunPlan, Stage, StageResult};
use mdbx_bench::{
    mdbx_benchmark_put, mdbx_benchmark_put_dup, mdbx_benchmark_read, mdbx_benchmark_read_dup,
};

fn tiny_config() -> BenchmarkConfig {
    BenchmarkConfig {
        small: RecordProfile { key_length: 8, value_length: 32, commit_count: 30 },
        large: RecordProfile { key_length: 32, value_length: 64, commit_count: 4 },
    }
}

fn seconds(secs: u64) -> PhaseDuration {
    PhaseDuration { secs, subsec_nanos: 0 }
}

fn storage(layout: TableLayout, mapping: MappingMode, durability: Durability) -> StorageConfiguration {
    StorageConfiguration { durability, mapping, layout }
}

/// Runs to the end; phase number `n` of the run takes `n + 1` seconds and the
/// storage file of iteration `i` has `1000 + i` bytes.
fn drive(run: &mut ConfigurationRun) -> Vec<Stage> {
    let mut stages = Vec::new();
    let mut result = StageResult::Done;
    let mut phases = 0;
    let mut iteration = 0;
    loop {
        let stage = run.advance(result);
        result = match stage {
            Stage::Finished => return stages,
            Stage::Abort => panic!("the run was abandoned"),
            Stage::BeginIteration { iteration: number } => {
                iteration = number;
                StageResult::Done
            }
            Stage::Write { .. } | Stage::Read { .. } => {
                phases += 1;
                StageResult::Timed { duration: seconds(phases) }
            }
            Stage::SampleSize => StageResult::Size { bytes: 1000 + iteration },
            _ => StageResult::Done,
        };
        stages.push(stage);
    }
}

#[test]
fn plain_put_run_stages_and_record() {
    let config = tiny_config();
    let mut run =
        mdbx_benchmark_put(&config, MappingMode::MemoryMapped, Durability::Durable, 1000, 1);
    let stages = drive(&mut run);
    assert_eq!(
        stages,
        vec![
            Stage::BeginIteration { iteration: 0 },
            Stage::Provision {
                storage: storage(
                    TableLayout::PlainKV,
                    MappingMode::MemoryMapped,
                    Durability::Durable
                ),
            },
            Stage::OpenProgress { length: 34 },
            Stage::Write { table: TableId::Large, job_divide: 1000 },
            Stage::Write { table: TableId::Small, job_divide: 1000 },
            Stage::CloseProgress,
            Stage::SampleSize,
            Stage::EndIteration,
        ]
    );
    assert_eq!(
        run.into_measurements(),
        Some(vec![MeasurementRecord { first: seconds(1), second: seconds(2), size: 1000 }])
    );
}

#[test]
fn plain_read_run_discards_the_write_durations() {
    let config = tiny_config();
    let mut run =
        mdbx_benchmark_read(&config, MappingMode::Unmapped, Durability::UtterlyNoSync, 1000, 1);
    let stages = drive(&mut run);
    assert_eq!(
        stages,
        vec![
            Stage::BeginIteration { iteration: 0 },
            Stage::Provision {
                storage: storage(
                    TableLayout::PlainKV,
                    MappingMode::Unmapped,
                    Durability::UtterlyNoSync
                ),
            },
            Stage::OpenProgress { length: 34 },
            Stage::Write { table: TableId::Large, job_divide: 1000 },
            Stage::Write { table: TableId::Small, job_divide: 1000 },
            Stage::CloseProgress,
            Stage::DiscardDurations,
            Stage::OpenProgress { length: 34 },
            Stage::Read { table: TableId::Large, job_divide: 1000 },
            Stage::Read { table: TableId::Small, job_divide: 1000 },
            Stage::CloseProgress,
            Stage::SampleSize,
            Stage::EndIteration,
        ]
    );
    assert_eq!(
        run.into_measurements(),
        Some(vec![MeasurementRecord { first: seconds(3), second: seconds(4), size: 1000 }])
    );
}

#[test]
fn duplicate_put_run_stages_and_record() {
    let config = tiny_config();
    let mut run =
        mdbx_benchmark_put_dup(&config, MappingMode::MemoryMapped, Durability::SafeNoSync, 10, 1);
    let stages = drive(&mut run);
    assert_eq!(
        stages,
        vec![
            Stage::BeginIteration { iteration: 0 },
            Stage::Provision {
                storage: storage(
                    TableLayout::DuplicateKey,
                    MappingMode::MemoryMapped,
                    Durability::SafeNoSync
                ),
            },
            Stage::OpenProgress { length: 30 },
            Stage::Write { table: TableId::Small, job_divide: 10 },
            Stage::CloseProgress,
            Stage::SampleSize,
            Stage::EndIteration,
        ]
    );
    assert_eq!(
        run.into_measurements(),
        Some(vec![MeasurementRecord { first: seconds(0), second: seconds(1), size: 1000 }])
    );
}

#[test]
fn duplicate_read_run_stages_and_record() {
    let config = tiny_config();
    let mut run =
        mdbx_benchmark_read_dup(&config, MappingMode::Unmapped, Durability::UtterlyNoSync, 10, 1);
    let stages = drive(&mut run);
    assert_eq!(
        stages,
        vec![
            Stage::BeginIteration { iteration: 0 },
            Stage::Provision {
                storage: storage(
                    TableLayout::DuplicateKey,
                    MappingMode::Unmapped,
                    Durability::UtterlyNoSync
                ),
            },
            Stage::OpenProgress { length: 30 },
            Stage::Write { table: TableId::Small, job_divide: 10 },
            Stage::CloseProgress,
            Stage::DiscardDurations,
            Stage::OpenProgress { length: 30 },
            Stage::Read { table: TableId::Small, job_divide: 10 },
            Stage::CloseProgress,
            Stage::SampleSize,
            Stage::EndIteration,
        ]
    );
    assert_eq!(
        run.into_measurements(),
        Some(vec![MeasurementRecord { first: seconds(0), second: seconds(2), size: 1000 }])
    );
}

#[test]
fn three_iterations_give_three_records() {
    let config = tiny_config();
    let mut run =
        mdbx_benchmark_put(&config, MappingMode::MemoryMapped, Durability::Durable, 1000, 3);
    let stages = drive(&mut run);
    assert_eq!(stages.len(), 24);
    let begun: Vec<u64> = stages
        .iter()
        .filter_map(|stage| match stage {
            Stage::BeginIteration { iteration } => Some(*iteration),
            _ => None,
        })
        .collect();
    assert_eq!(begun, vec![0, 1, 2]);
    assert_eq!(stages.iter().filter(|stage| **stage == Stage::EndIteration).count(), 3);
    assert_eq!(stages.iter().filter(|stage| matches!(stage, Stage::Provision { .. })).count(), 3);
    assert_eq!(
        run.into_measurements(),
        Some(vec![
            MeasurementRecord { first: seconds(1), second: seconds(2), size: 1000 },
            MeasurementRecord { first: seconds(3), second: seconds(4), size: 1001 },
            MeasurementRecord { first: seconds(5), second: seconds(6), size: 1002 },
        ])
    );
}

#[test]
fn no_iterations_give_no_records() {
    let config = tiny_config();
    let mut run =
        mdbx_benchmark_read(&config, MappingMode::MemoryMapped, Durability::Durable, 1000, 0);
    assert_eq!(run.advance(StageResult::Done), Stage::Finished);
    assert_eq!(run.into_measurements(), Some(Vec::new()));
}

#[test]
fn a_failed_stage_abandons_the_run() {
    let config = tiny_config();
    let mut run =
        mdbx_benchmark_put(&config, MappingMode::MemoryMapped, Durability::Durable, 1000, 3);
    assert_eq!(run.advance(StageResult::Done), Stage::BeginIteration { iteration: 0 });
    assert!(matches!(run.advance(StageResult::Done), Stage::Provision { .. }));
    assert_eq!(run.advance(StageResult::Failed), Stage::Abort);
    assert_eq!(run.advance(StageResult::Done), Stage::Abort);
    assert_eq!(run.into_measurements(), None);
}

#[test]
fn a_failure_in_a_later_iteration_leaves_no_partial_result() {
    let config = tiny_config();
    let mut run =
        mdbx_benchmark_put_dup(&config, MappingMode::MemoryMapped, Durability::Durable, 10, 2);
    let mut result = StageResult::Done;
    loop {
        let stage = run.advance(result);
        result = match stage {
            Stage::BeginIteration { iteration: 1 } => StageResult::Failed,
            Stage::Write { .. } => StageResult::Timed { duration: seconds(1) },
            Stage::SampleSize => StageResult::Size { bytes: 1 },
            Stage::Abort => break,
            Stage::Finished => panic!("the run must not finish"),
            _ => StageResult::Done,
        };
    }
    assert_eq!(run.into_measurements(), None);
}

#[test]
fn a_result_of_the_wrong_kind_abandons_the_run() {
    let config = tiny_config();
    let mut run =
        mdbx_benchmark_put(&config, MappingMode::MemoryMapped, Durability::Durable, 1000, 1);
    assert_eq!(run.advance(StageResult::Done), Stage::BeginIteration { iteration: 0 });
    assert!(matches!(run.advance(StageResult::Done), Stage::Provision { .. }));
    assert!(matches!(run.advance(StageResult::Done), Stage::OpenProgress { .. }));
    assert!(matches!(run.advance(StageResult::Done), Stage::Write { .. }));
    assert_eq!(run.advance(StageResult::Done), Stage::Abort);
    assert_eq!(run.into_measurements(), None);

    let mut other = mdbx_benchmark_put(&config, MappingMode::Unmapped, Durability::Durable, 1, 1);
    assert_eq!(other.advance(StageResult::Size { bytes: 3 }), Stage::Abort);
}

#[test]
fn an_unfinished_run_yields_nothing() {
    let config = tiny_config();
    let fresh = mdbx_benchmark_put(&config, MappingMode::MemoryMapped, Durability::Durable, 10, 1);
    assert_eq!(fresh.into_measurements(), None);

    let mut run =
        mdbx_benchmark_put_dup(&config, MappingMode::MemoryMapped, Durability::Durable, 10, 1);
    let mut result = StageResult::Done;
    loop {
        let stage = run.advance(result);
        result = match stage {
            Stage::Write { .. } => StageResult::Timed { duration: seconds(1) },
            Stage::SampleSize => StageResult::Size { bytes: 1 },
            Stage::EndIteration => break,
            _ => StageResult::Done,
        };
    }
    assert_eq!(run.into_measurements(), None);
}

#[test]
fn finished_is_repeated() {
    let mut run = ConfigurationRun::new(RunPlan {
        kind: BenchmarkKind::Put,
        storage: storage(TableLayout::DuplicateKey, MappingMode::Unmapped, Durability::Durable),
        job_divide: 5,
        iterations: 1,
        progress_length: 9,
    });
    let stages = drive(&mut run);
    assert_eq!(stages[2], Stage::OpenProgress { length: 9 });
    assert_eq!(run.advance(StageResult::Done), Stage::Finished);
    assert_eq!(run.advance(StageResult::Done), Stage::Finished);
    assert_eq!(run.into_measurements().map(|records| records.len()), Some(1));
}

#[test]
fn plain_matrix() {
    let cases = benchmark_cases(TableLayout::PlainKV, false);
    let labels: Vec<&str> = cases.iter().map(|case| case.label).collect();
    assert_eq!(
        labels,
        vec![
            "T K/P SM::Durable | WriteMap",
            "T K/P SM::SafeNoSync | WriteMap",
            "T K/P SM::Durable | NoWriteMap",
            "T K/P SM::SafeNoSync | NoWriteMap",
            "T K/P Read | WriteMap",
            "T K/P Read | NoWriteMap",
        ]
    );
    assert_eq!(
        cases[0],
        BenchmarkCase {
            label: "T K/P SM::Durable | WriteMap",
            kind: BenchmarkKind::Put,
            storage: storage(TableLayout::PlainKV, MappingMode::MemoryMapped, Durability::Durable),
            job_divide: 1000,
            iterations: 3,
        }
    );
    assert_eq!(
        cases[3],
        BenchmarkCase {
            label: "T K/P SM::SafeNoSync | NoWriteMap",
            kind: BenchmarkKind::Put,
            storage: storage(TableLayout::PlainKV, MappingMode::Unmapped, Durability::SafeNoSync),
            job_divide: 1000,
            iterations: 3,
        }
    );
    assert_eq!(
        cases[5],
        BenchmarkCase {
            label: "T K/P Read | NoWriteMap",
            kind: BenchmarkKind::Read,
            storage: storage(
                TableLayout::PlainKV,
                MappingMode::Unmapped,
                Durability::UtterlyNoSync
            ),
            job_divide: 1000,
            iterations: 3,
        }
    );
}

#[test]
fn extended_matrix_adds_larger_batches() {
    let cases = benchmark_cases(TableLayout::PlainKV, true);
    let labels: Vec<&str> = cases.iter().map(|case| case.label).collect();
    assert_eq!(
        labels,
        vec![
            "T K/P SM::Durable | WriteMap",
            "T K/P SM::SafeNoSync | WriteMap",
            "T K/P SM::Durable | NoWriteMap",
            "T K/P SM::SafeNoSync | NoWriteMap",
            "T K/P SM::Durable | WriteMap | J10K",
            "T K/P SM::SafeNoSync | WriteMap | J10K",
            "T K/P Read | WriteMap",
            "T K/P Read | NoWriteMap",
        ]
    );
    assert_eq!(
        cases[4],
        BenchmarkCase {
            label: "T K/P SM::Durable | WriteMap | J10K",
            kind: BenchmarkKind::Put,
            storage: storage(TableLayout::PlainKV, MappingMode::MemoryMapped, Durability::Durable),
            job_divide: 10000,
            iterations: 3,
        }
    );
    assert_eq!(cases[5].storage.durability, Durability::SafeNoSync);
    assert_eq!(cases[5].storage.mapping, MappingMode::MemoryMapped);
    assert_eq!(cases[5].job_divide, 10000);
}

#[test]
fn duplicate_matrix() {
    let cases = benchmark_cases(TableLayout::DuplicateKey, true);
    let labels: Vec<&str> = cases.iter().map(|case| case.label).collect();
    assert_eq!(
        labels,
        vec![
            "ZKey SM::Durable | WriteMap",
            "ZKey SM::SafeNoSync | WriteMap",
            "ZKey SM::Durable | NoWriteMap",
            "ZKey SM::SafeNoSync | NoWriteMap",
            "ZKey SM::Durable | WriteMap | J10K",
            "ZKey SM::SafeNoSync | WriteMap | J10K",
            "ZKey Read | WriteMap",
            "ZKey Read | NoWriteMap",
        ]
    );
    assert!(cases.iter().all(|case| case.storage.layout == TableLayout::DuplicateKey));
    assert!(cases.iter().all(|case| case.iterations == 3));
    assert_eq!(benchmark_cases(TableLayout::DuplicateKey, false).len(), 6);
}

#[test]
fn reads_never_flush() {
    for layout in [TableLayout::PlainKV, TableLayout::DuplicateKey] {
        for extended in [false, true] {
            for case in benchmark_cases(layout, extended) {
                match case.kind {
                    BenchmarkKind::Read => {
                        assert_eq!(case.storage.durability, Durability::UtterlyNoSync);
                        assert_eq!(case.job_divide, 1000);
                    }
                    BenchmarkKind::Put => {
                        assert_ne!(case.storage.durability, Durability::UtterlyNoSync);
                    }
                }
            }
        }
    }
}

#[test]
fn group_names() {
    assert_eq!(group_name(TableLayout::PlainKV), "Benchmark MDBX Traditionnal Key/Pair");
    assert_eq!(group_name(TableLayout::DuplicateKey), "Benchmark MDBX ZeroKey value w cursors");
}

#[test]
fn a_case_starts_its_run() {
    let config = tiny_config();
    let cases = benchmark_cases(TableLayout::DuplicateKey, false);
    let mut run = cases[4].start(&config);
    let stages = drive(&mut run);
    assert_eq!(stages.len(), 33);
    assert_eq!(
        stages[1],
        Stage::Provision {
            storage: storage(
                TableLayout::DuplicateKey,
                MappingMode::MemoryMapped,
                Durability::UtterlyNoSync
            ),
        }
    );
    assert_eq!(stages[7], Stage::Read { table: TableId::Small, job_divide: 1000 });
    assert_eq!(run.into_measurements().map(|records| records.len()), Some(3));

    let plain = benchmark_cases(TableLayout::PlainKV, false);
    let mut put = plain[0].start(&config);
    assert_eq!(drive(&mut put).len(), 24);
}

#[test]
fn standard_progress_lengths() {
    let config = BenchmarkConfig::standard();
    let mut plain =
        mdbx_benchmark_put(&config, MappingMode::MemoryMapped, Durability::Durable, 1000, 1);
    let stages = drive(&mut plain);
    assert_eq!(stages[2], Stage::OpenProgress { length: 3_040_000 });
    let mut duplicate =
        mdbx_benchmark_put_dup(&config, MappingMode::MemoryMapped, Durability::Durable, 1000, 1);
    let stages = drive(&mut duplicate);
    assert_eq!(stages[2], Stage::OpenProgress { length: 3_000_000 });
}

#[test]
fn durable_mapped_small_table_scenario() {
    let config = BenchmarkConfig::standard();
    let mut run =
        mdbx_benchmark_put(&config, MappingMode::MemoryMapped, Durability::Durable, 1000, 1);
    let payload = 3_000_000u64 * 40;
    let mut result = StageResult::Done;
    let mut commits = 0u64;
    loop {
        let stage = run.advance(result);
        result = match stage {
            Stage::Finished => break,
            Stage::Abort => panic!("the run was abandoned"),
            Stage::Write { table, job_divide } => {
                let total = config.profile(table).commit_count;
                let mut executor = BatchExecutor::new(
                    PhaseMode { layout: TableLayout::PlainKV, kind: PhaseKind::Write },
                    total,
                    job_divide,
                );
                let mut written = 0;
                loop {
                    match executor.advance(Outcome::Completed) {
                        Action::Put { .. } => written += 1,
                        Action::Commit => commits += 1,
                        Action::StopTimer => break,
                        Action::Abort | Action::Finished => panic!("the phase must run to its end"),
                        _ => {}
                    }
                }
                assert_eq!(written, total);
                StageResult::Timed { duration: PhaseDuration { secs: 0, subsec_nanos: 1 } }
            }
            Stage::SampleSize => StageResult::Size { bytes: payload + 4096 },
            _ => StageResult::Done,
        };
    }
    assert_eq!(commits, 3000 + 40);
    let records = run.into_measurements().unwrap();
    assert_eq!(records.len(), 1);
    assert!(records[0].first.secs > 0 || records[0].first.subsec_nanos > 0);
    assert_eq!(records[0].second, PhaseDuration { secs: 0, subsec_nanos: 1 });
    assert!(records[0].size > payload);
}

#[test]
fn measurements_are_grouped_under_their_labels() {
    let lists: Vec<Vec<MeasurementRecord>> = (0..6u64)
        .map(|case| {
            (0..3u64)
                .map(|iteration| MeasurementRecord {
                    first: seconds(case),
                    second: seconds(iteration),
                    size: 10 * case + iteration,
                })
                .collect()
        })
        .collect();
    let group = assemble(TableLayout::PlainKV, false, lists.clone()).unwrap();
    assert_eq!(group.name, "Benchmark MDBX Traditionnal Key/Pair");
    assert_eq!(group.configurations.len(), 6);
    let cases = benchmark_cases(TableLayout::PlainKV, false);
    for (index, configuration) in group.configurations.iter().enumerate() {
        assert_eq!(configuration.label, cases[index].label);
        assert_eq!(configuration.measurements, lists[index]);
    }
    assert_eq!(group.configurations[4].label, "T K/P Read | WriteMap");
    assert_eq!(
        group.configurations[4].measurements[2],
        MeasurementRecord { first: seconds(4), second: seconds(2), size: 42 }
    );
}

#[test]
fn a_group_needs_one_list_for_every_configuration() {
    let six: Vec<Vec<MeasurementRecord>> = vec![Vec::new(); 6];
    let eight: Vec<Vec<MeasurementRecord>> = vec![Vec::new(); 8];
    assert!(assemble(TableLayout::DuplicateKey, false, six.clone()).is_some());
    assert!(assemble(TableLayout::DuplicateKey, true, six).is_none());
    assert!(assemble(TableLayout::DuplicateKey, false, eight.clone()).is_none());
    assert!(assemble(TableLayout::PlainKV, false, Vec::new()).is_none());
    let group = assemble(TableLayout::DuplicateKey, true, eight).unwrap();
    assert_eq!(group.name, "Benchmark MDBX ZeroKey value w cursors");
    assert_eq!(group.configurations[5].label, "ZKey SM::SafeNoSync | WriteMap | J10K");
}
