use mdbx_bench::config::{
    BenchmarkConfig, RecordProfile, TableId, DEFAULT_BATCH_SIZE, EXTENDED_BATCH_SIZE, ITERATIONS,
    LARGE_TABLE_NAME, SMALL_TABLE_NAME,
};

#[test]
fn small_profile_values() {
    let profile = RecordProfile::small();
    assert_eq!(profile.key_length, 8);
    assert_eq!(profile.value_length, 32);
    assert_eq!(profile.commit_count, 3_000_000);
}

#[test]
fn large_profile_values() {
    let profile = RecordProfile::large();
    assert_eq!(profile.key_length, 32);
    assert_eq!(profile.value_length, 60 * 1024);
    assert_eq!(profile.commit_count, 40_000);
}

#[test]
fn standard_config_holds_both_profiles() {
    let config = BenchmarkConfig::standard();
    assert_eq!(config.small, RecordProfile::small());
    assert_eq!(config.large, RecordProfile::large());
    assert_eq!(config.profile(TableId::Small), RecordProfile::small());
    assert_eq!(config.profile(TableId::Large), RecordProfile::large());
}

#[test]
fn table_names() {
    assert_eq!(TableId::Small.name(), "sim_blockheight");
    assert_eq!(TableId::Large.name(), "sim_blocks");
    assert_eq!(SMALL_TABLE_NAME, "sim_blockheight");
    assert_eq!(LARGE_TABLE_NAME, "sim_blocks");
}

#[test]
fn batch_sizes_and_iterations() {
    assert_eq!(DEFAULT_BATCH_SIZE, 1000);
    assert_eq!(EXTENDED_BATCH_SIZE, 10000);
    assert_eq!(ITERATIONS, 3);
}
