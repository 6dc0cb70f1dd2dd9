//! Configuration axes and record shapes of the benchmark.

use vstd::prelude::*;

verus! {

/// How hard the engine pushes a commit to stable storage before it returns.
#[derive(Clone, Copy, Debug, PartialEq, Eq, Structural)]
pub enum Durability {
    /// Every commit is flushed before it is acknowledged.
    Durable,
    /// Commits are acknowledged before the flush; the file stays consistent.
    SafeNoSync,
    /// Nothing is flushed by a commit.
    UtterlyNoSync,
}

/// Whether the engine writes through a memory map or through write calls.
#[derive(Clone, Copy, Debug, PartialEq, Eq, Structural)]
pub enum MappingMode {
    MemoryMapped,
    Unmapped,
}

/// How a benchmark table stores its records.
#[derive(Clone, Copy, Debug, PartialEq, Eq, Structural)]
pub enum TableLayout {
    /// One value per key.
    PlainKV,
    /// Many sorted fixed-size values under one shared, empty key.
    DuplicateKey,
}

/// Everything that decides how a storage instance is opened.
#[derive(Clone, Copy, Debug, PartialEq, Eq, Structural)]
pub struct StorageConfiguration {
    pub durability: Durability,
    pub mapping: MappingMode,
    pub layout: TableLayout,
}

/// The two benchmark tables.
#[derive(Clone, Copy, Debug, PartialEq, Eq, Structural)]
pub enum TableId {
    /// Short keys, short values, many records.
    Small,
    /// Longer keys, values of tens of kilobytes, fewer records.
    Large,
}

/// Name of the small table inside the storage instance.
pub const SMALL_TABLE_NAME: &'static str = "sim_blockheight";

/// Name of the large table inside the storage instance.
pub const LARGE_TABLE_NAME: &'static str = "sim_blocks";

impl TableId {
    pub open spec fn spec_name(self) -> &'static str {
        match self {
            TableId::Small => SMALL_TABLE_NAME,
            TableId::Large => LARGE_TABLE_NAME,
        }
    }

    /// The name under which the table is created and opened.
    pub fn name(self) -> (name: &'static str)
        ensures
            name == self.spec_name(),
    {
        match self {
            TableId::Small => SMALL_TABLE_NAME,
            TableId::Large => LARGE_TABLE_NAME,
        }
    }
}

/// The fixed shape and volume of one table's workload.
#[derive(Clone, Copy, Debug, PartialEq, Eq, Structural)]
pub struct RecordProfile {
    /// Bytes in every key.
    pub key_length: usize,
    /// Bytes in every value.
    pub value_length: usize,
    /// Records generated for one phase.
    pub commit_count: usize,
}

impl RecordProfile {
    pub open spec fn spec_small() -> RecordProfile {
        RecordProfile { key_length: 8, value_length: 32, commit_count: 3_000_000 }
    }

    pub open spec fn spec_large() -> RecordProfile {
        RecordProfile { key_length: 32, value_length: 61_440, commit_count: 40_000 }
    }

    /// 8-byte keys, 32-byte values, three million records.
    pub fn small() -> (profile: RecordProfile)
        ensures
            profile == Self::spec_small(),
    {
        RecordProfile { key_length: 8, value_length: 32, commit_count: 3_000_000 }
    }

    /// 32-byte keys, 60 KiB values, forty thousand records.
    pub fn large() -> (profile: RecordProfile)
        ensures
            profile == Self::spec_large(),
    {
        RecordProfile { key_length: 32, value_length: 61_440, commit_count: 40_000 }
    }

    /// Length of one record of the duplicate-key layout: key and value in one blob.
    pub open spec fn blob_length(self) -> int {
        self.key_length + self.value_length
    }
}

/// The record shapes of one benchmark run.
///
/// The standard run uses [`RecordProfile::small`] and [`RecordProfile::large`];
/// a smaller pair makes the same run quick.
#[derive(Clone, Copy, Debug, PartialEq, Eq, Structural)]
pub struct BenchmarkConfig {
    pub small: RecordProfile,
    pub large: RecordProfile,
}

impl BenchmarkConfig {
    pub open spec fn spec_standard() -> BenchmarkConfig {
        BenchmarkConfig { small: RecordProfile::spec_small(), large: RecordProfile::spec_large() }
    }

    /// The shapes of the full-size benchmark.
    pub fn standard() -> (config: BenchmarkConfig)
        ensures
            config == Self::spec_standard(),
    {
        BenchmarkConfig { small: RecordProfile::small(), large: RecordProfile::large() }
    }

    pub open spec fn spec_profile(self, table: TableId) -> RecordProfile {
        match table {
            TableId::Small => self.small,
            TableId::Large => self.large,
        }
    }

    /// The shape of the records of `table`.
    pub fn profile(&self, table: TableId) -> (profile: RecordProfile)
        ensures
            profile == self.spec_profile(table),
    {
        match table {
            TableId::Small => self.small,
            TableId::Large => self.large,
        }
    }
}

/// Operations per transaction in the default regime.
pub const DEFAULT_BATCH_SIZE: u64 = 1000;

/// Operations per transaction in the extended regime.
pub const EXTENDED_BATCH_SIZE: u64 = 10000;

/// Iterations measured for every configuration.
pub const ITERATIONS: u64 = 3;

} // verus!
