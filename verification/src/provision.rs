//! Provisioning: how a fresh storage instance is made.
//!
//! Whatever lies at the path of the instance is destroyed, the engine is
//! opened with fixed limits and the requested modes, and the two benchmark
//! tables are created in one transaction. The plan is a list of steps; each
//! of them either succeeds or ends the whole run.

use vstd::prelude::*;
use crate::config::{Durability, MappingMode, StorageConfiguration, TableId, TableLayout};

verus! {

/// Tables that the engine is opened for: at least 14.
pub const MAX_TABLES: u64 = 14;

/// Concurrent readers that the engine is opened for: at least 32.
pub const MAX_READERS: u32 = 32;

/// Upper bound of the size of the memory map: 4 TiB.
pub const MAX_MAP_SIZE: u64 = 4_398_046_511_104;

/// Step by which the storage file grows: 256 MiB.
pub const GROWTH_STEP: u64 = 268_435_456;

/// Directory of the storage instance, below the path that a run is given.
pub const INSTANCE_DIRECTORY: &'static str = "benchmark.mdbx";

/// The storage file inside the directory of the instance.
pub const STORAGE_FILE: &'static str = "mdbx.dat";

/// Bounds of the size of the storage file.
#[derive(Clone, Copy, Debug, PartialEq, Eq, Structural)]
pub struct Geometry {
    pub size_lower: u64,
    pub size_upper: u64,
    pub growth_step: u64,
}

/// What the engine is opened with.
#[derive(Clone, Copy, Debug, PartialEq, Eq, Structural)]
pub struct EngineOptions {
    pub max_tables: u64,
    pub max_readers: u32,
    pub durability: Durability,
    pub mapping: MappingMode,
    pub geometry: Geometry,
}

/// A table to create, with its flags.
#[derive(Clone, Copy, Debug, PartialEq, Eq, Structural)]
pub struct TableSpec {
    pub table: TableId,
    /// Many sorted values under one key.
    pub dup_sort: bool,
    /// All values under one key have one size.
    pub dup_fixed: bool,
}

/// One step of provisioning.
#[derive(Clone, Copy, Debug, PartialEq, Eq, Structural)]
pub enum ProvisionStep {
    /// Delete the instance that lies at the path, if there is one, with all it holds.
    DestroyExisting,
    /// Open a new instance at the path.
    Open { options: EngineOptions },
    /// Open the write transaction in which the tables are created.
    BeginWrite,
    /// Create a table.
    CreateTable { spec: TableSpec },
    /// Commit the transaction.
    Commit,
}

/// The options that every instance is opened with, but for its two modes.
pub open spec fn engine_options(durability: Durability, mapping: MappingMode) -> EngineOptions {
    EngineOptions {
        max_tables: MAX_TABLES,
        max_readers: MAX_READERS,
        durability,
        mapping,
        geometry: Geometry { size_lower: 0, size_upper: MAX_MAP_SIZE, growth_step: GROWTH_STEP },
    }
}

/// How `table` is created in an instance of the given layout.
///
/// In the plain layout both tables are plain. In the duplicate-key layout the
/// small table, the one that the duplicate-key phases use, holds sorted
/// values of one size; the large table stays plain.
pub open spec fn table_spec(layout: TableLayout, table: TableId) -> TableSpec {
    let duplicates = layout == TableLayout::DuplicateKey && table == TableId::Small;
    TableSpec { table, dup_sort: duplicates, dup_fixed: duplicates }
}

/// The steps that make a fresh instance for `config`.
pub open spec fn provision_steps(config: StorageConfiguration) -> Seq<ProvisionStep> {
    seq![
        ProvisionStep::DestroyExisting,
        ProvisionStep::Open { options: engine_options(config.durability, config.mapping) },
        ProvisionStep::BeginWrite,
        ProvisionStep::CreateTable { spec: table_spec(config.layout, TableId::Small) },
        ProvisionStep::CreateTable { spec: table_spec(config.layout, TableId::Large) },
        ProvisionStep::Commit,
    ]
}

/// The plan for a fresh instance for `config`.
pub fn provision(config: StorageConfiguration) -> (steps: Vec<ProvisionStep>)
    ensures
        steps@ == provision_steps(config),
{
    let duplicates = match config.layout {
        TableLayout::PlainKV => false,
        TableLayout::DuplicateKey => true,
    };
    let options = EngineOptions {
        max_tables: MAX_TABLES,
        max_readers: MAX_READERS,
        durability: config.durability,
        mapping: config.mapping,
        geometry: Geometry { size_lower: 0, size_upper: MAX_MAP_SIZE, growth_step: GROWTH_STEP },
    };
    let small = TableSpec { table: TableId::Small, dup_sort: duplicates, dup_fixed: duplicates };
    let large = TableSpec { table: TableId::Large, dup_sort: false, dup_fixed: false };
    let mut steps: Vec<ProvisionStep> = Vec::new();
    steps.push(ProvisionStep::DestroyExisting);
    steps.push(ProvisionStep::Open { options });
    steps.push(ProvisionStep::BeginWrite);
    steps.push(ProvisionStep::CreateTable { spec: small });
    steps.push(ProvisionStep::CreateTable { spec: large });
    steps.push(ProvisionStep::Commit);
    assert(steps@ =~= provision_steps(config));
    steps
}

/// The plan for a fresh instance with plain tables.
pub fn recreate_db(mapping: MappingMode, sync_mode: Durability) -> (steps: Vec<ProvisionStep>)
    ensures
        steps@ == provision_steps(
            StorageConfiguration {
                durability: sync_mode,
                mapping,
                layout: TableLayout::PlainKV,
            },
        ),
{
    provision(StorageConfiguration { durability: sync_mode, mapping, layout: TableLayout::PlainKV })
}

/// The plan for a fresh instance whose small table holds duplicates.
pub fn recreate_db_dup(mapping: MappingMode, sync_mode: Durability) -> (steps: Vec<ProvisionStep>)
    ensures
        steps@ == provision_steps(
            StorageConfiguration {
                durability: sync_mode,
                mapping,
                layout: TableLayout::DuplicateKey,
            },
        ),
{
    provision(
        StorageConfiguration { durability: sync_mode, mapping, layout: TableLayout::DuplicateKey },
    )
}

/// Provisioning starts from nothing.
///
/// Whatever the configuration, the first step destroys what lies at the path,
/// and only then is an instance opened; the plan depends on nothing but the
/// configuration, so the same steps are taken every time.
pub proof fn lemma_provision_starts_fresh(config: StorageConfiguration)
    ensures
        provision_steps(config).len() == 6,
        provision_steps(config)[0] == ProvisionStep::DestroyExisting,
        forall|i: int|
            1 <= i < provision_steps(config).len() ==> #[trigger] provision_steps(config)[i]
                != ProvisionStep::DestroyExisting,
        provision_steps(config)[1] is Open,
{
}

} // verus!
