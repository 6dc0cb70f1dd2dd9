//! The core of a benchmark for a transactional embedded key-value store:
//! workload generation, the batched transaction schedule, the stage script of a
//! benchmarked configuration, provisioning plans and measurement records.
//!
//! Nothing here touches a storage engine, a clock or the file system. The
//! library decides *what* is to be done and in which order; a driver performs
//! each step and reports back what came of it.

pub mod config;
pub mod executor;
pub mod matrix;
pub mod measure;
pub mod orchestrator;
pub mod phase;
pub mod provision;
pub mod workload;

pub use crate::orchestrator::{
    mdbx_benchmark_put,
    mdbx_benchmark_put_dup,
    mdbx_benchmark_read,
    mdbx_benchmark_read_dup,
};
pub use crate::phase::{
    benchmark_put_large_table,
    benchmark_put_small_table,
    benchmark_put_small_table_dup,
    benchmark_read_large_table,
    benchmark_read_small_table,
    benchmark_read_small_table_dup,
};
pub use crate::provision::{recreate_db, recreate_db_dup};
