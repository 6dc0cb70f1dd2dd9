//! Measurements: what one iteration yields and how the results of a run are grouped.

use vstd::prelude::*;

verus! {

/// A span of wall-clock time: whole seconds and the nanoseconds beyond them.
#[derive(Clone, Copy, Debug, PartialEq, Eq, Structural)]
pub struct PhaseDuration {
    pub secs: u64,
    pub subsec_nanos: u32,
}

impl PhaseDuration {
    pub open spec fn spec_zero() -> PhaseDuration {
        PhaseDuration { secs: 0, subsec_nanos: 0 }
    }

    /// No time at all.
    pub fn zero() -> (duration: PhaseDuration)
        ensures
            duration == Self::spec_zero(),
    {
        PhaseDuration { secs: 0, subsec_nanos: 0 }
    }
}

/// What one iteration of one configuration measured.
#[derive(Clone, Copy, Debug, PartialEq, Eq, Structural)]
pub struct MeasurementRecord {
    /// Duration of the first phase; zero where only one phase is timed.
    pub first: PhaseDuration,
    /// Duration of the second phase, or of the only one.
    pub second: PhaseDuration,
    /// Size of the storage file in bytes, taken once after the phases.
    pub size: u64,
}

/// What an [`IterationLog`] holds.
pub struct LogView {
    /// Durations of the phases timed so far, oldest first.
    pub durations: Seq<PhaseDuration>,
    /// Size of the storage file, zero until it is set.
    pub size: u64,
}

impl LogView {
    /// The log of an iteration in which nothing was measured yet.
    pub open spec fn empty() -> LogView {
        LogView { durations: Seq::empty(), size: 0 }
    }

    /// The log after one more phase was timed.
    pub open spec fn record(self, duration: PhaseDuration) -> LogView {
        LogView { durations: self.durations.push(duration), size: self.size }
    }

    /// The log without its durations.
    pub open spec fn discard(self) -> LogView {
        LogView { durations: Seq::empty(), size: self.size }
    }

    /// The log with the size of the storage file.
    pub open spec fn with_size(self, size: u64) -> LogView {
        LogView { durations: self.durations, size }
    }

    /// The record of an iteration of two timed phases: the two oldest
    /// durations, in their order.
    pub open spec fn pair_record(self) -> MeasurementRecord {
        MeasurementRecord { first: self.durations[0], second: self.durations[1], size: self.size }
    }

    /// The record of an iteration of one timed phase: zero, then the oldest duration.
    pub open spec fn single_record(self) -> MeasurementRecord {
        MeasurementRecord {
            first: PhaseDuration::spec_zero(),
            second: self.durations[0],
            size: self.size,
        }
    }

    /// [`Self::pair_record`], where the log holds two durations.
    pub open spec fn pair(self) -> Option<MeasurementRecord> {
        if self.durations.len() >= 2 {
            Some(self.pair_record())
        } else {
            None
        }
    }

    /// [`Self::single_record`], where the log holds a duration.
    pub open spec fn single(self) -> Option<MeasurementRecord> {
        if self.durations.len() >= 1 {
            Some(self.single_record())
        } else {
            None
        }
    }
}

/// Collects what the phases of one iteration measure.
#[derive(Debug)]
pub struct IterationLog {
    durations: Vec<PhaseDuration>,
    size: u64,
}

impl View for IterationLog {
    type V = LogView;

    closed spec fn view(&self) -> LogView {
        LogView { durations: self.durations@, size: self.size }
    }
}

impl IterationLog {
    /// A log with no duration and size zero.
    pub fn new() -> (log: IterationLog)
        ensures
            log@ == LogView::empty(),
    {
        IterationLog { durations: Vec::new(), size: 0 }
    }

    /// Adds the duration of the phase that has just ended.
    pub fn record(&mut self, duration: PhaseDuration)
        ensures
            final(self)@ == old(self)@.record(duration),
    {
        self.durations.push(duration);
    }

    /// Drops the durations collected so far; the size stays.
    pub fn discard(&mut self)
        ensures
            final(self)@ == old(self)@.discard(),
    {
        self.durations = Vec::new();
    }

    /// Sets the size of the storage file.
    pub fn set_size(&mut self, size: u64)
        ensures
            final(self)@ == old(self)@.with_size(size),
    {
        self.size = size;
    }

    /// Number of durations in the log.
    pub fn len(&self) -> (count: usize)
        ensures
            count == self@.durations.len(),
    {
        self.durations.len()
    }

    /// The record of an iteration of two timed phases; `None` while fewer
    /// than two durations are in the log.
    pub fn pair(&self) -> (record: Option<MeasurementRecord>)
        ensures
            record == self@.pair(),
    {
        if self.durations.len() >= 2 {
            Some(
                MeasurementRecord {
                    first: self.durations[0],
                    second: self.durations[1],
                    size: self.size,
                },
            )
        } else {
            None
        }
    }

    /// The record of an iteration of one timed phase; `None` while the log
    /// holds no duration.
    pub fn single(&self) -> (record: Option<MeasurementRecord>)
        ensures
            record == self@.single(),
    {
        if self.durations.len() >= 1 {
            Some(
                MeasurementRecord {
                    first: PhaseDuration::zero(),
                    second: self.durations[0],
                    size: self.size,
                },
            )
        } else {
            None
        }
    }
}

/// File that the report of a run is written to, below the path that the run is given.
pub const REPORT_FILE: &'static str = "mdbx_report.json";

/// The measurements of one configuration, under its label.
#[derive(Debug)]
pub struct ConfigurationResult {
    pub label: String,
    /// One record for every iteration, in the order of the iterations.
    pub measurements: Vec<MeasurementRecord>,
}

/// The results of all configurations of one kind of table.
#[derive(Debug)]
pub struct BenchmarkResult {
    pub name: String,
    /// One entry for every configuration, in the order in which they ran.
    pub configurations: Vec<ConfigurationResult>,
}

impl BenchmarkResult {
    /// A result without configurations.
    pub fn new(name: &str) -> (result: BenchmarkResult)
        ensures
            result.name@ == name@,
            result.configurations@.len() == 0,
    {
        BenchmarkResult { name: name.to_owned(), configurations: Vec::new() }
    }

    /// Appends the measurements of a configuration that has run to its end.
    pub fn push(&mut self, measurements: Vec<MeasurementRecord>, label: &str)
        ensures
            final(self).name == old(self).name,
            final(self).configurations@.len() == old(self).configurations@.len() + 1,
            final(self).configurations@.drop_last() == old(self).configurations@,
            final(self).configurations@.last().label@ == label@,
            final(self).configurations@.last().measurements == measurements,
    {
        self.configurations.push(ConfigurationResult { label: label.to_owned(), measurements });
    }
}

} // verus!
