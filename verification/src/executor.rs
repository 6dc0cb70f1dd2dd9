//! The batch executor: which storage operation comes next.
//!
//! A phase replays a workload of `total` records as `total / batch_size`
//! transactions of `batch_size` operations each. [`schedule`] is the whole
//! sequence of steps of a phase; a [`BatchExecutor`] hands them out one at a
//! time and stops for good once a step has failed.

use vstd::prelude::*;
use vstd::arithmetic::div_mod::{lemma_basic_div, lemma_fundamental_div_mod};
use crate::config::TableLayout;

verus! {

/// Whether a phase stores the workload or looks it up again.
#[derive(Clone, Copy, Debug, PartialEq, Eq, Structural)]
pub enum PhaseKind {
    Write,
    Read,
}

/// What kind of transactions and operations a phase issues.
#[derive(Clone, Copy, Debug, PartialEq, Eq, Structural)]
pub struct PhaseMode {
    pub layout: TableLayout,
    pub kind: PhaseKind,
}

/// One step of a phase, to be performed by the driver.
#[derive(Clone, Copy, Debug, PartialEq, Eq, Structural)]
pub enum Action {
    /// Take the starting time of the phase.
    StartTimer,
    /// Open one write transaction.
    BeginWrite,
    /// Open one read-only transaction.
    BeginRead,
    /// Upsert record `index` under its key.
    Put { index: usize },
    /// Insert record `index` through a cursor, under the shared empty key.
    CursorPut { index: usize },
    /// Look up the key of record `index`; finding nothing is no failure.
    Get { index: usize },
    /// Look up record `index` through a cursor: the shared empty key together
    /// with the key prefix of the record; finding nothing is no failure.
    GetBoth { index: usize },
    /// Commit the open write transaction.
    Commit,
    /// Let the open read-only transaction end, without a commit.
    EndRead,
    /// Advance the progress indicator by `count` records.
    Progress { count: u64 },
    /// Take the elapsed time: the phase is over.
    StopTimer,
    /// Nothing is left to do.
    Finished,
    /// A step has failed: the phase is abandoned and nothing is retried.
    Abort,
}

/// What became of the step handed out last.
#[derive(Clone, Copy, Debug, PartialEq, Eq, Structural)]
pub enum Outcome {
    Completed,
    Failed,
}

/// The step that opens a transaction of a phase.
pub open spec fn begin_action(mode: PhaseMode) -> Action {
    match mode.kind {
        PhaseKind::Write => Action::BeginWrite,
        PhaseKind::Read => Action::BeginRead,
    }
}

/// The step that applies record `index`.
pub open spec fn operation(mode: PhaseMode, index: int) -> Action {
    match (mode.kind, mode.layout) {
        (PhaseKind::Write, TableLayout::PlainKV) => Action::Put { index: index as usize },
        (PhaseKind::Write, TableLayout::DuplicateKey) => Action::CursorPut { index: index as usize },
        (PhaseKind::Read, TableLayout::PlainKV) => Action::Get { index: index as usize },
        (PhaseKind::Read, TableLayout::DuplicateKey) => Action::GetBoth { index: index as usize },
    }
}

/// The step that closes a transaction of a phase.
pub open spec fn end_action(mode: PhaseMode) -> Action {
    match mode.kind {
        PhaseKind::Write => Action::Commit,
        PhaseKind::Read => Action::EndRead,
    }
}

/// The record that a step applies, if it applies one.
pub open spec fn action_index(action: Action) -> Option<usize> {
    match action {
        Action::Put { index } => Some(index),
        Action::CursorPut { index } => Some(index),
        Action::Get { index } => Some(index),
        Action::GetBoth { index } => Some(index),
        _ => None,
    }
}

/// `count` operations on consecutive records, starting with record `first`.
pub open spec fn operations(mode: PhaseMode, first: int, count: int) -> Seq<Action> {
    Seq::new(count as nat, |j: int| operation(mode, first + j))
}

/// What ends a batch: the transaction is closed, then progress is reported.
pub open spec fn batch_close(mode: PhaseMode, batch_size: int) -> Seq<Action> {
    seq![end_action(mode), Action::Progress { count: batch_size as u64 }]
}

/// The steps of batch number `batch`: one transaction around `batch_size` operations.
pub open spec fn batch_actions(mode: PhaseMode, batch: int, batch_size: int) -> Seq<Action> {
    seq![begin_action(mode)] + operations(mode, batch * batch_size, batch_size) + batch_close(
        mode,
        batch_size,
    )
}

/// The steps from the start of batch `batch` to the end of a phase of `batches` batches.
pub open spec fn schedule_from(mode: PhaseMode, batch: int, batches: int, batch_size: int) -> Seq<
    Action,
>
    decreases batches - batch,
{
    if batch < batches {
        batch_actions(mode, batch, batch_size) + schedule_from(mode, batch + 1, batches, batch_size)
    } else {
        seq![Action::StopTimer]
    }
}

/// Number of transactions of a phase: a trailing partial batch is not run.
pub open spec fn batch_count(total: int, batch_size: int) -> int {
    total / batch_size
}

/// Every step of a phase over `total` records, in order.
pub open spec fn schedule(mode: PhaseMode, total: int, batch_size: int) -> Seq<Action> {
    seq![Action::StartTimer] + schedule_from(mode, 0, batch_count(total, batch_size), batch_size)
}

/// The records that `steps` apply, in the order in which they are applied.
pub open spec fn applied(steps: Seq<Action>) -> Seq<usize>
    decreases steps.len(),
{
    if steps.len() == 0 {
        Seq::empty()
    } else {
        match action_index(steps.last()) {
            Some(index) => applied(steps.drop_last()).push(index),
            None => applied(steps.drop_last()),
        }
    }
}

/// How often `action` occurs in `steps`.
pub open spec fn occurrences(steps: Seq<Action>, action: Action) -> nat
    decreases steps.len(),
{
    if steps.len() == 0 {
        0
    } else if steps.last() == action {
        occurrences(steps.drop_last(), action) + 1
    } else {
        occurrences(steps.drop_last(), action)
    }
}

/// By how many records `steps` advance the progress indicator in all.
pub open spec fn reported(steps: Seq<Action>) -> int
    decreases steps.len(),
{
    if steps.len() == 0 {
        0
    } else {
        match steps.last() {
            Action::Progress { count } => reported(steps.drop_last()) + count,
            _ => reported(steps.drop_last()),
        }
    }
}

/// The records `first`, `first + 1`, ... : `count` of them.
pub open spec fn consecutive(first: int, count: int) -> Seq<usize> {
    Seq::new(count as nat, |i: int| (first + i) as usize)
}

proof fn lemma_applied_concat(front: Seq<Action>, back: Seq<Action>)
    ensures
        applied(front + back) == applied(front) + applied(back),
    decreases back.len(),
{
    if back.len() == 0 {
        assert(front + back =~= front);
    } else {
        assert((front + back).drop_last() =~= front + back.drop_last());
        lemma_applied_concat(front, back.drop_last());
        match action_index(back.last()) {
            Some(index) => {
                assert(applied(front + back) =~= applied(front) + applied(back));
            },
            None => {},
        }
    }
}

proof fn lemma_occurrences_concat(front: Seq<Action>, back: Seq<Action>, action: Action)
    ensures
        occurrences(front + back, action) == occurrences(front, action) + occurrences(
            back,
            action,
        ),
    decreases back.len(),
{
    if back.len() == 0 {
        assert(front + back =~= front);
    } else {
        assert((front + back).drop_last() =~= front + back.drop_last());
        lemma_occurrences_concat(front, back.drop_last(), action);
    }
}

proof fn lemma_reported_concat(front: Seq<Action>, back: Seq<Action>)
    ensures
        reported(front + back) == reported(front) + reported(back),
    decreases back.len(),
{
    if back.len() == 0 {
        assert(front + back =~= front);
    } else {
        assert((front + back).drop_last() =~= front + back.drop_last());
        lemma_reported_concat(front, back.drop_last());
    }
}

proof fn lemma_operations(mode: PhaseMode, first: int, count: int)
    requires
        0 <= first,
        0 <= count,
        first + count <= usize::MAX + 1,
    ensures
        applied(operations(mode, first, count)) == consecutive(first, count),
        occurrences(operations(mode, first, count), begin_action(mode)) == 0,
        occurrences(operations(mode, first, count), end_action(mode)) == 0,
        reported(operations(mode, first, count)) == 0,
    decreases count,
{
    let ops = operations(mode, first, count);
    if count == 0 {
        assert(applied(ops) =~= consecutive(first, count));
    } else {
        assert(ops.drop_last() =~= operations(mode, first, count - 1));
        lemma_operations(mode, first, count - 1);
        assert(applied(ops) =~= consecutive(first, count));
    }
}

proof fn lemma_single(action: Action, other: Action)
    ensures
        applied(seq![action]) =~= match action_index(action) {
            Some(index) => seq![index],
            None => Seq::empty(),
        },
        occurrences(seq![action], other) == if action == other {
            1nat
        } else {
            0nat
        },
        reported(seq![action]) == match action {
            Action::Progress { count } => count as int,
            _ => 0,
        },
{
    let one = seq![action];
    assert(one.drop_last() =~= Seq::<Action>::empty());
    assert(one.last() == action);
    assert(applied(one.drop_last()) =~= Seq::<usize>::empty());
    assert(occurrences(one.drop_last(), other) == 0);
    assert(reported(one.drop_last()) == 0);
}

/// One transaction holds one batch.
///
/// The steps of a batch open one transaction, apply `batch_size` records,
/// the first of them record `batch * batch_size` and the others those that
/// follow it, and close the transaction once, after the last of them.
pub proof fn lemma_transaction_holds_one_batch(mode: PhaseMode, batch: int, batch_size: int)
    requires
        0 <= batch,
        0 < batch_size,
        (batch + 1) * batch_size <= usize::MAX + 1,
    ensures
        batch_actions(mode, batch, batch_size).len() == batch_size + 3,
        batch_actions(mode, batch, batch_size)[0] == begin_action(mode),
        batch_actions(mode, batch, batch_size)[batch_size + 1] == end_action(mode),
        applied(batch_actions(mode, batch, batch_size)) == consecutive(
            batch * batch_size,
            batch_size,
        ),
        occurrences(batch_actions(mode, batch, batch_size), begin_action(mode)) == 1,
        occurrences(batch_actions(mode, batch, batch_size), end_action(mode)) == 1,
        batch_size <= u64::MAX ==> reported(batch_actions(mode, batch, batch_size)) == batch_size,
{
    let first = batch * batch_size;
    assert((batch + 1) * batch_size == first + batch_size) by (nonlinear_arith)
        requires
            first == batch * batch_size,
    ;
    assert(0 <= first) by (nonlinear_arith)
        requires
            first == batch * batch_size,
            0 <= batch,
            0 < batch_size,
    ;
    let open = seq![begin_action(mode)];
    let ops = operations(mode, first, batch_size);
    let close = seq![end_action(mode)];
    let report = seq![Action::Progress { count: batch_size as u64 }];
    assert(batch_close(mode, batch_size) =~= close + report);
    assert(batch_actions(mode, batch, batch_size) =~= ((open + ops) + close) + report);
    lemma_operations(mode, first, batch_size);
    lemma_single(begin_action(mode), begin_action(mode));
    lemma_single(begin_action(mode), end_action(mode));
    lemma_single(end_action(mode), begin_action(mode));
    lemma_single(end_action(mode), end_action(mode));
    lemma_single(Action::Progress { count: batch_size as u64 }, begin_action(mode));
    lemma_single(Action::Progress { count: batch_size as u64 }, end_action(mode));
    lemma_applied_concat(open, ops);
    lemma_applied_concat(open + ops, close);
    lemma_applied_concat((open + ops) + close, report);
    lemma_occurrences_concat(open, ops, begin_action(mode));
    lemma_occurrences_concat(open + ops, close, begin_action(mode));
    lemma_occurrences_concat((open + ops) + close, report, begin_action(mode));
    lemma_occurrences_concat(open, ops, end_action(mode));
    lemma_occurrences_concat(open + ops, close, end_action(mode));
    lemma_occurrences_concat((open + ops) + close, report, end_action(mode));
    lemma_reported_concat(open, ops);
    lemma_reported_concat(open + ops, close);
    lemma_reported_concat((open + ops) + close, report);
    assert(applied(batch_actions(mode, batch, batch_size)) =~= consecutive(first, batch_size));
}

proof fn lemma_schedule_from(mode: PhaseMode, batch: int, batches: int, batch_size: int)
    requires
        0 <= batch <= batches,
        0 < batch_size,
        batches * batch_size <= usize::MAX,
        batch_size <= u64::MAX,
    ensures
        applied(schedule_from(mode, batch, batches, batch_size)) == consecutive(
            batch * batch_size,
            (batches - batch) * batch_size,
        ),
        occurrences(schedule_from(mode, batch, batches, batch_size), begin_action(mode))
            == batches - batch,
        occurrences(schedule_from(mode, batch, batches, batch_size), end_action(mode)) == batches
            - batch,
        reported(schedule_from(mode, batch, batches, batch_size)) == (batches - batch)
            * batch_size,
    decreases batches - batch,
{
    let steps = schedule_from(mode, batch, batches, batch_size);
    if batch < batches {
        let head = batch_actions(mode, batch, batch_size);
        let rest = schedule_from(mode, batch + 1, batches, batch_size);
        assert((batch + 1) * batch_size <= batches * batch_size) by (nonlinear_arith)
            requires
                batch + 1 <= batches,
                0 < batch_size,
        ;
        assert((batch + 1) * batch_size == batch * batch_size + batch_size) by (nonlinear_arith);
        assert((batches - batch) * batch_size == batch_size + (batches - (batch + 1)) * batch_size)
            by (nonlinear_arith);
        assert(0 <= (batches - (batch + 1)) * batch_size) by (nonlinear_arith)
            requires
                batch + 1 <= batches,
                0 < batch_size,
        ;
        lemma_transaction_holds_one_batch(mode, batch, batch_size);
        lemma_schedule_from(mode, batch + 1, batches, batch_size);
        lemma_applied_concat(head, rest);
        lemma_occurrences_concat(head, rest, begin_action(mode));
        lemma_occurrences_concat(head, rest, end_action(mode));
        lemma_reported_concat(head, rest);
        assert(applied(steps) =~= consecutive(
            batch * batch_size,
            (batches - batch) * batch_size,
        ));
    } else {
        lemma_single(Action::StopTimer, begin_action(mode));
        lemma_single(Action::StopTimer, end_action(mode));
        assert((batches - batch) * batch_size == 0) by (nonlinear_arith)
            requires
                batch == batches,
        ;
        assert(applied(steps) =~= consecutive(
            batch * batch_size,
            (batches - batch) * batch_size,
        ));
    }
}

/// Batch boundaries of a phase.
///
/// A phase over `total` records opens exactly `total / batch_size`
/// transactions and closes as many. It applies the records `0, 1, ..` up
/// to, but not including, `(total / batch_size) * batch_size`, each once and
/// in this order: no record of a trailing partial batch is ever applied.
/// Where `batch_size` divides `total`, that is every record. The progress
/// indicator is advanced by as many records as are applied. By
/// [`lemma_transaction_holds_one_batch`] each of the transactions holds
/// `batch_size` of them.
pub proof fn lemma_batch_boundaries(mode: PhaseMode, total: usize, batch_size: u64)
    requires
        batch_size > 0,
    ensures
        occurrences(schedule(mode, total as int, batch_size as int), begin_action(mode))
            == batch_count(total as int, batch_size as int),
        occurrences(schedule(mode, total as int, batch_size as int), end_action(mode))
            == batch_count(total as int, batch_size as int),
        applied(schedule(mode, total as int, batch_size as int)) == consecutive(
            0,
            batch_count(total as int, batch_size as int) * batch_size,
        ),
        reported(schedule(mode, total as int, batch_size as int)) == batch_count(
            total as int,
            batch_size as int,
        ) * batch_size,
        0 <= batch_count(total as int, batch_size as int) * batch_size <= total,
        total as int % batch_size as int == 0 ==> batch_count(total as int, batch_size as int)
            * batch_size == total,
{
    let b = batch_size as int;
    let n = batch_count(total as int, b);
    lemma_fundamental_div_mod(total as int, b);
    assert(b * n == n * b) by (nonlinear_arith);
    let start = seq![Action::StartTimer];
    let rest = schedule_from(mode, 0, n, b);
    lemma_schedule_from(mode, 0, n, b);
    lemma_single(Action::StartTimer, begin_action(mode));
    lemma_single(Action::StartTimer, end_action(mode));
    lemma_applied_concat(start, rest);
    lemma_occurrences_concat(start, rest, begin_action(mode));
    lemma_occurrences_concat(start, rest, end_action(mode));
    lemma_reported_concat(start, rest);
    assert(applied(start + rest) =~= consecutive(0, n * b));
}

/// Where an executor stands: which step it hands out next.
#[derive(Clone, Copy, Debug)]
enum Stage {
    /// Nothing was handed out yet.
    Fresh,
    /// Before a batch, or after the last one.
    Between,
    /// Inside a transaction, with operations left.
    Operating,
    /// All operations of the batch were handed out; the transaction is open.
    Closing,
    /// The transaction is closed; its progress is not reported yet.
    Reporting,
    /// The timer was stopped.
    Finished,
    /// A step failed.
    Aborted,
}

/// Hands out the steps of one phase, one at a time.
#[derive(Debug)]
pub struct BatchExecutor {
    mode: PhaseMode,
    total: usize,
    batch_size: u64,
    batches: usize,
    stage: Stage,
    /// Batches that are complete.
    batch: usize,
    /// Operations handed out in the current batch.
    offset: u64,
    /// Records consumed so far: the next operation applies this one.
    cursor: usize,
}

proof fn lemma_batch_bounds(total: int, batch_size: int, batch: int, offset: int)
    requires
        0 <= total,
        0 < batch_size,
        0 <= batch < total / batch_size,
        0 <= offset <= batch_size,
    ensures
        batch * batch_size + offset <= (total / batch_size) * batch_size <= total,
        (batch + 1) * batch_size == batch * batch_size + batch_size,
        batch_size <= total,
{
    lemma_fundamental_div_mod(total, batch_size);
    assert((batch + 1) * batch_size <= (total / batch_size) * batch_size) by (nonlinear_arith)
        requires
            batch + 1 <= total / batch_size,
            batch_size > 0,
    ;
    assert((batch + 1) * batch_size == batch * batch_size + batch_size) by (nonlinear_arith);
    assert(batch_size * (total / batch_size) == (total / batch_size) * batch_size)
        by (nonlinear_arith);
    assert(0 <= batch * batch_size) by (nonlinear_arith)
        requires
            0 <= batch,
            0 < batch_size,
    ;
}

proof fn lemma_next_batch(mode: PhaseMode, batch: int, batches: int, batch_size: int)
    requires
        0 <= batch < batches,
        0 < batch_size,
    ensures
        schedule_from(mode, batch, batches, batch_size)[0] == begin_action(mode),
        schedule_from(mode, batch, batches, batch_size).skip(1) =~= operations(
            mode,
            batch * batch_size,
            batch_size,
        ) + (batch_close(mode, batch_size) + schedule_from(mode, batch + 1, batches, batch_size)),
{
    let rest = schedule_from(mode, batch + 1, batches, batch_size);
    assert(schedule_from(mode, batch, batches, batch_size) == batch_actions(
        mode,
        batch,
        batch_size,
    ) + rest);
}

proof fn lemma_next_operation(mode: PhaseMode, first: int, count: int, rest: Seq<Action>)
    requires
        0 < count,
    ensures
        (operations(mode, first, count) + rest)[0] == operation(mode, first),
        (operations(mode, first, count) + rest).skip(1) =~= operations(mode, first + 1, count - 1)
            + rest,
{
}

impl BatchExecutor {
    #[verifier::type_invariant]
    spec fn inv(self) -> bool {
        &&& self.batch_size > 0
        &&& self.batches == self.total as int / self.batch_size as int
        &&& self.batch <= self.batches
        &&& self.offset <= self.batch_size
        &&& self.cursor == self.batch * self.batch_size + self.offset
        &&& match self.stage {
            Stage::Fresh => self.batch == 0 && self.offset == 0,
            Stage::Between => self.offset == 0,
            Stage::Operating => self.batch < self.batches && self.offset < self.batch_size,
            Stage::Closing => self.batch < self.batches && self.offset == self.batch_size,
            Stage::Reporting => self.batch < self.batches && self.offset == self.batch_size,
            Stage::Finished => true,
            Stage::Aborted => true,
        }
    }

    /// The kind of phase that is run.
    pub closed spec fn mode(&self) -> PhaseMode {
        self.mode
    }

    /// Number of records in the workload.
    pub closed spec fn total(&self) -> usize {
        self.total
    }

    /// Operations per transaction.
    pub closed spec fn batch_size(&self) -> u64 {
        self.batch_size
    }

    /// Whether a step has failed.
    pub closed spec fn is_aborted(&self) -> bool {
        self.stage is Aborted
    }

    /// What follows the operations of the current batch, to the end of the phase.
    spec fn after_operations(&self) -> Seq<Action> {
        batch_close(self.mode, self.batch_size as int) + schedule_from(
            self.mode,
            self.batch + 1,
            self.batches as int,
            self.batch_size as int,
        )
    }

    /// The steps that are still to be handed out, if none of them fails.
    pub closed spec fn remaining(&self) -> Seq<Action> {
        match self.stage {
            Stage::Fresh => schedule(self.mode, self.total as int, self.batch_size as int),
            Stage::Between => schedule_from(
                self.mode,
                self.batch as int,
                self.batches as int,
                self.batch_size as int,
            ),
            Stage::Operating => operations(
                self.mode,
                self.cursor as int,
                self.batch_size - self.offset,
            ) + self.after_operations(),
            Stage::Closing => self.after_operations(),
            Stage::Reporting => self.after_operations().skip(1),
            Stage::Finished => Seq::empty(),
            Stage::Aborted => Seq::empty(),
        }
    }

    /// An executor at the start of a phase over `total` records.
    pub fn new(mode: PhaseMode, total: usize, batch_size: u64) -> (executor: BatchExecutor)
        requires
            batch_size > 0,
        ensures
            executor.mode() == mode,
            executor.total() == total,
            executor.batch_size() == batch_size,
            !executor.is_aborted(),
            executor.remaining() == schedule(mode, total as int, batch_size as int),
    {
        let batches: usize = if batch_size > total as u64 {
            proof {
                lemma_basic_div(total as int, batch_size as int);
            }
            0
        } else {
            total / (batch_size as usize)
        };
        BatchExecutor {
            mode,
            total,
            batch_size,
            batches,
            stage: Stage::Fresh,
            batch: 0,
            offset: 0,
            cursor: 0,
        }
    }

    /// Whether the phase is over: every step was handed out, or one has failed.
    pub fn is_done(&self) -> (done: bool)
        ensures
            done == (self.is_aborted() || self.remaining().len() == 0),
    {
        proof {
            use_type_invariant(self);
        }
        match self.stage {
            Stage::Finished => true,
            Stage::Aborted => true,
            _ => false,
        }
    }

    /// Hands out the next step.
    ///
    /// `outcome` says what became of the step handed out before; for the first
    /// call it is `Completed`. After a failure every call answers `Abort`: the
    /// phase is never resumed and no step is tried again. Without one, the
    /// steps come in the order of [`schedule`], and `Finished` after the last.
    #[verifier::rlimit(30)]
    pub fn advance(&mut self, outcome: Outcome) -> (action: Action)
        ensures
            final(self).mode() == old(self).mode(),
            final(self).total() == old(self).total(),
            final(self).batch_size() == old(self).batch_size(),
            (old(self).is_aborted() || outcome == Outcome::Failed) ==> {
                &&& action == Action::Abort
                &&& final(self).is_aborted()
                &&& final(self).remaining() == Seq::<Action>::empty()
            },
            (!old(self).is_aborted() && outcome == Outcome::Completed && old(self).remaining().len()
                > 0) ==> {
                &&& action == old(self).remaining()[0]
                &&& !final(self).is_aborted()
                &&& final(self).remaining() == old(self).remaining().skip(1)
            },
            (!old(self).is_aborted() && outcome == Outcome::Completed && old(self).remaining().len()
                == 0) ==> {
                &&& action == Action::Finished
                &&& !final(self).is_aborted()
                &&& final(self).remaining() == Seq::<Action>::empty()
            },
            action_index(action) matches Some(index) ==> index < old(self).total(),
    {
        proof {
            use_type_invariant(&*self);
        }
        let mode = self.mode;
        let total = self.total;
        let batch_size = self.batch_size;
        let batches = self.batches;
        let batch = self.batch;
        let offset = self.offset;
        let cursor = self.cursor;
        let ghost b = batch_size as int;
        let ghost n = batches as int;
        let ghost before = self.remaining();
        if let Stage::Aborted = self.stage {
            return Action::Abort;
        }
        if let Outcome::Failed = outcome {
            self.stage = Stage::Aborted;
            return Action::Abort;
        }
        match self.stage {
            Stage::Fresh => {
                self.stage = Stage::Between;
                assert(self.remaining() =~= before.skip(1));
                Action::StartTimer
            },
            Stage::Between => {
                if batch < batches {
                    proof {
                        lemma_batch_bounds(total as int, b, batch as int, 0);
                        lemma_next_batch(mode, batch as int, n, b);
                    }
                    self.stage = Stage::Operating;
                    begin_of(mode)
                } else {
                    self.stage = Stage::Finished;
                    assert(self.remaining() =~= before.skip(1));
                    Action::StopTimer
                }
            },
            Stage::Operating => {
                proof {
                    lemma_batch_bounds(total as int, b, batch as int, offset + 1);
                    lemma_next_operation(mode, cursor as int, b - offset, self.after_operations());
                }
                let stage = if offset + 1 < batch_size {
                    Stage::Operating
                } else {
                    Stage::Closing
                };
                *self =
                BatchExecutor {
                    mode,
                    total,
                    batch_size,
                    batches,
                    stage,
                    batch,
                    offset: offset + 1,
                    cursor: cursor + 1,
                };
                assert(self.remaining() =~= before.skip(1));
                operation_of(mode, cursor)
            },
            Stage::Closing => {
                self.stage = Stage::Reporting;
                end_of(mode)
            },
            Stage::Reporting => {
                proof {
                    lemma_batch_bounds(total as int, b, batch as int, offset as int);
                }
                *self =
                BatchExecutor {
                    mode,
                    total,
                    batch_size,
                    batches,
                    stage: Stage::Between,
                    batch: batch + 1,
                    offset: 0,
                    cursor,
                };
                assert(self.remaining() =~= before.skip(1));
                Action::Progress { count: batch_size }
            },
            Stage::Finished => Action::Finished,
            Stage::Aborted => Action::Abort,
        }
    }
}

fn begin_of(mode: PhaseMode) -> (action: Action)
    ensures
        action == begin_action(mode),
{
    match mode.kind {
        PhaseKind::Write => Action::BeginWrite,
        PhaseKind::Read => Action::BeginRead,
    }
}

fn operation_of(mode: PhaseMode, index: usize) -> (action: Action)
    ensures
        action == operation(mode, index as int),
{
    match mode.kind {
        PhaseKind::Write => match mode.layout {
            TableLayout::PlainKV => Action::Put { index },
            TableLayout::DuplicateKey => Action::CursorPut { index },
        },
        PhaseKind::Read => match mode.layout {
            TableLayout::PlainKV => Action::Get { index },
            TableLayout::DuplicateKey => Action::GetBoth { index },
        },
    }
}

fn end_of(mode: PhaseMode) -> (action: Action)
    ensures
        action == end_action(mode),
{
    match mode.kind {
        PhaseKind::Write => Action::Commit,
        PhaseKind::Read => Action::EndRead,
    }
}

} // verus!
