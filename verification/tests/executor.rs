use mdbx_bench::config::TableLayout;
use mdbx_bench::executor::{Action, BatchExecutor, Outcome, PhaseKind, PhaseMode};

fn mode(layout: TableLayout, kind: PhaseKind) -> PhaseMode {
    PhaseMode { layout, kind }
}

fn run_to_end(executor: &mut BatchExecutor) -> Vec<Action> {
    let mut actions = Vec::new();
    loop {
        let action = executor.advance(Outcome::Completed);
        if action == Action::Finished {
            return actions;
        }
        assert_ne!(action, Action::Abort);
        actions.push(action);
    }
}

#[test]
fn plain_write_schedule_with_remainder() {
    let mut executor = BatchExecutor::new(mode(TableLayout::PlainKV, PhaseKind::Write), 5, 2);
    let actions = run_to_end(&mut executor);
    assert_eq!(
        actions,
        vec![
            Action::StartTimer,
            Action::BeginWrite,
            Action::Put { index: 0 },
            Action::Put { index: 1 },
            Action::Commit,
            Action::Progress { count: 2 },
            Action::BeginWrite,
            Action::Put { index: 2 },
            Action::Put { index: 3 },
            Action::Commit,
            Action::Progress { count: 2 },
            Action::StopTimer,
        ]
    );
}

#[test]
fn plain_read_schedule_never_commits() {
    let mut executor = BatchExecutor::new(mode(TableLayout::PlainKV, PhaseKind::Read), 4, 2);
    let actions = run_to_end(&mut executor);
    assert_eq!(
        actions,
        vec![
            Action::StartTimer,
            Action::BeginRead,
            Action::Get { index: 0 },
            Action::Get { index: 1 },
            Action::EndRead,
            Action::Progress { count: 2 },
            Action::BeginRead,
            Action::Get { index: 2 },
            Action::Get { index: 3 },
            Action::EndRead,
            Action::Progress { count: 2 },
            Action::StopTimer,
        ]
    );
    assert!(!actions.contains(&Action::Commit));
    assert!(!actions.contains(&Action::BeginWrite));
}

#[test]
fn duplicate_write_schedule_uses_the_cursor() {
    let mut executor =
        BatchExecutor::new(mode(TableLayout::DuplicateKey, PhaseKind::Write), 3, 3);
    let actions = run_to_end(&mut executor);
    assert_eq!(
        actions,
        vec![
            Action::StartTimer,
            Action::BeginWrite,
            Action::CursorPut { index: 0 },
            Action::CursorPut { index: 1 },
            Action::CursorPut { index: 2 },
            Action::Commit,
            Action::Progress { count: 3 },
            Action::StopTimer,
        ]
    );
}

#[test]
fn duplicate_read_schedule_uses_get_both() {
    let mut executor = BatchExecutor::new(mode(TableLayout::DuplicateKey, PhaseKind::Read), 2, 1);
    let actions = run_to_end(&mut executor);
    assert_eq!(
        actions,
        vec![
            Action::StartTimer,
            Action::BeginRead,
            Action::GetBoth { index: 0 },
            Action::EndRead,
            Action::Progress { count: 1 },
            Action::BeginRead,
            Action::GetBoth { index: 1 },
            Action::EndRead,
            Action::Progress { count: 1 },
            Action::StopTimer,
        ]
    );
}

#[test]
fn batch_larger_than_workload_runs_no_transaction() {
    let mut executor = BatchExecutor::new(mode(TableLayout::PlainKV, PhaseKind::Write), 9, 10);
    let actions = run_to_end(&mut executor);
    assert_eq!(actions, vec![Action::StartTimer, Action::StopTimer]);
}

#[test]
fn empty_workload_only_starts_and_stops_the_timer() {
    let mut executor = BatchExecutor::new(mode(TableLayout::PlainKV, PhaseKind::Read), 0, 1000);
    let actions = run_to_end(&mut executor);
    assert_eq!(actions, vec![Action::StartTimer, Action::StopTimer]);
}

#[test]
fn exact_division_applies_every_record_once() {
    let mut executor = BatchExecutor::new(mode(TableLayout::PlainKV, PhaseKind::Write), 6, 3);
    let actions = run_to_end(&mut executor);
    let applied: Vec<usize> = actions
        .iter()
        .filter_map(|action| match action {
            Action::Put { index } => Some(*index),
            _ => None,
        })
        .collect();
    assert_eq!(applied, vec![0, 1, 2, 3, 4, 5]);
    let begins = actions.iter().filter(|action| **action == Action::BeginWrite).count();
    let commits = actions.iter().filter(|action| **action == Action::Commit).count();
    assert_eq!(begins, 2);
    assert_eq!(commits, 2);
}

#[test]
fn trailing_partial_batch_is_dropped() {
    let mut executor = BatchExecutor::new(mode(TableLayout::PlainKV, PhaseKind::Write), 2999, 1000);
    let actions = run_to_end(&mut executor);
    let mut applied = Vec::new();
    let mut begins = 0;
    for action in &actions {
        match action {
            Action::Put { index } => applied.push(*index),
            Action::BeginWrite => begins += 1,
            _ => {}
        }
    }
    assert_eq!(begins, 2);
    assert_eq!(applied.len(), 2000);
    assert_eq!(applied, (0..2000).collect::<Vec<usize>>());
}

#[test]
fn every_transaction_holds_exactly_one_batch() {
    let mut executor = BatchExecutor::new(mode(TableLayout::PlainKV, PhaseKind::Write), 40, 10);
    let actions = run_to_end(&mut executor);
    let mut inside = 0;
    let mut open = false;
    let mut transactions = 0;
    for action in actions {
        match action {
            Action::BeginWrite => {
                assert!(!open);
                open = true;
                inside = 0;
            }
            Action::Put { .. } => {
                assert!(open);
                inside += 1;
            }
            Action::Commit => {
                assert!(open);
                assert_eq!(inside, 10);
                open = false;
                transactions += 1;
            }
            Action::Progress { count } => {
                assert!(!open);
                assert_eq!(count, 10);
            }
            _ => {}
        }
    }
    assert_eq!(transactions, 4);
}

#[test]
fn three_million_records_in_batches_of_a_thousand() {
    let mut executor =
        BatchExecutor::new(mode(TableLayout::PlainKV, PhaseKind::Write), 3_000_000, 1000);
    let mut transactions = 0u64;
    let mut operations = 0usize;
    let mut reported = 0u64;
    let mut first = None;
    let mut last = Action::Finished;
    loop {
        let action = executor.advance(Outcome::Completed);
        match action {
            Action::Finished => break,
            Action::BeginWrite => transactions += 1,
            Action::Put { index } => {
                assert_eq!(index, operations);
                operations += 1;
            }
            Action::Progress { count } => reported += count,
            _ => {}
        }
        if first.is_none() {
            first = Some(action);
        }
        last = action;
    }
    assert_eq!(first, Some(Action::StartTimer));
    assert_eq!(last, Action::StopTimer);
    assert_eq!(transactions, 3000);
    assert_eq!(operations, 3_000_000);
    assert_eq!(reported, 3_000_000);
}

#[test]
fn extended_batches_of_ten_thousand() {
    let mut executor =
        BatchExecutor::new(mode(TableLayout::PlainKV, PhaseKind::Write), 40_000, 10_000);
    let actions = run_to_end(&mut executor);
    let commits = actions.iter().filter(|action| **action == Action::Commit).count();
    assert_eq!(commits, 4);
    assert_eq!(actions.len(), 4 * 10_003 + 2);
}

#[test]
fn a_failed_step_aborts_for_good() {
    let mut executor = BatchExecutor::new(mode(TableLayout::PlainKV, PhaseKind::Write), 4, 2);
    assert_eq!(executor.advance(Outcome::Completed), Action::StartTimer);
    assert_eq!(executor.advance(Outcome::Completed), Action::BeginWrite);
    assert_eq!(executor.advance(Outcome::Completed), Action::Put { index: 0 });
    assert!(!executor.is_done());
    assert_eq!(executor.advance(Outcome::Failed), Action::Abort);
    assert!(executor.is_done());
    assert_eq!(executor.advance(Outcome::Completed), Action::Abort);
    assert_eq!(executor.advance(Outcome::Completed), Action::Abort);
}

#[test]
fn a_failure_before_the_first_step_aborts() {
    let mut executor = BatchExecutor::new(mode(TableLayout::PlainKV, PhaseKind::Read), 4, 2);
    assert_eq!(executor.advance(Outcome::Failed), Action::Abort);
    assert_eq!(executor.advance(Outcome::Completed), Action::Abort);
}

#[test]
fn finished_is_repeated_after_the_last_step() {
    let mut executor = BatchExecutor::new(mode(TableLayout::PlainKV, PhaseKind::Write), 1, 1);
    assert!(!executor.is_done());
    let actions = run_to_end(&mut executor);
    assert_eq!(actions.len(), 6);
    assert!(executor.is_done());
    assert_eq!(executor.advance(Outcome::Completed), Action::Finished);
    assert_eq!(executor.advance(Outcome::Completed), Action::Finished);
}
