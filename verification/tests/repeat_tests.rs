use soroban_debugger::error::DebuggerError;
use soroban_debugger::inspector::budget::BudgetInfo;
use soroban_debugger::repeat::{
    truncate, AggregateStats, IterationOutcome, RepeatRunner, RepeatStep, RunStats,
};
use std::time::Duration;

fn make_budget(cpu: u64, mem: u64) -> BudgetInfo {
    BudgetInfo {
        cpu_instructions: cpu,
        cpu_limit: 100_000,
        memory_bytes: mem,
        memory_limit: 40_000,
    }
}

fn make_run(iter: u32, duration_ms: u64, cpu: u64, mem: u64, result: &str) -> RunStats {
    RunStats {
        iteration: iter,
        duration: Duration::from_millis(duration_ms).as_nanos(),
        budget: make_budget(cpu, mem),
        result: result.to_string(),
    }
}

fn completed(duration_ms: u64, cpu: u64, mem: u64, result: &str) -> IterationOutcome {
    IterationOutcome::Completed {
        duration: Duration::from_millis(duration_ms).as_nanos(),
        budget: make_budget(cpu, mem),
        result: result.to_string(),
    }
}

#[test]
fn test_aggregate_single_run() {
    let runs = vec![make_run(1, 100, 5000, 2000, "Ok(())")];
    let stats = AggregateStats::from_runs(runs);

    assert_eq!(stats.min_duration, Duration::from_millis(100).as_nanos());
    assert_eq!(stats.max_duration, Duration::from_millis(100).as_nanos());
    assert_eq!(stats.avg_duration, Duration::from_millis(100).as_nanos());
    assert_eq!(stats.min_cpu, 5000);
    assert_eq!(stats.max_cpu, 5000);
    assert_eq!(stats.avg_cpu, 5000);
    assert_eq!(stats.min_memory, 2000);
    assert_eq!(stats.max_memory, 2000);
    assert_eq!(stats.avg_memory, 2000);
    assert!(!stats.inconsistent_results);
}

#[test]
fn test_aggregate_multiple_runs() {
    let runs = vec![
        make_run(1, 100, 3000, 1000, "Ok(())"),
        make_run(2, 200, 6000, 3000, "Ok(())"),
        make_run(3, 150, 4500, 2000, "Ok(())"),
    ];
    let stats = AggregateStats::from_runs(runs);

    assert_eq!(stats.min_duration, Duration::from_millis(100).as_nanos());
    assert_eq!(stats.max_duration, Duration::from_millis(200).as_nanos());
    assert_eq!(stats.avg_duration, Duration::from_millis(150).as_nanos());
    assert_eq!(stats.min_cpu, 3000);
    assert_eq!(stats.max_cpu, 6000);
    assert_eq!(stats.avg_cpu, 4500);
    assert_eq!(stats.min_memory, 1000);
    assert_eq!(stats.max_memory, 3000);
    assert_eq!(stats.avg_memory, 2000);
    assert!(!stats.inconsistent_results);
}

#[test]
fn test_inconsistent_results_detected() {
    let runs = vec![
        make_run(1, 100, 3000, 1000, "Ok(())"),
        make_run(2, 100, 3000, 1000, "Err(42)"),
    ];
    let stats = AggregateStats::from_runs(runs);

    assert!(stats.inconsistent_results);
}

#[test]
fn test_consistent_results() {
    let runs = vec![
        make_run(1, 100, 3000, 1000, "Ok(())"),
        make_run(2, 200, 4000, 2000, "Ok(())"),
    ];
    let stats = AggregateStats::from_runs(runs);

    assert!(!stats.inconsistent_results);
}

#[test]
fn test_truncate_short_string() {
    assert_eq!(truncate("hello", 10), "hello");
}

#[test]
fn test_truncate_long_string() {
    let long = "a]".repeat(20);
    let result = truncate(&long, 10);
    assert_eq!(result.chars().count(), 10);
    assert!(result.ends_with('…'));
}

#[test]
fn test_truncate_exact_width_is_unchanged() {
    assert_eq!(truncate("0123456789", 10), "0123456789");
    assert_eq!(truncate("", 0), "");
}

#[test]
fn test_truncate_keeps_leading_characters() {
    assert_eq!(truncate("abcdefgh", 4), "abc…");
    assert_eq!(truncate("abcdefgh", 1), "…");
}

#[test]
fn test_truncate_counts_characters_not_bytes() {
    assert_eq!(truncate("äöüß", 4), "äöüß");
    assert_eq!(truncate("äöüßé", 4), "äöü…");
}

#[test]
fn test_average_is_truncated_quotient() {
    let runs = vec![
        make_run(1, 1, 10, 7, "r"),
        make_run(2, 2, 11, 8, "r"),
        make_run(3, 4, 12, 8, "r"),
    ];
    let stats = AggregateStats::from_runs(runs);
    assert_eq!(stats.avg_cpu, 11);
    assert_eq!(stats.avg_memory, 7);
    assert_eq!(stats.avg_duration, 2_333_333);
}

#[test]
fn test_average_lies_between_extremes() {
    let runs = vec![
        make_run(1, 30, 900, 64, "r"),
        make_run(2, 10, 100, 4096, "r"),
        make_run(3, 25, 500, 512, "r"),
        make_run(4, 11, 101, 65, "r"),
    ];
    let stats = AggregateStats::from_runs(runs);
    assert!(stats.min_duration <= stats.avg_duration && stats.avg_duration <= stats.max_duration);
    assert!(stats.min_cpu <= stats.avg_cpu && stats.avg_cpu <= stats.max_cpu);
    assert!(stats.min_memory <= stats.avg_memory && stats.avg_memory <= stats.max_memory);
    assert_eq!(stats.min_cpu, 100);
    assert_eq!(stats.max_cpu, 900);
    assert_eq!(stats.avg_cpu, 400);
}

#[test]
fn test_accumulation_saturates() {
    let runs = vec![
        make_run(1, 1, u64::MAX, u64::MAX - 1, "r"),
        make_run(2, 1, u64::MAX, 2, "r"),
    ];
    let stats = AggregateStats::from_runs(runs);
    assert_eq!(stats.min_cpu, u64::MAX);
    assert_eq!(stats.max_cpu, u64::MAX);
    assert_eq!(stats.avg_cpu, u64::MAX / 2);
    assert_eq!(stats.avg_memory, u64::MAX / 2);
    assert!(stats.avg_cpu <= stats.max_cpu);
}

#[test]
fn test_duration_accumulation_saturates() {
    let runs = vec![
        RunStats { iteration: 1, duration: u128::MAX, budget: make_budget(1, 1), result: "r".to_string() },
        RunStats { iteration: 2, duration: 5, budget: make_budget(1, 1), result: "r".to_string() },
    ];
    let stats = AggregateStats::from_runs(runs);
    assert_eq!(stats.min_duration, 5);
    assert_eq!(stats.max_duration, u128::MAX);
    assert_eq!(stats.avg_duration, u128::MAX / 2);
}

#[test]
fn test_from_runs_keeps_the_runs() {
    let runs = vec![make_run(1, 1, 2, 3, "a"), make_run(2, 4, 5, 6, "b")];
    let stats = AggregateStats::from_runs(runs);
    assert_eq!(stats.runs.len(), 2);
    assert_eq!(stats.runs[0].iteration, 1);
    assert_eq!(stats.runs[1].result, "b");
    assert_eq!(stats.runs[1].budget, make_budget(5, 6));
}

#[test]
fn test_try_from_runs_rejects_empty_batch() {
    let outcome = AggregateStats::try_from_runs(Vec::new());
    assert!(matches!(outcome, Err(DebuggerError::PreconditionViolation(_))));
}

#[test]
fn test_try_from_runs_summarizes_non_empty_batch() {
    let outcome = AggregateStats::try_from_runs(vec![make_run(1, 100, 5000, 2000, "Ok(())")]);
    let stats = outcome.unwrap();
    assert_eq!(stats.avg_cpu, 5000);
    assert!(!stats.inconsistent_results);
}

#[test]
fn test_divergent_runs_lists_differing_iterations() {
    let runs = vec![
        make_run(1, 100, 3000, 1000, "Ok(1)"),
        make_run(2, 100, 3000, 1000, "Ok(2)"),
        make_run(3, 100, 3000, 1000, "Ok(1)"),
        make_run(4, 100, 3000, 1000, "Ok(3)"),
    ];
    let stats = AggregateStats::from_runs(runs);
    assert!(stats.inconsistent_results);
    let report = stats.divergent_runs();
    assert_eq!(report.len(), 2);
    assert_eq!(report[0].iteration, 2);
    assert_eq!(report[0].result, "Ok(2)");
    assert_eq!(report[1].iteration, 4);
    assert_eq!(report[1].result, "Ok(3)");
}

#[test]
fn test_divergent_runs_empty_for_identical_results() {
    let runs = vec![
        make_run(1, 100, 3000, 1000, "Ok(())"),
        make_run(2, 120, 3100, 1000, "Ok(())"),
        make_run(3, 90, 2900, 1000, "Ok(())"),
    ];
    let stats = AggregateStats::from_runs(runs);
    assert!(!stats.inconsistent_results);
    assert!(stats.divergent_runs().is_empty());
}

#[test]
fn test_divergent_runs_bounds_result_width() {
    let long = "x".repeat(60);
    let runs = vec![make_run(1, 1, 1, 1, "short"), make_run(2, 1, 1, 1, &long)];
    let stats = AggregateStats::from_runs(runs);
    let report = stats.divergent_runs();
    assert_eq!(report.len(), 1);
    assert_eq!(report[0].iteration, 2);
    assert_eq!(report[0].result.chars().count(), 28);
    assert_eq!(report[0].result, format!("{}…", "x".repeat(27)));
}

#[test]
fn test_runner_keeps_its_inputs() {
    let runner = RepeatRunner::new(
        vec![0, 97, 115, 109],
        vec!["transfer".to_string()],
        Some("{}".to_string()),
    );
    assert_eq!(runner.wasm_bytes(), &vec![0u8, 97, 115, 109]);
    assert_eq!(runner.breakpoints(), &vec!["transfer".to_string()]);
    assert_eq!(runner.initial_storage(), &Some("{}".to_string()));
}

#[test]
fn test_batch_numbers_iterations_and_finishes() {
    let runner = RepeatRunner::new(Vec::new(), Vec::new(), None);
    let batch = runner.begin(3);
    assert_eq!(batch.next_iteration(), 1);
    let batch = match batch.record(completed(100, 3000, 1000, "Ok(())")) {
        RepeatStep::Continue(next) => next,
        _ => panic!("the batch is not finished after one of three"),
    };
    assert_eq!(batch.next_iteration(), 2);
    let batch = match batch.record(completed(200, 6000, 3000, "Ok(())")) {
        RepeatStep::Continue(next) => next,
        _ => panic!("the batch is not finished after two of three"),
    };
    assert_eq!(batch.next_iteration(), 3);
    let stats = match batch.record(completed(150, 4500, 2000, "Ok(())")) {
        RepeatStep::Finished(stats) => stats,
        _ => panic!("the batch is finished after three of three"),
    };
    assert_eq!(stats.runs.len(), 3);
    assert_eq!(stats.runs[0].iteration, 1);
    assert_eq!(stats.runs[1].iteration, 2);
    assert_eq!(stats.runs[2].iteration, 3);
    assert_eq!(stats.avg_cpu, 4500);
    assert_eq!(stats.avg_memory, 2000);
    assert_eq!(stats.avg_duration, Duration::from_millis(150).as_nanos());
    assert!(!stats.inconsistent_results);
}

#[test]
fn test_batch_of_one_finishes_at_once() {
    let runner = RepeatRunner::new(Vec::new(), Vec::new(), None);
    let step = runner.begin(1).record(completed(7, 70, 700, "Ok(7)"));
    match step {
        RepeatStep::Finished(stats) => {
            assert_eq!(stats.runs.len(), 1);
            assert_eq!(stats.min_cpu, 70);
            assert_eq!(stats.max_memory, 700);
        }
        _ => panic!("one iteration was asked for"),
    }
}

#[test]
fn test_batch_stops_on_first_failure() {
    let runner = RepeatRunner::new(Vec::new(), Vec::new(), None);
    let batch = runner.begin(5);
    let batch = match batch.record(completed(100, 3000, 1000, "Ok(())")) {
        RepeatStep::Continue(next) => next,
        _ => panic!("the batch goes on after a completed run"),
    };
    let step = batch.record(IterationOutcome::Failed(DebuggerError::Execution("trap".to_string())));
    match step {
        RepeatStep::Stopped(error) => {
            assert_eq!(error, DebuggerError::Execution("trap".to_string()))
        }
        _ => panic!("a failed iteration stops the batch"),
    }
}

#[test]
fn test_nondeterministic_results_are_flagged() {
    let runner = RepeatRunner::new(Vec::new(), Vec::new(), None);
    let mut batch = runner.begin(3);
    let timestamps = ["Ok(1700000001)", "Ok(1700000002)", "Ok(1700000003)"];
    let mut finished = None;
    for stamp in timestamps {
        match batch.record(completed(10, 100, 100, stamp)) {
            RepeatStep::Continue(next) => batch = next,
            RepeatStep::Finished(stats) => {
                finished = Some(stats);
                break;
            }
            RepeatStep::Stopped(_) => panic!("no iteration failed"),
        }
    }
    let stats = finished.unwrap();
    assert!(stats.inconsistent_results);
    let report = stats.divergent_runs();
    assert!(!report.is_empty());
    assert!(report.iter().all(|d| d.iteration != 1));
    assert_eq!(report[0].iteration, 2);
    assert_eq!(report[1].iteration, 3);
}
