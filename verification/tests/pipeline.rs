use swc_watch::config::CompilerConfig;
use swc_watch::dispatch::{launch, Collector, Summary};
use swc_watch::metrics::{CompilerMetrics, Completion};
use swc_watch::worker::{Compiler, Job, JobAction, Stage, StepResult, TransformOutcome};

fn done(elapsed_nanos: u128) -> StepResult {
    StepResult::Done { elapsed_nanos }
}

fn failed(description: &str) -> StepResult {
    StepResult::Failed { description: description.to_string() }
}

/// Runs one job to its end. The transformation takes `nanos`; the step named
/// by `fail_at` (0 read, 1 transform, 2 write) fails, if any.
fn run_job(compiler: &mut Compiler, job: &mut Job, nanos: u128, fail_at: Option<usize>) -> TransformOutcome {
    for step in 0..3 {
        let result = if fail_at == Some(step) { failed("injected") } else { done(if step == 1 { nanos } else { 999 }) };
        assert!(compiler.can_advance(job, &result));
        if let JobAction::Report { outcome } = compiler.advance(job, result) {
            return outcome;
        }
    }
    unreachable!()
}

#[test]
fn new_metrics_are_zero() {
    let metrics = CompilerMetrics::new();
    assert_eq!(metrics.files_processed(), 0);
    assert_eq!(metrics.total_nanos(), 0);
    assert_eq!(metrics.errors(), 0);
    let metrics = CompilerMetrics::default();
    assert_eq!(metrics.files_processed(), 0);
}

#[test]
fn success_counts_one_file_and_adds_its_time() {
    let mut metrics = CompilerMetrics::new();
    metrics.record_success(1_500);
    metrics.record_success(500);
    assert_eq!(metrics.files_processed(), 2);
    assert_eq!(metrics.total_nanos(), 2_000);
    assert_eq!(metrics.errors(), 0);
}

#[test]
fn failure_counts_one_file_and_one_error_and_no_time() {
    let mut metrics = CompilerMetrics::new();
    metrics.record_success(700);
    metrics.record_failure();
    assert_eq!(metrics.files_processed(), 2);
    assert_eq!(metrics.total_nanos(), 700);
    assert_eq!(metrics.errors(), 1);
}

#[test]
fn record_takes_either_completion() {
    let mut metrics = CompilerMetrics::new();
    metrics.record(Completion::Success { elapsed_nanos: 40 });
    metrics.record(Completion::Failure);
    metrics.record(Completion::Success { elapsed_nanos: 2 });
    assert_eq!(metrics.files_processed(), 3);
    assert_eq!(metrics.total_nanos(), 42);
    assert_eq!(metrics.errors(), 1);
}

#[test]
fn snapshot_is_a_copy_that_does_not_follow_later_updates() {
    let mut metrics = CompilerMetrics::new();
    metrics.record_success(10);
    let snapshot = metrics.snapshot();
    metrics.record_failure();
    assert_eq!(snapshot.files_processed(), 1);
    assert_eq!(snapshot.total_nanos(), 10);
    assert_eq!(snapshot.errors(), 0);
    assert_eq!(metrics.files_processed(), 2);
}

#[test]
fn metrics_say_when_a_counter_is_full() {
    let mut metrics = CompilerMetrics::new();
    assert!(metrics.can_record(u128::MAX));
    metrics.record_success(1);
    assert!(metrics.can_record(u128::MAX - 1));
    assert!(!metrics.can_record(u128::MAX));
}

#[test]
fn metrics_after_mixed_jobs_count_all_and_time_only_successes() {
    let durations: [Option<u128>; 7] = [Some(5), None, Some(11), Some(0), None, None, Some(100)];
    let mut metrics = CompilerMetrics::new();
    let mut seen_errors = 0;
    let mut seen_time = 0;
    for (done, one) in durations.iter().enumerate() {
        let before = metrics.snapshot();
        match one {
            Some(nanos) => {
                metrics.record_success(*nanos);
                seen_time += nanos;
            }
            None => {
                metrics.record_failure();
                seen_errors += 1;
            }
        }
        assert_eq!(metrics.files_processed(), done + 1);
        assert_eq!(metrics.errors(), seen_errors);
        assert_eq!(metrics.total_nanos(), seen_time);
        assert!(before.files_processed() <= metrics.files_processed());
        assert!(before.errors() <= metrics.errors());
        assert!(before.total_nanos() <= metrics.total_nanos());
    }
    assert_eq!(metrics.files_processed(), 7);
    assert_eq!(metrics.errors(), 3);
    assert_eq!(metrics.total_nanos(), 116);
}

#[test]
fn output_goes_beside_the_source_with_the_js_extension() {
    assert_eq!(Compiler::output_path_of("a/b/file.ts"), "a/b/file.js");
    assert_eq!(Compiler::output_path_of("file.ts"), "file.js");
    assert_eq!(Compiler::output_path_of("dir.v2/module.d.ts"), "dir.v2/module.d.js");
    assert_eq!(Compiler::output_path_of("plain"), "plain.js");
}

#[test]
fn new_compiler_has_its_config_and_no_metrics() {
    let compiler = Compiler::new(CompilerConfig::new("es5".to_string(), "amd".to_string(), false, false));
    assert_eq!(compiler.config.target, "es5");
    assert_eq!(compiler.config.module, "amd");
    assert_eq!(compiler.metrics.files_processed(), 0);
    assert_eq!(compiler.metrics.total_nanos(), 0);
    assert_eq!(compiler.metrics.errors(), 0);
}

#[test]
fn job_goes_from_reading_to_a_reported_success() {
    let mut compiler = Compiler::new(CompilerConfig::default());
    let mut job = Job::new("src/app.ts".to_string());
    assert_eq!(job.stage, Stage::Reading);
    assert!(!job.is_reported());

    assert!(matches!(compiler.advance(&mut job, done(10)), JobAction::Transform));
    assert_eq!(job.stage, Stage::Transforming);
    assert_eq!(compiler.metrics.files_processed(), 0);

    match compiler.advance(&mut job, done(2_500)) {
        JobAction::Write { path } => assert_eq!(path, "src/app.js"),
        other => panic!("unexpected action {:?}", other),
    }
    assert_eq!(job.stage, Stage::Writing { elapsed_nanos: 2_500 });
    assert_eq!(compiler.metrics.files_processed(), 0);

    match compiler.advance(&mut job, done(77)) {
        JobAction::Report { outcome: TransformOutcome::Success { file, output } } => {
            assert_eq!(file, "src/app.ts");
            assert_eq!(output, "src/app.js");
        }
        other => panic!("unexpected action {:?}", other),
    }
    assert!(job.is_reported());
    assert_eq!(job.file, "src/app.ts");
    assert_eq!(compiler.metrics.files_processed(), 1);
    assert_eq!(compiler.metrics.total_nanos(), 2_500);
    assert_eq!(compiler.metrics.errors(), 0);
}

#[test]
fn unreadable_file_fails_its_job_only() {
    let mut compiler = Compiler::new(CompilerConfig::default());
    let mut job = Job::new("gone.ts".to_string());
    match compiler.advance(&mut job, failed("no such file")) {
        JobAction::Report { outcome: TransformOutcome::Failure { file, description } } => {
            assert_eq!(file, "gone.ts");
            assert_eq!(description, "no such file");
        }
        other => panic!("unexpected action {:?}", other),
    }
    assert!(job.is_reported());
    assert_eq!(compiler.metrics.files_processed(), 1);
    assert_eq!(compiler.metrics.errors(), 1);
    assert_eq!(compiler.metrics.total_nanos(), 0);
}

#[test]
fn failed_transformation_is_reported_with_its_description() {
    let mut compiler = Compiler::new(CompilerConfig::default());
    let mut job = Job::new("bad.ts".to_string());
    compiler.advance(&mut job, done(1));
    match compiler.advance(&mut job, failed("unexpected token")) {
        JobAction::Report { outcome: TransformOutcome::Failure { file, description } } => {
            assert_eq!(file, "bad.ts");
            assert_eq!(description, "unexpected token");
        }
        other => panic!("unexpected action {:?}", other),
    }
    assert_eq!(compiler.metrics.files_processed(), 1);
    assert_eq!(compiler.metrics.errors(), 1);
}

#[test]
fn failed_write_counts_as_failure_and_adds_no_time() {
    let mut compiler = Compiler::new(CompilerConfig::default());
    let mut job = Job::new("ro/app.ts".to_string());
    compiler.advance(&mut job, done(1));
    compiler.advance(&mut job, done(9_000));
    match compiler.advance(&mut job, failed("read-only file system")) {
        JobAction::Report { outcome: TransformOutcome::Failure { file, description } } => {
            assert_eq!(file, "ro/app.ts");
            assert_eq!(description, "read-only file system");
        }
        other => panic!("unexpected action {:?}", other),
    }
    assert_eq!(compiler.metrics.files_processed(), 1);
    assert_eq!(compiler.metrics.errors(), 1);
    assert_eq!(compiler.metrics.total_nanos(), 0);
}

#[test]
fn compiler_says_when_a_step_cannot_be_counted() {
    let mut compiler = Compiler::new(CompilerConfig::default());
    compiler.metrics.record_success(u128::MAX - 10);
    let mut job = Job::new("big.ts".to_string());
    assert!(compiler.can_advance(&job, &done(u128::MAX)));
    compiler.advance(&mut job, done(u128::MAX));
    assert!(compiler.can_advance(&job, &done(11)));
    compiler.advance(&mut job, done(11));
    assert_eq!(job.stage, Stage::Writing { elapsed_nanos: 11 });
    assert!(!compiler.can_advance(&job, &done(0)));
    assert!(compiler.can_advance(&job, &failed("disk full")));
    compiler.advance(&mut job, failed("disk full"));
    assert_eq!(compiler.metrics.total_nanos(), u128::MAX - 10);
    assert_eq!(compiler.metrics.files_processed(), 2);
    assert_eq!(compiler.metrics.errors(), 1);
    assert!(compiler.can_advance(&job, &done(u128::MAX)));
}

#[test]
fn reported_job_does_nothing_more() {
    let mut compiler = Compiler::new(CompilerConfig::default());
    let mut job = Job::new("x.ts".to_string());
    compiler.advance(&mut job, failed("first"));
    assert!(matches!(compiler.advance(&mut job, done(5)), JobAction::Nothing));
    assert!(matches!(compiler.advance(&mut job, failed("second")), JobAction::Nothing));
    assert!(job.is_reported());
    assert_eq!(compiler.metrics.files_processed(), 1);
    assert_eq!(compiler.metrics.errors(), 1);
}

#[test]
fn only_the_time_of_the_transformation_is_counted() {
    let mut compiler = Compiler::new(CompilerConfig::default());
    let mut job = Job::new("t.ts".to_string());
    compiler.advance(&mut job, done(1_000_000));
    compiler.advance(&mut job, done(3));
    compiler.advance(&mut job, done(2_000_000));
    assert_eq!(compiler.metrics.total_nanos(), 3);
}

#[test]
fn launch_makes_one_job_per_path_in_order() {
    let paths = vec!["a.ts".to_string(), "b.ts".to_string(), "a.ts".to_string(), "c/d.ts".to_string()];
    let jobs = launch(&paths);
    assert_eq!(jobs.len(), 4);
    for (job, path) in jobs.iter().zip(paths.iter()) {
        assert_eq!(&job.file, path);
        assert_eq!(job.stage, Stage::Reading);
    }
    assert!(launch(&Vec::new()).is_empty());
}

#[test]
fn launch_sets_no_limit_on_the_number_of_jobs() {
    let paths: Vec<String> = (0..5000).map(|i| format!("f{}.ts", i)).collect();
    let jobs = launch(&paths);
    assert_eq!(jobs.len(), 5000);
    assert_eq!(jobs[4999].file, "f4999.ts");
}

#[test]
fn collector_counts_each_outcome_once() {
    let mut collector = Collector::new();
    assert_eq!((collector.succeeded(), collector.failed()), (0, 0));
    let first = TransformOutcome::Success { file: "a.ts".to_string(), output: "a.js".to_string() };
    assert!(collector.can_observe(&first));
    collector.observe(&first);
    collector.observe(&TransformOutcome::Failure { file: "b.ts".to_string(), description: "bad".to_string() });
    collector.observe(&TransformOutcome::Success { file: "c.ts".to_string(), output: "c.js".to_string() });
    assert_eq!((collector.succeeded(), collector.failed()), (2, 1));
}

#[test]
fn three_jobs_of_which_the_second_fails_to_transform() {
    let mut compiler = Compiler::new(CompilerConfig::default());
    let mut jobs = launch(&vec!["one.ts".to_string(), "two.ts".to_string(), "three.ts".to_string()]);
    let mut collector = Collector::new();
    let mut received = Vec::new();
    for (index, job) in jobs.iter_mut().enumerate() {
        let fail_at = if index == 1 { Some(1) } else { None };
        let outcome = run_job(&mut compiler, job, 100 * (index as u128 + 1), fail_at);
        collector.observe(&outcome);
        received.push(outcome);
    }
    assert_eq!(received.len(), 3);
    assert!(matches!(&received[0], TransformOutcome::Success { file, output } if file == "one.ts" && output == "one.js"));
    assert!(matches!(&received[1], TransformOutcome::Failure { file, description } if file == "two.ts" && description == "injected"));
    assert!(matches!(&received[2], TransformOutcome::Success { file, output } if file == "three.ts" && output == "three.js"));

    let summary = collector.summarize(&compiler.metrics);
    assert_eq!(summary, Summary { processed: 3, total_nanos: 400, succeeded: 2, failed: 1 });
    assert_eq!(compiler.metrics.errors(), 1);
    assert_eq!(summary.processed, summary.succeeded + summary.failed);
}

#[test]
fn processed_is_successes_plus_failures_for_any_mix() {
    for pattern in 0..64usize {
        let mut compiler = Compiler::new(CompilerConfig::default());
        let mut collector = Collector::new();
        let paths: Vec<String> = (0..6).map(|i| format!("f{}.ts", i)).collect();
        let mut jobs = launch(&paths);
        let mut expected_failures = 0;
        let mut expected_time = 0;
        for (index, job) in jobs.iter_mut().enumerate() {
            let fails = pattern >> index & 1 == 1;
            let fail_at = if fails { Some(index % 3) } else { None };
            let nanos = 10 + index as u128;
            let outcome = run_job(&mut compiler, job, nanos, fail_at);
            if fails {
                expected_failures += 1;
            } else {
                expected_time += nanos;
            }
            collector.observe(&outcome);
        }
        let summary = collector.summarize(&compiler.metrics);
        assert_eq!(summary.processed, 6);
        assert_eq!(summary.failed, expected_failures);
        assert_eq!(summary.succeeded, 6 - expected_failures);
        assert_eq!(summary.total_nanos, expected_time);
        assert_eq!(compiler.metrics.errors(), expected_failures);
    }
}

#[test]
fn resolving_and_deriving_outputs_twice_gives_the_same_plan() {
    let entries = vec![
        vec!["src".to_string(), "a.ts".to_string()],
        vec!["src".to_string(), "b.json".to_string()],
    ];
    let first = swc_watch::resolve::resolve_all(&entries, ".ts", '/');
    let second = swc_watch::resolve::resolve_all(&entries, ".ts", '/');
    assert_eq!(first, second);
    let outputs_first: Vec<String> = first.iter().map(|path| Compiler::output_path_of(path)).collect();
    let outputs_second: Vec<String> = second.iter().map(|path| Compiler::output_path_of(path)).collect();
    assert_eq!(outputs_first, outputs_second);
    assert_eq!(outputs_first, vec!["src/a.js".to_string()]);
}
