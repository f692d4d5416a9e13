use gravlib::test_framework::test_runner::{
    setup_failure, RunnerResult, SuiteResult, TestConfig,
};
use gravlib::test_framework::{TestError, TestResult};
use std::time::Duration;

fn result(passed: bool) -> TestResult {
    TestResult {
        passed,
        message: String::new(),
        duration: Duration::from_millis(0),
        assertions: Vec::new(),
    }
}

fn suite(name: &str, passed: usize, failed: usize, skipped: usize) -> SuiteResult {
    SuiteResult {
        name: name.to_string(),
        tests: Vec::new(),
        duration: Duration::from_secs(0),
        passed,
        failed,
        skipped,
    }
}

#[test]
fn test_config_validation() {
    let config = TestConfig::default();
    assert_eq!(config.timeout, Duration::from_secs(30));
    assert!(config.verbose);
    assert!(config.hardware_simulation);
}

#[test]
fn default_config_runs_in_sequence_to_the_end() {
    let config = TestConfig::default();
    assert!(!config.parallel);
    assert!(!config.stop_on_failure);
}

#[test]
fn config_clone_keeps_the_timeout() {
    let config = TestConfig { timeout: Duration::from_secs(60), ..TestConfig::default() };
    let copy = config.clone();
    assert_eq!(copy.timeout, Duration::from_secs(60));
    assert_eq!(copy.verbose, config.verbose);
}

#[test]
fn run_stops_only_on_failure_and_only_if_asked() {
    let mut config = TestConfig::default();
    assert!(!config.should_stop(0));
    assert!(!config.should_stop(3));
    config.stop_on_failure = true;
    assert!(!config.should_stop(0));
    assert!(config.should_stop(1));
}

#[test]
fn new_suite_result_is_empty() {
    let s = SuiteResult::new("PID Controller Tests".to_string());
    assert_eq!(s.name, "PID Controller Tests");
    assert!(s.tests.is_empty());
    assert_eq!(s.duration, Duration::from_secs(0));
    assert_eq!((s.passed, s.failed, s.skipped), (0, 0, 0));
}

#[test]
fn add_result_counts_and_keeps_order() {
    let mut s = SuiteResult::new("suite".to_string());
    let mut first = result(true);
    first.message = "first".to_string();
    s.add_result(first);
    s.add_result(result(false));
    s.add_result(result(true));
    assert_eq!((s.passed, s.failed, s.skipped), (2, 1, 0));
    assert_eq!(s.tests.len(), 3);
    assert_eq!(s.tests[0].message, "first");
    assert!(!s.tests[1].passed);
}

#[test]
fn failed_suite_setup_fails_every_test() {
    let s = SuiteResult::setup_failed("Integration Tests".to_string(), 5);
    assert_eq!(s.name, "Integration Tests");
    assert_eq!((s.passed, s.failed, s.skipped), (0, 5, 0));
    assert!(s.tests.is_empty());
}

#[test]
fn failed_test_setup_is_reported() {
    let error = TestError::SetupFailed("no brain".to_string());
    let r = setup_failure(&error, Duration::from_millis(3));
    assert!(!r.passed);
    assert!(r.assertions.is_empty());
    assert_eq!(r.duration, Duration::from_millis(3));
    assert_eq!(r.message, "Setup failed: SetupFailed(\"no brain\")");
}

#[test]
fn run_totals_add_up() {
    let suites = vec![suite("a", 4, 0, 1), suite("b", 2, 3, 0), suite("c", 0, 0, 0)];
    let run = RunnerResult::from_suites(suites, Duration::from_secs(2)).unwrap();
    assert_eq!(run.passed, 6);
    assert_eq!(run.failed, 3);
    assert_eq!(run.skipped, 1);
    assert_eq!(run.total_tests, 10);
    assert_eq!(run.duration, Duration::from_secs(2));
    assert_eq!(run.suite_results.len(), 3);
    assert_eq!(run.suite_results[1].name, "b");
    assert!(!run.success());
}

#[test]
fn empty_run_succeeds() {
    let run = RunnerResult::from_suites(Vec::new(), Duration::from_secs(0)).unwrap();
    assert_eq!(run.total_tests, 0);
    assert!(run.success());
}

#[test]
fn run_without_failures_succeeds() {
    let run = RunnerResult::from_suites(vec![suite("a", 7, 0, 2)], Duration::from_secs(1)).unwrap();
    assert!(run.success());
    assert_eq!(run.total_tests, 9);
}

#[test]
fn totals_beyond_the_word_size_are_refused() {
    let suites = vec![suite("a", usize::MAX, 0, 0), suite("b", 1, 0, 0)];
    assert!(RunnerResult::from_suites(suites, Duration::from_secs(0)).is_none());
    let mixed = vec![suite("a", usize::MAX - 1, 1, 0), suite("b", 0, 0, 1)];
    assert!(RunnerResult::from_suites(mixed, Duration::from_secs(0)).is_none());
    let exact = vec![suite("a", usize::MAX - 1, 0, 0), suite("b", 0, 1, 0)];
    assert_eq!(
        RunnerResult::from_suites(exact, Duration::from_secs(0)).unwrap().total_tests,
        usize::MAX
    );
}
