//! Configuration and tallies of a test run.
//!
//! Running a test is the caller's business; what is counted, and when a
//! run stops early, is decided here.

use vstd::prelude::*;
use core::time::Duration;
use crate::test_framework::{TestError, TestErrorView, TestResult};

verus! {

/// The duration of `secs` whole seconds, as `Duration::from_secs` makes it.
pub uninterp spec fn duration_of_secs(secs: u64) -> Duration;

/// `Duration::from_secs` is a function of its argument.
pub assume_specification[ Duration::from_secs ](secs: u64) -> (d: Duration)
    ensures
        d == duration_of_secs(secs),
;

/// A clone of a `Duration` is equal to it.
pub assume_specification[ <Duration as Clone>::clone ](d: &Duration) -> (copy: Duration)
    ensures
        copy == *d,
;

/// How a run is carried out.
#[derive(Debug, Clone)]
pub struct TestConfig {
    pub timeout: Duration,
    pub parallel: bool,
    pub verbose: bool,
    pub stop_on_failure: bool,
    pub hardware_simulation: bool,
}

impl Default for TestConfig {
    fn default() -> (c: Self)
        ensures
            c.timeout == duration_of_secs(30),
            !c.parallel,
            c.verbose,
            !c.stop_on_failure,
            c.hardware_simulation,
    {
        TestConfig {
            timeout: Duration::from_secs(30),
            parallel: false,
            verbose: true,
            stop_on_failure: false,
            hardware_simulation: true,
        }
    }
}

impl TestConfig {
    /// Whether a run stops now, `failed` tests having failed so far: only
    /// if it is configured to stop on failure and there is one.
    pub fn should_stop(&self, failed: usize) -> (stop: bool)
        ensures
            stop == (self.stop_on_failure && failed > 0),
    {
        self.stop_on_failure && failed > 0
    }
}

/// Results of one suite.
#[derive(Debug)]
pub struct SuiteResult {
    pub name: String,
    pub tests: Vec<TestResult>,
    pub duration: Duration,
    pub passed: usize,
    pub failed: usize,
    pub skipped: usize,
}

impl SuiteResult {
    /// An empty suite result under the given name.
    pub fn new(name: String) -> (s: Self)
        ensures
            s.name@ == name@,
            s.tests@.len() == 0,
            s.duration == duration_of_secs(0),
            s.passed == 0,
            s.failed == 0,
            s.skipped == 0,
    {
        SuiteResult {
            name,
            tests: Vec::new(),
            duration: Duration::from_secs(0),
            passed: 0,
            failed: 0,
            skipped: 0,
        }
    }

    /// The result of a suite whose setup failed: no test ran and all of
    /// its `test_count` tests count as failed.
    pub fn setup_failed(name: String, test_count: usize) -> (s: Self)
        ensures
            s.name@ == name@,
            s.tests@.len() == 0,
            s.duration == duration_of_secs(0),
            s.passed == 0,
            s.failed == test_count,
            s.skipped == 0,
    {
        let mut s = SuiteResult::new(name);
        s.failed = test_count;
        s
    }

    /// Appends one test's result and counts it as passed or failed.
    pub fn add_result(&mut self, result: TestResult)
        requires
            result.passed ==> old(self).passed < usize::MAX,
            !result.passed ==> old(self).failed < usize::MAX,
        ensures
            final(self).tests@ == old(self).tests@.push(result),
            final(self).passed == old(self).passed + if result.passed {
                1int
            } else {
                0int
            },
            final(self).failed == old(self).failed + if result.passed {
                0int
            } else {
                1int
            },
            final(self).skipped == old(self).skipped,
            final(self).name == old(self).name,
            final(self).duration == old(self).duration,
    {
        if result.passed {
            self.passed += 1;
        } else {
            self.failed += 1;
        }
        self.tests.push(result);
    }
}

/// Sum of the `passed` counts of the suites.
pub open spec fn total_passed(suites: Seq<SuiteResult>) -> int
    decreases suites.len(),
{
    if suites.len() == 0 {
        0
    } else {
        total_passed(suites.drop_last()) + suites.last().passed
    }
}

/// Sum of the `failed` counts of the suites.
pub open spec fn total_failed(suites: Seq<SuiteResult>) -> int
    decreases suites.len(),
{
    if suites.len() == 0 {
        0
    } else {
        total_failed(suites.drop_last()) + suites.last().failed
    }
}

/// Sum of the `skipped` counts of the suites.
pub open spec fn total_skipped(suites: Seq<SuiteResult>) -> int
    decreases suites.len(),
{
    if suites.len() == 0 {
        0
    } else {
        total_skipped(suites.drop_last()) + suites.last().skipped
    }
}

/// Results of a whole run.
#[derive(Debug)]
pub struct RunnerResult {
    pub total_tests: usize,
    pub passed: usize,
    pub failed: usize,
    pub skipped: usize,
    pub duration: Duration,
    pub suite_results: Vec<SuiteResult>,
}

impl RunnerResult {
    /// Totals the suites of a run. `None` if a total does not fit the
    /// machine's word.
    pub fn from_suites(suite_results: Vec<SuiteResult>, duration: Duration) -> (r: Option<Self>)
        ensures
            r is Some <==> total_passed(suite_results@) + total_failed(suite_results@)
                + total_skipped(suite_results@) <= usize::MAX,
            r is Some ==> {
                let run = r->0;
                &&& run.passed == total_passed(suite_results@)
                &&& run.failed == total_failed(suite_results@)
                &&& run.skipped == total_skipped(suite_results@)
                &&& run.total_tests == run.passed + run.failed + run.skipped
                &&& run.duration == duration
                &&& run.suite_results@ == suite_results@
            },
    {
        let mut passed: usize = 0;
        let mut failed: usize = 0;
        let mut skipped: usize = 0;
        let mut i: usize = 0;
        let ghost all = suite_results@;
        while i < suite_results.len()
            invariant
                i <= suite_results.len(),
                all == suite_results@,
                passed == total_passed(all.take(i as int)),
                failed == total_failed(all.take(i as int)),
                skipped == total_skipped(all.take(i as int)),
                passed + failed + skipped <= usize::MAX,
            decreases suite_results.len() - i,
        {
            let suite = &suite_results[i];
            proof {
                let next = all.take(i + 1);
                assert(next.drop_last() == all.take(i as int));
                assert(next.last() == all[i as int]);
                lemma_totals_grow(all, i + 1);
            }
            if suite.passed > usize::MAX - passed || suite.failed > usize::MAX - failed
                || suite.skipped > usize::MAX - skipped {
                return None;
            }
            let p: usize = passed + suite.passed;
            let f: usize = failed + suite.failed;
            let s: usize = skipped + suite.skipped;
            if f > usize::MAX - p || s > usize::MAX - p - f {
                return None;
            }
            passed = p;
            failed = f;
            skipped = s;
            i += 1;
        }
        proof {
            assert(all.take(i as int) == all);
        }
        Some(
            RunnerResult {
                total_tests: passed + failed + skipped,
                passed,
                failed,
                skipped,
                duration,
                suite_results,
            },
        )
    }

    /// Whether no test failed.
    pub fn success(&self) -> (ok: bool)
        ensures
            ok == (self.failed == 0),
    {
        self.failed == 0
    }
}

/// Totals never shrink as suites are added: the totals of a prefix are at
/// most the totals of the whole.
pub proof fn lemma_totals_grow(suites: Seq<SuiteResult>, n: int)
    requires
        0 <= n <= suites.len(),
    ensures
        0 <= total_passed(suites.take(n)) <= total_passed(suites),
        0 <= total_failed(suites.take(n)) <= total_failed(suites),
        0 <= total_skipped(suites.take(n)) <= total_skipped(suites),
    decreases suites.len(),
{
    if suites.len() == 0 {
        assert(suites.take(n) == suites);
    } else if n == suites.len() {
        assert(suites.take(n) == suites);
        lemma_totals_grow(suites.drop_last(), n - 1);
        assert(suites.drop_last().take(n - 1) == suites.drop_last());
    } else {
        lemma_totals_grow(suites.drop_last(), n);
        assert(suites.drop_last().take(n) == suites.take(n));
        lemma_totals_grow(suites.drop_last(), suites.len() - 1);
        assert(suites.drop_last().take(suites.len() - 1) == suites.drop_last());
    }
}

/// The text that `{:?}` gives for a test error: the name of its kind and,
/// in brackets, its text as a quoted and escaped string.
pub uninterp spec fn debug_text_of(error: TestErrorView) -> Seq<char>;

/// Renders an error the way `{:?}` prints it, through `format!`. The text
/// is a function of the error's kind and text.
#[verifier::external_body]
fn error_text(error: &TestError) -> (text: String)
    ensures
        text@ == debug_text_of(error@),
{
    format!("{:?}", error)
}

/// The result of a test whose setup failed: not passed, no assertions, and
/// the message `Setup failed: ` followed by the error as `{:?}` prints it.
pub fn setup_failure(error: &TestError, duration: Duration) -> (r: TestResult)
    ensures
        !r.passed,
        r.assertions@.len() == 0,
        r.duration == duration,
        r.message@ == "Setup failed: "@ + debug_text_of(error@),
{
    let cause = error_text(error);
    let mut message = "Setup failed: ".to_owned();
    message.append(cause.as_str());
    TestResult { passed: false, message, duration, assertions: Vec::new() }
}

} // verus!
