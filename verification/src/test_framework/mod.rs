//! A small toolkit for checks on a robot or a simulation: assertions that
//! report instead of panicking, and the tallies of a test run.

pub mod assertions;
pub mod test_runner;

use vstd::prelude::*;
use core::time::Duration;

verus! {

/// Outcome of one assertion, with both sides rendered as text.
#[derive(Debug, Clone)]
pub struct AssertionResult {
    pub passed: bool,
    pub expected: String,
    pub actual: String,
    pub message: String,
}

/// Outcome of one test case.
#[derive(Debug, Clone)]
pub struct TestResult {
    pub passed: bool,
    pub message: String,
    pub duration: Duration,
    pub assertions: Vec<AssertionResult>,
}

/// Why a test could not pass.
#[derive(Debug)]
pub enum TestError {
    SetupFailed(String),
    TeardownFailed(String),
    HardwareMissing(String),
    TimeoutError(String),
    AssertionFailed(String),
}

/// What a test error is, to contracts: its kind and the text it carries.
pub enum TestErrorView {
    SetupFailed(Seq<char>),
    TeardownFailed(Seq<char>),
    HardwareMissing(Seq<char>),
    TimeoutError(Seq<char>),
    AssertionFailed(Seq<char>),
}

impl View for TestError {
    type V = TestErrorView;

    open spec fn view(&self) -> TestErrorView {
        match self {
            TestError::SetupFailed(text) => TestErrorView::SetupFailed(text@),
            TestError::TeardownFailed(text) => TestErrorView::TeardownFailed(text@),
            TestError::HardwareMissing(text) => TestErrorView::HardwareMissing(text@),
            TestError::TimeoutError(text) => TestErrorView::TimeoutError(text@),
            TestError::AssertionFailed(text) => TestErrorView::AssertionFailed(text@),
        }
    }
}

} // verus!
