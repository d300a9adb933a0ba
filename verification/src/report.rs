use vstd::prelude::*;

verus! {

/// One failure of a test case, with the message the test runner gave.
#[derive(Clone, Debug)]
pub struct Failure {
    pub message: String,
}

/// A test case of a test suite and the failures it had.
#[derive(Clone, Debug)]
pub struct TestCase {
    pub name: String,
    pub failures: Vec<Failure>,
}

/// A test suite: its name, the number of failures the runner counted, if it
/// counted them, and its test cases.
#[derive(Clone, Debug)]
pub struct TestSuite {
    pub name: String,
    pub failures: Option<u64>,
    pub testcases: Vec<TestCase>,
}

/// The report of a test runner.
#[derive(Clone, Debug)]
pub struct Report {
    pub name: Option<String>,
    pub testsuites: Vec<TestSuite>,
}

/// Why a test passed or failed.
#[derive(Clone, Debug)]
pub enum Reason {
    Unknown,
    Generic(String),
    NotExpected { actual: String, expected: String },
    Report(Report),
}

/// The outcome of a test run.
#[derive(Clone, Debug)]
pub enum TestResult {
    Pass(Reason),
    Fail(Reason),
}

impl TestResult {
    /// The reason behind a result, whether it passed or failed.
    pub open spec fn reason(self) -> Reason {
        match self {
            TestResult::Pass(r) => r,
            TestResult::Fail(r) => r,
        }
    }
}

} // verus!
