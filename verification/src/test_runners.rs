use crate::errors::{Cause, Error};
use crate::exec::Executable;
use crate::report::{Report, TestSuite};
use vstd::prelude::*;

verus! {

/// The kinds of backend that can run tests.
#[derive(Debug, Copy, Clone, PartialEq, Eq, Structural)]
pub enum TestRunnerType {
    GoogleTest,
}

/// A request for a runner: the kind of backend, and what that backend needs
/// to be built.
#[derive(Debug, Clone, PartialEq, Eq)]
pub struct TestRunnerInfo {
    pub trt: TestRunnerType,
    pub executable: Executable,
}

impl TestRunnerInfo {
    /// The request for a runner of kind `trt`, from what the caller has for
    /// it. Every kind needs an executable: without one the request cannot be
    /// built, and nothing is run.
    pub fn new(trt: TestRunnerType, executable: Option<Executable>) -> (info: Result<
        TestRunnerInfo,
        Error,
    >)
        ensures
            match executable {
                Some(given) => info == Ok::<TestRunnerInfo, Error>(
                    TestRunnerInfo { trt, executable: given },
                ),
                None => info == Err::<TestRunnerInfo, Error>(Error::Construction),
            },
    {
        match executable {
            Some(executable) => Ok(TestRunnerInfo { trt, executable }),
            None => Err(Error::Construction),
        }
    }
}

/// What came of launching a backend's executable.
#[derive(Debug, Clone, PartialEq, Eq)]
pub enum Execution {
    /// The process could not be started.
    NotLaunched,
    /// The process ended abnormally.
    Crashed,
    /// The process ran longer than it was allowed to.
    TimedOut,
    /// The process ran to its end, but what it printed is no report.
    Unparseable,
    /// The process ran to its end and reported these suites, in this order.
    Completed(Vec<TestSuite>),
}

/// What a run owes its caller for each execution: a report that holds every
/// suite that was found, in the order in which it was found, or the error
/// that names why there is none.
pub open spec fn concludes(execution: Execution, outcome: Result<Report, Error>) -> bool {
    match execution {
        Execution::NotLaunched => outcome == Err::<Report, Error>(
            Error::Execution(Cause::NotLaunched),
        ),
        Execution::Crashed => outcome == Err::<Report, Error>(Error::Execution(Cause::Crashed)),
        Execution::TimedOut => outcome == Err::<Report, Error>(Error::Execution(Cause::TimedOut)),
        Execution::Unparseable => outcome == Err::<Report, Error>(
            Error::Execution(Cause::Unparseable),
        ),
        Execution::Completed(suites) => outcome matches Ok(report) && report@ == suites@,
    }
}

/// Turns what came of an execution into the result of the run.
pub fn conclude(execution: Execution) -> (outcome: Result<Report, Error>)
    ensures
        concludes(execution, outcome),
{
    match execution {
        Execution::NotLaunched => Err(Error::Execution(Cause::NotLaunched)),
        Execution::Crashed => Err(Error::Execution(Cause::Crashed)),
        Execution::TimedOut => Err(Error::Execution(Cause::TimedOut)),
        Execution::Unparseable => Err(Error::Execution(Cause::Unparseable)),
        Execution::Completed(suites) => Ok(Report::from_suites(suites)),
    }
}

/// A backend that runs tests. The runner says what is to be launched; the
/// caller launches it and hands back what came of it; the runner turns that
/// into a report or an error.
pub trait TestRunner {
    /// The kind of backend that this runner drives.
    spec fn kind(&self) -> TestRunnerType;

    /// The executable that this runner was built for.
    spec fn target(&self) -> Executable;

    /// The executable to launch.
    fn executable(&self) -> (executable: &Executable)
        ensures
            *executable == self.target(),
    ;

    /// The result of the run, given what came of launching the executable.
    fn run(&self, execution: Execution) -> (outcome: Result<Report, Error>)
        ensures
            concludes(execution, outcome),
    ;
}

/// The runner for executables that are built on GoogleTest.
#[derive(Debug, Clone, PartialEq, Eq)]
pub struct GoogleTest {
    pub executable: Executable,
}

impl GoogleTest {
    pub fn from_executable(executable: Executable) -> (runner: GoogleTest)
        ensures
            runner.executable == executable,
    {
        GoogleTest { executable }
    }
}

impl TestRunner for GoogleTest {
    open spec fn kind(&self) -> TestRunnerType {
        TestRunnerType::GoogleTest
    }

    open spec fn target(&self) -> Executable {
        self.executable
    }

    fn executable(&self) -> (executable: &Executable) {
        &self.executable
    }

    fn run(&self, execution: Execution) -> (outcome: Result<Report, Error>) {
        conclude(execution)
    }
}

/// A runner of any of the kinds that the registry knows.
#[derive(Debug, Clone, PartialEq, Eq)]
pub enum Runner {
    GoogleTest(GoogleTest),
}

impl TestRunner for Runner {
    open spec fn kind(&self) -> TestRunnerType {
        match self {
            Runner::GoogleTest(runner) => runner.kind(),
        }
    }

    open spec fn target(&self) -> Executable {
        match self {
            Runner::GoogleTest(runner) => runner.target(),
        }
    }

    fn executable(&self) -> (executable: &Executable) {
        match self {
            Runner::GoogleTest(runner) => runner.executable(),
        }
    }

    fn run(&self, execution: Execution) -> (outcome: Result<Report, Error>) {
        match self {
            Runner::GoogleTest(runner) => runner.run(execution),
        }
    }
}

/// Builds the runner that a request selects. Every kind of backend has its
/// runner: the runner is of the kind that was asked for and is built for the
/// executable of the request. Nothing is launched.
pub fn make_test_runner(info: TestRunnerInfo) -> (runner: Runner)
    ensures
        runner.kind() == info.trt,
        runner.target() == info.executable,
{
    match info.trt {
        TestRunnerType::GoogleTest => Runner::GoogleTest(
            GoogleTest::from_executable(info.executable),
        ),
    }
}

} // verus!
