use provola::errors::Cause;
use provola::report::{Report, Summary};
use provola::test_runners::{
    conclude, make_test_runner, Execution, GoogleTest, Runner, TestRunner, TestRunnerInfo,
    TestRunnerType,
};
use provola::{Error, Executable, TestCase, TestResult, TestSuite};

fn bin_true() -> TestRunnerInfo {
    TestRunnerInfo {
        trt: TestRunnerType::GoogleTest,
        executable: Executable::new("/bin/true".to_string()),
    }
}

#[test]
fn registry_builds_the_runner_asked_for() {
    let runner = make_test_runner(bin_true());
    assert_eq!(
        runner,
        Runner::GoogleTest(GoogleTest {
            executable: Executable {
                path: "/bin/true".to_string(),
                args: Vec::new(),
            }
        })
    );
    assert_eq!(runner.executable().path, "/bin/true");
    assert!(runner.executable().args.is_empty());
}

#[test]
fn registry_keeps_the_arguments() {
    let executable = Executable {
        path: "./suite".to_string(),
        args: vec!["--gtest_filter=A.*".to_string(), "-v".to_string()],
    };
    let runner = make_test_runner(TestRunnerInfo {
        trt: TestRunnerType::GoogleTest,
        executable: executable.clone(),
    });
    assert_eq!(runner.executable(), &executable);
}

#[test]
fn run_gives_a_report_or_an_error() {
    let runner = make_test_runner(bin_true());
    assert_eq!(
        runner.run(Execution::Completed(Vec::new())),
        Ok(Report::new())
    );
    for (execution, cause) in [
        (Execution::NotLaunched, Cause::NotLaunched),
        (Execution::Crashed, Cause::Crashed),
        (Execution::TimedOut, Cause::TimedOut),
        (Execution::Unparseable, Cause::Unparseable),
    ] {
        assert_eq!(runner.run(execution), Err(Error::Execution(cause)));
    }
}

#[test]
fn run_drops_no_case() {
    let suites = vec![
        TestSuite {
            name: "first".to_string(),
            cases: vec![
                TestCase {
                    name: "a".to_string(),
                    result: TestResult::Pass,
                },
                TestCase {
                    name: "b".to_string(),
                    result: TestResult::Pass,
                },
            ],
        },
        TestSuite {
            name: "second".to_string(),
            cases: Vec::new(),
        },
    ];
    let runner = make_test_runner(bin_true());
    let report = runner.run(Execution::Completed(suites.clone())).unwrap();
    assert_eq!(report.suites(), &suites);
    assert_eq!(
        report.summary(),
        Summary {
            total: 2,
            passed: 2,
            failed: 0
        }
    );
}

#[test]
fn conclude_names_each_cause() {
    assert_eq!(
        conclude(Execution::NotLaunched),
        Err(Error::Execution(Cause::NotLaunched))
    );
    assert_eq!(
        conclude(Execution::Crashed),
        Err(Error::Execution(Cause::Crashed))
    );
    assert_eq!(
        conclude(Execution::TimedOut),
        Err(Error::Execution(Cause::TimedOut))
    );
    assert_eq!(
        conclude(Execution::Unparseable),
        Err(Error::Execution(Cause::Unparseable))
    );
    assert_ne!(
        conclude(Execution::TimedOut),
        conclude(Execution::Crashed)
    );
}

#[test]
fn google_test_from_executable() {
    let executable = Executable::new("/bin/true".to_string());
    let runner = GoogleTest::from_executable(executable.clone());
    assert_eq!(runner.executable(), &executable);
    assert_eq!(
        runner.run(Execution::Completed(Vec::new())),
        Ok(Report::new())
    );
}

#[test]
fn request_needs_an_executable() {
    let executable = Executable::new("/bin/true".to_string());
    assert_eq!(
        TestRunnerInfo::new(TestRunnerType::GoogleTest, Some(executable.clone())),
        Ok(TestRunnerInfo {
            trt: TestRunnerType::GoogleTest,
            executable,
        })
    );
    assert_eq!(
        TestRunnerInfo::new(TestRunnerType::GoogleTest, None),
        Err(Error::Construction)
    );
}
