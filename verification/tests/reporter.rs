use provola::{Failure, Reporter, SimpleReporter, TestResult};

#[test]
fn simple_reporter_passes() {
    let reporter = SimpleReporter::new();
    assert_eq!(reporter.report(TestResult::Pass), "PASS");
}

#[test]
fn simple_reporter_fails_whatever_the_failure() {
    let reporter = SimpleReporter::new();
    let minimal = Failure {
        message: String::new(),
        location: None,
    };
    assert_eq!(reporter.report(TestResult::Fail(minimal)), "FAIL");
    let detailed = Failure {
        message: "PASS".to_string(),
        location: Some("suite.cc:12".to_string()),
    };
    assert_eq!(reporter.report(TestResult::Fail(detailed)), "FAIL");
}

#[test]
fn reporters_each_take_their_own_copy() {
    let result = TestResult::Fail(Failure {
        message: "m".to_string(),
        location: None,
    });
    let first = SimpleReporter::new();
    let second = SimpleReporter::new();
    assert_eq!(first.report(result.clone()), second.report(result));
}
