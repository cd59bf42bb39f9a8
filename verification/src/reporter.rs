use crate::result::TestResult;
use vstd::prelude::*;

verus! {

/// Something that surfaces a test's result. A reporter decides what is
/// shown; showing it is left to the caller, so that reporting cannot fail a
/// run. It takes both kinds of result, and what it gives for a failed test
/// carries its failure signal, what it gives for a passed one does not.
pub trait Reporter {
    /// Whether `line` carries this reporter's failure signal.
    spec fn signals_failure(&self, line: Seq<char>) -> bool;

    /// The line to show for `result`.
    fn report(&self, result: TestResult) -> (line: String)
        ensures
            self.signals_failure(line@) <==> result is Fail,
    ;
}

/// The reporter that tells passing from failing and nothing more.
#[derive(Debug, Copy, Clone, PartialEq, Eq, Structural)]
pub struct SimpleReporter;

impl SimpleReporter {
    pub fn new() -> (reporter: Self)
        ensures
            reporter == SimpleReporter,
    {
        SimpleReporter {  }
    }
}

impl Reporter for SimpleReporter {
    open spec fn signals_failure(&self, line: Seq<char>) -> bool {
        line == "FAIL"@
    }

    /// `FAIL` for a failed test, whatever the detail of the failure, and
    /// `PASS` for a passed one.
    fn report(&self, result: TestResult) -> (line: String)
        ensures
            line@ == (if result is Fail {
                "FAIL"@
            } else {
                "PASS"@
            }),
    {
        proof {
            reveal_strlit("FAIL");
            reveal_strlit("PASS");
            assert("FAIL"@[0] != "PASS"@[0]);
        }
        if let TestResult::Fail(_) = result {
            "FAIL".to_owned()
        } else {
            "PASS".to_owned()
        }
    }
}

} // verus!
