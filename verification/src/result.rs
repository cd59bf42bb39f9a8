use crate::report::Failure;
use vstd::prelude::*;

verus! {

/// Outcome of one test: passed, or failed with the detail of the failure.
/// There is no third state.
#[derive(Debug, Clone, PartialEq, Eq)]
pub enum TestResult {
    Pass,
    Fail(Failure),
}

impl TestResult {
    /// Whether the test passed.
    pub fn is_pass(&self) -> (passed: bool)
        ensures
            passed == (self is Pass),
    {
        match self {
            TestResult::Pass => true,
            TestResult::Fail(_) => false,
        }
    }
}

} // verus!
