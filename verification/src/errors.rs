use vstd::prelude::*;

verus! {

/// Why an execution gave no report.
#[derive(Debug, Copy, Clone, PartialEq, Eq, Structural)]
pub enum Cause {
    /// The backend could not be launched.
    NotLaunched,
    /// The backend ended abnormally.
    Crashed,
    /// The backend ran longer than it was allowed to.
    TimedOut,
    /// The backend ran to its end, but what it printed is no report.
    Unparseable,
}

/// A failure of the system itself. That a test failed is no error: it is
/// recorded in the report.
#[derive(Debug, Copy, Clone, PartialEq, Eq, Structural)]
pub enum Error {
    /// No language was given and none could be derived from the source.
    Identification,
    /// A runner was selected, but configuration that it needs is missing or
    /// cannot be used.
    Construction,
    /// The backend did not run to a report.
    Execution(Cause),
}

} // verus!
