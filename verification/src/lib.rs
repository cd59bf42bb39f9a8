//! Core of a language-agnostic test orchestrator: language identification,
//! the uniform result model, and the contracts that runners and reporters
//! meet.

pub mod actions;
pub mod errors;
mod exec;
pub mod lang;
pub mod report;
mod reporter;
mod result;
pub mod test_runners;
pub mod text;

pub use actions::Action;
pub use actions::Source;
pub use actions::TestDataIn;
pub use actions::TestDataOut;
pub use errors::Error;
pub use exec::Executable;
pub use lang::Language;
pub use report::Failure;
pub use report::Report;
pub use report::TestCase;
pub use report::TestSuite;
pub use reporter::Reporter;
pub use reporter::SimpleReporter;
pub use result::TestResult;
