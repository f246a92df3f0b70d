//! Orchestration of black-box end-to-end test runs.
//!
//! Tests are grouped into suites. A suite is built by a factory, may carry the
//! hooks `before_all`, `before_each`, `after_each` and `after_all`, and hands out
//! its tests as an ordered list. This crate holds everything a run decides:
//! which suites and tests are skipped, in which order hooks and tests are
//! invoked, how a failure, a timeout or a panic of one test is folded into the
//! report, when a run stops early, and what the live status view shows.
//!
//! The crate performs no I/O and awaits nothing. A [`TestRunner`] collects the
//! settings and the suites; the [`TestRun`] that it starts is a state machine,
//! which names the next [`Action`] for the host to perform and is handed the
//! [`Outcome`]. [`ConsoleReporter`] turns the [`ReportEvent`]s of a run into
//! [`Frame`]s for the host to draw.
//!
//! The module [`model`] holds the state machine as mathematics, and [`laws`]
//! holds what is proved of every run.
pub mod case;
pub mod config;
pub mod error;
pub mod filter;
pub mod laws;
pub mod model;
pub mod protocol;
pub mod reporter;
pub mod result;
pub mod runner;
pub mod text;

pub use case::{RunOutcome, TestInfo};
pub use config::TestRunnerConfiguration;
pub use error::TestError;
pub use filter::NameFilter;
pub use protocol::{Action, Outcome, ReportEvent, Step};
pub use reporter::console::{ConsoleReporter, Frame, TestStateMarker, TestSuiteStateMarker};
pub use reporter::Reporter;
pub use result::{TestResult, TestSuiteResult};
pub use runner::{TestRun, TestRunner};
