//! What a run and its host say to each other.
//!
//! A run never calls a factory, a hook or a test itself. It names the next
//! [`Action`]; the host performs it and reports the [`Outcome`]. With each
//! step the run hands out the [`ReportEvent`]s that the step gave rise to, in
//! the order in which a reporter is to receive them.
use crate::case::{infos_view, RunOutcome, RunOutcomeView, TestInfo, TestInfoView};
use crate::error::{error_view, TestError, TestErrorView};
use crate::result::{TestSuiteResult, TestSuiteResultView};
use vstd::prelude::*;

verus! {

/// What the host is to do next.
#[derive(Clone, Copy, Debug, PartialEq, Eq, Structural)]
pub enum Action {
    /// Create the suite of the factory that was registered as number `suite`,
    /// counting from zero. The suite that comes out of it is the one that the
    /// actions up to the next `CreateSuite` speak of.
    CreateSuite { suite: usize },
    /// Call `before_all` of the suite.
    BeforeAll,
    /// Ask the suite for its tests. The list that the host reports is the one
    /// that the numbers of the following actions refer to.
    ListTests,
    /// Call `before_each` of the suite, for the test with number `test`.
    BeforeEach { test: usize },
    /// Run the test with number `test`, guarded against panics and for at
    /// most `timeout_ms` milliseconds.
    RunTest { test: usize, timeout_ms: u64 },
    /// Call `after_each` of the suite, for the test with number `test`.
    AfterEach { test: usize },
    /// Call `after_all` of the suite, and drop the suite afterwards.
    AfterAll,
    /// Nothing: the run is over.
    Finish,
}

/// The mathematical value of an [`Action`].
pub enum ActionView {
    CreateSuite { suite: nat },
    BeforeAll,
    ListTests,
    BeforeEach { test: nat },
    RunTest { test: nat, timeout_ms: u64 },
    AfterEach { test: nat },
    AfterAll,
    Finish,
}

impl View for Action {
    type V = ActionView;

    open spec fn view(&self) -> ActionView {
        match *self {
            Action::CreateSuite { suite } => ActionView::CreateSuite { suite: suite as nat },
            Action::BeforeAll => ActionView::BeforeAll,
            Action::ListTests => ActionView::ListTests,
            Action::BeforeEach { test } => ActionView::BeforeEach { test: test as nat },
            Action::RunTest { test, timeout_ms } => ActionView::RunTest {
                test: test as nat,
                timeout_ms,
            },
            Action::AfterEach { test } => ActionView::AfterEach { test: test as nat },
            Action::AfterAll => ActionView::AfterAll,
            Action::Finish => ActionView::Finish,
        }
    }
}

/// What an action of the host produced.
#[derive(Debug, PartialEq, Eq)]
pub enum Outcome {
    /// The factory returned: a suite, or the cause of its failure.
    SuiteCreated(Result<(), String>),
    /// A hook returned: normally, or with the cause of its failure.
    HookFinished(Result<(), String>),
    /// The suite listed its tests.
    TestsListed(Vec<TestInfo>),
    /// The body of a test ended.
    TestFinished(RunOutcome),
}

/// The mathematical value of an [`Outcome`].
pub enum OutcomeView {
    SuiteCreated(Result<(), Seq<char>>),
    HookFinished(Result<(), Seq<char>>),
    TestsListed(Seq<TestInfoView>),
    TestFinished(RunOutcomeView),
}

/// The mathematical value of what a factory or a hook returned.
pub open spec fn status_view(status: Result<(), String>) -> Result<(), Seq<char>> {
    match status {
        Ok(()) => Ok(()),
        Err(cause) => Err(cause@),
    }
}

impl View for Outcome {
    type V = OutcomeView;

    open spec fn view(&self) -> OutcomeView {
        match *self {
            Outcome::SuiteCreated(status) => OutcomeView::SuiteCreated(status_view(status)),
            Outcome::HookFinished(status) => OutcomeView::HookFinished(status_view(status)),
            Outcome::TestsListed(tests) => OutcomeView::TestsListed(infos_view(tests@)),
            Outcome::TestFinished(outcome) => OutcomeView::TestFinished(outcome@),
        }
    }
}

/// Something that a reporter is told about. Every event carries the name of
/// the suite or test that it is about.
#[derive(Debug, PartialEq, Eq)]
pub enum ReportEvent {
    /// A factory is about to be asked for its suite.
    TestSuiteCreationStarted(String),
    /// The factory returned; the second field is the failure, if it failed.
    TestSuiteCreationFinished(String, Option<TestError>),
    /// The suite is left out of the run.
    TestSuiteIgnored(String),
    /// The suite starts to execute.
    TestSuiteStart(String),
    /// The suite has been executed, with the given result.
    TestSuiteEnd(String, TestSuiteResult),
    /// The body of a test is about to run.
    TestStart(String),
    /// The test is left out of the run.
    TestIgnored(String),
    /// The body of a test ended; the second field is the failure, if it
    /// failed.
    TestEnd(String, Option<TestError>),
}

/// The mathematical value of a [`ReportEvent`].
pub enum ReportEventView {
    TestSuiteCreationStarted(Seq<char>),
    TestSuiteCreationFinished(Seq<char>, Option<TestErrorView>),
    TestSuiteIgnored(Seq<char>),
    TestSuiteStart(Seq<char>),
    TestSuiteEnd(Seq<char>, TestSuiteResultView),
    TestStart(Seq<char>),
    TestIgnored(Seq<char>),
    TestEnd(Seq<char>, Option<TestErrorView>),
}

impl View for ReportEvent {
    type V = ReportEventView;

    open spec fn view(&self) -> ReportEventView {
        match *self {
            ReportEvent::TestSuiteCreationStarted(name) => ReportEventView::TestSuiteCreationStarted(
                name@,
            ),
            ReportEvent::TestSuiteCreationFinished(name, error) =>
                ReportEventView::TestSuiteCreationFinished(name@, error_view(error)),
            ReportEvent::TestSuiteIgnored(name) => ReportEventView::TestSuiteIgnored(name@),
            ReportEvent::TestSuiteStart(name) => ReportEventView::TestSuiteStart(name@),
            ReportEvent::TestSuiteEnd(name, result) => ReportEventView::TestSuiteEnd(name@, result@),
            ReportEvent::TestStart(name) => ReportEventView::TestStart(name@),
            ReportEvent::TestIgnored(name) => ReportEventView::TestIgnored(name@),
            ReportEvent::TestEnd(name, error) => ReportEventView::TestEnd(name@, error_view(error)),
        }
    }
}

/// The mathematical values of a list of events, in order.
pub open spec fn events_view(events: Seq<ReportEvent>) -> Seq<ReportEventView> {
    Seq::new(events.len(), |i: int| events[i]@)
}

/// What one step of a run hands to its host.
#[derive(Debug, PartialEq, Eq)]
pub struct Step {
    /// What a reporter is to be told, in this order, before the action is
    /// performed.
    pub events: Vec<ReportEvent>,
    /// What the host is to do next.
    pub action: Action,
}

} // verus!
