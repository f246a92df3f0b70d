//! What a suite tells about its tests, and what running a test can give.
use crate::error::{error_view, TestError, TestErrorView};
use vstd::prelude::*;

verus! {

/// One test as its suite lists it: its name and its marks.
#[derive(Debug, PartialEq, Eq)]
pub struct TestInfo {
    /// The name of the test.
    pub name: String,
    /// The test is left out unless the run asks for ignored tests.
    pub ignore: bool,
    /// Only the tests with this mark run, if the suite has any.
    pub only: bool,
}

/// The mathematical value of a [`TestInfo`].
pub struct TestInfoView {
    pub name: Seq<char>,
    pub ignore: bool,
    pub only: bool,
}

impl View for TestInfo {
    type V = TestInfoView;

    open spec fn view(&self) -> TestInfoView {
        TestInfoView { name: self.name@, ignore: self.ignore, only: self.only }
    }
}

impl TestInfo {
    /// A test without marks.
    pub fn new(name: String) -> (info: Self)
        ensures
            info@ == (TestInfoView { name: name@, ignore: false, only: false }),
    {
        Self { name, ignore: false, only: false }
    }

    /// Sets or clears the mark `ignore`.
    pub fn with_ignore(self, ignore: bool) -> (info: Self)
        ensures
            info@ == (TestInfoView { ignore, ..self@ }),
    {
        Self { ignore, ..self }
    }

    /// Sets or clears the mark `only`.
    pub fn with_only(self, only: bool) -> (info: Self)
        ensures
            info@ == (TestInfoView { only, ..self@ }),
    {
        Self { only, ..self }
    }
}

/// The mathematical values of a list of tests, in order.
pub open spec fn infos_view(tests: Seq<TestInfo>) -> Seq<TestInfoView> {
    Seq::new(tests.len(), |i: int| tests[i]@)
}

/// Whether one of `tests` is marked `only`.
pub open spec fn any_only(tests: Seq<TestInfoView>) -> bool {
    exists|i: int| 0 <= i < tests.len() && (#[trigger] tests[i]).only
}

/// Whether one of `tests` is marked `only`.
pub fn has_only(tests: &Vec<TestInfo>) -> (found: bool)
    ensures
        found == any_only(infos_view(tests@)),
{
    let mut i: usize = 0;
    while i < tests.len()
        invariant
            i <= tests.len(),
            forall|j: int| 0 <= j < i ==> !(#[trigger] infos_view(tests@)[j]).only,
        decreases tests.len() - i,
    {
        if tests[i].only {
            assert(infos_view(tests@)[i as int].only);
            return true;
        }
        i = i + 1;
    }
    false
}

/// How the body of a test ended, as the host saw it.
#[derive(Debug, PartialEq, Eq)]
pub enum RunOutcome {
    /// The test returned without an error.
    Passed,
    /// The test returned an error, given as text.
    Failed(String),
    /// The test had not returned when the timeout was over. The host lets go
    /// of the call; whatever the call may still produce is dropped and never
    /// reaches the run.
    TimedOut,
    /// The test panicked; the field is the panic message, where one could be
    /// recovered.
    Panicked(Option<String>),
}

/// The mathematical value of a [`RunOutcome`].
pub enum RunOutcomeView {
    Passed,
    Failed(Seq<char>),
    TimedOut,
    Panicked(Option<Seq<char>>),
}

impl View for RunOutcome {
    type V = RunOutcomeView;

    open spec fn view(&self) -> RunOutcomeView {
        match *self {
            RunOutcome::Passed => RunOutcomeView::Passed,
            RunOutcome::Failed(cause) => RunOutcomeView::Failed(cause@),
            RunOutcome::TimedOut => RunOutcomeView::TimedOut,
            RunOutcome::Panicked(Some(text)) => RunOutcomeView::Panicked(Some(text@)),
            RunOutcome::Panicked(None) => RunOutcomeView::Panicked(None),
        }
    }
}

impl RunOutcomeView {
    /// The failure that the outcome stands for, if it is one, for the test
    /// called `name` that ran under a timeout of `timeout_ms` milliseconds.
    pub open spec fn failure(self, name: Seq<char>, timeout_ms: u64) -> Option<TestErrorView> {
        match self {
            RunOutcomeView::Passed => None,
            RunOutcomeView::Failed(cause) => Some(TestErrorView::Test(name, cause)),
            RunOutcomeView::TimedOut => Some(TestErrorView::Timeout(timeout_ms)),
            RunOutcomeView::Panicked(text) => Some(TestErrorView::AbnormalTermination(text)),
        }
    }
}

impl RunOutcome {
    /// Turns the outcome of a test body into the failure to report, if any.
    /// A timeout names the configured duration; a panic keeps its message.
    pub fn into_failure(self, name: &str, timeout_ms: u64) -> (failure: Option<TestError>)
        ensures
            error_view(failure) == self@.failure(name@, timeout_ms),
    {
        match self {
            RunOutcome::Passed => None,
            RunOutcome::Failed(cause) => Some(TestError::Test(name.to_owned(), cause)),
            RunOutcome::TimedOut => Some(TestError::Timeout(timeout_ms)),
            RunOutcome::Panicked(Some(text)) => Some(TestError::AbnormalTermination(Some(text))),
            RunOutcome::Panicked(None) => Some(TestError::AbnormalTermination(None)),
        }
    }
}

} // verus!
