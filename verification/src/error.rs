//! The failures a run can report.
use crate::text::{duration_text, format_duration};
use vstd::prelude::*;
use vstd::string::*;

verus! {

/// Why a suite or a test did not pass. No failure ends the run by itself: each
/// one is recorded in the result of the suite or test it belongs to.
///
/// The variants that come from a hook, a factory or a test body carry the
/// cause as text, in the form in which the failed call reported it.
#[derive(Debug, PartialEq, Eq)]
pub enum TestError {
    /// The factory could not create the suite.
    CreateSuite(String),
    /// `before_all` failed.
    BeforeAll(String),
    /// `before_each` failed.
    BeforeEach(String),
    /// `after_each` failed.
    AfterEach(String),
    /// `after_all` failed.
    AfterAll(String),
    /// The test with the given name returned an error; the second field is
    /// the cause.
    Test(String, String),
    /// The test did not finish within the timeout, given in milliseconds.
    Timeout(u64),
    /// The test panicked; the field is the panic message, where one could be
    /// recovered.
    AbnormalTermination(Option<String>),
}

/// The mathematical value of a [`TestError`].
pub enum TestErrorView {
    CreateSuite(Seq<char>),
    BeforeAll(Seq<char>),
    BeforeEach(Seq<char>),
    AfterEach(Seq<char>),
    AfterAll(Seq<char>),
    Test(Seq<char>, Seq<char>),
    Timeout(u64),
    AbnormalTermination(Option<Seq<char>>),
}

impl TestErrorView {
    /// The text that describes the failure to a reader.
    pub open spec fn message(self) -> Seq<char> {
        match self {
            TestErrorView::CreateSuite(cause) => "Failed to create test suite: "@ + cause,
            TestErrorView::BeforeAll(cause) => "Failed to run 'before_all' for the test suite: "@
                + cause,
            TestErrorView::BeforeEach(cause) => "Failed to run 'before_each' the test suite: "@
                + cause,
            TestErrorView::AfterEach(cause) => "Failed to run 'after_each' the test: "@ + cause,
            TestErrorView::AfterAll(cause) => "Failed to run 'after_all' the test: "@ + cause,
            TestErrorView::Test(_, cause) => "Test failed: "@ + cause,
            TestErrorView::Timeout(millis) => "Test failed: Test timed out after "@
                + duration_text(millis),
            TestErrorView::AbnormalTermination(Some(text)) =>
                "Test failed: test terminated abnormally with message: "@ + text,
            TestErrorView::AbnormalTermination(None) => "Test failed: test terminated abnormally"@,
        }
    }
}

impl View for TestError {
    type V = TestErrorView;

    open spec fn view(&self) -> TestErrorView {
        match *self {
            TestError::CreateSuite(cause) => TestErrorView::CreateSuite(cause@),
            TestError::BeforeAll(cause) => TestErrorView::BeforeAll(cause@),
            TestError::BeforeEach(cause) => TestErrorView::BeforeEach(cause@),
            TestError::AfterEach(cause) => TestErrorView::AfterEach(cause@),
            TestError::AfterAll(cause) => TestErrorView::AfterAll(cause@),
            TestError::Test(name, cause) => TestErrorView::Test(name@, cause@),
            TestError::Timeout(millis) => TestErrorView::Timeout(millis),
            TestError::AbnormalTermination(Some(text)) => TestErrorView::AbnormalTermination(
                Some(text@),
            ),
            TestError::AbnormalTermination(None) => TestErrorView::AbnormalTermination(None),
        }
    }
}

/// The mathematical value of an optional failure.
pub open spec fn error_view(error: Option<TestError>) -> Option<TestErrorView> {
    match error {
        Some(e) => Some(e@),
        None => None,
    }
}

fn join(prefix: &str, rest: &str) -> (text: String)
    ensures
        text@ == prefix@ + rest@,
{
    let mut text = prefix.to_owned();
    text.append(rest);
    text
}

impl TestError {
    /// The text that describes the failure to a reader.
    pub fn message(&self) -> (text: String)
        ensures
            text@ == self@.message(),
    {
        match self {
            TestError::CreateSuite(cause) => join("Failed to create test suite: ", cause.as_str()),
            TestError::BeforeAll(cause) => join(
                "Failed to run 'before_all' for the test suite: ",
                cause.as_str(),
            ),
            TestError::BeforeEach(cause) => join(
                "Failed to run 'before_each' the test suite: ",
                cause.as_str(),
            ),
            TestError::AfterEach(cause) => join(
                "Failed to run 'after_each' the test: ",
                cause.as_str(),
            ),
            TestError::AfterAll(cause) => join(
                "Failed to run 'after_all' the test: ",
                cause.as_str(),
            ),
            TestError::Test(_, cause) => join("Test failed: ", cause.as_str()),
            TestError::Timeout(millis) => {
                let span = format_duration(*millis);
                join("Test failed: Test timed out after ", span.as_str())
            },
            TestError::AbnormalTermination(Some(text)) => join(
                "Test failed: test terminated abnormally with message: ",
                text.as_str(),
            ),
            TestError::AbnormalTermination(None) => "Test failed: test terminated abnormally"
                .to_owned(),
        }
    }
}

impl Clone for TestError {
    fn clone(&self) -> (copy: Self)
        ensures
            copy@ == self@,
    {
        match self {
            TestError::CreateSuite(cause) => TestError::CreateSuite(cause.clone()),
            TestError::BeforeAll(cause) => TestError::BeforeAll(cause.clone()),
            TestError::BeforeEach(cause) => TestError::BeforeEach(cause.clone()),
            TestError::AfterEach(cause) => TestError::AfterEach(cause.clone()),
            TestError::AfterAll(cause) => TestError::AfterAll(cause.clone()),
            TestError::Test(name, cause) => TestError::Test(name.clone(), cause.clone()),
            TestError::Timeout(millis) => TestError::Timeout(*millis),
            TestError::AbnormalTermination(Some(text)) => TestError::AbnormalTermination(
                Some(text.clone()),
            ),
            TestError::AbnormalTermination(None) => TestError::AbnormalTermination(None),
        }
    }
}

/// A copy of an optional failure.
pub fn clone_error(error: &Option<TestError>) -> (copy: Option<TestError>)
    ensures
        error_view(copy) == error_view(*error),
{
    match error {
        Some(e) => Some(e.clone()),
        None => None,
    }
}

} // verus!
