//! The report of a run: one record per test and one per suite.
use crate::error::{clone_error, error_view, TestError, TestErrorView};
use vstd::prelude::*;

verus! {

/// What became of one test.
#[derive(Debug, PartialEq, Eq)]
#[non_exhaustive]
pub struct TestResult {
    /// The name of the test.
    pub name: String,
    /// Whether the test was skipped.
    pub ignored: bool,
    /// Why the test failed, if it did.
    pub error: Option<TestError>,
}

/// The mathematical value of a [`TestResult`].
pub struct TestResultView {
    pub name: Seq<char>,
    pub ignored: bool,
    pub error: Option<TestErrorView>,
}

impl TestResultView {
    /// The result of a test that has run without failure so far.
    pub open spec fn new(name: Seq<char>) -> TestResultView {
        TestResultView { name, ignored: false, error: None }
    }

    /// The result of a skipped test.
    pub open spec fn skipped(name: Seq<char>) -> TestResultView {
        TestResultView { name, ignored: true, error: None }
    }

    /// The result of a test that ended with `error`, or passed if there is
    /// none.
    pub open spec fn finished(name: Seq<char>, error: Option<TestErrorView>) -> TestResultView {
        TestResultView { name, ignored: false, error }
    }

    /// A test has passed if and only if it carries no failure.
    pub open spec fn passed(self) -> bool {
        self.error is None
    }
}

impl View for TestResult {
    type V = TestResultView;

    open spec fn view(&self) -> TestResultView {
        TestResultView { name: self.name@, ignored: self.ignored, error: error_view(self.error) }
    }
}

impl TestResult {
    /// The result of a test that has neither been skipped nor failed.
    pub fn new(name: String) -> (result: Self)
        ensures
            result@ == TestResultView::new(name@),
    {
        Self { name, ignored: false, error: None }
    }

    /// Whether the test passed: it has no failure recorded.
    pub fn passed(&self) -> (passed: bool)
        ensures
            passed == self@.passed(),
    {
        self.error.is_none()
    }

    /// Marks the test as skipped, or not.
    pub fn set_ignored(&mut self, ignored: bool)
        ensures
            final(self)@ == (TestResultView { ignored, ..old(self)@ }),
    {
        self.ignored = ignored;
    }

    /// Records a failure. An earlier failure is replaced.
    pub fn set_error(&mut self, error: TestError)
        ensures
            final(self)@ == (TestResultView { error: Some(error@), ..old(self)@ }),
    {
        self.error = Some(error);
    }
}

impl Default for TestResult {
    fn default() -> (result: Self)
        ensures
            result@ == TestResultView::new(Seq::empty()),
    {
        Self { name: String::new(), ignored: false, error: None }
    }
}

impl Clone for TestResult {
    fn clone(&self) -> (copy: Self)
        ensures
            copy@ == self@,
    {
        Self { name: self.name.clone(), ignored: self.ignored, error: clone_error(&self.error) }
    }
}

/// The mathematical values of a list of test results, in order.
pub open spec fn results_view(results: Seq<TestResult>) -> Seq<TestResultView> {
    Seq::new(results.len(), |i: int| results[i]@)
}

/// What became of one suite.
#[derive(Debug, PartialEq, Eq)]
#[non_exhaustive]
pub struct TestSuiteResult {
    /// The name of the suite.
    pub name: String,
    /// Whether the suite passed as a whole.
    pub passed: bool,
    /// The results of its tests, in the order in which they were handled.
    pub tests: Vec<TestResult>,
    /// The failure of the suite itself: of its creation or of one of the
    /// hooks `before_all` and `after_all`.
    pub error: Option<TestError>,
}

/// The mathematical value of a [`TestSuiteResult`].
pub struct TestSuiteResultView {
    pub name: Seq<char>,
    pub passed: bool,
    pub tests: Seq<TestResultView>,
    pub error: Option<TestErrorView>,
}

impl TestSuiteResultView {
    /// The result of a suite for which nothing has been recorded yet.
    pub open spec fn new(name: Seq<char>) -> TestSuiteResultView {
        TestSuiteResultView { name, passed: true, tests: Seq::empty(), error: None }
    }

    /// The result after the result of one more test was added.
    pub open spec fn add_test_result(self, result: TestResultView) -> TestSuiteResultView {
        TestSuiteResultView {
            passed: self.passed && result.passed(),
            tests: self.tests.push(result),
            ..self
        }
    }

    /// The result after a failure of the suite itself was recorded.
    pub open spec fn set_error(self, error: TestErrorView) -> TestSuiteResultView {
        TestSuiteResultView { passed: false, error: Some(error), ..self }
    }

    /// Whether at least one of the tests failed.
    pub open spec fn has_failed_test(self) -> bool {
        exists|i: int| 0 <= i < self.tests.len() && !(#[trigger] self.tests[i]).passed()
    }

    /// The flag `passed` says what the record holds: the suite has not passed
    /// if and only if it carries a failure of its own or one of its tests
    /// failed.
    pub open spec fn wf(self) -> bool {
        !self.passed <==> (self.error is Some || self.has_failed_test())
    }
}

impl View for TestSuiteResult {
    type V = TestSuiteResultView;

    open spec fn view(&self) -> TestSuiteResultView {
        TestSuiteResultView {
            name: self.name@,
            passed: self.passed,
            tests: results_view(self.tests@),
            error: error_view(self.error),
        }
    }
}

impl TestSuiteResult {
    /// The result of a suite for which nothing has been recorded yet: it has
    /// passed.
    pub fn new(name: String) -> (result: Self)
        ensures
            result@ == TestSuiteResultView::new(name@),
            result@.wf(),
    {
        let result = Self { name, passed: true, tests: Vec::new(), error: None };
        assert(result@.tests =~= Seq::empty());
        result
    }

    /// Adds the result of one more test. A failed test makes the suite fail;
    /// no test makes a failed suite pass again.
    pub fn add_test_result(&mut self, result: TestResult)
        ensures
            final(self)@ == old(self)@.add_test_result(result@),
            old(self)@.wf() ==> final(self)@.wf(),
            !old(self).passed ==> !final(self).passed,
    {
        if !result.passed() {
            self.passed = false;
        }
        self.tests.push(result);
        proof {
            assert(final(self)@.tests =~= old(self)@.tests.push(result@));
            if old(self)@.wf() {
                TestSuiteResultView::lemma_add_test_result(old(self)@, result@);
            }
        }
    }

    /// Records a failure of the suite itself, in place of an earlier one. The
    /// suite has then failed; the results of its tests stay as they are.
    pub fn set_error(&mut self, error: TestError)
        ensures
            final(self)@ == old(self)@.set_error(error@),
            final(self)@.wf(),
            !final(self).passed,
    {
        self.error = Some(error);
        self.passed = false;
    }
}

impl Clone for TestSuiteResult {
    fn clone(&self) -> (copy: Self)
        ensures
            copy@ == self@,
    {
        let mut tests: Vec<TestResult> = Vec::new();
        let mut i: usize = 0;
        while i < self.tests.len()
            invariant
                i <= self.tests.len(),
                results_view(tests@) =~= results_view(self.tests@).take(i as int),
            decreases self.tests.len() - i,
        {
            let ghost before = results_view(tests@);
            tests.push(self.tests[i].clone());
            assert(results_view(tests@) =~= before.push(self.tests@[i as int]@));
            i = i + 1;
        }
        assert(results_view(self.tests@).take(i as int) == results_view(self.tests@));
        Self {
            name: self.name.clone(),
            passed: self.passed,
            tests,
            error: clone_error(&self.error),
        }
    }
}

impl TestSuiteResultView {
    /// Adding a test result keeps a record well formed.
    pub proof fn lemma_add_test_result(record: TestSuiteResultView, result: TestResultView)
        requires
            record.wf(),
        ensures
            record.add_test_result(result).wf(),
    {
        let after = record.add_test_result(result);
        if record.has_failed_test() {
            let i = choose|i: int| 0 <= i < record.tests.len() && !(#[trigger] record.tests[i]).passed();
            assert(!after.tests[i].passed());
        }
        if !result.passed() {
            assert(!after.tests[record.tests.len() as int].passed());
        }
        if after.has_failed_test() {
            let i = choose|i: int| 0 <= i < after.tests.len() && !(#[trigger] after.tests[i]).passed();
            if i < record.tests.len() {
                assert(!record.tests[i].passed());
            }
        }
    }
}

} // verus!
