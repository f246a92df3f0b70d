//! The course of a run, as mathematics.
//!
//! A run is a state machine. Its state, a [`TestRunView`], holds the settings,
//! the names of the registered suites, the results gathered so far and the
//! [`PhaseView`] that says which action of the host is awaited.
//! [`TestRunView::handle`] is the transition: from a state and the outcome of
//! the awaited action to the next state and the events to report.
use crate::case::{any_only, TestInfoView};
use crate::config::ConfigView;
use crate::error::TestErrorView;
use crate::protocol::{ActionView, OutcomeView, ReportEventView};
use crate::result::{TestResultView, TestSuiteResultView};
use vstd::prelude::*;

verus! {

/// A suite that is being executed: its number among the registered suites
/// and what has been recorded for it so far.
pub struct ActiveSuiteView {
    pub suite: nat,
    pub result: TestSuiteResultView,
}

/// A suite that is executing its tests: the list it gave and the number of
/// the test that is being handled.
pub struct ActiveTestView {
    pub suite: ActiveSuiteView,
    pub tests: Seq<TestInfoView>,
    pub test: nat,
}

/// Which action of the host a run awaits.
pub enum PhaseView {
    /// The factory with the given number is creating its suite.
    Creating { suite: nat },
    /// `before_all` is running.
    BeforeAll(ActiveSuiteView),
    /// The suite is listing its tests.
    Listing(ActiveSuiteView),
    /// `before_each` is running for the current test.
    BeforeEach(ActiveTestView),
    /// The body of the current test is running.
    Running(ActiveTestView),
    /// `after_each` is running for the current test, whose body ended with
    /// the given failure or without one.
    AfterEach(ActiveTestView, Option<TestErrorView>),
    /// `after_all` is running.
    AfterAll(ActiveSuiteView),
    /// The run is over.
    Finished,
}

/// The state of a run.
pub struct TestRunView {
    pub config: ConfigView,
    /// The names of the registered suites, in the order of registration.
    pub suites: Seq<Seq<char>>,
    /// The results of the suites that have been dealt with, in that order.
    pub results: Seq<TestSuiteResultView>,
    pub phase: PhaseView,
}

/// A state together with the events that led to it.
pub type Transition = (TestRunView, Seq<ReportEventView>);

/// The number of the first suite, from number `from` on, that takes part in
/// the run; the number of suites if there is none.
pub open spec fn next_selected(config: ConfigView, suites: Seq<Seq<char>>, from: nat) -> nat
    decreases suites.len() - from,
{
    if from >= suites.len() {
        suites.len()
    } else if config.selects_suite(suites[from as int]) {
        from
    } else {
        next_selected(config, suites, from + 1)
    }
}

/// One event for each of the suites with numbers from `from` up to, but
/// without, `to`: that the suite is left out.
pub open spec fn ignored_suites(suites: Seq<Seq<char>>, from: nat, to: nat) -> Seq<
    ReportEventView,
> {
    Seq::new(
        (to - from) as nat,
        |k: int| ReportEventView::TestSuiteIgnored(suites[from + k]),
    )
}

/// The number of the first test, from number `from` on, that is not left out
/// of the run; the number of tests if there is none.
pub open spec fn next_runnable(config: ConfigView, tests: Seq<TestInfoView>, from: nat) -> nat
    decreases tests.len() - from,
{
    if from >= tests.len() {
        tests.len()
    } else if !config.skips_test(tests[from as int], any_only(tests)) {
        from
    } else {
        next_runnable(config, tests, from + 1)
    }
}

/// One result for each of the tests with numbers from `from` up to, but
/// without, `to`: that the test was skipped.
pub open spec fn skipped_results(tests: Seq<TestInfoView>, from: nat, to: nat) -> Seq<
    TestResultView,
> {
    Seq::new((to - from) as nat, |k: int| TestResultView::skipped(tests[from + k].name))
}

/// One event for each of the tests with numbers from `from` up to, but
/// without, `to`: that the test is left out.
pub open spec fn ignored_tests(tests: Seq<TestInfoView>, from: nat, to: nat) -> Seq<
    ReportEventView,
> {
    Seq::new((to - from) as nat, |k: int| ReportEventView::TestIgnored(tests[from + k].name))
}

/// Whether the tests recorded in `result` are, in order, the first of `tests`
/// under `config`: each record carries the name of its test, is marked as
/// ignored exactly if the run leaves the test out, and holds no failure if
/// it is.
pub open spec fn mirrors(
    config: ConfigView,
    tests: Seq<TestInfoView>,
    result: TestSuiteResultView,
) -> bool {
    &&& result.tests.len() <= tests.len()
    &&& forall|k: int|
        0 <= k < result.tests.len() ==> {
            let record = #[trigger] result.tests[k];
            &&& record.name == tests[k].name
            &&& record.ignored == config.skips_test(tests[k], any_only(tests))
            &&& record.ignored ==> record.passed()
        }
}

/// Whether `result` is what the tests of a suite can leave behind when all
/// of `tests` have been handled under `config`. The records mirror the
/// tests, and the suite carries no failure of its own. Unless the run fails
/// fast, there is a record for every test. If it does, no record but the last
/// holds a failure, and records are missing only behind a failure.
pub open spec fn handled(
    config: ConfigView,
    tests: Seq<TestInfoView>,
    result: TestSuiteResultView,
) -> bool {
    &&& mirrors(config, tests, result)
    &&& result.error is None
    &&& if config.fail_fast {
        &&& forall|k: int| 0 <= k < result.tests.len() - 1 ==> (#[trigger] result.tests[k]).passed()
        &&& result.tests.len() < tests.len() ==> result.tests.len() > 0
            && !result.tests.last().passed()
    } else {
        result.tests.len() == tests.len()
    }
}

impl ActiveSuiteView {
    /// The suite with `error` recorded as its own failure.
    pub open spec fn failed(self, error: TestErrorView) -> ActiveSuiteView {
        ActiveSuiteView { result: self.result.set_error(error), ..self }
    }
}

impl ActiveTestView {
    /// The name of the test that is being handled.
    pub open spec fn name(self) -> Seq<char> {
        self.tests[self.test as int].name
    }
}

impl TestRunView {
    /// Whether `active` is a sound record of a suite in execution: the suite
    /// is a registered one, its result carries its name, and the flag
    /// `passed` of its result says what the result holds.
    pub open spec fn suite_ok(self, active: ActiveSuiteView) -> bool {
        &&& active.suite < self.suites.len()
        &&& active.result.name == self.suites[active.suite as int]
        &&& active.result.wf()
    }

    /// Whether `active` is a sound record of a suite that has not listed its
    /// tests yet: nothing is recorded for it.
    pub open spec fn suite_fresh(self, active: ActiveSuiteView) -> bool {
        &&& active.suite < self.suites.len()
        &&& active.result == TestSuiteResultView::new(self.suites[active.suite as int])
    }

    /// Whether `active` is a sound record of a suite that is handling its
    /// tests from the one that `active` points at on: what is recorded
    /// mirrors the tests before that one, the suite carries no failure of its
    /// own, and in a run that fails fast no test has failed.
    pub open spec fn tests_ok(self, active: ActiveTestView) -> bool {
        &&& self.suite_ok(active.suite)
        &&& active.test <= active.tests.len()
        &&& active.suite.result.tests.len() == active.test
        &&& mirrors(self.config, active.tests, active.suite.result)
        &&& active.suite.result.error is None
        &&& self.config.fail_fast ==> active.suite.result.passed
    }

    /// Whether `active` is a sound record of a test in execution: it belongs
    /// to a sound suite, is one of the listed tests, and is not a test that
    /// the run leaves out.
    pub open spec fn test_ok(self, active: ActiveTestView) -> bool {
        &&& self.tests_ok(active)
        &&& active.test < active.tests.len()
        &&& !self.config.skips_test(active.tests[active.test as int], any_only(active.tests))
    }

    /// What holds of every state that a run reaches.
    pub open spec fn wf(self) -> bool {
        &&& forall|i: int| 0 <= i < self.results.len() ==> (#[trigger] self.results[i]).wf()
        &&& match self.phase {
            PhaseView::Creating { suite } => suite < self.suites.len(),
            PhaseView::BeforeAll(active) => self.suite_fresh(active),
            PhaseView::Listing(active) => self.suite_fresh(active),
            PhaseView::BeforeEach(active) => self.test_ok(active),
            PhaseView::Running(active) => self.test_ok(active),
            PhaseView::AfterEach(active, _) => self.test_ok(active),
            PhaseView::AfterAll(active) => self.suite_ok(active),
            PhaseView::Finished => true,
        }
    }

    /// The state of a run under `config` with the registered `suites` in
    /// which nothing has been filed and nothing is awaited.
    pub open spec fn new(config: ConfigView, suites: Seq<Seq<char>>) -> TestRunView {
        TestRunView { config, suites, results: Seq::empty(), phase: PhaseView::Finished }
    }

    /// What the host is to do in this state.
    pub open spec fn action(self) -> ActionView {
        match self.phase {
            PhaseView::Creating { suite } => ActionView::CreateSuite { suite },
            PhaseView::BeforeAll(_) => ActionView::BeforeAll,
            PhaseView::Listing(_) => ActionView::ListTests,
            PhaseView::BeforeEach(active) => ActionView::BeforeEach { test: active.test },
            PhaseView::Running(active) => ActionView::RunTest {
                test: active.test,
                timeout_ms: self.config.timeout(),
            },
            PhaseView::AfterEach(active, _) => ActionView::AfterEach { test: active.test },
            PhaseView::AfterAll(_) => ActionView::AfterAll,
            PhaseView::Finished => ActionView::Finish,
        }
    }

    /// Goes on with the registered suites from number `from`. The suites that
    /// the suite filter does not select are reported as ignored and leave no
    /// result. The first one that it selects is announced and is to be
    /// created. Without such a suite the run is over.
    pub open spec fn enter_suite(self, from: nat) -> Transition {
        let suite = next_selected(self.config, self.suites, from);
        let ignored = ignored_suites(self.suites, from, suite);
        if suite < self.suites.len() {
            (
                TestRunView { phase: PhaseView::Creating { suite }, ..self },
                ignored.push(ReportEventView::TestSuiteCreationStarted(self.suites[suite as int])),
            )
        } else {
            (TestRunView { phase: PhaseView::Finished, ..self }, ignored)
        }
    }

    /// Files the result of the suite with number `suite`. If the suite did
    /// not pass and the run is to fail fast, the run is over, and the suites
    /// after this one leave no trace. Otherwise the run goes on with the next
    /// suite.
    pub open spec fn leave_suite(self, suite: nat, result: TestSuiteResultView) -> Transition {
        let filed = TestRunView { results: self.results.push(result), ..self };
        if !result.passed && self.config.fail_fast {
            (TestRunView { phase: PhaseView::Finished, ..filed }, Seq::empty())
        } else {
            filed.enter_suite(suite + 1)
        }
    }

    /// Ends the execution of a suite: reports its result and files it.
    pub open spec fn end_suite(self, active: ActiveSuiteView) -> Transition {
        let (next, events) = self.leave_suite(active.suite, active.result);
        (
            next,
            seq![
                ReportEventView::TestSuiteEnd(self.suites[active.suite as int], active.result),
            ] + events,
        )
    }

    /// Goes on with the tests of a suite from the one that `active` points
    /// at. The tests that are left out are recorded as skipped and reported
    /// as ignored; no hook is called for them. The first test that is not
    /// left out is next: its `before_each` is to be called. Behind the last
    /// test comes `after_all`.
    pub open spec fn enter_test(self, active: ActiveTestView) -> Transition {
        let test = next_runnable(self.config, active.tests, active.test);
        let result = TestSuiteResultView {
            tests: active.suite.result.tests + skipped_results(active.tests, active.test, test),
            ..active.suite.result
        };
        let suite = ActiveSuiteView { result, ..active.suite };
        let events = ignored_tests(active.tests, active.test, test);
        if test < active.tests.len() {
            (
                TestRunView {
                    phase: PhaseView::BeforeEach(ActiveTestView { suite, test, ..active }),
                    ..self
                },
                events,
            )
        } else {
            (TestRunView { phase: PhaseView::AfterAll(suite), ..self }, events)
        }
    }

    /// Records the result of the test that `active` points at. If the test
    /// failed and the run is to fail fast, the tests after it are dropped:
    /// they leave no result, and `after_all` is next. Otherwise the suite
    /// goes on with the test that follows.
    pub open spec fn leave_test(self, active: ActiveTestView, result: TestResultView) -> Transition {
        let suite = ActiveSuiteView {
            result: active.suite.result.add_test_result(result),
            ..active.suite
        };
        if !result.passed() && self.config.fail_fast {
            (TestRunView { phase: PhaseView::AfterAll(suite), ..self }, Seq::empty())
        } else {
            self.enter_test(ActiveTestView { suite, test: active.test + 1, ..active })
        }
    }

    /// The transition of a run: what the state becomes, and which events are
    /// to be reported, when the host reports `outcome` for the action that
    /// the state awaits. An outcome that does not belong to the awaited
    /// action changes nothing.
    pub open spec fn handle(self, outcome: OutcomeView) -> Transition {
        match (self.phase, outcome) {
            (PhaseView::Creating { suite }, OutcomeView::SuiteCreated(Ok(()))) => {
                let name = self.suites[suite as int];
                let active = ActiveSuiteView { suite, result: TestSuiteResultView::new(name) };
                (
                    TestRunView { phase: PhaseView::BeforeAll(active), ..self },
                    seq![
                        ReportEventView::TestSuiteCreationFinished(name, None),
                        ReportEventView::TestSuiteStart(name),
                    ],
                )
            },
            (PhaseView::Creating { suite }, OutcomeView::SuiteCreated(Err(cause))) => {
                let name = self.suites[suite as int];
                let error = TestErrorView::CreateSuite(cause);
                let (next, events) = self.leave_suite(
                    suite,
                    TestSuiteResultView::new(name).set_error(error),
                );
                (next, seq![ReportEventView::TestSuiteCreationFinished(name, Some(error))] + events)
            },
            (PhaseView::BeforeAll(active), OutcomeView::HookFinished(Ok(()))) => (
                TestRunView { phase: PhaseView::Listing(active), ..self },
                Seq::empty(),
            ),
            (PhaseView::BeforeAll(active), OutcomeView::HookFinished(Err(cause))) => self.end_suite(
                active.failed(TestErrorView::BeforeAll(cause)),
            ),
            (PhaseView::Listing(active), OutcomeView::TestsListed(tests)) => self.enter_test(
                ActiveTestView { suite: active, tests, test: 0 },
            ),
            (PhaseView::BeforeEach(active), OutcomeView::HookFinished(Ok(()))) => (
                TestRunView { phase: PhaseView::Running(active), ..self },
                seq![ReportEventView::TestStart(active.name())],
            ),
            (PhaseView::BeforeEach(active), OutcomeView::HookFinished(Err(cause))) =>
                self.leave_test(
                active,
                TestResultView::finished(active.name(), Some(TestErrorView::BeforeEach(cause))),
            ),
            (PhaseView::Running(active), OutcomeView::TestFinished(outcome)) => {
                let failure = outcome.failure(active.name(), self.config.timeout());
                let ended = seq![ReportEventView::TestEnd(active.name(), failure)];
                if failure is Some && self.config.fail_fast {
                    let (next, events) = self.leave_test(
                        active,
                        TestResultView::finished(active.name(), failure),
                    );
                    (next, ended + events)
                } else {
                    (TestRunView { phase: PhaseView::AfterEach(active, failure), ..self }, ended)
                }
            },
            (PhaseView::AfterEach(active, failure), OutcomeView::HookFinished(status)) => {
                let error = match status {
                    Ok(()) => failure,
                    Err(cause) => Some(TestErrorView::AfterEach(cause)),
                };
                self.leave_test(active, TestResultView::finished(active.name(), error))
            },
            (PhaseView::AfterAll(active), OutcomeView::HookFinished(status)) => self.end_suite(
                match status {
                    Ok(()) => active,
                    Err(cause) => active.failed(TestErrorView::AfterAll(cause)),
                },
            ),
            _ => (self, Seq::empty()),
        }
    }
}

/// Where `next_selected` stops: at or behind `from`, at a suite that takes
/// part or behind the last one, with no such suite in between.
pub proof fn lemma_next_selected(config: ConfigView, suites: Seq<Seq<char>>, from: nat)
    requires
        from <= suites.len(),
    ensures
        from <= next_selected(config, suites, from) <= suites.len(),
        next_selected(config, suites, from) < suites.len() ==> config.selects_suite(
            suites[next_selected(config, suites, from) as int],
        ),
        forall|i: int|
            from <= i < next_selected(config, suites, from) ==> !config.selects_suite(
                #[trigger] suites[i],
            ),
    decreases suites.len() - from,
{
    if from < suites.len() && !config.selects_suite(suites[from as int]) {
        lemma_next_selected(config, suites, from + 1);
    }
}

/// Where `next_runnable` stops: at or behind `from`, at a test that is not
/// left out or behind the last one, with only left-out tests in between.
pub proof fn lemma_next_runnable(config: ConfigView, tests: Seq<TestInfoView>, from: nat)
    requires
        from <= tests.len(),
    ensures
        from <= next_runnable(config, tests, from) <= tests.len(),
        next_runnable(config, tests, from) < tests.len() ==> !config.skips_test(
            tests[next_runnable(config, tests, from) as int],
            any_only(tests),
        ),
        forall|i: int|
            from <= i < next_runnable(config, tests, from) ==> config.skips_test(
                #[trigger] tests[i],
                any_only(tests),
            ),
    decreases tests.len() - from,
{
    if from < tests.len() && config.skips_test(tests[from as int], any_only(tests)) {
        lemma_next_runnable(config, tests, from + 1);
    }
}

/// Skipped tests do not change whether a suite has a failed test.
pub proof fn lemma_skipped_results(
    result: TestSuiteResultView,
    tests: Seq<TestInfoView>,
    from: nat,
    to: nat,
)
    requires
        result.wf(),
        from <= to <= tests.len(),
    ensures
        (TestSuiteResultView {
            tests: result.tests + skipped_results(tests, from, to),
            ..result
        }).wf(),
{
    let extended = TestSuiteResultView {
        tests: result.tests + skipped_results(tests, from, to),
        ..result
    };
    if result.has_failed_test() {
        let i = choose|i: int| 0 <= i < result.tests.len() && !(#[trigger] result.tests[i]).passed();
        assert(!extended.tests[i].passed());
    }
    if extended.has_failed_test() {
        let i = choose|i: int|
            0 <= i < extended.tests.len() && !(#[trigger] extended.tests[i]).passed();
        if i < result.tests.len() {
            assert(!result.tests[i].passed());
        } else {
            assert(extended.tests[i] == skipped_results(tests, from, to)[i - result.tests.len()]);
        }
    }
}

/// In a sound record of a suite that has passed, every test has passed.
pub proof fn lemma_all_passed(result: TestSuiteResultView)
    requires
        result.wf(),
        result.passed,
    ensures
        forall|k: int| 0 <= k < result.tests.len() ==> (#[trigger] result.tests[k]).passed(),
{
    assert forall|k: int| 0 <= k < result.tests.len() implies (#[trigger] result.tests[k]).passed() by {
        if !result.tests[k].passed() {
            assert(result.has_failed_test());
        }
    }
}

impl TestRunView {
    /// Looking for the next suite leads from a sound state to a sound state.
    pub proof fn lemma_enter_suite(self, from: nat)
        requires
            forall|i: int| 0 <= i < self.results.len() ==> (#[trigger] self.results[i]).wf(),
            from <= self.suites.len(),
        ensures
            self.enter_suite(from).0.wf(),
    {
        lemma_next_selected(self.config, self.suites, from);
    }

    /// Filing the result of a suite leads from a sound state to a sound
    /// state.
    pub proof fn lemma_leave_suite(self, suite: nat, result: TestSuiteResultView)
        requires
            forall|i: int| 0 <= i < self.results.len() ==> (#[trigger] self.results[i]).wf(),
            suite < self.suites.len(),
            result.wf(),
        ensures
            self.leave_suite(suite, result).0.wf(),
    {
        let filed = TestRunView { results: self.results.push(result), ..self };
        assert forall|i: int| 0 <= i < filed.results.len() implies (#[trigger] filed.results[i]).wf() by {
            if i < self.results.len() {
                assert(filed.results[i] == self.results[i]);
            }
        }
        filed.lemma_enter_suite(suite + 1);
    }

    /// Looking for the next test leads from a sound state to a sound state;
    /// and if no test is left, all the tests have been handled.
    pub proof fn lemma_enter_test(self, active: ActiveTestView)
        requires
            forall|i: int| 0 <= i < self.results.len() ==> (#[trigger] self.results[i]).wf(),
            self.tests_ok(active),
        ensures
            self.enter_test(active).0.wf(),
            self.enter_test(active).0.phase matches PhaseView::AfterAll(done) ==> handled(
                self.config,
                active.tests,
                done.result,
            ),
    {
        lemma_next_runnable(self.config, active.tests, active.test);
        let test = next_runnable(self.config, active.tests, active.test);
        lemma_skipped_results(active.suite.result, active.tests, active.test, test);
        let before = active.suite.result;
        let after = TestSuiteResultView {
            tests: before.tests + skipped_results(active.tests, active.test, test),
            ..before
        };
        assert forall|k: int| 0 <= k < after.tests.len() implies {
            let record = #[trigger] after.tests[k];
            &&& record.name == active.tests[k].name
            &&& record.ignored == self.config.skips_test(active.tests[k], any_only(active.tests))
            &&& record.ignored ==> record.passed()
        } by {
            if k < before.tests.len() {
                assert(after.tests[k] == before.tests[k]);
            } else {
                assert(after.tests[k] == TestResultView::skipped(active.tests[k].name));
                assert(self.config.skips_test(active.tests[k], any_only(active.tests)));
            }
        }
        if self.config.fail_fast {
            lemma_all_passed(after);
        }
    }

    /// Recording the result of a test leads from a sound state to a sound
    /// state; and if the suite stops at this test, all its tests have been
    /// handled.
    pub proof fn lemma_leave_test(self, active: ActiveTestView, result: TestResultView)
        requires
            forall|i: int| 0 <= i < self.results.len() ==> (#[trigger] self.results[i]).wf(),
            self.test_ok(active),
            result.name == active.name(),
            !result.ignored,
        ensures
            self.leave_test(active, result).0.wf(),
            self.leave_test(active, result).0.phase matches PhaseView::AfterAll(done) ==> handled(
                self.config,
                active.tests,
                done.result,
            ),
    {
        TestSuiteResultView::lemma_add_test_result(active.suite.result, result);
        let before = active.suite.result;
        let after = before.add_test_result(result);
        let suite = ActiveSuiteView { result: after, ..active.suite };
        assert forall|k: int| 0 <= k < after.tests.len() implies {
            let record = #[trigger] after.tests[k];
            &&& record.name == active.tests[k].name
            &&& record.ignored == self.config.skips_test(active.tests[k], any_only(active.tests))
            &&& record.ignored ==> record.passed()
        } by {
            if k < before.tests.len() {
                assert(after.tests[k] == before.tests[k]);
            }
        }
        if self.config.fail_fast {
            lemma_all_passed(before);
            assert forall|k: int| 0 <= k < after.tests.len() - 1 implies (#[trigger] after.tests[k]).passed() by {
                assert(after.tests[k] == before.tests[k]);
            }
        }
        if !(!result.passed() && self.config.fail_fast) {
            self.lemma_enter_test(ActiveTestView { suite, test: active.test + 1, ..active });
        }
    }

    /// Every transition leads from a sound state to a sound state.
    pub proof fn lemma_handle(self, outcome: OutcomeView)
        requires
            self.wf(),
        ensures
            self.handle(outcome).0.wf(),
    {
        match (self.phase, outcome) {
            (PhaseView::Creating { suite }, OutcomeView::SuiteCreated(Err(cause))) => {
                let name = self.suites[suite as int];
                self.lemma_leave_suite(
                    suite,
                    TestSuiteResultView::new(name).set_error(TestErrorView::CreateSuite(cause)),
                );
            },
            (PhaseView::BeforeAll(active), OutcomeView::HookFinished(Err(cause))) => {
                let failed = active.failed(TestErrorView::BeforeAll(cause));
                self.lemma_leave_suite(failed.suite, failed.result);
            },
            (PhaseView::Listing(active), OutcomeView::TestsListed(tests)) => {
                self.lemma_enter_test(ActiveTestView { suite: active, tests, test: 0 });
            },
            (PhaseView::BeforeEach(active), OutcomeView::HookFinished(Err(cause))) => {
                self.lemma_leave_test(
                    active,
                    TestResultView::finished(active.name(), Some(TestErrorView::BeforeEach(cause))),
                );
            },
            (PhaseView::Running(active), OutcomeView::TestFinished(outcome)) => {
                let failure = outcome.failure(active.name(), self.config.timeout());
                self.lemma_leave_test(active, TestResultView::finished(active.name(), failure));
            },
            (PhaseView::AfterEach(active, failure), OutcomeView::HookFinished(status)) => {
                let error = match status {
                    Ok(()) => failure,
                    Err(cause) => Some(TestErrorView::AfterEach(cause)),
                };
                self.lemma_leave_test(active, TestResultView::finished(active.name(), error));
            },
            (PhaseView::AfterAll(active), OutcomeView::HookFinished(status)) => {
                let ended = match status {
                    Ok(()) => active,
                    Err(cause) => active.failed(TestErrorView::AfterAll(cause)),
                };
                self.lemma_leave_suite(ended.suite, ended.result);
            },
            _ => {},
        }
    }
}

} // verus!
