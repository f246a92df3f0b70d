//! The runner: registration of suites, and the run as a state machine.
use crate::case::{any_only, has_only, infos_view, TestInfo};
use crate::config::{ConfigView, TestRunnerConfiguration};
use crate::error::{clone_error, error_view, TestError};
use crate::model::{
    ignored_suites, ignored_tests, next_runnable, next_selected, skipped_results, ActiveSuiteView,
    ActiveTestView, PhaseView, TestRunView, Transition,
};
use crate::protocol::{events_view, Action, Outcome, ReportEvent, ReportEventView, Step};
use crate::result::{TestResult, TestSuiteResult, TestSuiteResultView};
use crate::text::texts_view;
use vstd::prelude::*;

verus! {

/// The mathematical values of a list of suite results, in order.
pub open spec fn suite_results_view(results: Seq<TestSuiteResult>) -> Seq<TestSuiteResultView> {
    Seq::new(results.len(), |i: int| results[i]@)
}

/// Collects what a run is made of: its settings and its suites. A suite is
/// registered by the name of its factory; the host keeps the factories
/// themselves, in the same order.
#[derive(Debug)]
pub struct TestRunner {
    runner_config: TestRunnerConfiguration,
    test_suites: Vec<String>,
}

/// The mathematical value of a [`TestRunner`].
pub struct TestRunnerView {
    pub config: ConfigView,
    /// The names of the registered suites, in the order of registration.
    pub suites: Seq<Seq<char>>,
}

impl TestRunnerView {
    /// The state in which a run of this runner starts, and the events of its
    /// start: the run looks for the first suite that takes part.
    pub open spec fn run(self) -> Transition {
        TestRunView::new(self.config, self.suites).enter_suite(0)
    }
}

impl View for TestRunner {
    type V = TestRunnerView;

    closed spec fn view(&self) -> TestRunnerView {
        TestRunnerView { config: self.runner_config@, suites: texts_view(self.test_suites@) }
    }
}

#[derive(Debug)]
struct ActiveSuite {
    suite: usize,
    result: TestSuiteResult,
}

#[derive(Debug)]
struct ActiveTest {
    suite: ActiveSuite,
    tests: Vec<TestInfo>,
    // Whether one of `tests` is marked `only`; computed once per suite.
    has_only: bool,
    test: usize,
}

#[derive(Debug)]
enum Phase {
    Creating { suite: usize },
    BeforeAll(ActiveSuite),
    Listing(ActiveSuite),
    BeforeEach(ActiveTest),
    Running(ActiveTest),
    AfterEach(ActiveTest, Option<TestError>),
    AfterAll(ActiveSuite),
    Finished,
}

impl View for ActiveSuite {
    type V = ActiveSuiteView;

    closed spec fn view(&self) -> ActiveSuiteView {
        ActiveSuiteView { suite: self.suite as nat, result: self.result@ }
    }
}

impl View for ActiveTest {
    type V = ActiveTestView;

    closed spec fn view(&self) -> ActiveTestView {
        ActiveTestView {
            suite: self.suite@,
            tests: infos_view(self.tests@),
            test: self.test as nat,
        }
    }
}

impl ActiveTest {
    spec fn cached(&self) -> bool {
        self.has_only == any_only(infos_view(self.tests@))
    }
}

impl View for Phase {
    type V = PhaseView;

    closed spec fn view(&self) -> PhaseView {
        match *self {
            Phase::Creating { suite } => PhaseView::Creating { suite: suite as nat },
            Phase::BeforeAll(active) => PhaseView::BeforeAll(active@),
            Phase::Listing(active) => PhaseView::Listing(active@),
            Phase::BeforeEach(active) => PhaseView::BeforeEach(active@),
            Phase::Running(active) => PhaseView::Running(active@),
            Phase::AfterEach(active, failure) => PhaseView::AfterEach(active@, error_view(failure)),
            Phase::AfterAll(active) => PhaseView::AfterAll(active@),
            Phase::Finished => PhaseView::Finished,
        }
    }
}

impl Phase {
    spec fn cached(&self) -> bool {
        match *self {
            Phase::BeforeEach(active) => active.cached(),
            Phase::Running(active) => active.cached(),
            Phase::AfterEach(active, _) => active.cached(),
            _ => true,
        }
    }
}

/// A run in progress. It is made by [`TestRunner::run`] and driven by
/// [`TestRun::handle`]: the host performs the action that the run names and
/// hands over what came of it, until the action is [`Action::Finish`].
#[derive(Debug)]
pub struct TestRun {
    config: TestRunnerConfiguration,
    suites: Vec<String>,
    results: Vec<TestSuiteResult>,
    phase: Phase,
}

impl View for TestRun {
    type V = TestRunView;

    closed spec fn view(&self) -> TestRunView {
        TestRunView {
            config: self.config@,
            suites: texts_view(self.suites@),
            results: suite_results_view(self.results@),
            phase: self.phase@,
        }
    }
}

// Reports the suites from number `from` on that the run leaves out, up to the
// first one that takes part, and returns the number of that one.
fn skip_suites(
    config: &TestRunnerConfiguration,
    suites: &Vec<String>,
    from: usize,
    events: &mut Vec<ReportEvent>,
) -> (suite: usize)
    requires
        from <= suites.len(),
    ensures
        suite == next_selected(config@, texts_view(suites@), from as nat),
        from <= suite <= suites.len(),
        events_view(final(events)@) == events_view(old(events)@) + ignored_suites(
            texts_view(suites@),
            from as nat,
            suite as nat,
        ),
{
    let ghost names = texts_view(suites@);
    let ghost before = events_view(events@);
    let mut suite = from;
    while suite < suites.len()
        invariant
            names == texts_view(suites@),
            before == events_view(old(events)@),
            from <= suite <= suites.len(),
            next_selected(config@, names, from as nat) == next_selected(config@, names, suite as nat),
            events_view(events@) == before + ignored_suites(names, from as nat, suite as nat),
        decreases suites.len() - suite,
    {
        if config.selects_suite(suites[suite].as_str()) {
            return suite;
        }
        let ghost reported = events_view(events@);
        events.push(ReportEvent::TestSuiteIgnored(suites[suite].clone()));
        assert(reported.push(ReportEventView::TestSuiteIgnored(names[suite as int])) =~= before
            + ignored_suites(names, from as nat, (suite + 1) as nat));
        suite = suite + 1;
    }
    suite
}

// Looks for the next suite from number `from` on.
fn enter_suite(
    config: &TestRunnerConfiguration,
    suites: &Vec<String>,
    from: usize,
    events: &mut Vec<ReportEvent>,
    Ghost(run): Ghost<TestRunView>,
) -> (phase: Phase)
    requires
        from <= suites.len(),
        run.config == config@,
        run.suites == texts_view(suites@),
    ensures
        phase@ == run.enter_suite(from as nat).0.phase,
        phase.cached(),
        events_view(final(events)@) == events_view(old(events)@) + run.enter_suite(from as nat).1,
{
    let suite = skip_suites(config, suites, from, events);
    if suite < suites.len() {
        let ghost reported = events_view(events@);
        events.push(ReportEvent::TestSuiteCreationStarted(suites[suite].clone()));
        assert(events_view(events@) =~= reported.push(
            ReportEventView::TestSuiteCreationStarted(run.suites[suite as int]),
        ));
        Phase::Creating { suite }
    } else {
        Phase::Finished
    }
}

// Files the result of the suite with number `suite`.
fn leave_suite(
    config: &TestRunnerConfiguration,
    suites: &Vec<String>,
    results: &mut Vec<TestSuiteResult>,
    suite: usize,
    result: TestSuiteResult,
    events: &mut Vec<ReportEvent>,
    Ghost(run): Ghost<TestRunView>,
) -> (phase: Phase)
    requires
        suite < suites.len(),
        run.config == config@,
        run.suites == texts_view(suites@),
        run.results == suite_results_view(old(results)@),
    ensures
        phase@ == run.leave_suite(suite as nat, result@).0.phase,
        phase.cached(),
        suite_results_view(final(results)@) == run.leave_suite(suite as nat, result@).0.results,
        events_view(final(events)@) == events_view(old(events)@) + run.leave_suite(
            suite as nat,
            result@,
        ).1,
{
    let ghost filed = TestRunView { results: run.results.push(result@), ..run };
    let stop = !result.passed && config.fail_fast();
    results.push(result);
    if stop {
        Phase::Finished
    } else {
        enter_suite(config, suites, suite + 1, events, Ghost(filed))
    }
}

// Reports the result of a suite and files it.
fn end_suite(
    config: &TestRunnerConfiguration,
    suites: &Vec<String>,
    results: &mut Vec<TestSuiteResult>,
    active: ActiveSuite,
    events: &mut Vec<ReportEvent>,
    Ghost(run): Ghost<TestRunView>,
) -> (phase: Phase)
    requires
        active.suite < suites.len(),
        run.config == config@,
        run.suites == texts_view(suites@),
        run.results == suite_results_view(old(results)@),
    ensures
        phase@ == run.end_suite(active@).0.phase,
        phase.cached(),
        suite_results_view(final(results)@) == run.end_suite(active@).0.results,
        events_view(final(events)@) == events_view(old(events)@) + run.end_suite(active@).1,
{
    events.push(ReportEvent::TestSuiteEnd(suites[active.suite].clone(), active.result.clone()));
    leave_suite(config, suites, results, active.suite, active.result, events, Ghost(run))
}

// Records the tests from the current one on that the run leaves out, up to
// the first one that it does not leave out.
fn skip_tests(config: &TestRunnerConfiguration, active: &mut ActiveTest, events: &mut Vec<ReportEvent>)
    requires
        old(active).test <= old(active).tests.len(),
        old(active).cached(),
    ensures
        final(active).test == next_runnable(config@, old(active)@.tests, old(active)@.test),
        final(active).test <= final(active).tests.len(),
        final(active).tests == old(active).tests,
        final(active).has_only == old(active).has_only,
        final(active).suite.suite == old(active).suite.suite,
        final(active).suite.result@ == (TestSuiteResultView {
            tests: old(active).suite.result@.tests + skipped_results(
                old(active)@.tests,
                old(active)@.test,
                final(active)@.test,
            ),
            ..old(active).suite.result@
        }),
        events_view(final(events)@) == events_view(old(events)@) + ignored_tests(
            old(active)@.tests,
            old(active)@.test,
            final(active)@.test,
        ),
{
    let ghost tests = infos_view(active.tests@);
    let ghost from = active.test as nat;
    let ghost before = events_view(events@);
    let ghost recorded = active.suite.result@;
    while active.test < active.tests.len()
        invariant
            tests == infos_view(active.tests@),
            from == old(active).test,
            before == events_view(old(events)@),
            recorded == old(active).suite.result@,
            active.tests == old(active).tests,
            active.has_only == old(active).has_only,
            active.suite.suite == old(active).suite.suite,
            active.cached(),
            from <= active.test <= active.tests.len(),
            next_runnable(config@, tests, from) == next_runnable(config@, tests, active.test as nat),
            active.suite.result@ == (TestSuiteResultView {
                tests: recorded.tests + skipped_results(tests, from, active.test as nat),
                ..recorded
            }),
            events_view(events@) == before + ignored_tests(tests, from, active.test as nat),
        decreases active.tests.len() - active.test,
    {
        let info = &active.tests[active.test];
        if !config.skips_test(info, active.has_only) {
            return ;
        }
        let ghost reported = events_view(events@);
        events.push(ReportEvent::TestIgnored(info.name.clone()));
        let mut result = TestResult::new(info.name.clone());
        result.set_ignored(true);
        active.suite.result.add_test_result(result);
        assert(events_view(events@) =~= reported.push(
            ReportEventView::TestIgnored(tests[active.test as int].name),
        ));
        assert(active.suite.result@.tests =~= recorded.tests + skipped_results(
            tests,
            from,
            (active.test + 1) as nat,
        ));
        active.test = active.test + 1;
    }
}

// Looks for the next test from the current one on.
fn enter_test(
    config: &TestRunnerConfiguration,
    active: ActiveTest,
    events: &mut Vec<ReportEvent>,
    Ghost(run): Ghost<TestRunView>,
) -> (phase: Phase)
    requires
        active.test <= active.tests.len(),
        active.cached(),
        run.config == config@,
    ensures
        phase@ == run.enter_test(active@).0.phase,
        phase.cached(),
        events_view(final(events)@) == events_view(old(events)@) + run.enter_test(active@).1,
{
    let mut active = active;
    skip_tests(config, &mut active, events);
    if active.test < active.tests.len() {
        Phase::BeforeEach(active)
    } else {
        Phase::AfterAll(active.suite)
    }
}

// Records the result of the current test.
fn leave_test(
    config: &TestRunnerConfiguration,
    active: ActiveTest,
    result: TestResult,
    events: &mut Vec<ReportEvent>,
    Ghost(run): Ghost<TestRunView>,
) -> (phase: Phase)
    requires
        active.test < active.tests.len(),
        active.cached(),
        run.config == config@,
    ensures
        phase@ == run.leave_test(active@, result@).0.phase,
        phase.cached(),
        events_view(final(events)@) == events_view(old(events)@) + run.leave_test(
            active@,
            result@,
        ).1,
{
    let mut active = active;
    let stop = !result.passed() && config.fail_fast();
    active.suite.result.add_test_result(result);
    if stop {
        Phase::AfterAll(active.suite)
    } else {
        active.test = active.test + 1;
        enter_test(config, active, events, Ghost(run))
    }
}

fn action_of(phase: &Phase, config: &TestRunnerConfiguration, Ghost(run): Ghost<TestRunView>) -> (action:
    Action)
    requires
        run.phase == phase@,
        run.config == config@,
    ensures
        action@ == run.action(),
{
    match phase {
        Phase::Creating { suite } => Action::CreateSuite { suite: *suite },
        Phase::BeforeAll(_) => Action::BeforeAll,
        Phase::Listing(_) => Action::ListTests,
        Phase::BeforeEach(active) => Action::BeforeEach { test: active.test },
        Phase::Running(active) => Action::RunTest {
            test: active.test,
            timeout_ms: config.timeout(),
        },
        Phase::AfterEach(active, _) => Action::AfterEach { test: active.test },
        Phase::AfterAll(_) => Action::AfterAll,
        Phase::Finished => Action::Finish,
    }
}

impl TestRunner {
    /// A runner with the default settings and no suites.
    pub fn new() -> (runner: Self)
        ensures
            runner@ == (TestRunnerView { config: ConfigView::new(), suites: Seq::empty() }),
    {
        let runner = Self { runner_config: TestRunnerConfiguration::default(), test_suites: Vec::new() };
        assert(runner@.suites =~= Seq::empty());
        runner
    }

    /// Replaces the settings.
    pub fn with_runner_config(self, config: TestRunnerConfiguration) -> (runner: Self)
        ensures
            runner@ == (TestRunnerView { config: config@, ..self@ }),
    {
        Self { runner_config: config, test_suites: self.test_suites }
    }

    /// Registers a suite behind those that are registered already, by the
    /// name of its factory, and returns its number.
    pub fn add_suite(&mut self, name: String) -> (suite: usize)
        ensures
            suite == old(self)@.suites.len(),
            final(self)@ == (TestRunnerView {
                suites: old(self)@.suites.push(name@),
                ..old(self)@
            }),
    {
        let suite = self.test_suites.len();
        self.test_suites.push(name);
        assert(final(self)@.suites =~= old(self)@.suites.push(name@));
        suite
    }

    /// The settings.
    pub fn runner_config(&self) -> (config: &TestRunnerConfiguration)
        ensures
            config@ == self@.config,
    {
        &self.runner_config
    }

    /// Starts the run. The suites are taken in the order of registration:
    /// those that the suite filter does not select are reported as ignored,
    /// and the first one that it selects is to be created. The runner is used
    /// up.
    pub fn run(self) -> (started: (TestRun, Step))
        ensures
            (started.0@, events_view(started.1.events@)) == self@.run(),
            started.1.action@ == started.0@.action(),
            started.0@.wf(),
    {
        let ghost run = TestRunView::new(self@.config, self@.suites);
        let mut events: Vec<ReportEvent> = Vec::new();
        let phase = enter_suite(&self.runner_config, &self.test_suites, 0, &mut events, Ghost(run));
        proof {
            run.lemma_enter_suite(0);
        }
        let results: Vec<TestSuiteResult> = Vec::new();
        assert(suite_results_view(results@) =~= run.results);
        let action = action_of(&phase, &self.runner_config, Ghost(run.enter_suite(0).0));
        (
            TestRun { config: self.runner_config, suites: self.test_suites, results, phase },
            Step { events, action },
        )
    }
}

impl TestRun {
    #[verifier::type_invariant]
    spec fn inv(&self) -> bool {
        self@.wf() && self.phase.cached()
    }

    /// What the host is to do next.
    pub fn action(&self) -> (action: Action)
        ensures
            action@ == self@.action(),
    {
        action_of(&self.phase, &self.config, Ghost(self@))
    }

    /// Whether the run is over.
    pub fn is_finished(&self) -> (finished: bool)
        ensures
            finished == (self@.phase is Finished),
    {
        match self.phase {
            Phase::Finished => true,
            _ => false,
        }
    }

    /// The results of the suites that have been dealt with so far, in that
    /// order. In each of them the flag `passed` is unset if and only if the
    /// suite carries a failure of its own or one of its tests failed.
    pub fn results(&self) -> (results: &Vec<TestSuiteResult>)
        ensures
            suite_results_view(results@) == self@.results,
            forall|i: int| 0 <= i < results.len() ==> (#[trigger] results[i])@.wf(),
    {
        proof {
            use_type_invariant(self);
            assert forall|i: int| 0 <= i < self.results.len() implies (#[trigger] self.results[i])@.wf() by {
                assert(self.results[i]@ == self@.results[i]);
            }
        }
        &self.results
    }

    /// Ends the run and hands out the results, as [`TestRun::results`] shows
    /// them.
    pub fn into_results(self) -> (results: Vec<TestSuiteResult>)
        ensures
            suite_results_view(results@) == self@.results,
            forall|i: int| 0 <= i < results.len() ==> (#[trigger] results[i])@.wf(),
    {
        proof {
            use_type_invariant(&self);
            assert forall|i: int| 0 <= i < self.results.len() implies (#[trigger] self.results[i])@.wf() by {
                assert(self.results[i]@ == self@.results[i]);
            }
        }
        self.results
    }

    /// Takes the run one step further: `outcome` is what came of the action
    /// that the run named last. The new state, the events to report and the
    /// next action are those of [`TestRunView::handle`]. An outcome that does
    /// not belong to that action changes nothing and reports nothing.
    pub fn handle(self, outcome: Outcome) -> (next: (TestRun, Step))
        ensures
            (next.0@, events_view(next.1.events@)) == self@.handle(outcome@),
            next.1.action@ == next.0@.action(),
            next.0@.wf(),
    {
        let ghost run = self@;
        proof {
            use_type_invariant(&self);
            run.lemma_handle(outcome@);
        }
        let TestRun { config, suites, results, phase } = self;
        let mut results = results;
        let mut events: Vec<ReportEvent> = Vec::new();
        let phase = match (phase, outcome) {
            (Phase::Creating { suite }, Outcome::SuiteCreated(Ok(()))) => {
                let name = suites[suite].clone();
                events.push(ReportEvent::TestSuiteCreationFinished(name.clone(), None));
                events.push(ReportEvent::TestSuiteStart(name.clone()));
                Phase::BeforeAll(ActiveSuite { suite, result: TestSuiteResult::new(name) })
            },
            (Phase::Creating { suite }, Outcome::SuiteCreated(Err(cause))) => {
                let name = suites[suite].clone();
                let error = TestError::CreateSuite(cause);
                let mut result = TestSuiteResult::new(name.clone());
                result.set_error(error.clone());
                events.push(ReportEvent::TestSuiteCreationFinished(name, Some(error)));
                leave_suite(&config, &suites, &mut results, suite, result, &mut events, Ghost(run))
            },
            (Phase::BeforeAll(active), Outcome::HookFinished(Ok(()))) => Phase::Listing(active),
            (Phase::BeforeAll(active), Outcome::HookFinished(Err(cause))) => {
                let mut active = active;
                active.result.set_error(TestError::BeforeAll(cause));
                end_suite(&config, &suites, &mut results, active, &mut events, Ghost(run))
            },
            (Phase::Listing(active), Outcome::TestsListed(tests)) => {
                let has_only = has_only(&tests);
                let listed = ActiveTest { suite: active, tests, has_only, test: 0 };
                enter_test(&config, listed, &mut events, Ghost(run))
            },
            (Phase::BeforeEach(active), Outcome::HookFinished(Ok(()))) => {
                events.push(ReportEvent::TestStart(active.tests[active.test].name.clone()));
                Phase::Running(active)
            },
            (Phase::BeforeEach(active), Outcome::HookFinished(Err(cause))) => {
                let mut result = TestResult::new(active.tests[active.test].name.clone());
                result.set_error(TestError::BeforeEach(cause));
                leave_test(&config, active, result, &mut events, Ghost(run))
            },
            (Phase::Running(active), Outcome::TestFinished(outcome)) => {
                let name = active.tests[active.test].name.clone();
                let failure = outcome.into_failure(name.as_str(), config.timeout());
                events.push(ReportEvent::TestEnd(name.clone(), clone_error(&failure)));
                if failure.is_some() && config.fail_fast() {
                    let result = TestResult { name, ignored: false, error: failure };
                    leave_test(&config, active, result, &mut events, Ghost(run))
                } else {
                    Phase::AfterEach(active, failure)
                }
            },
            (Phase::AfterEach(active, failure), Outcome::HookFinished(status)) => {
                let error = match status {
                    Ok(()) => failure,
                    Err(cause) => Some(TestError::AfterEach(cause)),
                };
                let result = TestResult {
                    name: active.tests[active.test].name.clone(),
                    ignored: false,
                    error,
                };
                leave_test(&config, active, result, &mut events, Ghost(run))
            },
            (Phase::AfterAll(active), Outcome::HookFinished(status)) => {
                let mut active = active;
                if let Err(cause) = status {
                    active.result.set_error(TestError::AfterAll(cause));
                }
                end_suite(&config, &suites, &mut results, active, &mut events, Ghost(run))
            },
            (phase, _) => phase,
        };
        let action = action_of(&phase, &config, Ghost(run.handle(outcome@).0));
        (TestRun { config, suites, results, phase }, Step { events, action })
    }
}

} // verus!
