//! What holds of every run.
//!
//! The laws speak of whole runs: of the state that a run is in after any
//! sequence of outcomes that a host may report, and of the events that it has
//! handed out on the way.
use crate::case::{any_only, TestInfoView};
use crate::config::ConfigView;
use crate::error::TestErrorView;
use crate::filter::selects;
use crate::model::{
    handled, ignored_suites, ignored_tests, lemma_next_runnable, lemma_next_selected,
    next_runnable, next_selected, ActiveSuiteView, ActiveTestView, PhaseView, TestRunView,
    Transition,
};
use crate::protocol::{ActionView, OutcomeView, ReportEventView};
use crate::reporter::{after_event, after_events, Stage};
use crate::result::{TestResultView, TestSuiteResultView};
use crate::runner::TestRunnerView;
use vstd::prelude::*;

verus! {

impl TestRunView {
    /// The state that a run is in after the host has reported `outcomes`, one
    /// after the other, and all the events that were handed out on the way.
    pub open spec fn play(self, outcomes: Seq<OutcomeView>) -> Transition
        decreases outcomes.len(),
    {
        if outcomes.len() == 0 {
            (self, Seq::empty())
        } else {
            let (state, events) = self.play(outcomes.drop_last());
            let (next, more) = state.handle(outcomes.last());
            (next, events + more)
        }
    }

    /// The tests that the suite in execution has listed; none if no suite is
    /// executing its tests.
    pub open spec fn listed_tests(self) -> Seq<TestInfoView> {
        match self.phase {
            PhaseView::BeforeEach(active) => active.tests,
            PhaseView::Running(active) => active.tests,
            PhaseView::AfterEach(active, _) => active.tests,
            _ => Seq::empty(),
        }
    }

    /// The tests that the suite in execution has listed once `outcome` has
    /// come in.
    pub open spec fn tests_after(self, outcome: OutcomeView) -> Seq<TestInfoView> {
        match (self.phase, outcome) {
            (PhaseView::Listing(_), OutcomeView::TestsListed(tests)) => tests,
            _ => self.listed_tests(),
        }
    }

    /// The same state under settings without filters.
    pub open spec fn without_filters(self) -> TestRunView {
        TestRunView { config: self.config.without_filters(), ..self }
    }

    /// Where a reporter stands while the run is in this state.
    pub open spec fn stage(self) -> Stage {
        match self.phase {
            PhaseView::Creating { suite } => Stage::Creating(self.suites[suite as int]),
            PhaseView::BeforeAll(active) => Stage::InSuite(self.suites[active.suite as int]),
            PhaseView::Listing(active) => Stage::InSuite(self.suites[active.suite as int]),
            PhaseView::BeforeEach(active) => Stage::InSuite(self.suites[active.suite.suite as int]),
            PhaseView::Running(active) => Stage::InTest(
                self.suites[active.suite.suite as int],
                active.name(),
            ),
            PhaseView::AfterEach(active, _) => Stage::InSuite(
                self.suites[active.suite.suite as int],
            ),
            PhaseView::AfterAll(active) => Stage::InSuite(self.suites[active.suite as int]),
            PhaseView::Finished => Stage::Idle,
        }
    }
}

impl TestRunnerView {
    /// The state of a run of this runner after the host has reported
    /// `outcomes`, and all the events from the start on.
    pub open spec fn play(self, outcomes: Seq<OutcomeView>) -> Transition {
        let (started, events) = self.run();
        let (state, more) = started.play(outcomes);
        (state, events + more)
    }

    /// The same runner under settings without filters.
    pub open spec fn without_filters(self) -> TestRunnerView {
        TestRunnerView { config: self.config.without_filters(), ..self }
    }
}

impl ConfigView {
    /// The same settings without the two filters.
    pub open spec fn without_filters(self) -> ConfigView {
        ConfigView { test_suite_filter: None, test_case_filter: None, ..self }
    }

    /// Whether each of the two filters, where it is set, selects every name.
    pub open spec fn filters_match_all(self) -> bool {
        &&& forall|name: Seq<char>| #[trigger] selects(self.test_suite_filter, name)
        &&& forall|name: Seq<char>| #[trigger] selects(self.test_case_filter, name)
    }
}

/// Whatever the host reports, a run stays in a sound state, keeps its
/// settings and keeps its suites.
pub proof fn law_runs_stay_sound(runner: TestRunnerView, outcomes: Seq<OutcomeView>)
    ensures
        runner.play(outcomes).0.wf(),
        runner.play(outcomes).0.config == runner.config,
        runner.play(outcomes).0.suites == runner.suites,
{
    let started = runner.run().0;
    TestRunView::new(runner.config, runner.suites).lemma_enter_suite(0);
    lemma_play_from(started, outcomes);
}

proof fn lemma_play_from(state: TestRunView, outcomes: Seq<OutcomeView>)
    requires
        state.wf(),
    ensures
        state.play(outcomes).0.wf(),
        state.play(outcomes).0.config == state.config,
        state.play(outcomes).0.suites == state.suites,
    decreases outcomes.len(),
{
    if outcomes.len() > 0 {
        lemma_play_from(state, outcomes.drop_last());
        let before = state.play(outcomes.drop_last()).0;
        before.lemma_handle(outcomes.last());
    }
}

/// In every result that a run files, whatever the host reports, the suite
/// has not passed if and only if it carries a failure of its own or one of
/// its tests failed.
pub proof fn law_passed_iff_nothing_failed(
    runner: TestRunnerView,
    outcomes: Seq<OutcomeView>,
    i: int,
)
    requires
        0 <= i < runner.play(outcomes).0.results.len(),
    ensures
        ({
            let result = runner.play(outcomes).0.results[i];
            !result.passed <==> (result.error is Some || exists|k: int|
                0 <= k < result.tests.len() && (#[trigger] result.tests[k]).error is Some)
        }),
{
    law_runs_stay_sound(runner, outcomes);
    let result = runner.play(outcomes).0.results[i];
    assert(result.wf());
    if result.has_failed_test() {
        let k = choose|k: int| 0 <= k < result.tests.len() && !(#[trigger] result.tests[k]).passed();
        assert(result.tests[k].error is Some);
    }
    if exists|k: int| 0 <= k < result.tests.len() && (#[trigger] result.tests[k]).error is Some {
        let k = choose|k: int| 0 <= k < result.tests.len() && (#[trigger] result.tests[k]).error is Some;
        assert(!result.tests[k].passed());
    }
}

/// A run never asks for `before_each`, the body or `after_each` of a test
/// that it leaves out: whatever the host reports, the test that such an
/// action names is one of the listed tests and is not skipped under the
/// settings of the run.
pub proof fn law_ignored_tests_trigger_nothing(runner: TestRunnerView, outcomes: Seq<OutcomeView>)
    ensures
        ({
            let state = runner.play(outcomes).0;
            let tests = state.listed_tests();
            let named = match state.action() {
                ActionView::BeforeEach { test } => Some(test),
                ActionView::RunTest { test, .. } => Some(test),
                ActionView::AfterEach { test } => Some(test),
                _ => None,
            };
            named matches Some(test) ==> test < tests.len() && !runner.config.skips_test(
                tests[test as int],
                any_only(tests),
            )
        }),
{
    law_runs_stay_sound(runner, outcomes);
}

/// Whether a host that was asked for `first` may be asked for `second` next.
///
/// A created suite starts with `before_all`; only if that succeeds are its
/// tests listed, and only then does `after_all` ever follow. A test starts
/// with `before_each`; only if that succeeds does its body run, and only
/// behind its body does its `after_each` come. Suites and tests are taken in
/// rising order. The same action is asked for again after an outcome that
/// does not belong to it.
pub open spec fn may_follow(first: ActionView, second: ActionView) -> bool {
    ||| second == first
    ||| match first {
        ActionView::CreateSuite { suite } => {
            ||| second is BeforeAll
            ||| second matches ActionView::CreateSuite { suite: next } && next > suite
            ||| second is Finish
        },
        ActionView::BeforeAll => {
            ||| second is ListTests
            ||| second is CreateSuite
            ||| second is Finish
        },
        ActionView::ListTests => {
            ||| second is BeforeEach
            ||| second is AfterAll
        },
        ActionView::BeforeEach { test } => {
            ||| second matches ActionView::RunTest { test: same, .. } && same == test
            ||| second matches ActionView::BeforeEach { test: next } && next > test
            ||| second is AfterAll
        },
        ActionView::RunTest { test, .. } => {
            ||| second matches ActionView::AfterEach { test: same } && same == test
            ||| second matches ActionView::BeforeEach { test: next } && next > test
            ||| second is AfterAll
        },
        ActionView::AfterEach { test } => {
            ||| second matches ActionView::BeforeEach { test: next } && next > test
            ||| second is AfterAll
        },
        ActionView::AfterAll => {
            ||| second is CreateSuite
            ||| second is Finish
        },
        ActionView::Finish => false,
    }
}

/// Whatever the host reports, the action that a run asks for next is one that
/// may follow the action it asked for before.
pub proof fn law_actions_follow_the_lifecycle(state: TestRunView, outcome: OutcomeView)
    requires
        state.wf(),
    ensures
        may_follow(state.action(), state.handle(outcome).0.action()),
{
    match state.phase {
        PhaseView::Creating { suite } => {
            lemma_next_selected(state.config, state.suites, suite + 1);
        },
        PhaseView::BeforeAll(active) => {
            lemma_next_selected(state.config, state.suites, active.suite + 1);
        },
        PhaseView::Listing(active) => {
            if let OutcomeView::TestsListed(tests) = outcome {
                lemma_next_runnable(state.config, tests, 0);
            }
        },
        PhaseView::BeforeEach(active) => {
            lemma_next_runnable(state.config, active.tests, active.test + 1);
        },
        PhaseView::Running(active) => {
            lemma_next_runnable(state.config, active.tests, active.test + 1);
        },
        PhaseView::AfterEach(active, _) => {
            lemma_next_runnable(state.config, active.tests, active.test + 1);
        },
        PhaseView::AfterAll(active) => {
            lemma_next_selected(state.config, state.suites, active.suite + 1);
        },
        PhaseView::Finished => {},
    }
}

/// When a suite is done with its tests, so that `after_all` is next, what it
/// has recorded is what its tests leave behind. There is one record for each
/// test, in the order of the list, under the name of the test; the record is
/// marked as ignored exactly if the run leaves the test out, and then holds
/// no failure. In a run that fails fast the records end with the first
/// failure: the tests behind it have no record at all.
pub proof fn law_results_mirror_the_tests(state: TestRunView, outcome: OutcomeView)
    requires
        state.wf(),
        state.phase !is AfterAll,
    ensures
        state.handle(outcome).0.phase matches PhaseView::AfterAll(done) ==> handled(
            state.config,
            state.tests_after(outcome),
            done.result,
        ),
{
    match (state.phase, outcome) {
        (PhaseView::Listing(active), OutcomeView::TestsListed(tests)) => {
            state.lemma_enter_test(ActiveTestView { suite: active, tests, test: 0 });
        },
        (PhaseView::BeforeEach(active), OutcomeView::HookFinished(Err(cause))) => {
            state.lemma_leave_test(
                active,
                TestResultView::finished(
                    active.name(),
                    Some(TestErrorView::BeforeEach(cause)),
                ),
            );
        },
        (PhaseView::Running(active), OutcomeView::TestFinished(outcome)) => {
            let failure = outcome.failure(active.name(), state.config.timeout());
            state.lemma_leave_test(active, TestResultView::finished(active.name(), failure));
        },
        (PhaseView::AfterEach(active, failure), OutcomeView::HookFinished(status)) => {
            let error = match status {
                Ok(()) => failure,
                Err(cause) => Some(TestErrorView::AfterEach(cause)),
            };
            state.lemma_leave_test(active, TestResultView::finished(active.name(), error));
        },
        _ => {},
    }
}

/// As soon as one test of a suite is marked `only`, every test of the suite
/// without that mark is left out, whatever its own mark `ignore` and
/// whatever the settings.
pub proof fn law_only_pushes_the_others_aside(
    config: ConfigView,
    tests: Seq<TestInfoView>,
    i: int,
)
    requires
        any_only(tests),
        0 <= i < tests.len(),
        !tests[i].only,
    ensures
        config.skips_test(tests[i], any_only(tests)),
{
}

proof fn lemma_next_selected_unfiltered(config: ConfigView, suites: Seq<Seq<char>>, from: nat)
    requires
        config.filters_match_all(),
    ensures
        next_selected(config, suites, from) == next_selected(config.without_filters(), suites, from),
    decreases suites.len() - from,
{
    if from < suites.len() {
        assert(selects(config.test_suite_filter, suites[from as int]));
    }
}

proof fn lemma_next_runnable_unfiltered(config: ConfigView, tests: Seq<TestInfoView>, from: nat)
    requires
        config.filters_match_all(),
    ensures
        next_runnable(config, tests, from) == next_runnable(config.without_filters(), tests, from),
    decreases tests.len() - from,
{
    if from < tests.len() {
        assert(selects(config.test_case_filter, tests[from as int].name));
        if config.skips_test(tests[from as int], any_only(tests)) {
            lemma_next_runnable_unfiltered(config, tests, from + 1);
        }
    }
}

proof fn lemma_enter_suite_unfiltered(state: TestRunView, from: nat)
    requires
        state.config.filters_match_all(),
    ensures
        state.without_filters().enter_suite(from) == (
            state.enter_suite(from).0.without_filters(),
            state.enter_suite(from).1,
        ),
{
    lemma_next_selected_unfiltered(state.config, state.suites, from);
}

proof fn lemma_leave_suite_unfiltered(state: TestRunView, suite: nat, result: TestSuiteResultView)
    requires
        state.config.filters_match_all(),
    ensures
        state.without_filters().leave_suite(suite, result) == (
            state.leave_suite(suite, result).0.without_filters(),
            state.leave_suite(suite, result).1,
        ),
{
    let filed = TestRunView { results: state.results.push(result), ..state };
    lemma_enter_suite_unfiltered(filed, suite + 1);
    assert(filed.without_filters() == (TestRunView {
        results: state.without_filters().results.push(result),
        ..state.without_filters()
    }));
}

proof fn lemma_end_suite_unfiltered(state: TestRunView, active: ActiveSuiteView)
    requires
        state.config.filters_match_all(),
    ensures
        state.without_filters().end_suite(active) == (
            state.end_suite(active).0.without_filters(),
            state.end_suite(active).1,
        ),
{
    lemma_leave_suite_unfiltered(state, active.suite, active.result);
}

proof fn lemma_enter_test_unfiltered(state: TestRunView, active: ActiveTestView)
    requires
        state.config.filters_match_all(),
    ensures
        state.without_filters().enter_test(active) == (
            state.enter_test(active).0.without_filters(),
            state.enter_test(active).1,
        ),
{
    lemma_next_runnable_unfiltered(state.config, active.tests, active.test);
}

proof fn lemma_leave_test_unfiltered(state: TestRunView, active: ActiveTestView, result: TestResultView)
    requires
        state.config.filters_match_all(),
    ensures
        state.without_filters().leave_test(active, result) == (
            state.leave_test(active, result).0.without_filters(),
            state.leave_test(active, result).1,
        ),
{
    let suite = ActiveSuiteView {
        result: active.suite.result.add_test_result(result),
        ..active.suite
    };
    lemma_enter_test_unfiltered(state, ActiveTestView { suite, test: active.test + 1, ..active });
}

proof fn lemma_handle_unfiltered(state: TestRunView, outcome: OutcomeView)
    requires
        state.config.filters_match_all(),
    ensures
        state.without_filters().handle(outcome) == (
            state.handle(outcome).0.without_filters(),
            state.handle(outcome).1,
        ),
        state.handle(outcome).0.config == state.config,
{
    match (state.phase, outcome) {
        (PhaseView::Creating { suite }, OutcomeView::SuiteCreated(Err(cause))) => {
            let name = state.suites[suite as int];
            lemma_leave_suite_unfiltered(
                state,
                suite,
                TestSuiteResultView::new(name).set_error(
                    TestErrorView::CreateSuite(cause),
                ),
            );
        },
        (PhaseView::BeforeAll(active), OutcomeView::HookFinished(Err(cause))) => {
            lemma_end_suite_unfiltered(
                state,
                active.failed(TestErrorView::BeforeAll(cause)),
            );
        },
        (PhaseView::Listing(active), OutcomeView::TestsListed(tests)) => {
            lemma_enter_test_unfiltered(state, ActiveTestView { suite: active, tests, test: 0 });
        },
        (PhaseView::BeforeEach(active), OutcomeView::HookFinished(Err(cause))) => {
            lemma_leave_test_unfiltered(
                state,
                active,
                TestResultView::finished(
                    active.name(),
                    Some(TestErrorView::BeforeEach(cause)),
                ),
            );
        },
        (PhaseView::Running(active), OutcomeView::TestFinished(outcome)) => {
            let failure = outcome.failure(active.name(), state.config.timeout());
            lemma_leave_test_unfiltered(
                state,
                active,
                TestResultView::finished(active.name(), failure),
            );
        },
        (PhaseView::AfterEach(active, failure), OutcomeView::HookFinished(status)) => {
            let error = match status {
                Ok(()) => failure,
                Err(cause) => Some(TestErrorView::AfterEach(cause)),
            };
            lemma_leave_test_unfiltered(
                state,
                active,
                TestResultView::finished(active.name(), error),
            );
        },
        (PhaseView::AfterAll(active), OutcomeView::HookFinished(status)) => {
            let ended = match status {
                Ok(()) => active,
                Err(cause) => active.failed(TestErrorView::AfterAll(cause)),
            };
            lemma_end_suite_unfiltered(state, ended);
        },
        _ => {},
    }
}

proof fn lemma_play_unfiltered(state: TestRunView, outcomes: Seq<OutcomeView>)
    requires
        state.config.filters_match_all(),
    ensures
        state.without_filters().play(outcomes) == (
            state.play(outcomes).0.without_filters(),
            state.play(outcomes).1,
        ),
        state.play(outcomes).0.config == state.config,
    decreases outcomes.len(),
{
    if outcomes.len() > 0 {
        lemma_play_unfiltered(state, outcomes.drop_last());
        lemma_handle_unfiltered(state.play(outcomes.drop_last()).0, outcomes.last());
    }
}

/// Filters that select every name are as good as no filters: with the same
/// suites, and with the same outcomes reported by the host, a run under such
/// filters and a run without filters file the same results, hand out the same
/// events and end up awaiting the same action.
pub proof fn law_filters_that_match_all_change_nothing(
    runner: TestRunnerView,
    outcomes: Seq<OutcomeView>,
)
    requires
        runner.config.filters_match_all(),
    ensures
        runner.without_filters().play(outcomes).0.results == runner.play(outcomes).0.results,
        runner.without_filters().play(outcomes).0.phase == runner.play(outcomes).0.phase,
        runner.without_filters().play(outcomes).0.action() == runner.play(outcomes).0.action(),
        runner.without_filters().play(outcomes).1 == runner.play(outcomes).1,
{
    let fresh = TestRunView::new(runner.config, runner.suites);
    lemma_enter_suite_unfiltered(fresh, 0);
    assert(fresh.without_filters() == TestRunView::new(
        runner.config.without_filters(),
        runner.suites,
    ));
    lemma_play_unfiltered(runner.run().0, outcomes);
}

proof fn lemma_after_events_joined(stage: Stage, first: Seq<ReportEventView>, second: Seq<ReportEventView>)
    ensures
        after_events(stage, first + second) == match after_events(stage, first) {
            Some(next) => after_events(next, second),
            None => None,
        },
    decreases first.len(),
{
    if first.len() == 0 {
        assert(first + second =~= second);
    } else {
        assert((first + second)[0] == first[0]);
        assert((first + second).drop_first() =~= first.drop_first() + second);
        match after_event(stage, first[0]) {
            Some(next) => lemma_after_events_joined(next, first.drop_first(), second),
            None => {},
        }
    }
}

proof fn lemma_after_one_event(stage: Stage, event: ReportEventView)
    ensures
        after_events(stage, seq![event]) == after_event(stage, event),
{
    assert(seq![event].drop_first() =~= Seq::<ReportEventView>::empty());
    reveal_with_fuel(after_events, 2);
}

proof fn lemma_ignored_suites_in_order(suites: Seq<Seq<char>>, from: nat, to: nat)
    requires
        from <= to <= suites.len(),
    ensures
        after_events(Stage::Idle, ignored_suites(suites, from, to)) == Some(Stage::Idle),
    decreases to - from,
{
    if from < to {
        assert(ignored_suites(suites, from, to).drop_first() =~= ignored_suites(
            suites,
            from + 1,
            to,
        ));
        lemma_ignored_suites_in_order(suites, from + 1, to);
    }
}

proof fn lemma_ignored_tests_in_order(suite: Seq<char>, tests: Seq<TestInfoView>, from: nat, to: nat)
    requires
        from <= to <= tests.len(),
    ensures
        after_events(Stage::InSuite(suite), ignored_tests(tests, from, to)) == Some(
            Stage::InSuite(suite),
        ),
    decreases to - from,
{
    if from < to {
        assert(ignored_tests(tests, from, to).drop_first() =~= ignored_tests(tests, from + 1, to));
        lemma_ignored_tests_in_order(suite, tests, from + 1, to);
    }
}

proof fn lemma_enter_suite_in_order(state: TestRunView, from: nat)
    requires
        from <= state.suites.len(),
    ensures
        after_events(Stage::Idle, state.enter_suite(from).1) == Some(
            state.enter_suite(from).0.stage(),
        ),
{
    lemma_next_selected(state.config, state.suites, from);
    let suite = next_selected(state.config, state.suites, from);
    let ignored = ignored_suites(state.suites, from, suite);
    lemma_ignored_suites_in_order(state.suites, from, suite);
    if suite < state.suites.len() {
        let started = ReportEventView::TestSuiteCreationStarted(state.suites[suite as int]);
        assert(ignored.push(started) =~= ignored + seq![started]);
        lemma_after_events_joined(Stage::Idle, ignored, seq![started]);
        lemma_after_one_event(Stage::Idle, started);
    }
}

proof fn lemma_leave_suite_in_order(state: TestRunView, suite: nat, result: TestSuiteResultView)
    requires
        suite < state.suites.len(),
    ensures
        after_events(Stage::Idle, state.leave_suite(suite, result).1) == Some(
            state.leave_suite(suite, result).0.stage(),
        ),
{
    let filed = TestRunView { results: state.results.push(result), ..state };
    lemma_enter_suite_in_order(filed, suite + 1);
}

proof fn lemma_end_suite_in_order(state: TestRunView, active: ActiveSuiteView)
    requires
        state.suite_ok(active),
    ensures
        after_events(
            Stage::InSuite(state.suites[active.suite as int]),
            state.end_suite(active).1,
        ) == Some(state.end_suite(active).0.stage()),
{
    let name = state.suites[active.suite as int];
    let ended = ReportEventView::TestSuiteEnd(name, active.result);
    lemma_leave_suite_in_order(state, active.suite, active.result);
    lemma_after_events_joined(
        Stage::InSuite(name),
        seq![ended],
        state.leave_suite(active.suite, active.result).1,
    );
    lemma_after_one_event(Stage::InSuite(name), ended);
}

proof fn lemma_enter_test_in_order(state: TestRunView, active: ActiveTestView)
    requires
        active.suite.suite < state.suites.len(),
        active.test <= active.tests.len(),
    ensures
        after_events(
            Stage::InSuite(state.suites[active.suite.suite as int]),
            state.enter_test(active).1,
        ) == Some(state.enter_test(active).0.stage()),
{
    lemma_next_runnable(state.config, active.tests, active.test);
    let test = next_runnable(state.config, active.tests, active.test);
    lemma_ignored_tests_in_order(
        state.suites[active.suite.suite as int],
        active.tests,
        active.test,
        test,
    );
}

proof fn lemma_leave_test_in_order(state: TestRunView, active: ActiveTestView, result: TestResultView)
    requires
        active.suite.suite < state.suites.len(),
        active.test < active.tests.len(),
    ensures
        after_events(
            Stage::InSuite(state.suites[active.suite.suite as int]),
            state.leave_test(active, result).1,
        ) == Some(state.leave_test(active, result).0.stage()),
{
    let suite = ActiveSuiteView {
        result: active.suite.result.add_test_result(result),
        ..active.suite
    };
    lemma_enter_test_in_order(state, ActiveTestView { suite, test: active.test + 1, ..active });
}

/// The events of one step come in the order in which a reporter expects
/// them: they lead from where the reporter stands before the step to where
/// it stands after it.
pub proof fn law_events_of_a_step_come_in_order(state: TestRunView, outcome: OutcomeView)
    requires
        state.wf(),
    ensures
        after_events(state.stage(), state.handle(outcome).1) == Some(
            state.handle(outcome).0.stage(),
        ),
{
    match (state.phase, outcome) {
        (PhaseView::Creating { suite }, OutcomeView::SuiteCreated(Ok(()))) => {
            let name = state.suites[suite as int];
            let finished = ReportEventView::TestSuiteCreationFinished(name, None);
            let started = ReportEventView::TestSuiteStart(name);
            assert(seq![finished, started] =~= seq![finished] + seq![started]);
            lemma_after_events_joined(Stage::Creating(name), seq![finished], seq![started]);
            lemma_after_one_event(Stage::Creating(name), finished);
            lemma_after_one_event(Stage::Created(name), started);
        },
        (PhaseView::Creating { suite }, OutcomeView::SuiteCreated(Err(cause))) => {
            let name = state.suites[suite as int];
            let error = TestErrorView::CreateSuite(cause);
            let result = TestSuiteResultView::new(name).set_error(error);
            let finished = ReportEventView::TestSuiteCreationFinished(name, Some(error));
            lemma_leave_suite_in_order(state, suite, result);
            lemma_after_events_joined(
                Stage::Creating(name),
                seq![finished],
                state.leave_suite(suite, result).1,
            );
            lemma_after_one_event(Stage::Creating(name), finished);
        },
        (PhaseView::BeforeAll(active), OutcomeView::HookFinished(Err(cause))) => {
            lemma_end_suite_in_order(
                state,
                active.failed(TestErrorView::BeforeAll(cause)),
            );
        },
        (PhaseView::Listing(active), OutcomeView::TestsListed(tests)) => {
            lemma_enter_test_in_order(state, ActiveTestView { suite: active, tests, test: 0 });
        },
        (PhaseView::BeforeEach(active), OutcomeView::HookFinished(Ok(()))) => {
            lemma_after_one_event(
                Stage::InSuite(state.suites[active.suite.suite as int]),
                ReportEventView::TestStart(active.name()),
            );
        },
        (PhaseView::BeforeEach(active), OutcomeView::HookFinished(Err(cause))) => {
            lemma_leave_test_in_order(
                state,
                active,
                TestResultView::finished(
                    active.name(),
                    Some(TestErrorView::BeforeEach(cause)),
                ),
            );
        },
        (PhaseView::Running(active), OutcomeView::TestFinished(outcome)) => {
            let suite = state.suites[active.suite.suite as int];
            let failure = outcome.failure(active.name(), state.config.timeout());
            let ended = ReportEventView::TestEnd(active.name(), failure);
            lemma_after_one_event(Stage::InTest(suite, active.name()), ended);
            if failure is Some && state.config.fail_fast {
                let result = TestResultView::finished(active.name(), failure);
                lemma_leave_test_in_order(state, active, result);
                lemma_after_events_joined(
                    Stage::InTest(suite, active.name()),
                    seq![ended],
                    state.leave_test(active, result).1,
                );
            }
        },
        (PhaseView::AfterEach(active, failure), OutcomeView::HookFinished(status)) => {
            let error = match status {
                Ok(()) => failure,
                Err(cause) => Some(TestErrorView::AfterEach(cause)),
            };
            lemma_leave_test_in_order(
                state,
                active,
                TestResultView::finished(active.name(), error),
            );
        },
        (PhaseView::AfterAll(active), OutcomeView::HookFinished(status)) => {
            let ended = match status {
                Ok(()) => active,
                Err(cause) => active.failed(TestErrorView::AfterAll(cause)),
            };
            lemma_end_suite_in_order(state, ended);
        },
        _ => {},
    }
}

proof fn lemma_play_in_order(state: TestRunView, outcomes: Seq<OutcomeView>)
    requires
        state.wf(),
    ensures
        after_events(state.stage(), state.play(outcomes).1) == Some(state.play(outcomes).0.stage()),
    decreases outcomes.len(),
{
    if outcomes.len() > 0 {
        let (before, events) = state.play(outcomes.drop_last());
        lemma_play_in_order(state, outcomes.drop_last());
        lemma_play_from(state, outcomes.drop_last());
        law_events_of_a_step_come_in_order(before, outcomes.last());
        lemma_after_events_joined(state.stage(), events, before.handle(outcomes.last()).1);
    }
}

/// All the events of a run, from its start on and whatever the host reports,
/// come in the order in which a reporter expects them. For each suite that
/// takes part: creation started, creation finished and, if the suite was
/// created, suite started; then for each test either test started and test
/// ended, or test ignored; then suite ended. For a suite that is left out:
/// suite ignored, and nothing else.
pub proof fn law_events_come_in_order(runner: TestRunnerView, outcomes: Seq<OutcomeView>)
    ensures
        after_events(Stage::Idle, runner.play(outcomes).1) == Some(
            runner.play(outcomes).0.stage(),
        ),
{
    let fresh = TestRunView::new(runner.config, runner.suites);
    let (started, events) = runner.run();
    lemma_enter_suite_in_order(fresh, 0);
    fresh.lemma_enter_suite(0);
    lemma_play_in_order(started, outcomes);
    lemma_after_events_joined(Stage::Idle, events, started.play(outcomes).1);
}

} // verus!
