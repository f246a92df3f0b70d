use e2e::{
    Action, NameFilter, Outcome, ReportEvent, RunOutcome, TestError, TestInfo, TestResult, TestRunner,
    TestRunnerConfiguration, TestSuiteResult,
};

// A test whose behaviour is written down in advance.
#[derive(Clone)]
struct Case {
    name: &'static str,
    ignore: bool,
    only: bool,
    before_each: Result<(), &'static str>,
    body: Body,
    after_each: Result<(), &'static str>,
}

#[derive(Clone)]
enum Body {
    Pass,
    Fail(&'static str),
    Hang,
    Panic(Option<&'static str>),
}

// A suite whose behaviour is written down in advance.
#[derive(Clone)]
struct Suite {
    name: &'static str,
    create: Result<(), &'static str>,
    before_all: Result<(), &'static str>,
    cases: Vec<Case>,
    after_all: Result<(), &'static str>,
}

// What a run left behind: its results, the events it handed out, and the
// calls that the host made, in order.
struct Report {
    results: Vec<TestSuiteResult>,
    events: Vec<ReportEvent>,
    calls: Vec<String>,
}

fn case(name: &'static str) -> Case {
    Case { name, ignore: false, only: false, before_each: Ok(()), body: Body::Pass, after_each: Ok(()) }
}

fn suite(name: &'static str, cases: Vec<Case>) -> Suite {
    Suite { name, create: Ok(()), before_all: Ok(()), cases, after_all: Ok(()) }
}

fn status(status: &Result<(), &'static str>) -> Result<(), String> {
    match status {
        Ok(()) => Ok(()),
        Err(cause) => Err(cause.to_string()),
    }
}

fn play(config: TestRunnerConfiguration, suites: &[Suite]) -> Report {
    let mut runner = TestRunner::new().with_runner_config(config);
    for (number, suite) in suites.iter().enumerate() {
        assert_eq!(runner.add_suite(suite.name.to_string()), number);
    }
    let (mut run, mut step) = runner.run();
    let mut events = Vec::new();
    let mut calls = Vec::new();
    let mut current: Option<&Suite> = None;
    loop {
        assert_eq!(run.action(), step.action);
        events.append(&mut step.events);
        let outcome = match step.action {
            Action::CreateSuite { suite } => {
                let created = &suites[suite];
                current = Some(created);
                calls.push(format!("create {}", created.name));
                Outcome::SuiteCreated(status(&created.create))
            }
            Action::BeforeAll => {
                let suite = current.expect("a suite is open");
                calls.push(format!("before_all {}", suite.name));
                Outcome::HookFinished(status(&suite.before_all))
            }
            Action::ListTests => {
                let suite = current.expect("a suite is open");
                calls.push(format!("tests {}", suite.name));
                Outcome::TestsListed(
                    suite
                        .cases
                        .iter()
                        .map(|c| TestInfo::new(c.name.to_string()).with_ignore(c.ignore).with_only(c.only))
                        .collect(),
                )
            }
            Action::BeforeEach { test } => {
                let case = &current.expect("a suite is open").cases[test];
                calls.push(format!("before_each {}", case.name));
                Outcome::HookFinished(status(&case.before_each))
            }
            Action::RunTest { test, timeout_ms } => {
                let case = &current.expect("a suite is open").cases[test];
                calls.push(format!("run {} within {} ms", case.name, timeout_ms));
                Outcome::TestFinished(match &case.body {
                    Body::Pass => RunOutcome::Passed,
                    Body::Fail(cause) => RunOutcome::Failed(cause.to_string()),
                    Body::Hang => RunOutcome::TimedOut,
                    Body::Panic(text) => RunOutcome::Panicked(text.map(|t| t.to_string())),
                })
            }
            Action::AfterEach { test } => {
                let case = &current.expect("a suite is open").cases[test];
                calls.push(format!("after_each {}", case.name));
                Outcome::HookFinished(status(&case.after_each))
            }
            Action::AfterAll => {
                let suite = current.take().expect("a suite is open");
                calls.push(format!("after_all {}", suite.name));
                Outcome::HookFinished(status(&suite.after_all))
            }
            Action::Finish => break,
        };
        assert!(!run.is_finished());
        let next = run.handle(outcome);
        run = next.0;
        step = next.1;
    }
    assert!(run.is_finished());
    Report { results: run.into_results(), events, calls }
}

fn config() -> TestRunnerConfiguration {
    TestRunnerConfiguration::default()
}

fn passed(name: &str) -> TestResult {
    TestResult::new(name.to_string())
}

fn ignored(name: &str) -> TestResult {
    let mut result = TestResult::new(name.to_string());
    result.set_ignored(true);
    result
}

fn failed(name: &str, error: TestError) -> TestResult {
    let mut result = TestResult::new(name.to_string());
    result.set_error(error);
    result
}

fn suite_result(name: &str, tests: Vec<TestResult>, error: Option<TestError>) -> TestSuiteResult {
    let mut result = TestSuiteResult::new(name.to_string());
    for test in tests {
        result.add_test_result(test);
    }
    if let Some(error) = error {
        result.set_error(error);
    }
    result
}

fn names(names: &[&str]) -> Vec<String> {
    names.iter().map(|n| n.to_string()).collect()
}

#[test]
fn run_test() {
    let suites = [suite("My test suite", vec![case("First test"), case("Second test")])];
    let report = play(config(), &suites);
    assert_eq!(
        report.results,
        vec![suite_result(
            "My test suite",
            vec![passed("First test"), passed("Second test")],
            None
        )]
    );
    assert!(report.results[0].passed);
}

#[test]
fn run_without_suites_is_over_at_once() {
    let (run, step) = TestRunner::new().run();
    assert_eq!(step.action, Action::Finish);
    assert!(step.events.is_empty());
    assert!(run.is_finished());
    assert!(run.into_results().is_empty());
}

#[test]
fn hooks_and_tests_are_called_in_order() {
    let suites = [suite("S", vec![case("a"), case("b")])];
    let report = play(config(), &suites);
    assert_eq!(
        report.calls,
        names(&[
            "create S",
            "before_all S",
            "tests S",
            "before_each a",
            "run a within 60000 ms",
            "after_each a",
            "before_each b",
            "run b within 60000 ms",
            "after_each b",
            "after_all S",
        ])
    );
}

#[test]
fn events_of_a_passing_suite() {
    let suites = [suite("S", vec![case("a"), case("b")])];
    let report = play(config(), &suites);
    assert_eq!(
        report.events,
        vec![
            ReportEvent::TestSuiteCreationStarted("S".to_string()),
            ReportEvent::TestSuiteCreationFinished("S".to_string(), None),
            ReportEvent::TestSuiteStart("S".to_string()),
            ReportEvent::TestStart("a".to_string()),
            ReportEvent::TestEnd("a".to_string(), None),
            ReportEvent::TestStart("b".to_string()),
            ReportEvent::TestEnd("b".to_string(), None),
            ReportEvent::TestSuiteEnd(
                "S".to_string(),
                suite_result("S", vec![passed("a"), passed("b")], None)
            ),
        ]
    );
}

#[test]
fn tests_are_listed_once_per_suite() {
    let suites = [suite("S", vec![case("a"), case("b"), case("c")]), suite("T", vec![case("d")])];
    let report = play(config(), &suites);
    assert_eq!(report.calls.iter().filter(|c| c.as_str() == "tests S").count(), 1);
    assert_eq!(report.calls.iter().filter(|c| c.as_str() == "tests T").count(), 1);
}

#[test]
fn suites_run_in_the_order_of_registration() {
    let suites = [suite("S", vec![case("a")]), suite("T", vec![]), suite("U", vec![case("b")])];
    let report = play(config(), &suites);
    let order: Vec<&str> = report.results.iter().map(|r| r.name.as_str()).collect();
    assert_eq!(order, vec!["S", "T", "U"]);
    assert_eq!(report.results[1], suite_result("T", vec![], None));
    assert!(report.results.iter().all(|r| r.passed));
}

#[test]
fn configured_timeout_is_handed_to_the_host() {
    let suites = [suite("S", vec![case("a")])];
    let report = play(config().with_timeout(1_500), &suites);
    assert!(report.calls.contains(&"run a within 1500 ms".to_string()));
}

#[test]
fn only_pushes_the_other_tests_aside() {
    let mut a = case("A");
    a.only = true;
    let b = case("B");
    let mut c = case("C");
    c.ignore = true;
    let report = play(config(), &[suite("S", vec![a, b, c])]);
    assert_eq!(
        report.results,
        vec![suite_result("S", vec![passed("A"), ignored("B"), ignored("C")], None)]
    );
    assert_eq!(report.results[0].tests.iter().filter(|t| !t.ignored).count(), 1);
    assert_eq!(
        report.calls,
        names(&[
            "create S",
            "before_all S",
            "tests S",
            "before_each A",
            "run A within 60000 ms",
            "after_each A",
            "after_all S"
        ])
    );
}

#[test]
fn only_pushes_aside_whatever_marks_the_others_carry() {
    for run_ignored in [false, true] {
        for b_ignored in [false, true] {
            for c_ignored in [false, true] {
                let mut a = case("A");
                a.only = true;
                let mut b = case("B");
                b.ignore = b_ignored;
                let mut c = case("C");
                c.ignore = c_ignored;
                let report =
                    play(config().with_run_ignored(run_ignored), &[suite("S", vec![a, b, c])]);
                assert_eq!(
                    report.results,
                    vec![suite_result("S", vec![passed("A"), ignored("B"), ignored("C")], None)]
                );
                assert_eq!(report.calls.iter().filter(|c| c.starts_with("run ")).count(), 1);
            }
        }
    }
}

#[test]
fn records_mirror_the_listed_tests() {
    let mut bad = case("bad");
    bad.body = Body::Fail("boom");
    let mut skipped = case("skipped");
    skipped.ignore = true;
    let mut stuck = case("stuck");
    stuck.before_each = Err("no session");
    let cases = vec![case("a"), skipped, case("b"), stuck, case("c"), bad, case("d")];
    let report = play(config(), &[suite("S", cases.clone())]);
    let records = &report.results[0].tests;
    assert_eq!(records.len(), cases.len());
    for (record, case) in records.iter().zip(&cases) {
        assert_eq!(record.name, case.name);
        assert_eq!(record.ignored, case.ignore);
        assert!(!record.ignored || record.error.is_none());
    }
    let report = play(config().with_fail_fast(true), &[suite("S", cases.clone())]);
    let records = &report.results[0].tests;
    assert_eq!(records.len(), 4);
    assert!(records[..3].iter().all(|r| r.passed()));
    assert!(!records[3].passed());
    for (record, case) in records.iter().zip(&cases) {
        assert_eq!(record.name, case.name);
        assert_eq!(record.ignored, case.ignore);
    }
}

#[test]
fn only_pushes_aside_whatever_the_run_says_of_ignored_tests() {
    let a = case("A");
    let mut b = case("B");
    b.only = true;
    let mut c = case("C");
    c.ignore = true;
    let report = play(config().with_run_ignored(true), &[suite("S", vec![a, b, c])]);
    assert_eq!(
        report.results[0].tests,
        vec![ignored("A"), passed("B"), ignored("C")]
    );
}

#[test]
fn fail_fast_drops_the_tests_behind_the_failure() {
    let mut second = case("second");
    second.body = Body::Fail("boom");
    let suites = [suite("S", vec![case("first"), second, case("third")])];
    let report = play(config().with_fail_fast(true), &suites);
    assert_eq!(report.results.len(), 1);
    let result = &report.results[0];
    assert_eq!(result.tests.len(), 2);
    assert_eq!(
        result.tests,
        vec![
            passed("first"),
            failed("second", TestError::Test("second".to_string(), "boom".to_string()))
        ]
    );
    assert!(!result.tests.iter().any(|t| t.name == "third"));
    assert!(!result.passed);
    assert!(!report.calls.iter().any(|c| c.contains("third")));
}

#[test]
fn fail_fast_skips_after_each_of_the_failed_test() {
    let mut second = case("second");
    second.body = Body::Fail("boom");
    let suites = [suite("S", vec![case("first"), second, case("third")])];
    let report = play(config().with_fail_fast(true), &suites);
    assert_eq!(
        report.calls,
        names(&[
            "create S",
            "before_all S",
            "tests S",
            "before_each first",
            "run first within 60000 ms",
            "after_each first",
            "before_each second",
            "run second within 60000 ms",
            "after_all S",
        ])
    );
}

#[test]
fn fail_fast_drops_the_suites_behind_the_failure() {
    let mut bad = case("bad");
    bad.body = Body::Fail("boom");
    let suites = [suite("S", vec![case("a")]), suite("T", vec![bad]), suite("U", vec![case("c")])];
    let report = play(config().with_fail_fast(true), &suites);
    let order: Vec<&str> = report.results.iter().map(|r| r.name.as_str()).collect();
    assert_eq!(order, vec!["S", "T"]);
    assert!(report.results[0].passed);
    assert!(!report.results[1].passed);
    assert!(!report.calls.iter().any(|c| c.contains(" U")));
    assert!(!report.events.iter().any(|e| matches!(e, ReportEvent::TestSuiteCreationStarted(n) if n == "U")));
}

#[test]
fn without_fail_fast_a_failure_stops_nothing() {
    let mut second = case("second");
    second.body = Body::Fail("boom");
    let suites = [suite("S", vec![case("first"), second, case("third")]), suite("T", vec![case("x")])];
    let report = play(config(), &suites);
    assert_eq!(report.results.len(), 2);
    assert_eq!(report.results[0].tests.len(), 3);
    assert!(report.results[0].tests[2].passed());
    assert!(!report.results[0].passed);
    assert!(report.results[1].passed);
    assert!(report.calls.contains(&"after_each second".to_string()));
}

#[test]
fn timeout_is_reported_and_the_run_goes_on() {
    let mut slow = case("slow");
    slow.body = Body::Hang;
    let suites = [suite("S", vec![slow, case("next")])];
    let report = play(config().with_timeout(20), &suites);
    let result = &report.results[0];
    assert_eq!(result.tests, vec![failed("slow", TestError::Timeout(20)), passed("next")]);
    assert_eq!(
        result.tests[0].error.as_ref().map(|e| e.message()),
        Some("Test failed: Test timed out after 20ms".to_string())
    );
    assert!(!result.passed);
    assert!(report.calls.contains(&"run next within 20 ms".to_string()));
    assert!(report.calls.contains(&"after_each slow".to_string()));
}

#[test]
fn timeout_names_the_default_duration() {
    let mut slow = case("slow");
    slow.body = Body::Hang;
    let report = play(config(), &[suite("S", vec![slow])]);
    assert_eq!(report.results[0].tests[0].error, Some(TestError::Timeout(60_000)));
}

#[test]
fn panic_is_reported_and_the_run_goes_on() {
    let mut wild = case("wild");
    wild.body = Body::Panic(Some("Panics must be caught"));
    let mut mute = case("mute");
    mute.body = Body::Panic(None);
    let suites = [suite("S", vec![wild, mute, case("next")])];
    let report = play(config(), &suites);
    let result = &report.results[0];
    assert_eq!(
        result.tests,
        vec![
            failed(
                "wild",
                TestError::AbnormalTermination(Some("Panics must be caught".to_string()))
            ),
            failed("mute", TestError::AbnormalTermination(None)),
            passed("next"),
        ]
    );
    assert!(report.calls.contains(&"run next within 60000 ms".to_string()));
}

#[test]
fn end_to_end() {
    let t1 = case("T1");
    let mut t2 = case("T2");
    t2.ignore = true;
    let mut t3 = case("T3");
    t3.body = Body::Panic(Some("Panics must be caught"));
    let report = play(config(), &[suite("S", vec![t1, t2, t3])]);
    assert_eq!(report.results.len(), 1);
    let result = &report.results[0];
    assert_eq!(result.name, "S");
    assert!(!result.passed);
    assert!(result.error.is_none());
    assert_eq!(result.tests.len(), 3);
    assert_eq!(result.tests[0], passed("T1"));
    assert_eq!(result.tests[1], ignored("T2"));
    assert_eq!(result.tests[2].name, "T3");
    assert!(!result.tests[2].ignored);
    let message = result.tests[2].error.as_ref().expect("T3 failed").message();
    assert!(message.contains("abnormally"));
    assert!(message.contains("Panics must be caught"));
}

#[test]
fn ignored_tests_trigger_no_hooks() {
    let mut a = case("a");
    a.ignore = true;
    let mut c = case("c");
    c.ignore = true;
    let suites = [suite("S", vec![a, case("b"), c])];
    let report = play(config(), &suites);
    assert_eq!(
        report.calls,
        names(&[
            "create S",
            "before_all S",
            "tests S",
            "before_each b",
            "run b within 60000 ms",
            "after_each b",
            "after_all S",
        ])
    );
    assert_eq!(report.results[0].tests, vec![ignored("a"), passed("b"), ignored("c")]);
    assert_eq!(
        report.events,
        vec![
            ReportEvent::TestSuiteCreationStarted("S".to_string()),
            ReportEvent::TestSuiteCreationFinished("S".to_string(), None),
            ReportEvent::TestSuiteStart("S".to_string()),
            ReportEvent::TestIgnored("a".to_string()),
            ReportEvent::TestStart("b".to_string()),
            ReportEvent::TestEnd("b".to_string(), None),
            ReportEvent::TestIgnored("c".to_string()),
            ReportEvent::TestSuiteEnd(
                "S".to_string(),
                suite_result("S", vec![ignored("a"), passed("b"), ignored("c")], None)
            ),
        ]
    );
}

#[test]
fn suite_of_ignored_tests_still_runs_its_own_hooks() {
    let mut a = case("a");
    a.ignore = true;
    let report = play(config(), &[suite("S", vec![a])]);
    assert_eq!(report.calls, names(&["create S", "before_all S", "tests S", "after_all S"]));
    assert!(report.results[0].passed);
}

#[test]
fn run_ignored_runs_the_ignored_tests() {
    let mut a = case("a");
    a.ignore = true;
    let report = play(config().with_run_ignored(true), &[suite("S", vec![a, case("b")])]);
    assert_eq!(report.results[0].tests, vec![passed("a"), passed("b")]);
    assert!(report.calls.contains(&"run a within 60000 ms".to_string()));
}

#[test]
fn suite_filter_leaves_suites_out_without_a_trace_in_the_results() {
    let suites = [suite("Login", vec![case("a")]), suite("Payments", vec![case("b")])];
    let filter = NameFilter::new("^Pay").expect("the pattern compiles");
    let report = play(config().with_test_suite_filter(filter), &suites);
    assert_eq!(report.results, vec![suite_result("Payments", vec![passed("b")], None)]);
    assert!(!report.calls.iter().any(|c| c.contains("Login")));
    assert_eq!(report.events[0], ReportEvent::TestSuiteIgnored("Login".to_string()));
    assert_eq!(report.events[1], ReportEvent::TestSuiteCreationStarted("Payments".to_string()));
}

#[test]
fn suite_filter_that_selects_nothing_gives_no_results() {
    let suites = [suite("Login", vec![case("a")]), suite("Payments", vec![case("b")])];
    let filter = NameFilter::new("^Nothing$").expect("the pattern compiles");
    let report = play(config().with_test_suite_filter(filter), &suites);
    assert!(report.results.is_empty());
    assert!(report.calls.is_empty());
    assert_eq!(
        report.events,
        vec![
            ReportEvent::TestSuiteIgnored("Login".to_string()),
            ReportEvent::TestSuiteIgnored("Payments".to_string()),
        ]
    );
}

#[test]
fn case_filter_marks_the_other_tests_ignored() {
    let suites = [suite("S", vec![case("charge"), case("full refund"), case("partial refund")])];
    let filter = NameFilter::new("refund").expect("the pattern compiles");
    let report = play(config().with_test_case_filter(filter), &suites);
    assert_eq!(
        report.results[0].tests,
        vec![ignored("charge"), passed("full refund"), passed("partial refund")]
    );
    assert!(!report.calls.iter().any(|c| c.contains("charge")));
}

#[test]
fn filters_that_match_everything_change_nothing() {
    let mut bad = case("bad");
    bad.body = Body::Fail("boom");
    let mut skipped = case("skipped");
    skipped.ignore = true;
    let suites = [
        suite("Login", vec![case("a"), bad, skipped]),
        Suite { create: Err("no database"), ..suite("Payments", vec![case("b")]) },
        suite("", vec![case("")]),
    ];
    let plain = play(config(), &suites);
    let everything = NameFilter::new("").expect("the pattern compiles");
    let anything = NameFilter::new(".*").expect("the pattern compiles");
    let filtered = play(
        config().with_test_suite_filter(everything).with_test_case_filter(anything),
        &suites,
    );
    assert_eq!(filtered.results, plain.results);
    assert_eq!(filtered.events, plain.events);
    assert_eq!(filtered.calls, plain.calls);
    assert_eq!(plain.results.len(), 3);
}

#[test]
fn failed_creation_is_recorded_and_the_run_goes_on() {
    let suites = [
        Suite { create: Err("no database"), ..suite("S", vec![case("a")]) },
        suite("T", vec![case("b")]),
    ];
    let report = play(config(), &suites);
    assert_eq!(
        report.results,
        vec![
            suite_result("S", vec![], Some(TestError::CreateSuite("no database".to_string()))),
            suite_result("T", vec![passed("b")], None),
        ]
    );
    assert!(!report.results[0].passed);
    assert_eq!(&report.calls[..2], &names(&["create S", "create T"])[..]);
    assert_eq!(
        &report.events[..3],
        &[
            ReportEvent::TestSuiteCreationStarted("S".to_string()),
            ReportEvent::TestSuiteCreationFinished(
                "S".to_string(),
                Some(TestError::CreateSuite("no database".to_string()))
            ),
            ReportEvent::TestSuiteCreationStarted("T".to_string()),
        ]
    );
}

#[test]
fn failed_creation_stops_a_run_that_fails_fast() {
    let suites = [
        Suite { create: Err("no database"), ..suite("S", vec![case("a")]) },
        suite("T", vec![case("b")]),
    ];
    let report = play(config().with_fail_fast(true), &suites);
    assert_eq!(
        report.results,
        vec![suite_result("S", vec![], Some(TestError::CreateSuite("no database".to_string())))]
    );
    assert_eq!(report.calls, names(&["create S"]));
}

#[test]
fn failed_before_all_skips_the_tests_and_after_all() {
    let suites = [
        Suite { before_all: Err("no fixtures"), ..suite("S", vec![case("a")]) },
        suite("T", vec![case("b")]),
    ];
    let report = play(config(), &suites);
    assert_eq!(
        report.results[0],
        suite_result("S", vec![], Some(TestError::BeforeAll("no fixtures".to_string())))
    );
    assert_eq!(&report.calls[..3], &names(&["create S", "before_all S", "create T"])[..]);
    assert!(!report.calls.contains(&"after_all S".to_string()));
    assert!(!report.calls.contains(&"tests S".to_string()));
    assert_eq!(
        report.events[3],
        ReportEvent::TestSuiteEnd("S".to_string(), report.results[0].clone())
    );
    assert!(report.results[1].passed);
}

#[test]
fn failed_before_each_skips_the_body_and_after_each() {
    let mut a = case("a");
    a.before_each = Err("no session");
    let report = play(config(), &[suite("S", vec![a, case("b")])]);
    assert_eq!(
        report.results[0].tests,
        vec![failed("a", TestError::BeforeEach("no session".to_string())), passed("b")]
    );
    assert!(!report.calls.iter().any(|c| c.starts_with("run a")));
    assert!(!report.calls.contains(&"after_each a".to_string()));
    assert!(report.calls.contains(&"after_each b".to_string()));
    assert!(!report.events.contains(&ReportEvent::TestStart("a".to_string())));
    assert!(!report.events.iter().any(|e| matches!(e, ReportEvent::TestEnd(n, _) if n == "a")));
}

#[test]
fn failed_before_each_stops_a_suite_that_fails_fast() {
    let mut a = case("a");
    a.before_each = Err("no session");
    let report = play(config().with_fail_fast(true), &[suite("S", vec![a, case("b")])]);
    assert_eq!(
        report.results[0].tests,
        vec![failed("a", TestError::BeforeEach("no session".to_string()))]
    );
    assert_eq!(
        report.calls,
        names(&["create S", "before_all S", "tests S", "before_each a", "after_all S"])
    );
}

#[test]
fn failed_after_each_fails_a_passing_test() {
    let mut a = case("a");
    a.after_each = Err("leak");
    let report = play(config(), &[suite("S", vec![a])]);
    assert_eq!(
        report.results[0].tests,
        vec![failed("a", TestError::AfterEach("leak".to_string()))]
    );
    assert!(!report.results[0].passed);
    assert!(report.events.contains(&ReportEvent::TestEnd("a".to_string(), None)));
}

#[test]
fn failed_after_each_replaces_the_failure_of_the_body() {
    let mut a = case("a");
    a.body = Body::Fail("boom");
    a.after_each = Err("leak");
    let report = play(config(), &[suite("S", vec![a])]);
    assert_eq!(
        report.results[0].tests,
        vec![failed("a", TestError::AfterEach("leak".to_string()))]
    );
    assert!(report.events.contains(&ReportEvent::TestEnd(
        "a".to_string(),
        Some(TestError::Test("a".to_string(), "boom".to_string()))
    )));
}

#[test]
fn after_each_keeps_the_failure_of_the_body() {
    let mut a = case("a");
    a.body = Body::Fail("boom");
    let report = play(config(), &[suite("S", vec![a])]);
    assert_eq!(
        report.results[0].tests,
        vec![failed("a", TestError::Test("a".to_string(), "boom".to_string()))]
    );
    assert!(report.calls.contains(&"after_each a".to_string()));
}

#[test]
fn failed_after_all_fails_the_suite_and_keeps_the_tests() {
    let suites = [Suite { after_all: Err("leak"), ..suite("S", vec![case("a"), case("b")]) }];
    let report = play(config(), &suites);
    assert_eq!(
        report.results,
        vec![suite_result(
            "S",
            vec![passed("a"), passed("b")],
            Some(TestError::AfterAll("leak".to_string()))
        )]
    );
    assert!(!report.results[0].passed);
}

#[test]
fn after_all_runs_even_when_the_suite_failed_fast() {
    let mut a = case("a");
    a.body = Body::Hang;
    let suites = [Suite { after_all: Err("leak"), ..suite("S", vec![a, case("b")]) }];
    let report = play(config().with_fail_fast(true).with_timeout(7), &suites);
    assert_eq!(
        report.results,
        vec![suite_result(
            "S",
            vec![failed("a", TestError::Timeout(7))],
            Some(TestError::AfterAll("leak".to_string()))
        )]
    );
    assert_eq!(report.calls.last(), Some(&"after_all S".to_string()));
}

#[test]
fn passed_is_unset_exactly_for_suites_with_a_failure() {
    let mut bad = case("bad");
    bad.body = Body::Fail("boom");
    let mut skipped = case("skipped");
    skipped.ignore = true;
    let suites = [
        suite("fine", vec![case("a"), skipped.clone()]),
        suite("one bad test", vec![case("a"), bad]),
        Suite { after_all: Err("leak"), ..suite("bad hook", vec![case("a")]) },
        Suite { create: Err("no"), ..suite("not created", vec![]) },
        suite("empty", vec![]),
        suite("all skipped", vec![skipped]),
    ];
    let report = play(config(), &suites);
    assert_eq!(report.results.len(), 6);
    for result in &report.results {
        let failed_test = result.tests.iter().any(|t| t.error.is_some());
        assert_eq!(!result.passed, result.error.is_some() || failed_test, "{}", result.name);
    }
    let flags: Vec<bool> = report.results.iter().map(|r| r.passed).collect();
    assert_eq!(flags, vec![true, false, false, false, true, true]);
}

#[test]
fn outcome_that_was_not_asked_for_changes_nothing() {
    let mut runner = TestRunner::new();
    runner.add_suite("S".to_string());
    let (run, step) = runner.run();
    assert_eq!(step.action, Action::CreateSuite { suite: 0 });
    let (run, step) = run.handle(Outcome::HookFinished(Ok(())));
    assert_eq!(step.action, Action::CreateSuite { suite: 0 });
    assert!(step.events.is_empty());
    let (run, step) = run.handle(Outcome::TestFinished(RunOutcome::Passed));
    assert_eq!(step.action, Action::CreateSuite { suite: 0 });
    assert!(step.events.is_empty());
    let (run, step) = run.handle(Outcome::TestsListed(vec![TestInfo::new("a".to_string())]));
    assert_eq!(step.action, Action::CreateSuite { suite: 0 });
    assert!(step.events.is_empty());
    assert!(run.results().is_empty());
    let (run, step) = run.handle(Outcome::SuiteCreated(Ok(())));
    assert_eq!(step.action, Action::BeforeAll);
    assert_eq!(step.events.len(), 2);
    let (_, step) = run.handle(Outcome::SuiteCreated(Ok(())));
    assert_eq!(step.action, Action::BeforeAll);
    assert!(step.events.is_empty());
}

#[test]
fn results_grow_while_the_run_lasts() {
    let mut runner = TestRunner::new();
    runner.add_suite("S".to_string());
    runner.add_suite("T".to_string());
    let (run, _) = runner.run();
    assert!(run.results().is_empty());
    let (run, step) = run.handle(Outcome::SuiteCreated(Err("no".to_string())));
    assert_eq!(step.action, Action::CreateSuite { suite: 1 });
    assert_eq!(run.results().len(), 1);
    assert_eq!(run.results()[0].name, "S");
    let (run, step) = run.handle(Outcome::SuiteCreated(Ok(())));
    assert_eq!(step.action, Action::BeforeAll);
    let (run, step) = run.handle(Outcome::HookFinished(Ok(())));
    assert_eq!(step.action, Action::ListTests);
    let (run, step) = run.handle(Outcome::TestsListed(Vec::new()));
    assert_eq!(step.action, Action::AfterAll);
    assert_eq!(run.results().len(), 1);
    let (run, step) = run.handle(Outcome::HookFinished(Ok(())));
    assert_eq!(step.action, Action::Finish);
    assert_eq!(run.results().len(), 2);
    assert!(run.is_finished());
}

#[test]
fn runner_keeps_its_settings() {
    let runner = TestRunner::new();
    assert_eq!(runner.runner_config().timeout(), 60_000);
    let runner = runner.with_runner_config(config().with_timeout(3).with_fail_fast(true));
    assert_eq!(runner.runner_config().timeout(), 3);
    assert!(runner.runner_config().fail_fast());
}

// Where a reporter stands, for the check of the order of events below.
#[derive(Debug, PartialEq)]
enum Stage {
    Idle,
    Creating(String),
    Created(String),
    InSuite(String),
    InTest(String, String),
}

fn follow(stage: Stage, event: &ReportEvent) -> Stage {
    match (stage, event) {
        (Stage::Idle, ReportEvent::TestSuiteIgnored(_)) => Stage::Idle,
        (Stage::Idle, ReportEvent::TestSuiteCreationStarted(name)) => Stage::Creating(name.clone()),
        (Stage::Creating(suite), ReportEvent::TestSuiteCreationFinished(name, error)) => {
            assert_eq!(name, &suite);
            if error.is_some() {
                Stage::Idle
            } else {
                Stage::Created(suite)
            }
        }
        (Stage::Created(suite), ReportEvent::TestSuiteStart(name)) => {
            assert_eq!(name, &suite);
            Stage::InSuite(suite)
        }
        (Stage::InSuite(suite), ReportEvent::TestIgnored(_)) => Stage::InSuite(suite),
        (Stage::InSuite(suite), ReportEvent::TestStart(test)) => Stage::InTest(suite, test.clone()),
        (Stage::InTest(suite, test), ReportEvent::TestEnd(name, _)) => {
            assert_eq!(name, &test);
            Stage::InSuite(suite)
        }
        (Stage::InSuite(suite), ReportEvent::TestSuiteEnd(name, result)) => {
            assert_eq!(name, &suite);
            assert_eq!(result.name, suite);
            Stage::Idle
        }
        (stage, event) => panic!("{:?} may not come at {:?}", event, stage),
    }
}

#[test]
fn events_come_in_the_order_a_reporter_expects() {
    let mut bad = case("bad");
    bad.body = Body::Fail("boom");
    let mut skipped = case("skipped");
    skipped.ignore = true;
    let mut stuck = case("stuck");
    stuck.before_each = Err("no session");
    let mut leaky = case("leaky");
    leaky.after_each = Err("leak");
    let suites = [
        suite("plain", vec![case("a"), skipped.clone(), case("b")]),
        Suite { create: Err("no database"), ..suite("not created", vec![case("a")]) },
        Suite { before_all: Err("no fixtures"), ..suite("not prepared", vec![case("a")]) },
        suite("mixed", vec![skipped, stuck, bad, leaky, case("z")]),
        Suite { after_all: Err("leak"), ..suite("not cleaned", vec![]) },
        suite("left out", vec![case("a")]),
    ];
    let filter = NameFilter::new("^[^l]").expect("the pattern compiles");
    for fail_fast in [false, true] {
        for run_ignored in [false, true] {
            let config = config()
                .with_fail_fast(fail_fast)
                .with_run_ignored(run_ignored)
                .with_test_suite_filter(filter.clone());
            let report = play(config, &suites);
            let mut stage = Stage::Idle;
            for event in &report.events {
                stage = follow(stage, event);
            }
            assert_eq!(stage, Stage::Idle);
            let ended = report
                .events
                .iter()
                .filter(|e| matches!(e, ReportEvent::TestSuiteEnd(..)))
                .count();
            let not_created = report
                .results
                .iter()
                .filter(|r| matches!(r.error, Some(TestError::CreateSuite(_))))
                .count();
            assert_eq!(ended + not_created, report.results.len());
        }
    }
}
