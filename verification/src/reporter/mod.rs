//! Reporters: what is told about a run while it lasts.
use crate::error::TestError;
use crate::protocol::ReportEventView;
use crate::result::TestSuiteResult;
use vstd::prelude::*;

pub mod console;

verus! {

/// A receiver of the events of a run.
///
/// For each suite that takes part, a reporter is told that its creation
/// started and finished and, if it was created, that it started; then, for
/// each of its tests, either that it started and ended or that it was
/// ignored; then that the suite ended. For a suite that is left out it is
/// told only that the suite is ignored.
pub trait Reporter {
    /// The name of the reporter.
    fn name(&self) -> &'static str;

    /// The factory of the suite `name` is about to be asked for the suite.
    fn on_test_suite_creation_started(&mut self, name: &str);

    /// The factory of the suite `name` returned, with `error` if it failed.
    fn on_test_suite_creation_finished(&mut self, name: &str, error: Option<&TestError>);

    /// The suite `name` is left out of the run.
    fn on_test_suite_ignored(&mut self, name: &str);

    /// The suite `name` starts to execute.
    fn on_test_suite_start(&mut self, name: &str);

    /// The suite `name` has been executed, with `result`.
    fn on_test_suite_end(&mut self, name: &str, result: &TestSuiteResult);

    /// The body of the test `name` is about to run.
    fn on_test_start(&mut self, name: &str);

    /// The test `name` is left out of the run.
    fn on_test_ignored(&mut self, name: &str);

    /// The body of the test `name` ended, with `error` if it failed.
    fn on_test_end(&mut self, name: &str, error: Option<&TestError>);
}

/// Where a reporter stands in the course of a run.
pub enum Stage {
    /// No suite is open.
    Idle,
    /// The suite with this name is being created.
    Creating(Seq<char>),
    /// The suite with this name has been created and has not started yet.
    Created(Seq<char>),
    /// The suite with this name is executing, and none of its tests is
    /// running.
    InSuite(Seq<char>),
    /// The suite with the first name is executing, and its test with the
    /// second name is running.
    InTest(Seq<char>, Seq<char>),
}

/// Where a reporter stands after `event`, if the event may come at `stage`
/// at all.
///
/// While no suite is open, a suite may be reported as ignored, or the
/// creation of a suite may start. The creation finishes for the same suite;
/// if it failed, the suite is closed again, and otherwise the suite starts.
/// In a suite that has started, a test may be reported as ignored, or a test
/// may start, which then ends under the same name; and the suite ends, with
/// a result that carries its name.
pub open spec fn after_event(stage: Stage, event: ReportEventView) -> Option<Stage> {
    match (stage, event) {
        (Stage::Idle, ReportEventView::TestSuiteIgnored(_)) => Some(Stage::Idle),
        (Stage::Idle, ReportEventView::TestSuiteCreationStarted(name)) => Some(
            Stage::Creating(name),
        ),
        (Stage::Creating(suite), ReportEventView::TestSuiteCreationFinished(name, error)) => {
            if name != suite {
                None
            } else if error is Some {
                Some(Stage::Idle)
            } else {
                Some(Stage::Created(suite))
            }
        },
        (Stage::Created(suite), ReportEventView::TestSuiteStart(name)) => {
            if name == suite {
                Some(Stage::InSuite(suite))
            } else {
                None
            }
        },
        (Stage::InSuite(suite), ReportEventView::TestIgnored(_)) => Some(Stage::InSuite(suite)),
        (Stage::InSuite(suite), ReportEventView::TestStart(test)) => Some(
            Stage::InTest(suite, test),
        ),
        (Stage::InTest(suite, test), ReportEventView::TestEnd(name, _)) => {
            if name == test {
                Some(Stage::InSuite(suite))
            } else {
                None
            }
        },
        (Stage::InSuite(suite), ReportEventView::TestSuiteEnd(name, result)) => {
            if name == suite && result.name == suite {
                Some(Stage::Idle)
            } else {
                None
            }
        },
        _ => None,
    }
}

/// Where a reporter stands after `events`, one after the other, if they may
/// come in this order from `stage` on.
pub open spec fn after_events(stage: Stage, events: Seq<ReportEventView>) -> Option<Stage>
    decreases events.len(),
{
    if events.len() == 0 {
        Some(stage)
    } else {
        match after_event(stage, events[0]) {
            Some(next) => after_events(next, events.drop_first()),
            None => None,
        }
    }
}

} // verus!
