//! A reporter that keeps a live view of the run for a terminal.
//!
//! The view has one line for each suite and one for each of its tests,
//! followed by the lines of their failures. Whenever something changes, the
//! whole view is drawn again in place of the lines drawn before.
use crate::error::{TestError, TestErrorView};
use crate::protocol::{ReportEvent, ReportEventView};
use crate::reporter::Reporter;
use crate::result::{TestSuiteResult, TestSuiteResultView};
use crate::text::{lines, split_lines, texts_view};
use vstd::prelude::*;
use vstd::string::*;

verus! {

/// How far a test has come.
#[derive(Debug, Clone, Copy, PartialEq, Eq, Structural)]
pub enum TestStateMarker {
    Running,
    Ignored,
    Error,
    Success,
}

impl TestStateMarker {
    /// The sign that stands for the marker.
    pub open spec fn sign(self) -> Seq<char> {
        match self {
            TestStateMarker::Running => "\u{25B6}\u{FE0F}"@,
            TestStateMarker::Ignored => "\u{23ED}\u{FE0F}"@,
            TestStateMarker::Error => "\u{274C}"@,
            TestStateMarker::Success => "\u{2705}"@,
        }
    }

    /// The sign that stands for the marker.
    pub fn emoji(&self) -> (sign: &'static str)
        ensures
            sign@ == self.sign(),
    {
        match self {
            TestStateMarker::Running => "\u{25B6}\u{FE0F}",
            TestStateMarker::Ignored => "\u{23ED}\u{FE0F}",
            TestStateMarker::Error => "\u{274C}",
            TestStateMarker::Success => "\u{2705}",
        }
    }
}

/// How far a suite has come.
#[derive(Debug, Clone, Copy, PartialEq, Eq, Structural)]
pub enum TestSuiteStateMarker {
    Creating,
    Running,
    Ignored,
    Error,
    Success,
}

impl TestSuiteStateMarker {
    /// The marker of a suite that has ended: success if the suite has
    /// passed, and failure if it has not.
    pub open spec fn ended(passed: bool) -> TestSuiteStateMarker {
        if passed {
            TestSuiteStateMarker::Success
        } else {
            TestSuiteStateMarker::Error
        }
    }

    /// The sign that stands for the marker.
    pub open spec fn sign(self) -> Seq<char> {
        match self {
            TestSuiteStateMarker::Creating => "\u{1F527}"@,
            TestSuiteStateMarker::Running => "\u{25B6}\u{FE0F}"@,
            TestSuiteStateMarker::Ignored => "\u{23ED}\u{FE0F}"@,
            TestSuiteStateMarker::Error => "\u{274C}"@,
            TestSuiteStateMarker::Success => "\u{2705}"@,
        }
    }

    /// The sign that stands for the marker.
    pub fn emoji(&self) -> (sign: &'static str)
        ensures
            sign@ == self.sign(),
    {
        match self {
            TestSuiteStateMarker::Creating => "\u{1F527}",
            TestSuiteStateMarker::Running => "\u{25B6}\u{FE0F}",
            TestSuiteStateMarker::Ignored => "\u{23ED}\u{FE0F}",
            TestSuiteStateMarker::Error => "\u{274C}",
            TestSuiteStateMarker::Success => "\u{2705}",
        }
    }
}

/// What the view shows of a test.
#[derive(Debug, PartialEq, Eq)]
pub struct TestState {
    pub marker: TestStateMarker,
    pub name: String,
    /// The message of the failure of the test, if it failed.
    pub error: Option<String>,
}

/// The mathematical value of a [`TestState`].
pub struct TestStateView {
    pub marker: TestStateMarker,
    pub name: Seq<char>,
    pub error: Option<Seq<char>>,
}

/// The mathematical value of an optional text.
pub open spec fn text_view(text: Option<String>) -> Option<Seq<char>> {
    match text {
        Some(t) => Some(t@),
        None => None,
    }
}

impl View for TestState {
    type V = TestStateView;

    open spec fn view(&self) -> TestStateView {
        TestStateView { marker: self.marker, name: self.name@, error: text_view(self.error) }
    }
}

/// The mathematical values of a list of test states, in order.
pub open spec fn test_states_view(tests: Seq<TestState>) -> Seq<TestStateView> {
    Seq::new(tests.len(), |i: int| tests[i]@)
}

/// What the view shows of a suite.
#[derive(Debug, PartialEq, Eq)]
pub struct TestSuiteState {
    pub name: String,
    pub marker: TestSuiteStateMarker,
    /// The tests of the suite that the reporter has heard of, in that order.
    pub tests: Vec<TestState>,
    /// The message of the failure of the suite itself, if it failed.
    pub error: Option<String>,
}

/// The mathematical value of a [`TestSuiteState`].
pub struct TestSuiteStateView {
    pub name: Seq<char>,
    pub marker: TestSuiteStateMarker,
    pub tests: Seq<TestStateView>,
    pub error: Option<Seq<char>>,
}

impl View for TestSuiteState {
    type V = TestSuiteStateView;

    open spec fn view(&self) -> TestSuiteStateView {
        TestSuiteStateView {
            name: self.name@,
            marker: self.marker,
            tests: test_states_view(self.tests@),
            error: text_view(self.error),
        }
    }
}

/// The mathematical values of a list of suite states, in order.
pub open spec fn suite_states_view(suites: Seq<TestSuiteState>) -> Seq<TestSuiteStateView> {
    Seq::new(suites.len(), |i: int| suites[i]@)
}

/// Each of `lines` with `prefix` in front of it.
pub open spec fn prefixed(prefix: Seq<char>, lines: Seq<Seq<char>>) -> Seq<Seq<char>> {
    Seq::new(lines.len(), |i: int| prefix + lines[i])
}

impl TestStateView {
    /// The lines that show the test: its sign and name, and below them the
    /// lines of its failure, if it failed.
    pub open spec fn lines(self) -> Seq<Seq<char>> {
        match self.error {
            Some(error) => seq!["  - "@ + self.marker.sign() + " "@ + self.name + " error:"@]
                + prefixed("    | "@, split_lines(error)),
            None => seq!["  - "@ + self.marker.sign() + " "@ + self.name],
        }
    }
}

/// The lines that show `tests`, one test after the other.
pub open spec fn tests_lines(tests: Seq<TestStateView>) -> Seq<Seq<char>>
    decreases tests.len(),
{
    if tests.len() == 0 {
        Seq::empty()
    } else {
        tests_lines(tests.drop_last()) + tests.last().lines()
    }
}

impl TestSuiteStateView {
    /// The lines that show the suite itself: its sign and name, and below
    /// them the lines of its failure, if it failed.
    pub open spec fn head(self) -> Seq<Seq<char>> {
        let title = self.marker.sign() + " Test Suite: "@ + self.name;
        match self.error {
            Some(error) => seq![title, "  - Error:"@] + prefixed("    - "@, split_lines(error)),
            None => seq![title],
        }
    }

    /// The lines that show the suite and its tests.
    pub open spec fn lines(self) -> Seq<Seq<char>> {
        self.head() + tests_lines(self.tests)
    }
}

/// The whole view: the lines that show `suites`, one suite after the other.
pub open spec fn screen(suites: Seq<TestSuiteStateView>) -> Seq<Seq<char>>
    decreases suites.len(),
{
    if suites.len() == 0 {
        Seq::empty()
    } else {
        screen(suites.drop_last()) + suites.last().lines()
    }
}

// Appends each line of `text` to `out`, with `prefix` in front of it.
fn push_prefixed(out: &mut Vec<String>, prefix: &str, text: &str)
    ensures
        texts_view(final(out)@) == texts_view(old(out)@) + prefixed(prefix@, split_lines(text@)),
{
    let ghost before = texts_view(out@);
    let parts = lines(text);
    let mut i: usize = 0;
    while i < parts.len()
        invariant
            i <= parts.len(),
            before == texts_view(old(out)@),
            texts_view(parts@) == split_lines(text@),
            texts_view(out@) == before + prefixed(prefix@, split_lines(text@).take(i as int)),
        decreases parts.len() - i,
    {
        let ghost shown = texts_view(out@);
        let mut line = prefix.to_owned();
        line.append(parts[i].as_str());
        out.push(line);
        assert(texts_view(out@) =~= shown.push(prefix@ + split_lines(text@)[i as int]));
        i = i + 1;
    }
}

// Appends the lines that show `test` to `out`.
fn push_test(out: &mut Vec<String>, test: &TestState)
    ensures
        texts_view(final(out)@) == texts_view(old(out)@) + test@.lines(),
{
    let mut line = "  - ".to_owned();
    line.append(test.marker.emoji());
    line.append(" ");
    line.append(test.name.as_str());
    match &test.error {
        Some(error) => {
            line.append(" error:");
            out.push(line);
            push_prefixed(out, "    | ", error.as_str());
        },
        None => {
            out.push(line);
        },
    }
}

// Appends the lines that show `suite` and its tests to `out`.
fn push_suite(out: &mut Vec<String>, suite: &TestSuiteState)
    ensures
        texts_view(final(out)@) == texts_view(old(out)@) + suite@.lines(),
{
    let ghost before = texts_view(out@);
    let mut title = suite.marker.emoji().to_owned();
    title.append(" Test Suite: ");
    title.append(suite.name.as_str());
    out.push(title);
    if let Some(error) = &suite.error {
        out.push("  - Error:".to_owned());
        push_prefixed(out, "    - ", error.as_str());
    }
    let ghost tests = test_states_view(suite.tests@);
    let mut i: usize = 0;
    while i < suite.tests.len()
        invariant
            i <= suite.tests.len(),
            before == texts_view(old(out)@),
            tests == test_states_view(suite.tests@),
            texts_view(out@) == before + suite@.head() + tests_lines(tests.take(i as int)),
        decreases suite.tests.len() - i,
    {
        push_test(out, &suite.tests[i]);
        assert(tests.take(i + 1).drop_last() =~= tests.take(i as int));
        i = i + 1;
    }
    assert(tests.take(i as int) =~= tests);
}

/// Draws the whole view: the lines that show `suites`.
pub fn draw(suites: &Vec<TestSuiteState>) -> (out: Vec<String>)
    ensures
        texts_view(out@) == screen(suite_states_view(suites@)),
{
    let ghost states = suite_states_view(suites@);
    let mut out: Vec<String> = Vec::new();
    let mut i: usize = 0;
    while i < suites.len()
        invariant
            i <= suites.len(),
            states == suite_states_view(suites@),
            texts_view(out@) == screen(states.take(i as int)),
        decreases suites.len() - i,
    {
        push_suite(&mut out, &suites[i]);
        assert(states.take(i + 1).drop_last() =~= states.take(i as int));
        i = i + 1;
    }
    assert(states.take(i as int) =~= states);
    out
}

/// One redraw of the view, for the host to carry out on the terminal: first
/// the last `erase` lines are cleared, then `lines` are written, each on a
/// line of its own.
#[derive(Debug, PartialEq, Eq)]
pub struct Frame {
    pub erase: usize,
    pub lines: Vec<String>,
}

/// The mathematical value of a [`Frame`].
pub struct FrameView {
    pub erase: nat,
    pub lines: Seq<Seq<char>>,
}

impl View for Frame {
    type V = FrameView;

    open spec fn view(&self) -> FrameView {
        FrameView { erase: self.erase as nat, lines: texts_view(self.lines@) }
    }
}

/// The mathematical values of a list of frames, in order.
pub open spec fn frames_view(frames: Seq<Frame>) -> Seq<FrameView> {
    Seq::new(frames.len(), |i: int| frames[i]@)
}

/// The position of the first of `suites`, from position `from` on, that is
/// called `name`; the number of suites if there is none.
pub open spec fn suite_position(suites: Seq<TestSuiteStateView>, name: Seq<char>, from: nat) -> nat
    decreases suites.len() - from,
{
    if from >= suites.len() {
        suites.len()
    } else if suites[from as int].name == name {
        from
    } else {
        suite_position(suites, name, from + 1)
    }
}

/// The position of the first of `tests`, from position `from` on, that is
/// called `name`; the number of tests if there is none.
pub open spec fn test_position(tests: Seq<TestStateView>, name: Seq<char>, from: nat) -> nat
    decreases tests.len() - from,
{
    if from >= tests.len() {
        tests.len()
    } else if tests[from as int].name == name {
        from
    } else {
        test_position(tests, name, from + 1)
    }
}

/// A reporter that keeps a live view of the run.
///
/// The reporter does not touch the terminal. Each time the view is to be
/// drawn it puts a [`Frame`] aside, and the host fetches the frames with
/// [`ConsoleReporter::take_frames`] and carries them out.
#[derive(Debug)]
pub struct ConsoleReporter {
    lines_written: usize,
    suites: Vec<TestSuiteState>,
    frames: Vec<Frame>,
}

/// The mathematical value of a [`ConsoleReporter`].
pub struct ConsoleView {
    /// The number of lines of the view as it was drawn last.
    pub lines_written: nat,
    /// The suites that the reporter has heard of, in that order.
    pub suites: Seq<TestSuiteStateView>,
    /// The frames that the host has not fetched yet.
    pub frames: Seq<FrameView>,
}

impl ConsoleView {
    /// The reporter before a run: nothing is shown and nothing was drawn.
    pub open spec fn new() -> ConsoleView {
        ConsoleView { lines_written: 0, suites: Seq::empty(), frames: Seq::empty() }
    }

    /// Draws the view: the lines drawn last are to be cleared and the lines
    /// of the view as it is now are to be written in their place.
    pub open spec fn write(self) -> ConsoleView {
        let lines = screen(self.suites);
        ConsoleView {
            lines_written: lines.len(),
            frames: self.frames.push(FrameView { erase: self.lines_written, lines }),
            ..self
        }
    }

    /// Shows one more suite, without tests or failure.
    pub open spec fn add_test_suite(self, name: Seq<char>, marker: TestSuiteStateMarker) -> ConsoleView {
        ConsoleView {
            suites: self.suites.push(
                TestSuiteStateView { name, marker, tests: Seq::empty(), error: None },
            ),
            ..self
        }
    }

    /// Gives the first suite called `name` a new marker and a new failure,
    /// or none. Without such a suite nothing changes.
    pub open spec fn update_test_suite(
        self,
        name: Seq<char>,
        marker: TestSuiteStateMarker,
        error: Option<Seq<char>>,
    ) -> ConsoleView {
        let at = suite_position(self.suites, name, 0);
        if at < self.suites.len() {
            ConsoleView {
                suites: self.suites.update(
                    at as int,
                    TestSuiteStateView { marker, error, ..self.suites[at as int] },
                ),
                ..self
            }
        } else {
            self
        }
    }

    /// Shows one more test of the last suite, without failure. Without a
    /// suite nothing changes.
    pub open spec fn add_test(self, name: Seq<char>, marker: TestStateMarker) -> ConsoleView {
        if self.suites.len() > 0 {
            let suite = self.suites.last();
            ConsoleView {
                suites: self.suites.update(
                    self.suites.len() - 1,
                    TestSuiteStateView {
                        tests: suite.tests.push(TestStateView { marker, name, error: None }),
                        ..suite
                    },
                ),
                ..self
            }
        } else {
            self
        }
    }

    /// Gives the first test of the last suite that is called `name` a new
    /// marker and a new failure, or none. Without such a test nothing
    /// changes.
    pub open spec fn update_test(
        self,
        name: Seq<char>,
        marker: TestStateMarker,
        error: Option<Seq<char>>,
    ) -> ConsoleView {
        if self.suites.len() > 0 {
            let suite = self.suites.last();
            let at = test_position(suite.tests, name, 0);
            if at < suite.tests.len() {
                ConsoleView {
                    suites: self.suites.update(
                        self.suites.len() - 1,
                        TestSuiteStateView {
                            tests: suite.tests.update(
                                at as int,
                                TestStateView { marker, error, ..suite.tests[at as int] },
                            ),
                            ..suite
                        },
                    ),
                    ..self
                }
            } else {
                self
            }
        } else {
            self
        }
    }

    /// The view brought up to date with an event.
    ///
    /// A suite enters the view when its creation starts, or as ignored. It
    /// shows a failure when its creation failed and runs from its start on.
    /// It ends as a success if its result has passed and as a failure if it
    /// has not, be it for a failure of the suite itself or for a failed
    /// test; below its line stands the message of the failure of the suite
    /// itself, if the result carries one. A test enters the view when it
    /// starts, or as ignored, and ends with its failure or with success.
    pub open spec fn take_in(self, event: ReportEventView) -> ConsoleView {
        match event {
            ReportEventView::TestSuiteCreationStarted(name) => self.add_test_suite(
                name,
                TestSuiteStateMarker::Creating,
            ),
            ReportEventView::TestSuiteCreationFinished(name, Some(error)) => self.update_test_suite(
                name,
                TestSuiteStateMarker::Error,
                Some(error.message()),
            ),
            ReportEventView::TestSuiteCreationFinished(_, None) => self,
            ReportEventView::TestSuiteIgnored(name) => self.add_test_suite(
                name,
                TestSuiteStateMarker::Ignored,
            ),
            ReportEventView::TestSuiteStart(name) => self.update_test_suite(
                name,
                TestSuiteStateMarker::Running,
                None,
            ),
            ReportEventView::TestSuiteEnd(name, result) => self.update_test_suite(
                name,
                TestSuiteStateMarker::ended(result.passed),
                match result.error {
                    Some(error) => Some(error.message()),
                    None => None,
                },
            ),
            ReportEventView::TestStart(name) => self.add_test(name, TestStateMarker::Running),
            ReportEventView::TestIgnored(name) => self.add_test(name, TestStateMarker::Ignored),
            ReportEventView::TestEnd(name, Some(error)) => self.update_test(
                name,
                TestStateMarker::Error,
                Some(error.message()),
            ),
            ReportEventView::TestEnd(name, None) => self.update_test(
                name,
                TestStateMarker::Success,
                None,
            ),
        }
    }

    /// What the reporter makes of an event: it brings the view up to date
    /// and draws it.
    pub open spec fn on_event(self, event: ReportEventView) -> ConsoleView {
        self.take_in(event).write()
    }
}

impl ConsoleView {
    /// Whether the frames that wait to be fetched replace each other: each
    /// one clears as many lines as the one before it wrote, and the last one
    /// wrote as many lines as the reporter remembers.
    pub open spec fn linked(self) -> bool {
        &&& forall|i: int|
            0 < i < self.frames.len() ==> (#[trigger] self.frames[i]).erase == self.frames[i
                - 1].lines.len()
        &&& self.frames.len() > 0 ==> self.lines_written == self.frames.last().lines.len()
    }

    /// Drawing keeps the frames linked, so that no line of an earlier frame
    /// is left standing beside the new view.
    pub proof fn law_write_replaces_the_view(self)
        requires
            self.linked(),
        ensures
            self.write().linked(),
            self.write().frames.last().erase == self.lines_written,
            self.write().frames.last().lines == screen(self.suites),
    {
    }

    /// A suite that is in the view ends as a failure exactly if something
    /// failed: the suite itself or one of its tests. This holds of every
    /// result in which the flag `passed` says what the result holds, as it
    /// does in the results of a run.
    pub proof fn law_suite_ends_failed_iff_something_failed(
        self,
        name: Seq<char>,
        result: TestSuiteResultView,
    )
        requires
            result.wf(),
            suite_position(self.suites, name, 0) < self.suites.len(),
        ensures
            ({
                let at = suite_position(self.suites, name, 0) as int;
                let shown = self.take_in(ReportEventView::TestSuiteEnd(name, result)).suites[at];
                &&& shown.marker == TestSuiteStateMarker::Error <==> (result.error is Some
                    || result.has_failed_test())
                &&& shown.marker == TestSuiteStateMarker::Success <==> !(result.error is Some
                    || result.has_failed_test())
                &&& shown.tests == self.suites[at].tests
                &&& shown.name == self.suites[at].name
            }),
    {
    }

    /// Every event makes the reporter draw exactly one frame, which shows
    /// the view as the event left it, and the frames stay linked.
    pub proof fn law_every_event_redraws(self, event: ReportEventView)
        requires
            self.linked(),
        ensures
            self.on_event(event).linked(),
            self.on_event(event).frames.len() == self.frames.len() + 1,
            self.on_event(event).frames.last().erase == self.lines_written,
            self.on_event(event).frames.last().lines == screen(self.on_event(event).suites),
    {
        self.take_in(event).law_write_replaces_the_view();
    }
}

impl View for ConsoleReporter {
    type V = ConsoleView;

    closed spec fn view(&self) -> ConsoleView {
        ConsoleView {
            lines_written: self.lines_written as nat,
            suites: suite_states_view(self.suites@),
            frames: frames_view(self.frames@),
        }
    }
}

// The position of the first of `suites` that is called `name`.
fn find_suite(suites: &Vec<TestSuiteState>, name: &str) -> (at: usize)
    ensures
        at == suite_position(suite_states_view(suites@), name@, 0),
        at <= suites.len(),
        at < suites.len() ==> suites[at as int].name@ == name@,
{
    let ghost states = suite_states_view(suites@);
    let wanted = name.to_owned();
    let mut i: usize = 0;
    while i < suites.len()
        invariant
            i <= suites.len(),
            wanted@ == name@,
            states == suite_states_view(suites@),
            suite_position(states, name@, 0) == suite_position(states, name@, i as nat),
        decreases suites.len() - i,
    {
        if suites[i].name == wanted {
            return i;
        }
        i = i + 1;
    }
    i
}

// The position of the first of `tests` that is called `name`.
fn find_test(tests: &Vec<TestState>, name: &str) -> (at: usize)
    ensures
        at == test_position(test_states_view(tests@), name@, 0),
        at <= tests.len(),
        at < tests.len() ==> tests[at as int].name@ == name@,
{
    let ghost states = test_states_view(tests@);
    let wanted = name.to_owned();
    let mut i: usize = 0;
    while i < tests.len()
        invariant
            i <= tests.len(),
            wanted@ == name@,
            states == test_states_view(tests@),
            test_position(states, name@, 0) == test_position(states, name@, i as nat),
        decreases tests.len() - i,
    {
        if tests[i].name == wanted {
            return i;
        }
        i = i + 1;
    }
    i
}

impl ConsoleReporter {
    /// A reporter that shows nothing yet.
    pub fn new() -> (reporter: Self)
        ensures
            reporter@ == ConsoleView::new(),
    {
        let reporter = ConsoleReporter { lines_written: 0, suites: Vec::new(), frames: Vec::new() };
        assert(reporter@.suites =~= Seq::empty());
        assert(reporter@.frames =~= Seq::empty());
        reporter
    }

    /// The suites in the view.
    pub fn suites(&self) -> (suites: &Vec<TestSuiteState>)
        ensures
            suite_states_view(suites@) == self@.suites,
    {
        &self.suites
    }

    /// The number of lines of the view as it was drawn last.
    pub fn lines_written(&self) -> (count: usize)
        ensures
            count == self@.lines_written,
    {
        self.lines_written
    }

    /// Hands out the frames that were put aside since the last call, oldest
    /// first.
    pub fn take_frames(&mut self) -> (frames: Vec<Frame>)
        ensures
            frames_view(frames@) == old(self)@.frames,
            final(self)@ == (ConsoleView { frames: Seq::empty(), ..old(self)@ }),
    {
        let mut frames: Vec<Frame> = Vec::new();
        core::mem::swap(&mut frames, &mut self.frames);
        assert(final(self)@.frames =~= Seq::empty());
        frames
    }

    /// Draws the view: puts a frame aside that clears the lines drawn last
    /// and writes the view as it is now.
    pub fn write(&mut self)
        ensures
            final(self)@ == old(self)@.write(),
    {
        let lines = draw(&self.suites);
        let erase = self.lines_written;
        self.lines_written = lines.len();
        self.frames.push(Frame { erase, lines });
        assert(final(self)@.frames =~= old(self)@.write().frames);
    }

    /// Shows one more suite, without tests or failure.
    pub fn add_test_suite(&mut self, name: &str, marker: TestSuiteStateMarker)
        ensures
            final(self)@ == old(self)@.add_test_suite(name@, marker),
    {
        let state = TestSuiteState { name: name.to_owned(), marker, tests: Vec::new(), error: None };
        assert(state@.tests =~= Seq::empty());
        self.suites.push(state);
        assert(final(self)@.suites =~= old(self)@.add_test_suite(name@, marker).suites);
    }

    /// Gives the first suite called `name` a new marker and a new failure,
    /// or none. Without such a suite nothing changes.
    pub fn update_test_suite(&mut self, name: &str, marker: TestSuiteStateMarker, error: Option<String>)
        ensures
            final(self)@ == old(self)@.update_test_suite(name@, marker, text_view(error)),
    {
        let i = find_suite(&self.suites, name);
        if i < self.suites.len() {
            let state = &mut self.suites[i];
            state.marker = marker;
            state.error = error;
            assert(final(self)@.suites =~= old(self)@.update_test_suite(
                name@,
                marker,
                text_view(error),
            ).suites);
        }
    }

    /// Shows one more test of the last suite, without failure. Without a
    /// suite nothing changes.
    pub fn add_test(&mut self, name: &str, marker: TestStateMarker)
        ensures
            final(self)@ == old(self)@.add_test(name@, marker),
    {
        let count = self.suites.len();
        if count > 0 {
            let state = TestState { marker, name: name.to_owned(), error: None };
            let suite = &mut self.suites[count - 1];
            let ghost before = suite@;
            suite.tests.push(state);
            assert(suite@.tests =~= before.tests.push(state@));
            assert(final(self)@.suites =~= old(self)@.add_test(name@, marker).suites);
        }
    }

    /// Gives the first test of the last suite that is called `name` a new
    /// marker and a new failure, or none. Without such a test nothing
    /// changes.
    pub fn update_test(&mut self, name: &str, marker: TestStateMarker, error: Option<String>)
        ensures
            final(self)@ == old(self)@.update_test(name@, marker, text_view(error)),
    {
        let count = self.suites.len();
        if count > 0 {
            let at = find_test(&self.suites[count - 1].tests, name);
            if at < self.suites[count - 1].tests.len() {
                let suite = &mut self.suites[count - 1];
                let ghost before = suite@;
                let state = &mut suite.tests[at];
                state.marker = marker;
                state.error = error;
                assert(suite@.tests =~= before.tests.update(
                    at as int,
                    TestStateView { marker, error: text_view(error), ..before.tests[at as int] },
                ));
                assert(final(self)@.suites =~= old(self)@.update_test(
                    name@,
                    marker,
                    text_view(error),
                ).suites);
            }
        }
    }

    /// Takes in one event of a run: brings the view up to date and draws it.
    pub fn report(&mut self, event: &ReportEvent)
        ensures
            final(self)@ == old(self)@.on_event(event@),
    {
        match event {
            ReportEvent::TestSuiteCreationStarted(name) => self.on_test_suite_creation_started(
                name.as_str(),
            ),
            ReportEvent::TestSuiteCreationFinished(name, error) =>
                self.on_test_suite_creation_finished(name.as_str(), error.as_ref()),
            ReportEvent::TestSuiteIgnored(name) => self.on_test_suite_ignored(name.as_str()),
            ReportEvent::TestSuiteStart(name) => self.on_test_suite_start(name.as_str()),
            ReportEvent::TestSuiteEnd(name, result) => self.on_test_suite_end(name.as_str(), result),
            ReportEvent::TestStart(name) => self.on_test_start(name.as_str()),
            ReportEvent::TestIgnored(name) => self.on_test_ignored(name.as_str()),
            ReportEvent::TestEnd(name, error) => self.on_test_end(name.as_str(), error.as_ref()),
        }
    }
}

impl Default for ConsoleReporter {
    fn default() -> (reporter: Self)
        ensures
            reporter@ == ConsoleView::new(),
    {
        ConsoleReporter::new()
    }
}

/// The mathematical value of an optional failure that is held by reference.
pub open spec fn borrowed_error_view(error: Option<&TestError>) -> Option<TestErrorView> {
    match error {
        Some(e) => Some(e@),
        None => None,
    }
}

impl Reporter for ConsoleReporter {
    fn name(&self) -> (name: &'static str)
        ensures
            name@ == "ConsoleReporter"@,
    {
        "ConsoleReporter"
    }

    fn on_test_suite_creation_started(&mut self, name: &str)
        ensures
            final(self)@ == old(self)@.on_event(ReportEventView::TestSuiteCreationStarted(name@)),
    {
        self.add_test_suite(name, TestSuiteStateMarker::Creating);
        self.write();
    }

    fn on_test_suite_creation_finished(&mut self, name: &str, error: Option<&TestError>)
        ensures
            final(self)@ == old(self)@.on_event(
                ReportEventView::TestSuiteCreationFinished(name@, borrowed_error_view(error)),
            ),
    {
        if let Some(err) = error {
            self.update_test_suite(name, TestSuiteStateMarker::Error, Some(err.message()));
        }
        self.write();
    }

    fn on_test_suite_ignored(&mut self, name: &str)
        ensures
            final(self)@ == old(self)@.on_event(ReportEventView::TestSuiteIgnored(name@)),
    {
        self.add_test_suite(name, TestSuiteStateMarker::Ignored);
        self.write();
    }

    fn on_test_suite_start(&mut self, name: &str)
        ensures
            final(self)@ == old(self)@.on_event(ReportEventView::TestSuiteStart(name@)),
    {
        self.update_test_suite(name, TestSuiteStateMarker::Running, None);
        self.write();
    }

    fn on_test_suite_end(&mut self, name: &str, result: &TestSuiteResult)
        ensures
            final(self)@ == old(self)@.on_event(ReportEventView::TestSuiteEnd(name@, result@)),
    {
        let marker = if result.passed {
            TestSuiteStateMarker::Success
        } else {
            TestSuiteStateMarker::Error
        };
        let error = match &result.error {
            Some(err) => Some(err.message()),
            None => None,
        };
        self.update_test_suite(name, marker, error);
        self.write();
    }

    fn on_test_start(&mut self, name: &str)
        ensures
            final(self)@ == old(self)@.on_event(ReportEventView::TestStart(name@)),
    {
        self.add_test(name, TestStateMarker::Running);
        self.write();
    }

    fn on_test_ignored(&mut self, name: &str)
        ensures
            final(self)@ == old(self)@.on_event(ReportEventView::TestIgnored(name@)),
    {
        self.add_test(name, TestStateMarker::Ignored);
        self.write();
    }

    fn on_test_end(&mut self, name: &str, error: Option<&TestError>)
        ensures
            final(self)@ == old(self)@.on_event(
                ReportEventView::TestEnd(name@, borrowed_error_view(error)),
            ),
    {
        match error {
            Some(err) => self.update_test(name, TestStateMarker::Error, Some(err.message())),
            None => self.update_test(name, TestStateMarker::Success, None),
        }
        self.write();
    }
}

} // verus!
