//! The settings of a run.
use crate::case::{TestInfo, TestInfoView};
use crate::filter::{effective_ignore, filter_selects, filter_view, is_skipped, selects, NameFilter};
use vstd::prelude::*;

verus! {

/// The timeout of a test where none is configured, in milliseconds.
pub const DEFAULT_TIMEOUT_MS: u64 = 60_000;

/// The settings of a run. They do not change while the run lasts.
#[derive(Debug)]
pub struct TestRunnerConfiguration {
    /// Selects suites by name.
    pub(crate) test_suite_filter: Option<NameFilter>,
    /// Selects tests by name.
    pub(crate) test_case_filter: Option<NameFilter>,
    /// Whether tests marked `ignore` run too.
    pub(crate) run_ignored: bool,
    /// The timeout of each test, in milliseconds.
    pub(crate) timeout_ms: Option<u64>,
    /// Whether the run stops after the first failure.
    pub(crate) fail_fast: bool,
}

/// The mathematical value of a [`TestRunnerConfiguration`]. A filter is given
/// by its pattern.
pub struct ConfigView {
    pub test_suite_filter: Option<Seq<char>>,
    pub test_case_filter: Option<Seq<char>>,
    pub run_ignored: bool,
    pub timeout_ms: Option<u64>,
    pub fail_fast: bool,
}

impl ConfigView {
    /// The settings of a run for which nothing was configured: no filters,
    /// ignored tests stay out, the default timeout, no early stop.
    pub open spec fn new() -> ConfigView {
        ConfigView {
            test_suite_filter: None,
            test_case_filter: None,
            run_ignored: false,
            timeout_ms: None,
            fail_fast: false,
        }
    }

    /// The timeout of each test, in milliseconds.
    pub open spec fn timeout(self) -> u64 {
        match self.timeout_ms {
            Some(millis) => millis,
            None => DEFAULT_TIMEOUT_MS,
        }
    }

    /// Whether the suite called `name` takes part in the run.
    pub open spec fn selects_suite(self, name: Seq<char>) -> bool {
        selects(self.test_suite_filter, name)
    }

    /// Whether `test` is left out of the run, in a suite of which `has_only`
    /// says whether one of its tests is marked `only`.
    pub open spec fn skips_test(self, test: TestInfoView, has_only: bool) -> bool {
        is_skipped(
            test.ignore,
            test.only,
            has_only,
            self.run_ignored,
            selects(self.test_case_filter, test.name),
        )
    }
}

impl View for TestRunnerConfiguration {
    type V = ConfigView;

    closed spec fn view(&self) -> ConfigView {
        ConfigView {
            test_suite_filter: filter_view(self.test_suite_filter),
            test_case_filter: filter_view(self.test_case_filter),
            run_ignored: self.run_ignored,
            timeout_ms: self.timeout_ms,
            fail_fast: self.fail_fast,
        }
    }
}

impl Default for TestRunnerConfiguration {
    fn default() -> (config: Self)
        ensures
            config@ == ConfigView::new(),
    {
        Self {
            test_suite_filter: None,
            test_case_filter: None,
            run_ignored: false,
            timeout_ms: None,
            fail_fast: false,
        }
    }
}

impl TestRunnerConfiguration {
    /// Lets only the suites take part whose names `filter` selects.
    pub fn with_test_suite_filter(self, filter: NameFilter) -> (config: Self)
        ensures
            config@ == (ConfigView { test_suite_filter: Some(filter@), ..self@ }),
    {
        Self { test_suite_filter: Some(filter), ..self }
    }

    /// Lets only the tests take part whose names `filter` selects.
    pub fn with_test_case_filter(self, filter: NameFilter) -> (config: Self)
        ensures
            config@ == (ConfigView { test_case_filter: Some(filter@), ..self@ }),
    {
        Self { test_case_filter: Some(filter), ..self }
    }

    /// Says whether tests marked `ignore` run too.
    pub fn with_run_ignored(self, run_ignored: bool) -> (config: Self)
        ensures
            config@ == (ConfigView { run_ignored, ..self@ }),
    {
        Self { run_ignored, ..self }
    }

    /// Sets the timeout of each test, in milliseconds.
    pub fn with_timeout(self, timeout_ms: u64) -> (config: Self)
        ensures
            config@ == (ConfigView { timeout_ms: Some(timeout_ms), ..self@ }),
    {
        Self { timeout_ms: Some(timeout_ms), ..self }
    }

    /// The timeout of each test, in milliseconds: the configured one, or
    /// sixty seconds.
    pub fn timeout(&self) -> (millis: u64)
        ensures
            millis == self@.timeout(),
    {
        match self.timeout_ms {
            Some(millis) => millis,
            None => DEFAULT_TIMEOUT_MS,
        }
    }

    /// The configured timeout in milliseconds, if one was configured.
    pub fn timeout_ms(&self) -> (millis: Option<u64>)
        ensures
            millis == self@.timeout_ms,
    {
        self.timeout_ms
    }

    /// The filter that selects suites by name, if one was configured.
    pub fn test_suite_filter(&self) -> (filter: &Option<NameFilter>)
        ensures
            filter_view(*filter) == self@.test_suite_filter,
    {
        &self.test_suite_filter
    }

    /// The filter that selects tests by name, if one was configured.
    pub fn test_case_filter(&self) -> (filter: &Option<NameFilter>)
        ensures
            filter_view(*filter) == self@.test_case_filter,
    {
        &self.test_case_filter
    }

    /// Says whether the run stops after the first failure.
    pub fn with_fail_fast(self, fail_fast: bool) -> (config: Self)
        ensures
            config@ == (ConfigView { fail_fast, ..self@ }),
    {
        Self { fail_fast, ..self }
    }

    /// Whether the run stops after the first failure.
    pub fn fail_fast(&self) -> (fail_fast: bool)
        ensures
            fail_fast == self@.fail_fast,
    {
        self.fail_fast
    }

    /// Whether tests marked `ignore` run too.
    pub fn run_ignored(&self) -> (run_ignored: bool)
        ensures
            run_ignored == self@.run_ignored,
    {
        self.run_ignored
    }

    /// Whether the suite called `name` takes part in the run.
    pub fn selects_suite(&self, name: &str) -> (selected: bool)
        ensures
            selected == self@.selects_suite(name@),
    {
        filter_selects(&self.test_suite_filter, name)
    }

    /// Whether `test` is left out of the run, in a suite of which `has_only`
    /// says whether one of its tests is marked `only`.
    pub fn skips_test(&self, test: &TestInfo, has_only: bool) -> (skipped: bool)
        ensures
            skipped == self@.skips_test(test@, has_only),
    {
        let selected = filter_selects(&self.test_case_filter, test.name.as_str());
        effective_ignore(test.ignore, test.only, has_only, self.run_ignored, selected)
    }
}

impl Clone for TestRunnerConfiguration {
    fn clone(&self) -> (copy: Self)
        ensures
            copy@ == self@,
    {
        Self {
            test_suite_filter: match &self.test_suite_filter {
                Some(f) => Some(f.clone()),
                None => None,
            },
            test_case_filter: match &self.test_case_filter {
                Some(f) => Some(f.clone()),
                None => None,
            },
            run_ignored: self.run_ignored,
            timeout_ms: self.timeout_ms,
            fail_fast: self.fail_fast,
        }
    }
}

} // verus!
