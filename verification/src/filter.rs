//! Which suites and tests a run leaves out.
//!
//! Suites and tests can be selected by name with a regular expression. Inside
//! a suite, a test marked `only` pushes every test without that mark aside,
//! and a test marked `ignore` is left out unless the run asks for ignored
//! tests too.
use vstd::prelude::*;

verus! {

/// Whether `regex::Regex::new` accepts `pattern`.
pub uninterp spec fn pattern_compiles(pattern: Seq<char>) -> bool;

/// Whether the regular expression that `regex::Regex::new` makes of `pattern`
/// finds a match somewhere in `text`, as `regex::Regex::is_match` tells.
pub uninterp spec fn pattern_matches(pattern: Seq<char>, text: Seq<char>) -> bool;

/// Compiles `pattern` with `regex::Regex::new` and, where that succeeds,
/// searches `text` with `regex::Regex::is_match`. The result is `None` for a
/// pattern that does not compile. Both steps depend on the two strings alone.
#[verifier::external_body]
fn search(pattern: &str, text: &str) -> (found: Option<bool>)
    ensures
        found is Some <==> pattern_compiles(pattern@),
        found matches Some(hit) ==> hit == pattern_matches(pattern@, text@),
{
    match regex::Regex::new(pattern) {
        Ok(expression) => Some(expression.is_match(text)),
        Err(_) => None,
    }
}

/// A regular expression by which names are selected. A name is selected if
/// the expression matches anywhere in it.
///
/// Every value holds a pattern that compiles. The filter keeps the pattern
/// and nothing else: the expression is compiled anew for each name that is
/// tested, so that whether a name is selected depends on the pattern and the
/// name alone.
#[derive(Debug)]
pub struct NameFilter {
    pattern: String,
}

impl View for NameFilter {
    type V = Seq<char>;

    /// The pattern.
    closed spec fn view(&self) -> Seq<char> {
        self.pattern@
    }
}

impl NameFilter {
    #[verifier::type_invariant]
    spec fn compiles(&self) -> bool {
        pattern_compiles(self.pattern@)
    }

    /// A filter for `pattern`, or `None` if `pattern` is no regular
    /// expression.
    pub fn new(pattern: &str) -> (filter: Option<NameFilter>)
        ensures
            filter is Some <==> pattern_compiles(pattern@),
            filter matches Some(f) ==> f@ == pattern@,
    {
        match search(pattern, "") {
            Some(_) => Some(NameFilter { pattern: pattern.to_owned() }),
            None => None,
        }
    }

    /// The pattern.
    pub fn pattern(&self) -> (pattern: &str)
        ensures
            pattern@ == self@,
    {
        self.pattern.as_str()
    }

    /// Whether the filter selects `name`.
    pub fn is_match(&self, name: &str) -> (hit: bool)
        ensures
            hit == pattern_matches(self@, name@),
    {
        proof {
            use_type_invariant(self);
        }
        match search(self.pattern.as_str(), name) {
            Some(hit) => hit,
            None => true,
        }
    }
}

impl Clone for NameFilter {
    fn clone(&self) -> (copy: Self)
        ensures
            copy@ == self@,
    {
        proof {
            use_type_invariant(self);
        }
        NameFilter { pattern: self.pattern.clone() }
    }
}

/// The pattern of an optional filter.
pub open spec fn filter_view(filter: Option<NameFilter>) -> Option<Seq<char>> {
    match filter {
        Some(f) => Some(f@),
        None => None,
    }
}

/// Whether a filter that may be absent selects `name`: an absent filter
/// selects every name.
pub open spec fn selects(filter: Option<Seq<char>>, name: Seq<char>) -> bool {
    match filter {
        Some(pattern) => pattern_matches(pattern, name),
        None => true,
    }
}

/// Whether a filter that may be absent selects `name`.
pub fn filter_selects(filter: &Option<NameFilter>, name: &str) -> (hit: bool)
    ensures
        hit == selects(filter_view(*filter), name@),
{
    match filter {
        Some(f) => f.is_match(name),
        None => true,
    }
}

/// Whether a test is left out of a run. It is if one of three things holds:
/// the test is marked `ignore` and the run does not ask for ignored tests;
/// some test of the suite is marked `only` and this one is not; the name of
/// the test is not selected.
pub open spec fn is_skipped(
    ignore: bool,
    only: bool,
    has_only: bool,
    run_ignored: bool,
    selected: bool,
) -> bool {
    (ignore && !run_ignored) || (has_only && !only) || !selected
}

/// Asking for ignored tests lifts the mark `ignore` and nothing else: a test
/// is then left out exactly if another test pushes it aside or its name is
/// not selected, as if it did not carry the mark.
pub proof fn law_run_ignored_lifts_only_the_ignore_mark(
    ignore: bool,
    only: bool,
    has_only: bool,
    selected: bool,
)
    ensures
        is_skipped(ignore, only, has_only, true, selected) == ((has_only && !only) || !selected),
        is_skipped(ignore, only, has_only, true, selected) == is_skipped(
            false,
            only,
            has_only,
            false,
            selected,
        ),
{
}

/// Decides whether a test is left out of a run, from the marks of the test
/// (`ignore`, `only`), whether any test of its suite is marked `only`
/// (`has_only`), whether the run asks for ignored tests (`run_ignored`), and
/// whether the name of the test is selected.
pub fn effective_ignore(
    ignore: bool,
    only: bool,
    has_only: bool,
    run_ignored: bool,
    selected: bool,
) -> (skipped: bool)
    ensures
        skipped == is_skipped(ignore, only, has_only, run_ignored, selected),
{
    (ignore && !run_ignored) || (has_only && !only) || !selected
}

} // verus!
