use e2e::filter::effective_ignore;
use e2e::{NameFilter, TestInfo, TestRunnerConfiguration};

fn filter(pattern: &str) -> NameFilter {
    NameFilter::new(pattern).expect("the pattern compiles")
}

#[test]
fn filter_rejects_what_is_no_regular_expression() {
    assert!(NameFilter::new("foo(bar").is_none());
    assert!(NameFilter::new("[a-").is_none());
    assert!(NameFilter::new("*").is_none());
}

#[test]
fn filter_keeps_its_pattern() {
    assert_eq!(filter("^login").pattern(), "^login");
    assert_eq!(filter("").pattern(), "");
    assert_eq!(filter("a|b").clone().pattern(), "a|b");
}

#[test]
fn filter_matches_anywhere_in_the_name() {
    let f = filter("log");
    assert!(f.is_match("login"));
    assert!(f.is_match("catalog"));
    assert!(f.is_match("log"));
    assert!(!f.is_match("lag"));
    assert!(!f.is_match(""));
}

#[test]
fn filter_obeys_anchors_and_classes() {
    let f = filter("^Checkout [0-9]+$");
    assert!(f.is_match("Checkout 1"));
    assert!(f.is_match("Checkout 42"));
    assert!(!f.is_match("Checkout"));
    assert!(!f.is_match("A Checkout 1"));
    assert!(!f.is_match("Checkout 1 again"));
}

#[test]
fn filter_is_case_sensitive_unless_told_otherwise() {
    assert!(!filter("login").is_match("Login"));
    assert!(filter("(?i)login").is_match("Login"));
}

#[test]
fn empty_pattern_matches_every_name() {
    let f = filter("");
    assert!(f.is_match(""));
    assert!(f.is_match("anything"));
}

#[test]
fn skipped_when_ignored_and_ignored_tests_stay_out() {
    assert!(effective_ignore(true, false, false, false, true));
    assert!(!effective_ignore(true, false, false, true, true));
    assert!(!effective_ignore(false, false, false, false, true));
}

#[test]
fn skipped_when_another_test_is_marked_only() {
    assert!(effective_ignore(false, false, true, false, true));
    assert!(effective_ignore(false, false, true, true, true));
    assert!(!effective_ignore(false, true, true, false, true));
}

#[test]
fn skipped_when_the_name_is_not_selected() {
    assert!(effective_ignore(false, false, false, false, false));
    assert!(effective_ignore(false, true, true, true, false));
}

#[test]
fn skipped_is_the_or_of_the_three_reasons() {
    for bits in 0..32u32 {
        let ignore = bits & 1 != 0;
        let only = bits & 2 != 0;
        let has_only = bits & 4 != 0;
        let run_ignored = bits & 8 != 0;
        let selected = bits & 16 != 0;
        let expected = (ignore && !run_ignored) || (has_only && !only) || !selected;
        assert_eq!(effective_ignore(ignore, only, has_only, run_ignored, selected), expected);
    }
}

#[test]
fn default_configuration() {
    let config = TestRunnerConfiguration::default();
    assert_eq!(config.timeout(), 60_000);
    assert!(!config.fail_fast());
    assert!(!config.run_ignored());
    assert!(config.selects_suite("any suite"));
    assert!(!config.skips_test(&TestInfo::new("any test".to_string()), false));
}

#[test]
fn configured_timeout_replaces_the_default() {
    let config = TestRunnerConfiguration::default().with_timeout(250);
    assert_eq!(config.timeout(), 250);
    assert_eq!(config.with_timeout(0).timeout(), 0);
}

#[test]
fn builders_change_one_setting_each() {
    let config = TestRunnerConfiguration::default()
        .with_fail_fast(true)
        .with_run_ignored(true)
        .with_timeout(5);
    assert!(config.fail_fast());
    assert!(config.run_ignored());
    assert_eq!(config.timeout(), 5);
    let config = config.with_fail_fast(false);
    assert!(!config.fail_fast());
    assert!(config.run_ignored());
    assert_eq!(config.timeout(), 5);
    let copy = config.clone();
    assert!(copy.run_ignored());
    assert_eq!(copy.timeout(), 5);
}

#[test]
fn suite_filter_selects_suites_by_name() {
    let config = TestRunnerConfiguration::default().with_test_suite_filter(filter("^Pay"));
    assert!(config.selects_suite("Payments"));
    assert!(!config.selects_suite("Login"));
    assert!(!config.skips_test(&TestInfo::new("Login".to_string()), false));
}

#[test]
fn case_filter_skips_tests_by_name() {
    let config = TestRunnerConfiguration::default().with_test_case_filter(filter("refund"));
    assert!(!config.skips_test(&TestInfo::new("full refund".to_string()), false));
    assert!(config.skips_test(&TestInfo::new("charge".to_string()), false));
    assert!(config.selects_suite("charge"));
}

#[test]
fn run_ignored_lifts_only_the_ignore_mark() {
    let config = TestRunnerConfiguration::default()
        .with_run_ignored(true)
        .with_test_case_filter(filter("a"));
    let marked = TestInfo::new("a".to_string()).with_ignore(true);
    assert!(!config.skips_test(&marked, false));
    assert!(config.skips_test(&marked, true));
    let other = TestInfo::new("b".to_string()).with_ignore(true);
    assert!(config.skips_test(&other, false));
}

#[test]
fn only_mark_keeps_a_test_in() {
    let config = TestRunnerConfiguration::default();
    let marked = TestInfo::new("a".to_string()).with_only(true);
    assert!(!config.skips_test(&marked, true));
    let both = TestInfo::new("a".to_string()).with_only(true).with_ignore(true);
    assert!(config.skips_test(&both, true));
}

#[test]
fn test_info_marks() {
    let info = TestInfo::new("a".to_string());
    assert_eq!(info.name, "a");
    assert!(!info.ignore);
    assert!(!info.only);
    let info = info.with_ignore(true).with_only(true);
    assert!(info.ignore);
    assert!(info.only);
    assert_eq!(info.name, "a");
    let info = info.with_ignore(false);
    assert!(!info.ignore);
    assert!(info.only);
}

#[test]
fn has_only_finds_a_marked_test() {
    let none = vec![TestInfo::new("a".to_string()), TestInfo::new("b".to_string())];
    assert!(!e2e::case::has_only(&none));
    let last = vec![TestInfo::new("a".to_string()), TestInfo::new("b".to_string()).with_only(true)];
    assert!(e2e::case::has_only(&last));
    assert!(!e2e::case::has_only(&Vec::new()));
}

#[test]
fn configuration_hands_out_what_was_configured() {
    let config = TestRunnerConfiguration::default();
    assert_eq!(config.timeout_ms(), None);
    assert!(config.test_suite_filter().is_none());
    assert!(config.test_case_filter().is_none());
    let config = config
        .with_timeout(60_000)
        .with_test_suite_filter(filter("^Pay"))
        .with_test_case_filter(filter("refund"));
    assert_eq!(config.timeout_ms(), Some(60_000));
    assert_eq!(config.test_suite_filter().as_ref().map(|f| f.pattern()), Some("^Pay"));
    assert_eq!(config.test_case_filter().as_ref().map(|f| f.pattern()), Some("refund"));
    let copy = config.clone();
    assert_eq!(copy.test_suite_filter().as_ref().map(|f| f.pattern()), Some("^Pay"));
    assert_eq!(copy.test_case_filter().as_ref().map(|f| f.pattern()), Some("refund"));
    assert_eq!(copy.timeout_ms(), Some(60_000));
}
