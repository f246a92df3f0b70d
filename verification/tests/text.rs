use e2e::text::{format_duration, lines, push_decimal};
use std::time::Duration;

fn decimal(n: u64) -> String {
    let mut out = String::new();
    push_decimal(&mut out, n);
    out
}

#[test]
fn decimal_of_single_digits() {
    assert_eq!(decimal(0), "0");
    assert_eq!(decimal(7), "7");
    assert_eq!(decimal(9), "9");
}

#[test]
fn decimal_of_larger_numbers() {
    assert_eq!(decimal(10), "10");
    assert_eq!(decimal(60_000), "60000");
    assert_eq!(decimal(1_000_000_007), "1000000007");
    assert_eq!(decimal(u64::MAX), "18446744073709551615");
}

#[test]
fn decimal_appends_to_what_is_there() {
    let mut out = String::from("n=");
    push_decimal(&mut out, 42);
    assert_eq!(out, "n=42");
}

#[test]
fn duration_of_whole_seconds() {
    assert_eq!(format_duration(60_000), "60s");
    assert_eq!(format_duration(1_000), "1s");
    assert_eq!(format_duration(3_600_000), "3600s");
}

#[test]
fn duration_with_fraction_drops_trailing_zeros() {
    assert_eq!(format_duration(1_500), "1.5s");
    assert_eq!(format_duration(1_050), "1.05s");
    assert_eq!(format_duration(2_005), "2.005s");
    assert_eq!(format_duration(12_340), "12.34s");
    assert_eq!(format_duration(1_999), "1.999s");
}

#[test]
fn duration_below_one_second_is_in_milliseconds() {
    assert_eq!(format_duration(1), "1ms");
    assert_eq!(format_duration(250), "250ms");
    assert_eq!(format_duration(999), "999ms");
}

#[test]
fn duration_of_nothing() {
    assert_eq!(format_duration(0), "0ns");
}

#[test]
fn duration_reads_like_the_standard_library() {
    let mut samples: Vec<u64> = (0..2_500).collect();
    samples.extend([9_999, 10_000, 10_001, 59_999, 60_000, 60_100, 123_456, 1_000_000]);
    samples.extend([u64::MAX, u64::MAX - 1, u64::MAX / 1000 * 1000, u64::MAX - 605]);
    for millis in samples {
        assert_eq!(
            format_duration(millis),
            format!("{:?}", Duration::from_millis(millis)),
            "for {} ms",
            millis
        );
    }
}

#[test]
fn lines_of_empty_text() {
    assert!(lines("").is_empty());
}

#[test]
fn lines_without_line_feed() {
    assert_eq!(lines("one"), vec!["one"]);
}

#[test]
fn lines_split_at_line_feeds() {
    assert_eq!(lines("one\ntwo\nthree"), vec!["one", "two", "three"]);
}

#[test]
fn lines_ignore_one_final_line_feed() {
    assert_eq!(lines("one\ntwo\n"), vec!["one", "two"]);
    assert_eq!(lines("\n"), vec![""]);
    assert_eq!(lines("one\n\n"), vec!["one", ""]);
}

#[test]
fn lines_keep_empty_lines() {
    assert_eq!(lines("one\n\ntwo"), vec!["one", "", "two"]);
    assert_eq!(lines("\none"), vec!["", "one"]);
}

#[test]
fn lines_drop_carriage_return_before_line_feed() {
    assert_eq!(lines("one\r\ntwo\r\n"), vec!["one", "two"]);
    assert_eq!(lines("one\r\r\ntwo"), vec!["one\r", "two"]);
}

#[test]
fn lines_keep_other_carriage_returns() {
    assert_eq!(lines("one\rtwo"), vec!["one\rtwo"]);
    assert_eq!(lines("one\r"), vec!["one\r"]);
    assert_eq!(lines("one\ntwo\r"), vec!["one", "two\r"]);
    assert_eq!(lines("\r"), vec!["\r"]);
}

#[test]
fn lines_read_like_the_standard_library() {
    let samples = [
        "",
        "a",
        "\n",
        "\r",
        "\r\n",
        "\n\r",
        "\r\r",
        "\n\n",
        "a\nb",
        "a\r\nb",
        "a\rb\n",
        "a\n\rb",
        "caused by:\n    0: first\n    1: second\n",
        "tab\there\r\n\r\nend\r",
        "unicode \u{2705} line\n\u{274C}\r\n",
        "\r\n\r\n",
        "  leading\n trailing  \n",
    ];
    for sample in samples {
        let expected: Vec<String> = sample.lines().map(|line| line.to_string()).collect();
        assert_eq!(lines(sample), expected, "for {:?}", sample);
    }
}
