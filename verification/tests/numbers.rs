use omachess::numbers::{clock, compact, describe_wait, humanise, summary};
use omachess::text::{
    contains, first_line, first_words, join, number, pad_end, pad_start, push_signed,
};

const MINUTE: i64 = 60;
const HOUR: i64 = 60 * MINUTE;
const DAY: i64 = 24 * HOUR;
const HOUR_MS: i64 = 3_600_000;

#[test]
fn counts_are_shortened_only_once_they_are_long() {
    assert_eq!(compact(0), "0");
    assert_eq!(compact(9_999), "9999");
    assert_eq!(compact(97_167), "97k");
    assert_eq!(compact(999_999), "1000k");
    assert_eq!(compact(4_342_467), "4.3M");
}

/// A span is read to judge whether a repeat is far enough from the first solve to mean anything,
/// so the units have to change where a reader would change them.
#[test]
fn spans_are_read_the_way_a_person_would_say_them() {
    assert_eq!(humanise(30), "under a minute");
    assert_eq!(humanise(MINUTE), "1 min");
    assert_eq!(humanise(59 * MINUTE), "59 min");
    assert_eq!(humanise(60 * MINUTE), "1 h");
    assert_eq!(humanise(47 * HOUR), "47 h");
    // Two days is where hours stop being readable.
    assert_eq!(humanise(48 * HOUR), "2 days");
    assert_eq!(humanise(9 * DAY), "9 days");
}

/// The wait is the whole message, so it has to read like something a person would say.
#[test]
fn a_wait_is_stated_the_way_it_would_be_spoken() {
    assert_eq!(describe_wait(0), "1 minute");
    assert_eq!(describe_wait(HOUR_MS / 4), "15 minutes");
    assert_eq!(describe_wait(HOUR_MS), "1 hour");
    assert_eq!(describe_wait(HOUR_MS * 194 / 10), "19 hours");
    // A negative wait means it is already ready, and must never be spoken as one.
    assert_eq!(describe_wait(-3 * HOUR_MS), "1 minute");
}

#[test]
fn the_repeat_threshold_reads_in_hours() {
    assert_eq!(humanise(20 * HOUR), "20 h");
}

/// A shortened count is the nearest number of thousands, or of tenths of millions, as a division
/// of floating point numbers rounds it.
#[test]
fn shortened_counts_agree_with_division() {
    let by_division = |n: u64| -> String {
        if n >= 1_000_000 {
            format!("{:.1}M", n as f64 / 1_000_000.0)
        } else if n >= 10_000 {
            format!("{:.0}k", n as f64 / 1_000.0)
        } else {
            n.to_string()
        }
    };
    let mut n: u64 = 1;
    for step in 0..200_000u64 {
        assert_eq!(compact(n), by_division(n), "{n}");
        n = (n + 37 + step * 13) % 60_000_000_000;
    }
    for n in [10_499, 10_500, 10_501, 11_500, 12_500, 1_050_000, 1_150_000, 1_249_999, 1_250_000] {
        assert_eq!(compact(n), by_division(n), "{n}");
    }
    for n in [u64::MAX, 1 << 53, (1 << 53) + 1, 9_007_199_254_740_993, 123_456_789_012_345_678] {
        assert_eq!(compact(n), by_division(n), "{n}");
    }
}

#[test]
fn a_clock_shows_minutes_and_seconds() {
    assert_eq!(clock(0), "0:00");
    assert_eq!(clock(9), "0:09");
    assert_eq!(clock(75), "1:15");
    assert_eq!(clock(600), "10:00");
}

#[test]
fn the_title_counts_what_there_is() {
    let text = summary("1432", 7, 4_342_467);
    assert!(text.contains("1432"));
    assert!(text.contains('7'));
    assert!(text.contains("4.3M"));
}

#[test]
fn numbers_are_written_in_decimal() {
    for n in [0u64, 9, 10, 99, 100, 12_345, u64::MAX] {
        assert_eq!(number(n), n.to_string());
    }
    for n in [0i64, -1, 7, -10, i64::MIN, i64::MAX] {
        let mut text = String::new();
        push_signed(&mut text, n);
        assert_eq!(text, n.to_string());
    }
}

#[test]
fn texts_are_padded_by_characters() {
    assert_eq!(pad_end("Kf1", 6), format!("{:6}", "Kf1"));
    assert_eq!(pad_start("Kf1", 6), format!("{:>6}", "Kf1"));
    assert_eq!(pad_end("für", 5), format!("{:5}", "für"));
    assert_eq!(pad_start("abcdef", 3), "abcdef");
    assert_eq!(pad_end("", 2), "  ");
}

#[test]
fn texts_are_searched() {
    for (text, part) in
        [("abc", ""), ("abc", "b"), ("abc", "abc"), ("abc", "abcd"), ("aab", "ab"), ("", ""), ("", "x")]
    {
        assert_eq!(contains(text, part), text.contains(part), "{part:?} in {text:?}");
    }
}

#[test]
fn the_first_line_is_what_lines_gives() {
    for text in ["", "one", "one\ntwo", "one\r\ntwo", "one\r", "\n", "\r\n", "\rtwo\n"] {
        assert_eq!(first_line(text), text.lines().next().unwrap_or(""), "{text:?}");
    }
}

#[test]
fn words_are_parted_by_white_space() {
    assert_eq!(first_words("  mate  in\ttwo moves", 3), "mate in two");
    assert_eq!(first_words("mate", 3), "mate");
    assert_eq!(first_words("", 3), "");
    assert_eq!(first_words("a b", 0), "");
    assert_eq!(join(&vec!["a".to_owned(), "b".to_owned(), "c".to_owned()], ", "), "a, b, c");
    assert_eq!(join(&Vec::new(), ", "), "");
}
