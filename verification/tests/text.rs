use resticpal::text::{
    characters, decimal_text, encode_utf16, exceeds_utf16, extract_between, parse_unsigned_number,
    parse_whole_number, position_of, same_text, signed_decimal_text, split_text, text_contains,
    text_starts_with, to_ascii_lowercase, trim,
};
use resticpal::time::{
    completion_deadline, move_or, FIRST_INSTANT, FIRST_SECOND, LAST_INSTANT, LAST_SECOND,
    NANOSECONDS_PER_SECOND, SECONDS_PER_DAY, SECONDS_PER_HOUR, SECONDS_PER_MINUTE,
};

#[test]
fn numbers_are_written_in_decimals() {
    for value in [0, 7, 10, 1_234_567_890, u64::MAX] {
        assert_eq!(decimal_text(value), value.to_string());
    }
    for value in [0, -1, 42, i32::MIN, i32::MAX] {
        assert_eq!(signed_decimal_text(value), value.to_string());
    }
}

#[test]
fn numbers_are_read_as_std_reads_them() {
    for text in ["0", "007", "18446744073709551615", "18446744073709551616", "", "+", "+5", "-1", "1a"] {
        assert_eq!(parse_unsigned_number(text), text.parse::<u64>().ok(), "{text}");
    }
    assert_eq!(parse_whole_number("+5"), None);
    assert_eq!(parse_whole_number("5"), Some(5));
    assert_eq!(parse_whole_number(""), None);
}

#[test]
fn texts_are_searched_as_std_searches_them() {
    for (text, pattern) in [("abcabc", "ca"), ("abc", ""), ("", "a"), ("aab", "ab"), ("\u{e9}a", "a")] {
        assert_eq!(text_contains(text, pattern), text.contains(pattern));
        assert_eq!(text_starts_with(text, pattern), text.starts_with(pattern));
    }
    assert_eq!(position_of(&characters("xaab"), 0, "ab"), Some(2));
    assert_eq!(position_of(&characters("xaab"), 3, "ab"), None);
    assert_eq!(extract_between("<a>b</a>", "<a>", "</a>"), Some("b".to_owned()));
    assert_eq!(extract_between("<a>b", "<a>", "</a>"), None);
    assert_eq!(extract_between("</a><a>", "<a>", "</a>"), None);
}

#[test]
fn texts_are_trimmed_and_split_as_std_does_it() {
    for text in ["  a b\t", "", "\u{a0}x\u{3000}", "\u{2028}", "none", "\u{200b}a"] {
        assert_eq!(trim(text), text.trim());
    }
    for text in ["1.2.3", "", ".", "a..b"] {
        let parts: Vec<&str> = text.split('.').collect();
        assert_eq!(split_text(text, '.'), parts);
    }
    assert_eq!(to_ascii_lowercase("AbC\u{c4}"), "abc\u{c4}");
    assert!(same_text("a", "a"));
    assert!(!same_text("a", "A"));
}

#[test]
fn utf16_is_counted_in_units() {
    for text in ["", "abc", "\u{1f600}a", "\u{ffff}\u{10000}"] {
        let units: Vec<u16> = text.encode_utf16().collect();
        assert_eq!(encode_utf16(text), units);
        assert!(!exceeds_utf16(text, units.len()));
        assert!(units.is_empty() || exceeds_utf16(text, units.len() - 1));
    }
}

#[test]
fn spans_of_time_fit_together() {
    assert_eq!(SECONDS_PER_HOUR, 60 * SECONDS_PER_MINUTE);
    assert_eq!(SECONDS_PER_DAY, 24 * SECONDS_PER_HOUR);
    assert_eq!(
        FIRST_INSTANT,
        i128::from(FIRST_SECOND) * NANOSECONDS_PER_SECOND
    );
    assert_eq!(
        LAST_INSTANT + 1,
        (i128::from(LAST_SECOND) + 1) * NANOSECONDS_PER_SECOND
    );
}

#[test]
fn instants_move_to_the_end_of_the_calendar_and_no_further() {
    let none = 42;
    assert_eq!(move_or(-1, 1, none), 999_999_999);
    assert_eq!(move_or(1_500_000_001, -3, none), -1_499_999_999);
    let span = LAST_SECOND - FIRST_SECOND;
    assert_eq!(
        move_or(FIRST_INSTANT + 7, span, none),
        LAST_INSTANT - 999_999_992
    );
    assert_eq!(move_or(FIRST_INSTANT, span + 1, none), none);
    assert_eq!(move_or(LAST_INSTANT, 0, none), LAST_INSTANT);
    assert_eq!(move_or(LAST_INSTANT, 1, none), none);
    assert_eq!(move_or(LAST_INSTANT + 1, -1, none), none);
    assert_eq!(move_or(FIRST_INSTANT - 1, 1, none), none);
    assert_eq!(move_or(0, i64::MIN, none), none);
    assert_eq!(move_or(0, i64::MAX, none), none);
    assert_eq!(
        completion_deadline(Some(1), 5, 2),
        7_200 * NANOSECONDS_PER_SECOND + 1
    );
    assert_eq!(completion_deadline(None, 5, 2), 5);
}
