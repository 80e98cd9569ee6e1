use ascii_clock::input::parse_mode;
use ascii_clock::input::parse_seconds;
use ascii_clock::input::Mode;

#[test]
fn plain_numbers_parse() {
    assert_eq!(parse_seconds("0"), 0);
    assert_eq!(parse_seconds("5"), 5);
    assert_eq!(parse_seconds("007"), 7);
    assert_eq!(parse_seconds("86400"), 86400);
}

#[test]
fn the_largest_count_still_parses() {
    assert_eq!(parse_seconds("18446744073709551615"), u64::MAX);
}

#[test]
fn non_numeric_input_coerces_to_zero() {
    assert_eq!(parse_seconds(""), 0);
    assert_eq!(parse_seconds("abc"), 0);
    assert_eq!(parse_seconds("12x"), 0);
    assert_eq!(parse_seconds(" 5"), 0);
    assert_eq!(parse_seconds("-1"), 0);
}

#[test]
fn a_count_past_the_counter_coerces_to_zero() {
    assert_eq!(parse_seconds("18446744073709551616"), 0);
    assert_eq!(parse_seconds("99999999999999999999999"), 0);
}

#[test]
fn mode_selectors() {
    assert_eq!(parse_mode("1"), Some(Mode::Clock));
    assert_eq!(parse_mode("2"), Some(Mode::Timer));
    assert_eq!(parse_mode("3"), Some(Mode::Stopwatch));
}

#[test]
fn anything_else_selects_no_mode() {
    assert_eq!(parse_mode(""), None);
    assert_eq!(parse_mode("4"), None);
    assert_eq!(parse_mode("12"), None);
    assert_eq!(parse_mode("clock"), None);
}
