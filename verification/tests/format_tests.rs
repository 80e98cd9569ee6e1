use ascii_clock::numfmt::fmt_clock;
use ascii_clock::numfmt::fmt_hms;
use ascii_clock::numfmt::pad2_string;
use ascii_clock::numfmt::u64_to_string;

#[test]
fn decimal_rendering() {
    assert_eq!(u64_to_string(0), "0");
    assert_eq!(u64_to_string(7), "7");
    assert_eq!(u64_to_string(1234567890), "1234567890");
    assert_eq!(u64_to_string(u64::MAX), "18446744073709551615");
}

#[test]
fn two_digit_padding() {
    assert_eq!(pad2_string(0), "00");
    assert_eq!(pad2_string(7), "07");
    assert_eq!(pad2_string(42), "42");
    assert_eq!(pad2_string(123), "123");
}

#[test]
fn seconds_format_as_hms() {
    assert_eq!(fmt_hms(0), "00:00:00");
    assert_eq!(fmt_hms(5), "00:00:05");
    assert_eq!(fmt_hms(61), "00:01:01");
    assert_eq!(fmt_hms(3661), "01:01:01");
    assert_eq!(fmt_hms(99 * 3600 + 59 * 60 + 59), "99:59:59");
}

#[test]
fn hours_widen_past_two_digits() {
    assert_eq!(fmt_hms(100 * 3600), "100:00:00");
    assert_eq!(fmt_hms(1000 * 3600 + 2 * 60 + 3), "1000:02:03");
}

#[test]
fn clock_readings_use_a_twelve_hour_dial() {
    assert_eq!(fmt_clock(0, 5), "12:05 AM");
    assert_eq!(fmt_clock(1, 0), "01:00 AM");
    assert_eq!(fmt_clock(11, 59), "11:59 AM");
    assert_eq!(fmt_clock(12, 0), "12:00 PM");
    assert_eq!(fmt_clock(13, 7), "01:07 PM");
    assert_eq!(fmt_clock(23, 59), "11:59 PM");
}
