use chrono::Datelike;
use moonboard::color::{parse_html_color, Rgb};
use moonboard::datetime::{
    parse_api_date, parse_api_datetime, parse_climbed_timestamp, parse_http_datetime, Timestamp,
};
use moonboard::text::{i64_to_string, parse_bool_str, parse_i64_str, str_contains_char, u64_to_string};

#[test]
fn decimal_rendering() {
    assert_eq!(u64_to_string(0), "0");
    assert_eq!(u64_to_string(1000), "1000");
    assert_eq!(i64_to_string(-123), "-123");
    assert_eq!(i64_to_string(20153), "20153");
    assert_eq!(i64_to_string(i64::MIN), "-9223372036854775808");
    assert_eq!(i64_to_string(i64::MAX), "9223372036854775807");
}

#[test]
fn decimal_parsing() {
    assert_eq!(parse_i64_str("42"), Some(42));
    assert_eq!(parse_i64_str("+42"), Some(42));
    assert_eq!(parse_i64_str("-42"), Some(-42));
    assert_eq!(parse_i64_str("0007"), Some(7));
    assert_eq!(parse_i64_str(""), None);
    assert_eq!(parse_i64_str("-"), None);
    assert_eq!(parse_i64_str("12a"), None);
    assert_eq!(parse_i64_str("9223372036854775807"), Some(i64::MAX));
    assert_eq!(parse_i64_str("9223372036854775808"), None);
    assert_eq!(parse_i64_str("-9223372036854775808"), Some(i64::MIN));
    assert_eq!(parse_i64_str("-9223372036854775809"), None);
    assert_eq!(parse_i64_str("99999999999999999999999999"), None);
}

#[test]
fn decimal_round_trip() {
    for n in [0i64, 1, -1, 999, -1000, i64::MAX, i64::MIN] {
        assert_eq!(parse_i64_str(&i64_to_string(n)), Some(n));
    }
}

#[test]
fn bool_parsing_folds_ascii_case() {
    assert_eq!(parse_bool_str("true"), Some(true));
    assert_eq!(parse_bool_str("True"), Some(true));
    assert_eq!(parse_bool_str("FALSE"), Some(false));
    assert_eq!(parse_bool_str("false"), Some(false));
    assert_eq!(parse_bool_str("yes"), None);
    assert_eq!(parse_bool_str(""), None);
}

#[test]
fn contains_char_scans_whole_string() {
    assert!(str_contains_char("2009-02-13T23:31:30.123", '.'));
    assert!(!str_contains_char("2009-02-13T23:31:30", '.'));
    assert!(!str_contains_char("", '.'));
}

#[test]
fn html_color_parsing() {
    assert_eq!(parse_html_color("#0a1B2c"), Some(Rgb { r: 10, g: 27, b: 44 }));
    assert_eq!(parse_html_color("#000000"), Some(Rgb { r: 0, g: 0, b: 0 }));
    assert_eq!(parse_html_color("#ffffff"), Some(Rgb { r: 255, g: 255, b: 255 }));
    assert_eq!(parse_html_color("ffffff"), None);
    assert_eq!(parse_html_color("#ggffff"), None);
    assert_eq!(parse_html_color("#fffff"), None);
    assert_eq!(parse_html_color("#fffffff"), None);
    // The two-character groups follow the full signed-number rules of the
    // standard radix parser, so an explicit plus sign is tolerated.
    assert_eq!(parse_html_color("#+1-0+2"), Some(Rgb { r: 1, g: 0, b: 2 }));
}

#[test]
fn rfc2822_datetime() {
    let t = parse_http_datetime("Fri, 13 Feb 2009 23:31:30 +0000").unwrap();
    assert_eq!(t, Timestamp { secs: 1234567890, nanos: 0 });
    // Cross-check against the calendar crate the wrapper relies on.
    let d = chrono::DateTime::parse_from_rfc2822("Fri, 13 Feb 2009 23:31:30 +0000").unwrap();
    assert_eq!(t.secs, d.timestamp());
    assert!(parse_http_datetime("not a date").is_none());
}

#[test]
fn record_datetime_with_and_without_fraction() {
    let plain = parse_api_datetime("2009-02-13T23:31:30").unwrap();
    assert_eq!(plain, Timestamp { secs: 1234567890, nanos: 0 });
    // The fractional format reads the digits after the dot as a literal
    // nanosecond count.
    let dotted = parse_api_datetime("2009-02-13T23:31:30.250").unwrap();
    assert_eq!(dotted.secs, 1234567890);
    assert_eq!(dotted.nanos, 250);
    // A fractional string without a dot would not match the plain format.
    assert!(parse_api_datetime("2009-02-13").is_none());
}

#[test]
fn climb_day_string() {
    let d = parse_api_date("13 Feb 2009").unwrap();
    let expected = chrono::NaiveDate::from_ymd_opt(2009, 2, 13).unwrap().num_days_from_ce();
    assert_eq!(d.days_from_ce, expected);
    assert!(parse_api_date("2009-02-13").is_none());
}

#[test]
fn climbed_timestamp_unwraps_milliseconds() {
    let t = parse_climbed_timestamp("/Date(1234567890000)/").unwrap();
    assert_eq!(t, Timestamp { secs: 1234567890, nanos: 0 });
    let with_millis = parse_climbed_timestamp("/Date(1234567890250)/").unwrap();
    assert_eq!(with_millis.nanos, 250_000_000);
    // Cross-check against the epoch crate the wrapper relies on.
    let ndt = epochs::java(1234567890000).unwrap();
    assert_eq!(t.secs, ndt.and_utc().timestamp());
    assert!(parse_climbed_timestamp("/Date(abc)/").is_none());
    assert!(parse_climbed_timestamp("").is_none());
}
