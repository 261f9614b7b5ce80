use chrono::DateTime;
use manifold_markets::error::{ErrorKind, ManifoldError, TransportFailure};
use manifold_markets::json::{integer_member, number_member, text_member};
use manifold_markets::text::{decimal_text, join, trim_end_slashes};
use manifold_markets::time::{millis_to_instant, split_millis};
use serde_json::Value;

fn parse(text: &str) -> Value {
    serde_json::from_str(text).unwrap()
}

#[test]
fn every_error_has_its_kind() {
    assert_eq!(ManifoldError::ParseError("m".to_owned(), Value::Null).kind(), ErrorKind::Decode);
    assert_eq!(
        ManifoldError::HttpError(TransportFailure::Status(500)).kind(),
        ErrorKind::Transport
    );
    assert_eq!(
        ManifoldError::HttpError(TransportFailure::Network("reset".to_owned())).kind(),
        ErrorKind::Transport
    );
    assert_eq!(
        ManifoldError::SchemaError("m".to_owned(), None).kind(),
        ErrorKind::SchemaViolation
    );
    assert_eq!(ManifoldError::Other("m".to_owned()).kind(), ErrorKind::Other);
}

#[test]
fn slashes_at_the_end_are_trimmed() {
    assert_eq!(trim_end_slashes("https://host/api/"), "https://host/api");
    assert_eq!(trim_end_slashes("https://host/api///"), "https://host/api");
    assert_eq!(trim_end_slashes("https://host/api"), "https://host/api");
    assert_eq!(trim_end_slashes("/a/b"), "/a/b");
    assert_eq!(trim_end_slashes("///"), "");
    assert_eq!(trim_end_slashes(""), "");
    assert_eq!(trim_end_slashes("h\u{f6}st/\u{fc}/"), "h\u{f6}st/\u{fc}");
}

#[test]
fn numbers_are_written_in_decimal() {
    assert_eq!(decimal_text(0), "0");
    assert_eq!(decimal_text(7), "7");
    assert_eq!(decimal_text(10), "10");
    assert_eq!(decimal_text(1000), "1000");
    assert_eq!(decimal_text(90210), "90210");
    assert_eq!(decimal_text(u32::MAX), "4294967295");
    for n in [1u32, 9, 11, 99, 100, 101, 123456789] {
        assert_eq!(decimal_text(n), n.to_string());
    }
}

#[test]
fn texts_are_joined() {
    assert_eq!(join("/user/", "ada"), "/user/ada");
    assert_eq!(join("", ""), "");
    assert_eq!(join("a", ""), "a");
}

#[test]
fn timestamps_split_into_seconds_and_nanoseconds() {
    assert_eq!(split_millis(0), Some((0, 0)));
    assert_eq!(split_millis(1), Some((0, 1_000_000)));
    assert_eq!(split_millis(999), Some((0, 999_000_000)));
    assert_eq!(split_millis(1650000000123), Some((1650000000, 123_000_000)));
    assert_eq!(split_millis(i64::MAX), Some((9223372036854775, 807_000_000)));
    assert_eq!(split_millis(-1000), Some((-1, 0)));
    assert_eq!(split_millis(-86_400_000), Some((-86_400, 0)));
    assert_eq!(split_millis(-1), None);
    assert_eq!(split_millis(-1001), None);
    assert_eq!(split_millis(i64::MIN), None);
}

#[test]
fn timestamps_become_dates() {
    for millis in [0i64, 1, 999, 1650000000123, -1000, -86_400_000, 8_210_266_876_799_999] {
        assert_eq!(
            millis_to_instant(millis),
            Some(DateTime::from_timestamp_millis(millis).unwrap().naive_utc())
        );
    }
    assert_eq!(
        millis_to_instant(1650000000123).unwrap().and_utc().to_rfc3339(),
        "2022-04-15T05:20:00.123+00:00"
    );
    assert_eq!(millis_to_instant(-1), None);
    assert_eq!(millis_to_instant(i64::MAX), None);
    assert_eq!(millis_to_instant(-9_000_000_000_000_000_000), None);
}

#[test]
fn members_are_read_by_their_kind() {
    let raw = parse("{\"s\":\"text\",\"i\":-5,\"f\":1.5,\"big\":18446744073709551615,\"n\":null}");
    assert_eq!(text_member(&raw, "s"), Some("text"));
    assert_eq!(text_member(&raw, "i"), None);
    assert_eq!(text_member(&raw, "missing"), None);
    assert_eq!(integer_member(&raw, "i"), Some(-5));
    assert_eq!(integer_member(&raw, "f"), None);
    assert_eq!(integer_member(&raw, "big"), None);
    assert_eq!(integer_member(&raw, "s"), None);
    assert_eq!(integer_member(&raw, "missing"), None);
    assert!(number_member(&raw, "i"));
    assert!(number_member(&raw, "f"));
    assert!(number_member(&raw, "big"));
    assert!(!number_member(&raw, "s"));
    assert!(!number_member(&raw, "n"));
    assert!(!number_member(&raw, "missing"));
    assert_eq!(text_member(&parse("[\"s\"]"), "s"), None);
    assert_eq!(text_member(&parse("\"s\""), "s"), None);
}
