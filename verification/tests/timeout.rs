use std::time::Duration;

use grpc_quic::timeout::{grpc_timeout_is_readable, parse_grpc_timeout};

#[test]
fn grpc_timeout_units() {
    assert_eq!(parse_grpc_timeout("2H"), Some(Duration::from_secs(7200)));
    assert_eq!(parse_grpc_timeout("3M"), Some(Duration::from_secs(180)));
    assert_eq!(parse_grpc_timeout("10S"), Some(Duration::from_secs(10)));
    assert_eq!(parse_grpc_timeout("250m"), Some(Duration::from_millis(250)));
    assert_eq!(parse_grpc_timeout("42u"), Some(Duration::from_micros(42)));
    assert_eq!(parse_grpc_timeout("99n"), Some(Duration::from_nanos(99)));
    assert_eq!(parse_grpc_timeout("0S"), Some(Duration::from_secs(0)));
}

#[test]
fn grpc_timeout_rejects_malformed_values() {
    assert_eq!(parse_grpc_timeout(""), None);
    assert_eq!(parse_grpc_timeout("S"), None);
    assert_eq!(parse_grpc_timeout("10"), None);
    assert_eq!(parse_grpc_timeout("10x"), None);
    assert_eq!(parse_grpc_timeout("1 S"), None);
    assert_eq!(parse_grpc_timeout("-5S"), None);
    assert_eq!(parse_grpc_timeout("+S"), None);
    assert_eq!(parse_grpc_timeout("18446744073709551616n"), None);
}

#[test]
fn grpc_timeout_accepts_a_leading_plus_like_u64_parse() {
    assert_eq!(parse_grpc_timeout("+5S"), Some(Duration::from_secs(5)));
    assert_eq!(parse_grpc_timeout("18446744073709551615n"), Some(Duration::from_nanos(u64::MAX)));
}

#[test]
fn grpc_timeout_readability() {
    assert!(grpc_timeout_is_readable(""));
    assert!(grpc_timeout_is_readable("5124095576030431H"));
    assert!(!grpc_timeout_is_readable("5124095576030432H"));
    assert!(grpc_timeout_is_readable("307445734561825860M"));
    assert!(!grpc_timeout_is_readable("307445734561825861M"));
    assert!(grpc_timeout_is_readable("18446744073709551615S"));
    assert!(!grpc_timeout_is_readable("5é"));
    assert!(grpc_timeout_is_readable("é5S"));
    assert_eq!(parse_grpc_timeout("5124095576030431H"), Some(Duration::from_secs(5124095576030431 * 3600)));
}
