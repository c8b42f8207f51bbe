use arb_engine::numeral::{amount_string, parse_amount};
use arb_engine::types::ArbError;

#[test]
fn parse_zero() {
    assert_eq!(parse_amount("0"), Ok(0));
}

#[test]
fn parse_plain_amount() {
    assert_eq!(parse_amount("10000000"), Ok(10_000_000));
}

#[test]
fn parse_max() {
    assert_eq!(parse_amount("18446744073709551615"), Ok(u64::MAX));
}

#[test]
fn parse_overflow_rejected() {
    assert_eq!(parse_amount("18446744073709551616"), Err(ArbError::QuoteServiceError));
}

#[test]
fn parse_empty_rejected() {
    assert_eq!(parse_amount(""), Err(ArbError::QuoteServiceError));
}

#[test]
fn parse_non_digit_rejected() {
    assert_eq!(parse_amount("12a4"), Err(ArbError::QuoteServiceError));
    assert_eq!(parse_amount("+15"), Err(ArbError::QuoteServiceError));
    assert_eq!(parse_amount("-1"), Err(ArbError::QuoteServiceError));
    assert_eq!(parse_amount(" 1"), Err(ArbError::QuoteServiceError));
}

#[test]
fn format_zero() {
    assert_eq!(amount_string(0), "0");
}

#[test]
fn format_small_and_large() {
    assert_eq!(amount_string(7), "7");
    assert_eq!(amount_string(10), "10");
    assert_eq!(amount_string(12345), "12345");
    assert_eq!(amount_string(u64::MAX), "18446744073709551615");
}

#[test]
fn format_then_parse_round_trip() {
    for n in [0u64, 1, 9, 10, 99, 100, 10_000_000, u64::MAX] {
        assert_eq!(parse_amount(&amount_string(n)), Ok(n));
    }
}
