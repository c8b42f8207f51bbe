use arb_engine::merge::{merge, MIN_PROFIT};
use arb_engine::types::{ArbError, QuoteResponse};

fn quote(
    input_mint: &str,
    in_amount: &str,
    output_mint: &str,
    out_amount: &str,
    threshold: &str,
) -> QuoteResponse {
    QuoteResponse {
        input_mint: input_mint.to_string(),
        in_amount: in_amount.to_string(),
        output_mint: output_mint.to_string(),
        out_amount: out_amount.to_string(),
        other_amount_threshold: threshold.to_string(),
        price_impact_pct: "0".to_string(),
        route_plan: Vec::new(),
        swap_mode: "ExactIn".to_string(),
        slippage_bps: 0,
    }
}

#[test]
fn mismatched_legs_fail() {
    let a = quote("X", "10000000", "Y", "12000000", "10000000");
    let b = quote("Z", "12000000", "X", "10010000", "12000000");
    assert!(matches!(merge(a, b, MIN_PROFIT), Err(ArbError::QuoteMismatch)));
}

#[test]
fn mismatch_reported_before_bad_amounts() {
    let a = quote("X", "oops", "Y", "12000000", "10000000");
    let b = quote("Z", "12000000", "X", "10010000", "12000000");
    assert!(matches!(merge(a, b, MIN_PROFIT), Err(ArbError::QuoteMismatch)));
}

#[test]
fn zero_delta_not_profitable() {
    let a = quote("X", "10000000", "Y", "12000000", "10000000");
    let b = quote("Y", "12000000", "X", "10000000", "12000000");
    let (_, profitable, tip) = merge(a, b, MIN_PROFIT).unwrap();
    assert!(!profitable);
    assert_eq!(tip, 0);
}

#[test]
fn deficit_not_profitable() {
    let a = quote("X", "10000000", "Y", "12000000", "10000000");
    let b = quote("Y", "12000000", "X", "9990000", "12000000");
    let (_, profitable, tip) = merge(a, b, MIN_PROFIT).unwrap();
    assert!(!profitable);
    assert_eq!(tip, 0);
}

#[test]
fn small_surplus_splits_tip() {
    let a = quote("X", "10000000", "Y", "12000000", "10000000");
    let b = quote("Y", "12000000", "X", "10005000", "12000000");
    let (_, profitable, tip) = merge(a, b, 1000).unwrap();
    assert_eq!(tip, 2500);
    assert!(profitable);

    let a = quote("X", "10000000", "Y", "12000000", "10000000");
    let b = quote("Y", "12000000", "X", "10005000", "12000000");
    let (_, profitable, tip) = merge(a, b, 5000).unwrap();
    assert_eq!(tip, 2500);
    assert!(!profitable, "a delta of 5000 does not exceed a 5000 threshold");
}

#[test]
fn merged_quote_fields() {
    let mut a = quote("X", "10000000", "Y", "12000000", "100");
    let mut b = quote("Y", "12000000", "X", "10005000", "12000000");
    a.route_plan.push(serde_json::Value::String("a1".to_string()));
    a.route_plan.push(serde_json::Value::String("a2".to_string()));
    b.route_plan.push(serde_json::Value::String("b1".to_string()));
    a.slippage_bps = 3;
    let (q, _, tip) = merge(a, b, 1000).unwrap();
    assert_eq!(tip, 2500);
    assert_eq!(q.input_mint, "X");
    assert_eq!(q.in_amount, "10000000");
    assert_eq!(q.output_mint, "X");
    assert_eq!(q.out_amount, "10005000");
    assert_eq!(q.other_amount_threshold, "2600");
    assert_eq!(q.price_impact_pct, "0");
    assert_eq!(q.swap_mode, "ExactIn");
    assert_eq!(q.slippage_bps, 3);
    let steps: Vec<&str> = q.route_plan.iter().map(|v| v.as_str().unwrap()).collect();
    assert_eq!(steps, ["a1", "a2", "b1"]);
}

#[test]
fn unparsable_amount_fails() {
    let a = quote("X", "ten", "Y", "12000000", "10000000");
    let b = quote("Y", "12000000", "X", "10005000", "12000000");
    assert!(matches!(merge(a, b, MIN_PROFIT), Err(ArbError::QuoteServiceError)));
}

#[test]
fn threshold_overflow_fails() {
    let a = quote("X", "1", "Y", "2", "18446744073709551615");
    let b = quote("Y", "2", "X", "18446744073709551615", "3");
    assert!(matches!(merge(a, b, MIN_PROFIT), Err(ArbError::QuoteServiceError)));
}
