use arb_engine::wallet::{quote_params, swap_request, validation_amount, VALIDATION_FEE};
use arb_engine::types::QuoteResponse;

#[test]
fn zero_balance_skips_validation() {
    assert_eq!(validation_amount(0), None);
}

#[test]
fn balance_below_fee_skips_validation() {
    assert_eq!(validation_amount(4_999), None);
    assert_eq!(validation_amount(VALIDATION_FEE), None);
}

#[test]
fn balance_above_fee_reserves_the_fee() {
    assert_eq!(validation_amount(5_001), Some(1));
    assert_eq!(validation_amount(1_000_000), Some(995_000));
}

#[test]
fn quote_params_fixed_constraints() {
    let p = quote_params("A".to_string(), "B".to_string(), "10000000".to_string());
    assert_eq!(p.input_mint, "A");
    assert_eq!(p.output_mint, "B");
    assert_eq!(p.amount, "10000000");
    assert!(!p.only_direct_routes);
    assert_eq!(p.slippage_bps, 0);
    assert_eq!(p.max_accounts, 20);
}

#[test]
fn swap_request_fixed_flags() {
    let merged = QuoteResponse {
        input_mint: "X".to_string(),
        in_amount: "1".to_string(),
        output_mint: "X".to_string(),
        out_amount: "2".to_string(),
        other_amount_threshold: "1".to_string(),
        price_impact_pct: "0".to_string(),
        route_plan: Vec::new(),
        swap_mode: "ExactIn".to_string(),
        slippage_bps: 0,
    };
    let req = swap_request("payer".to_string(), merged);
    assert_eq!(req.user_public_key, "payer");
    assert!(!req.wrap_and_unwrap_sol);
    assert!(!req.use_shared_accounts);
    assert_eq!(req.compute_unit_price_micro_lamports, 1);
    assert!(req.dynamic_compute_unit_limit);
    assert!(req.skip_user_accounts_rpc_calls);
    assert_eq!(req.quote_response.out_amount, "2");
}
