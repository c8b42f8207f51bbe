//! Merging two sequential swap quotes into one round-trip quote, and the
//! profitability decision over it.

use vstd::prelude::*;
use crate::types::{ArbError, QuoteResponse};
use crate::numeral::{is_numeral, numeral_value, dec_numeral, parse_amount, amount_string};

verus! {

/// The fixed minimum profit, in base-asset units, below which a cycle is rejected.
pub const MIN_PROFIT: u64 = 1000;

/// The two legs chain: leg-A output asset is leg-B input asset.
pub open spec fn legs_chain(a: &QuoteResponse, b: &QuoteResponse) -> bool {
    a.output_mint@ == b.input_mint@
}

/// Every amount the merge reads parses as a `u64` decimal numeral.
pub open spec fn amounts_parse(a: &QuoteResponse, b: &QuoteResponse) -> bool {
    &&& is_numeral(a.in_amount@) && numeral_value(a.in_amount@) <= u64::MAX
    &&& is_numeral(b.out_amount@) && numeral_value(b.out_amount@) <= u64::MAX
    &&& is_numeral(a.other_amount_threshold@) && numeral_value(a.other_amount_threshold@)
        <= u64::MAX
}

/// What the round trip gains: leg-B output minus leg-A input, both in the
/// base asset the trip starts and ends in.
pub open spec fn profit_delta(a: &QuoteResponse, b: &QuoteResponse) -> int {
    numeral_value(b.out_amount@) - numeral_value(a.in_amount@)
}

/// Half of a positive surplus goes to the block builder; no surplus, no tip.
pub open spec fn tip_amount(a: &QuoteResponse, b: &QuoteResponse) -> int {
    if profit_delta(a, b) > 0 {
        profit_delta(a, b) / 2
    } else {
        0
    }
}

/// The raised minimum-acceptable output: leg-A threshold plus the tip, so the
/// round trip stays non-negative net of the tip.
pub open spec fn merged_threshold(a: &QuoteResponse, b: &QuoteResponse) -> int {
    numeral_value(a.other_amount_threshold@) + tip_amount(a, b)
}

/// Combines two legs into one round-trip quote and decides profitability.
///
/// Fails with `QuoteMismatch` when the legs do not chain, and with
/// `QuoteServiceError` when an amount is not a `u64` numeral or the raised
/// threshold overflows. On success returns the merged quote, whether the
/// delta exceeds `min_profit`, and the tip amount.
pub fn merge(leg_a: QuoteResponse, leg_b: QuoteResponse, min_profit: u64) -> (r: Result<
    (QuoteResponse, bool, u64),
    ArbError,
>)
    ensures
        r is Ok <==> legs_chain(&leg_a, &leg_b) && amounts_parse(&leg_a, &leg_b)
            && merged_threshold(&leg_a, &leg_b) <= u64::MAX,
        !legs_chain(&leg_a, &leg_b) ==> r == Err::<(QuoteResponse, bool, u64), ArbError>(
            ArbError::QuoteMismatch,
        ),
        r is Err && legs_chain(&leg_a, &leg_b) ==> r == Err::<(QuoteResponse, bool, u64), ArbError>(
            ArbError::QuoteServiceError,
        ),
        r is Ok ==> ({
            let (q, profitable, tip) = r.unwrap();
            &&& tip == tip_amount(&leg_a, &leg_b)
            &&& profitable == (profit_delta(&leg_a, &leg_b) > min_profit)
            &&& q.input_mint == leg_a.input_mint
            &&& q.in_amount == leg_a.in_amount
            &&& q.output_mint == leg_b.output_mint
            &&& q.out_amount == leg_b.out_amount
            &&& q.other_amount_threshold@ == dec_numeral(merged_threshold(&leg_a, &leg_b) as nat)
            &&& q.price_impact_pct@ == "0"@
            &&& q.route_plan@ == leg_a.route_plan@ + leg_b.route_plan@
            &&& q.swap_mode == leg_a.swap_mode
            &&& q.slippage_bps == leg_a.slippage_bps
        }),
{
    if !(leg_a.output_mint == leg_b.input_mint) {
        return Err(ArbError::QuoteMismatch);
    }
    let in_amount = match parse_amount(leg_a.in_amount.as_str()) {
        Ok(v) => v,
        Err(e) => { return Err(e); },
    };
    let out_amount = match parse_amount(leg_b.out_amount.as_str()) {
        Ok(v) => v,
        Err(e) => { return Err(e); },
    };
    let threshold = match parse_amount(leg_a.other_amount_threshold.as_str()) {
        Ok(v) => v,
        Err(e) => { return Err(e); },
    };
    let tip: u64 = if out_amount > in_amount {
        (out_amount - in_amount) / 2
    } else {
        0
    };
    let profitable: bool = out_amount > in_amount && out_amount - in_amount > min_profit;
    let raised = match threshold.checked_add(tip) {
        Some(v) => v,
        None => { return Err(ArbError::QuoteServiceError); },
    };
    let threshold_text = amount_string(raised);
    let mut route_plan = leg_a.route_plan;
    let mut tail = leg_b.route_plan;
    route_plan.append(&mut tail);
    let zero_impact = "0".to_owned();
    let merged = QuoteResponse {
        input_mint: leg_a.input_mint,
        in_amount: leg_a.in_amount,
        output_mint: leg_b.output_mint,
        out_amount: leg_b.out_amount,
        other_amount_threshold: threshold_text,
        price_impact_pct: zero_impact,
        route_plan,
        swap_mode: leg_a.swap_mode,
        slippage_bps: leg_a.slippage_bps,
    };
    Ok((merged, profitable, tip))
}

} // verus!
