//! Wallet-side policy: how much of the balance a validation transfer may
//! move, with the transaction fee explicitly reserved.

use vstd::prelude::*;
use crate::types::{QuoteParams, QuoteResponse, SwapData};

verus! {

/// The flat transaction fee, in lamports, reserved out of the balance.
pub const VALIDATION_FEE: u64 = 5000;

/// The amount a validation transfer should move: the balance minus the
/// reserved fee.
///
/// When the balance cannot cover more than the fee — including a zero
/// balance — there is nothing to validate with and the transfer is skipped,
/// rather than underflowing an unsigned subtraction.
pub fn validation_amount(balance: u64) -> (r: Option<u64>)
    ensures
        balance > VALIDATION_FEE ==> r == Some::<u64>((balance - VALIDATION_FEE) as u64),
        balance <= VALIDATION_FEE ==> r is None,
{
    if balance > VALIDATION_FEE {
        Some(balance - VALIDATION_FEE)
    } else {
        None
    }
}

/// Builds the request parameters for one quote leg, with the fixed routing
/// constraints every cycle uses.
pub fn quote_params(input_mint: String, output_mint: String, amount: String) -> (r: QuoteParams)
    ensures
        r.input_mint == input_mint,
        r.output_mint == output_mint,
        r.amount == amount,
        !r.only_direct_routes,
        r.slippage_bps == 0,
        r.max_accounts == 20,
{
    QuoteParams {
        input_mint,
        output_mint,
        amount,
        only_direct_routes: false,
        slippage_bps: 0,
        max_accounts: 20,
    }
}

/// Builds the swap-instruction request around a merged quote, with the fixed
/// execution flags every cycle uses.
pub fn swap_request(user_public_key: String, merged: QuoteResponse) -> (r: SwapData)
    ensures
        r.user_public_key == user_public_key,
        !r.wrap_and_unwrap_sol,
        !r.use_shared_accounts,
        r.compute_unit_price_micro_lamports == 1,
        r.dynamic_compute_unit_limit,
        r.skip_user_accounts_rpc_calls,
        r.quote_response == merged,
{
    SwapData {
        user_public_key,
        wrap_and_unwrap_sol: false,
        use_shared_accounts: false,
        compute_unit_price_micro_lamports: 1,
        dynamic_compute_unit_limit: true,
        skip_user_accounts_rpc_calls: true,
        quote_response: merged,
    }
}

} // verus!
