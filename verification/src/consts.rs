//! Well-known ledger addresses, in their base58 text form.

use vstd::prelude::*;

verus! {

pub const WSOL_MINT: &'static str = "So11111111111111111111111111111111111111112";

pub const USDC_MINT: &'static str = "EPjFWdd5AufqSSqeM2qN1xzybapC8G4wEGGkZwyTDt1v";

/// The fixed incentive address the tip payment goes to.
pub const JITO_TIP_ACCOUNT: &'static str = "Cw8CFyM9FkoMi7K7Crf6HNQqf4uEMzpKw6QNghXLvLkY";

pub const JITO_SDK_PROGRAM_ID: &'static str = "7pr2BUjjdZy418NzTfqnpafR3GG3BvQyDyweM1R4kKA1";

/// The program that takes compute-budget directives.
pub const COMPUTE_BUDGET_PROGRAM_ID: &'static str = "ComputeBudget111111111111111111111111111111";

/// The system program, which executes lamport transfers.
pub const SYSTEM_PROGRAM_ID: &'static str = "11111111111111111111111111111111";

} // verus!
