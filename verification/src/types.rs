//! Data carried between the pipeline stages.

use vstd::prelude::*;

verus! {

/// Every way a cycle can fail; each stage failure aborts the whole cycle.
#[derive(Clone, Copy, Debug, PartialEq, Eq, Structural)]
pub enum ArbError {
    /// The quote service answered with something unusable (bad numeral, overflow).
    QuoteServiceError,
    /// The two legs do not chain: leg-A output asset differs from leg-B input asset.
    QuoteMismatch,
    /// An address string is not a valid ledger address.
    MalformedAddress,
    /// An instruction payload is not valid base64.
    PayloadDecodeError,
    /// A lookup table account could not be decoded.
    LookupTableUnavailable,
    /// Message compilation failed.
    UnresolvedReference,
    /// The payer cannot cover a transfer.
    InsufficientFunds,
    /// Signing failed on an internal fault.
    SigningError,
    /// Serializing or submitting the bundle failed.
    SubmissionError,
}

/// Declares serde_json's `Value` so route-plan steps can be carried through
/// the pipeline opaquely; nothing here reads inside one.
#[verifier::external_type_specification]
#[verifier::external_body]
pub struct ExValue(serde_json::Value);

/// Request parameters for one quote leg.
pub struct QuoteParams {
    pub input_mint: String,
    pub output_mint: String,
    pub amount: String,
    pub only_direct_routes: bool,
    pub slippage_bps: u64,
    pub max_accounts: u64,
}

/// One directional swap quote, as the quote service reports it.
/// Amounts are decimal numerals; the route plan is opaque ordered steps.
pub struct QuoteResponse {
    pub input_mint: String,
    pub in_amount: String,
    pub output_mint: String,
    pub out_amount: String,
    pub other_amount_threshold: String,
    pub price_impact_pct: String,
    pub route_plan: Vec<serde_json::Value>,
    pub swap_mode: String,
    pub slippage_bps: u64,
}

/// Request body for the swap-instruction service.
pub struct SwapData {
    pub user_public_key: String,
    pub wrap_and_unwrap_sol: bool,
    pub use_shared_accounts: bool,
    pub compute_unit_price_micro_lamports: u64,
    pub dynamic_compute_unit_limit: bool,
    pub skip_user_accounts_rpc_calls: bool,
    pub quote_response: QuoteResponse,
}

/// What the swap-instruction service hands back. Optional fields are
/// accepted but not used by the core assembly.
pub struct SwapInstructionResponse {
    pub compute_unit_limit: u32,
    pub setup_instructions: Vec<InstructionData>,
    pub swap_instruction: InstructionData,
    pub address_lookup_table_addresses: Vec<String>,
    pub token_ledger_instruction: Option<InstructionData>,
    pub compute_budget_instructions: Vec<InstructionData>,
    pub cleanup_instruction: Option<InstructionData>,
    pub other_instructions: Vec<InstructionData>,
    pub prioritization_fee_lamports: u64,
}

/// An externally described instruction: program id and account addresses as
/// base58 text, payload as base64 text.
pub struct InstructionData {
    pub program_id: String,
    pub accounts: Vec<AccountData>,
    pub data: String,
}

/// One positional account of an externally described instruction.
pub struct AccountData {
    pub pubkey: String,
    pub is_signer: bool,
    pub is_writable: bool,
}

/// One positional account of a native instruction, address decoded to bytes.
#[derive(Debug)]
pub struct NativeAccount {
    pub address: [u8; 32],
    pub is_signer: bool,
    pub is_writable: bool,
}

/// A native executable instruction record.
#[derive(Debug)]
pub struct NativeInstruction {
    pub program_id: [u8; 32],
    pub accounts: Vec<NativeAccount>,
    pub data: Vec<u8>,
}

/// The raw account bytes read for one lookup table.
pub struct RawTableAccount {
    pub table_address: [u8; 32],
    pub data: Vec<u8>,
}

/// A decoded lookup table: the table's address and its ordered address list.
#[derive(Debug)]
pub struct LookupTableEntry {
    pub table_address: [u8; 32],
    pub addresses: Vec<[u8; 32]>,
}

} // verus!
