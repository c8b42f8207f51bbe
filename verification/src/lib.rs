//! Two-leg round-trip swap evaluation and atomic bundle assembly.
//!
//! The pipeline merges two swap quotes into one round-trip quote, decides
//! whether the implied profit clears a threshold, converts externally
//! described instructions into native ledger instructions, resolves address
//! lookup tables, assembles and signs one multi-instruction transaction, and
//! encodes it for atomic bundle submission.

pub mod types;
pub mod numeral;
pub mod consts;
pub mod merge;
pub mod convert;
pub mod resolve;
pub mod wallet;
pub mod assemble;
pub mod bundle;
