//! Converting an externally described instruction into a native instruction
//! record: addresses from base58 text, payload from base64 text, account
//! order and flags preserved exactly.

use vstd::prelude::*;
use std::str::FromStr;
use crate::types::{ArbError, AccountData, InstructionData, NativeAccount, NativeInstruction};

verus! {

/// What the ledger's base58 address parser yields on a string: 32 bytes, or
/// nothing when the string is not a valid address.
pub uninterp spec fn decoded_address(s: Seq<char>) -> Option<Seq<u8>>;

/// What the standard base64 decoder yields on a string, or nothing when the
/// string is not valid base64.
pub uninterp spec fn decoded_payload(s: Seq<char>) -> Option<Seq<u8>>;

/// Relies on `solana_sdk::pubkey::Pubkey::from_str`: parses a base58 address
/// string into its 32 bytes, failing exactly on invalid addresses.
#[verifier::external_body]
pub fn parse_address(s: &str) -> (r: Result<[u8; 32], ArbError>)
    ensures
        r is Ok <==> decoded_address(s@) is Some,
        r is Ok ==> Some(r.unwrap()@) == decoded_address(s@),
        r is Err ==> r.unwrap_err() == ArbError::MalformedAddress,
{
    match solana_sdk::pubkey::Pubkey::from_str(s) {
        Ok(p) => Ok(p.to_bytes()),
        Err(_) => Err(ArbError::MalformedAddress),
    }
}

/// Relies on base64's `STANDARD` engine `decode`: decodes standard base64
/// text into bytes, failing exactly on invalid encodings.
#[verifier::external_body]
fn decode_payload(s: &str) -> (r: Result<Vec<u8>, ArbError>)
    ensures
        r is Ok <==> decoded_payload(s@) is Some,
        r is Ok ==> Some(r.unwrap()@) == decoded_payload(s@),
        r is Err ==> r.unwrap_err() == ArbError::PayloadDecodeError,
{
    match base64::Engine::decode(&base64::engine::general_purpose::STANDARD, s) {
        Ok(b) => Ok(b),
        Err(_) => Err(ArbError::PayloadDecodeError),
    }
}

/// Every account address of the descriptor is a valid ledger address.
pub open spec fn accounts_decode(d: &InstructionData) -> bool {
    forall|i: int|
        0 <= i < d.accounts@.len() ==> decoded_address(
            #[trigger] d.accounts@[i].pubkey@,
        ) is Some
}

/// The whole descriptor converts: program id and every account address
/// decode, and the payload is valid base64.
pub open spec fn descriptor_converts(d: &InstructionData) -> bool {
    &&& decoded_address(d.program_id@) is Some
    &&& accounts_decode(d)
    &&& decoded_payload(d.data@) is Some
}

/// The program id and every account address of the descriptor decode.
pub open spec fn descriptor_addresses_decode(d: &InstructionData) -> bool {
    decoded_address(d.program_id@) is Some && accounts_decode(d)
}

/// The error a non-converting descriptor is rejected with: a bad address
/// anywhere is `MalformedAddress`; with all addresses good, the payload is
/// what failed, `PayloadDecodeError`.
pub open spec fn convert_error(d: InstructionData) -> ArbError {
    if !descriptor_addresses_decode(&d) {
        ArbError::MalformedAddress
    } else {
        ArbError::PayloadDecodeError
    }
}

/// The native account carries the decoded address and the same flags.
pub open spec fn converted_account(a: AccountData, n: NativeAccount) -> bool {
    &&& Some(n.address@) == decoded_address(a.pubkey@)
    &&& n.is_signer == a.is_signer
    &&& n.is_writable == a.is_writable
}

/// The native instruction is the descriptor's faithful image: decoded
/// program id, the same number of accounts in the same order with the same
/// flags, and the decoded payload.
pub open spec fn converted_instruction(d: &InstructionData, n: &NativeInstruction) -> bool {
    &&& Some(n.program_id@) == decoded_address(d.program_id@)
    &&& n.accounts@.len() == d.accounts@.len()
    &&& forall|i: int|
        0 <= i < d.accounts@.len() ==> converted_account(
            d.accounts@[i],
            #[trigger] n.accounts@[i],
        )
    &&& Some(n.data@) == decoded_payload(d.data@)
}

/// Turns an externally described instruction into a native instruction
/// record.
///
/// Succeeds exactly when every address parses and the payload decodes; a
/// malformed entry is rejected rather than dropped, since dropping one would
/// reshuffle the positional account layout. The result preserves account
/// order and signer/writable flags exactly.
pub fn convert(descriptor: &InstructionData) -> (r: Result<NativeInstruction, ArbError>)
    ensures
        r is Ok <==> descriptor_converts(descriptor),
        r is Ok ==> converted_instruction(descriptor, &r.unwrap()),
        decoded_address(descriptor.program_id@) is None ==> r == Err::<
            NativeInstruction,
            ArbError,
        >(ArbError::MalformedAddress),
        decoded_address(descriptor.program_id@) is Some && !accounts_decode(&descriptor) ==> r
            == Err::<NativeInstruction, ArbError>(ArbError::MalformedAddress),
        decoded_address(descriptor.program_id@) is Some && accounts_decode(&descriptor)
            && decoded_payload(descriptor.data@) is None ==> r == Err::<
            NativeInstruction,
            ArbError,
        >(ArbError::PayloadDecodeError),
        r is Err ==> r.unwrap_err() == convert_error(*descriptor),
{
    let program_id = match parse_address(descriptor.program_id.as_str()) {
        Ok(b) => b,
        Err(e) => { return Err(e); },
    };
    let mut accounts: Vec<NativeAccount> = Vec::new();
    let n = descriptor.accounts.len();
    let mut i: usize = 0;
    while i < n
        invariant
            n == descriptor.accounts@.len(),
            0 <= i <= n,
            accounts@.len() == i,
            forall|j: int|
                0 <= j < i ==> converted_account(descriptor.accounts@[j], #[trigger] accounts@[j]),
        decreases n - i,
    {
        let entry = &descriptor.accounts[i];
        let address = match parse_address(entry.pubkey.as_str()) {
            Ok(b) => b,
            Err(e) => {
                proof {
                    assert(decoded_address(descriptor.accounts@[i as int].pubkey@) is None);
                    assert(!accounts_decode(&descriptor));
                }
                return Err(e);
            },
        };
        accounts.push(NativeAccount { address, is_signer: entry.is_signer, is_writable: entry.is_writable });
        i += 1;
    }
    proof {
        assert forall|j: int| 0 <= j < descriptor.accounts@.len() implies decoded_address(
            #[trigger] descriptor.accounts@[j].pubkey@,
        ) is Some by {
            assert(converted_account(descriptor.accounts@[j], accounts@[j]));
        }
    }
    let data = match decode_payload(descriptor.data.as_str()) {
        Ok(b) => b,
        Err(e) => { return Err(e); },
    };
    Ok(NativeInstruction { program_id, accounts, data })
}

} // verus!
