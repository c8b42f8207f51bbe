//! Encoding signed transactions for atomic bundle submission: each one to
//! its canonical binary wire form, then to base58 text, preserving list
//! order — the order is the execution order inside the bundle.

use vstd::prelude::*;
use crate::types::ArbError;

verus! {

/// What bs58 yields on a byte string: its base58 text, a function of the
/// bytes alone.
pub uninterp spec fn base58_text(b: Seq<u8>) -> Seq<char>;

/// What bincode yields on a signed transaction: its canonical binary wire
/// form, a function of the transaction value alone, or nothing when
/// serialization fails.
pub uninterp spec fn wire_form(tx: solana_sdk::transaction::VersionedTransaction) -> Option<
    Seq<u8>,
>;

/// Relies on `bs58::encode`: base58 text for the given bytes.
#[verifier::external_body]
fn encode_base58(b: &[u8]) -> (r: String)
    ensures
        r@ == base58_text(b@),
{
    bs58::encode(b).into_string()
}

/// Relies on `bincode::serialize`: a signed transaction's canonical binary
/// wire form, a deterministic function of the transaction; serialization
/// alone decides failure, reported as `SubmissionError`.
#[verifier::external_body]
fn serialize_transaction(tx: &solana_sdk::transaction::VersionedTransaction) -> (r: Result<
    Vec<u8>,
    ArbError,
>)
    ensures
        r is Ok <==> wire_form(*tx) is Some,
        r is Ok ==> Some(r.unwrap()@) == wire_form(*tx),
        r is Err ==> r.unwrap_err() == ArbError::SubmissionError,
{
    match bincode::serialize(tx) {
        Ok(b) => Ok(b),
        Err(_) => Err(ArbError::SubmissionError),
    }
}

/// A 32-byte address as base58 text.
pub fn encode_address(address: &[u8; 32]) -> (r: String)
    ensures
        r@ == base58_text(address@),
{
    encode_base58(address.as_slice())
}

/// Encodes each wire form as base58 text, one string per input, order
/// preserved exactly.
pub fn encode_wire_forms(wires: &Vec<Vec<u8>>) -> (r: Vec<String>)
    ensures
        r@.len() == wires@.len(),
        forall|i: int| 0 <= i < wires@.len() ==> (#[trigger] r@[i])@ == base58_text(wires@[i]@),
{
    let mut encoded: Vec<String> = Vec::new();
    let mut i: usize = 0;
    while i < wires.len()
        invariant
            0 <= i <= wires@.len(),
            encoded@.len() == i,
            forall|j: int| 0 <= j < i ==> (#[trigger] encoded@[j])@ == base58_text(wires@[j]@),
        decreases wires@.len() - i,
    {
        encoded.push(encode_base58(wires[i].as_slice()));
        i += 1;
    }
    encoded
}

/// Every transaction of the list has a wire form.
pub open spec fn all_serialize(transactions: Seq<solana_sdk::transaction::VersionedTransaction>) -> bool {
    forall|i: int| 0 <= i < transactions.len() ==> wire_form(#[trigger] transactions[i]) is Some
}

/// Encodes an ordered list of signed transactions for one atomic bundle:
/// one base58 string per transaction, wire form first, order preserved.
/// A single transaction that cannot be serialized fails the whole bundle.
pub fn encode_bundle(transactions: &Vec<solana_sdk::transaction::VersionedTransaction>) -> (r:
    Result<Vec<String>, ArbError>)
    ensures
        r is Ok <==> all_serialize(transactions@),
        r is Ok ==> ({
            let encoded = r.unwrap()@;
            &&& encoded.len() == transactions@.len()
            &&& forall|i: int|
                0 <= i < transactions@.len() ==> (#[trigger] encoded[i])@ == base58_text(
                    wire_form(transactions@[i]).unwrap(),
                )
        }),
        r is Err ==> r.unwrap_err() == ArbError::SubmissionError,
{
    let mut wires: Vec<Vec<u8>> = Vec::new();
    let mut i: usize = 0;
    while i < transactions.len()
        invariant
            0 <= i <= transactions@.len(),
            wires@.len() == i,
            forall|j: int|
                0 <= j < i ==> Some((#[trigger] wires@[j])@) == wire_form(transactions@[j]),
        decreases transactions@.len() - i,
    {
        let wire = match serialize_transaction(&transactions[i]) {
            Ok(b) => b,
            Err(e) => {
                proof {
                    assert(wire_form(transactions@[i as int]) is None);
                }
                return Err(e);
            },
        };
        wires.push(wire);
        i += 1;
    }
    let encoded = encode_wire_forms(&wires);
    proof {
        assert forall|j: int| 0 <= j < transactions@.len() implies wire_form(
            #[trigger] transactions@[j],
        ) is Some by {
            assert(Some(wires@[j]@) == wire_form(transactions@[j]));
        }
    }
    Ok(encoded)
}

/// The relay's reply acknowledges a bundle only when it carries an
/// identifier; a reply without one is a submission failure, not a success
/// with a made-up identifier.
pub fn bundle_acknowledgement(bundle_id: Option<String>) -> (r: Result<String, ArbError>)
    ensures
        bundle_id is Some ==> r == Ok::<String, ArbError>(bundle_id.unwrap()),
        bundle_id is None ==> r == Err::<String, ArbError>(ArbError::SubmissionError),
{
    match bundle_id {
        Some(id) => Ok(id),
        None => Err(ArbError::SubmissionError),
    }
}

} // verus!
