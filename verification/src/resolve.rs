//! Decoding fetched lookup-table accounts into ordered address lists.
//!
//! The network reads themselves happen outside the library, concurrently,
//! one per table address; this module takes the raw account bytes, in the
//! input's order, and decodes all of them or fails the whole resolution.

use vstd::prelude::*;
use crate::types::{ArbError, LookupTableEntry, RawTableAccount};

verus! {

/// What the ledger's lookup-table layout decoder yields on an account's
/// bytes: the table's ordered address list, or nothing when the bytes are
/// not a valid table.
pub uninterp spec fn table_addresses(data: Seq<u8>) -> Option<Seq<[u8; 32]>>;

/// Relies on `AddressLookupTable::deserialize` of solana_program: decodes a
/// lookup-table account's bytes into its ordered address list, failing
/// exactly on bytes that are not a well-formed, initialized table.
#[verifier::external_body]
fn decode_table(data: &Vec<u8>) -> (r: Result<Vec<[u8; 32]>, ArbError>)
    ensures
        r is Ok <==> table_addresses(data@) is Some,
        r is Ok ==> Some(r.unwrap()@) == table_addresses(data@),
        r is Err ==> r.unwrap_err() == ArbError::LookupTableUnavailable,
{
    match solana_program::address_lookup_table::state::AddressLookupTable::deserialize(
        data.as_slice(),
    ) {
        Ok(table) => Ok(table.addresses.iter().map(|p| p.to_bytes()).collect()),
        Err(_) => Err(ArbError::LookupTableUnavailable),
    }
}

/// Every fetched account decodes as a lookup table.
pub open spec fn all_tables_decode(accounts: Seq<RawTableAccount>) -> bool {
    forall|i: int| 0 <= i < accounts.len() ==> table_addresses(#[trigger] accounts[i].data@) is Some
}

/// Decodes the fetched table accounts, in input order, all or nothing.
///
/// Returns one entry per input, in the same order, each carrying its table
/// address and decoded address list; a single undecodable account fails the
/// whole resolution, since a transaction referencing an unresolved table
/// cannot be compiled. An empty input yields an empty list.
pub fn resolve(accounts: Vec<RawTableAccount>) -> (r: Result<Vec<LookupTableEntry>, ArbError>)
    ensures
        r is Ok <==> all_tables_decode(accounts@),
        r is Ok ==> ({
            let entries = r.unwrap()@;
            &&& entries.len() == accounts@.len()
            &&& forall|i: int|
                0 <= i < accounts@.len() ==> (#[trigger] entries[i]).table_address
                    == accounts@[i].table_address && Some(entries[i].addresses@)
                    == table_addresses(accounts@[i].data@)
        }),
        r is Err ==> r.unwrap_err() == ArbError::LookupTableUnavailable,
{
    let mut entries: Vec<LookupTableEntry> = Vec::new();
    let n = accounts.len();
    let mut i: usize = 0;
    while i < n
        invariant
            n == accounts@.len(),
            0 <= i <= n,
            entries@.len() == i,
            forall|j: int|
                0 <= j < i ==> (#[trigger] entries@[j]).table_address == accounts@[j].table_address
                    && Some(entries@[j].addresses@) == table_addresses(accounts@[j].data@),
        decreases n - i,
    {
        let account = &accounts[i];
        let addresses = match decode_table(&account.data) {
            Ok(a) => a,
            Err(e) => {
                proof {
                    assert(table_addresses(accounts@[i as int].data@) is None);
                }
                return Err(e);
            },
        };
        entries.push(LookupTableEntry { table_address: account.table_address, addresses });
        i += 1;
    }
    proof {
        assert forall|j: int| 0 <= j < accounts@.len() implies table_addresses(
            #[trigger] accounts@[j].data@,
        ) is Some by {
            assert(Some(entries@[j].addresses@) == table_addresses(accounts@[j].data@));
        }
    }
    Ok(entries)
}

} // verus!
