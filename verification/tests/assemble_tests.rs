use std::str::FromStr;

use arb_engine::assemble::{assemble, build_instruction_list, compute_budget_instruction, transfer_instruction};
use base64::Engine;
use arb_engine::bundle::{encode_address, encode_bundle};
use arb_engine::consts::{COMPUTE_BUDGET_PROGRAM_ID, JITO_TIP_ACCOUNT, SYSTEM_PROGRAM_ID, WSOL_MINT};
use arb_engine::merge::merge;
use arb_engine::types::{AccountData, InstructionData, QuoteResponse};
use solana_sdk::compute_budget::ComputeBudgetInstruction;
use solana_sdk::pubkey::Pubkey;
use solana_sdk::signature::Keypair;
use solana_sdk::signer::Signer;
use solana_sdk::transaction::VersionedTransaction;

fn key_bytes(s: &str) -> [u8; 32] {
    Pubkey::from_str(s).unwrap().to_bytes()
}

fn descriptor(program: &str, accounts: Vec<AccountData>, data: &str) -> InstructionData {
    InstructionData { program_id: program.to_string(), accounts, data: data.to_string() }
}

fn signed_account(pubkey: [u8; 32]) -> AccountData {
    AccountData {
        pubkey: Pubkey::new_from_array(pubkey).to_string(),
        is_signer: true,
        is_writable: true,
    }
}

#[test]
fn compute_budget_matches_ledger_encoding() {
    let mine = compute_budget_instruction(key_bytes(COMPUTE_BUDGET_PROGRAM_ID), 1_400_000);
    let theirs = ComputeBudgetInstruction::set_compute_unit_limit(1_400_000);
    assert_eq!(mine.program_id, theirs.program_id.to_bytes());
    assert_eq!(mine.data, theirs.data);
    assert_eq!(mine.accounts.len(), theirs.accounts.len());
}

#[test]
fn transfer_matches_ledger_encoding() {
    let from = [1u8; 32];
    let to = [2u8; 32];
    let mine = transfer_instruction(key_bytes(SYSTEM_PROGRAM_ID), from, to, 987_654_321);
    let theirs = solana_sdk::system_instruction::transfer(
        &Pubkey::new_from_array(from),
        &Pubkey::new_from_array(to),
        987_654_321,
    );
    assert_eq!(mine.program_id, theirs.program_id.to_bytes());
    assert_eq!(mine.data, theirs.data);
    assert_eq!(mine.accounts.len(), theirs.accounts.len());
    for (a, b) in mine.accounts.iter().zip(theirs.accounts.iter()) {
        assert_eq!(a.address, b.pubkey.to_bytes());
        assert_eq!(a.is_signer, b.is_signer);
        assert_eq!(a.is_writable, b.is_writable);
    }
}

#[test]
fn ordering_without_setups() {
    let payer = [7u8; 32];
    let swap = descriptor(WSOL_MINT, vec![signed_account(payer)], "AQID");
    let ixs = build_instruction_list(
        key_bytes(COMPUTE_BUDGET_PROGRAM_ID),
        key_bytes(SYSTEM_PROGRAM_ID),
        200_000,
        &Vec::new(),
        &swap,
        payer,
        key_bytes(JITO_TIP_ACCOUNT),
        5_000,
    )
    .unwrap();
    assert_eq!(ixs.len(), 3);
    assert_eq!(ixs[0].program_id, key_bytes(COMPUTE_BUDGET_PROGRAM_ID));
    assert_eq!(ixs[0].data[0], 2);
    assert_eq!(ixs[1].program_id, key_bytes(WSOL_MINT));
    assert_eq!(ixs[2].program_id, key_bytes(SYSTEM_PROGRAM_ID));
    assert_eq!(ixs[2].accounts[1].address, key_bytes(JITO_TIP_ACCOUNT));
}

#[test]
fn ordering_with_setups() {
    let payer = [7u8; 32];
    let setups = vec![
        descriptor(WSOL_MINT, vec![signed_account(payer)], ""),
        descriptor(JITO_TIP_ACCOUNT, vec![signed_account(payer)], "BA=="),
    ];
    let swap = descriptor(WSOL_MINT, vec![signed_account(payer)], "AQID");
    let ixs = build_instruction_list(
        key_bytes(COMPUTE_BUDGET_PROGRAM_ID),
        key_bytes(SYSTEM_PROGRAM_ID),
        150_000,
        &setups,
        &swap,
        payer,
        key_bytes(JITO_TIP_ACCOUNT),
        1_234,
    )
    .unwrap();
    assert_eq!(ixs.len(), 5);
    // compute budget first, then the setups in order, the swap, the tip last
    assert_eq!(ixs[0].program_id, key_bytes(COMPUTE_BUDGET_PROGRAM_ID));
    assert_eq!(ixs[1].program_id, key_bytes(WSOL_MINT));
    assert_eq!(ixs[1].data, Vec::<u8>::new());
    assert_eq!(ixs[2].program_id, key_bytes(JITO_TIP_ACCOUNT));
    assert_eq!(ixs[2].data, vec![4]);
    assert_eq!(ixs[3].data, vec![1, 2, 3]);
    assert_eq!(ixs[4].program_id, key_bytes(SYSTEM_PROGRAM_ID));
    let tip = ixs.last().unwrap();
    assert_eq!(tip.accounts[0].address, payer);
    assert!(tip.accounts[0].is_signer);
    assert_eq!(tip.accounts[1].address, key_bytes(JITO_TIP_ACCOUNT));
}

#[test]
fn assemble_signs_and_wire_round_trips() {
    let payer = Keypair::new_from_array([9u8; 32]);
    let payer_address = payer.pubkey().to_bytes();
    let swap = descriptor(WSOL_MINT, vec![signed_account(payer_address)], "AQID");
    let tx = assemble(200_000, &Vec::new(), &swap, 5_000, &payer, &Vec::new(), [3u8; 32]).unwrap();
    assert_eq!(tx.signatures.len(), 1);

    // encoding then decoding through the wire format is byte-identical
    let wire = bincode::serialize(&tx).unwrap();
    let decoded: VersionedTransaction = bincode::deserialize(&wire).unwrap();
    let wire_again = bincode::serialize(&decoded).unwrap();
    assert_eq!(wire, wire_again);
}

#[test]
fn encode_address_is_base58() {
    assert_eq!(encode_address(&[0u8; 32]), "11111111111111111111111111111111");
    let wsol = key_bytes(WSOL_MINT);
    assert_eq!(encode_address(&wsol), WSOL_MINT);
}

#[test]
fn wire_forms_encode_in_order() {
    let wires = vec![vec![0u8; 32], vec![1u8, 2, 3]];
    let encoded = arb_engine::bundle::encode_wire_forms(&wires);
    assert_eq!(encoded.len(), 2);
    assert_eq!(encoded[0], "11111111111111111111111111111111");
    assert_eq!(encoded[1], bs58::encode(&[1u8, 2, 3]).into_string());
}

#[test]
fn oversized_payload_rejected_before_signing() {
    let payer = Keypair::new_from_array([13u8; 32]);
    let payer_address = payer.pubkey().to_bytes();
    let big = base64::engine::general_purpose::STANDARD.encode(vec![0u8; 70_000]);
    let swap = descriptor(WSOL_MINT, vec![signed_account(payer_address)], &big);
    let r = assemble(200_000, &Vec::new(), &swap, 1_000, &payer, &Vec::new(), [0u8; 32]);
    assert!(matches!(r, Err(arb_engine::types::ArbError::UnresolvedReference)));
}

#[test]
fn payload_error_reported_exactly() {
    let payer = [7u8; 32];
    let setups = vec![descriptor(WSOL_MINT, vec![signed_account(payer)], "%%%%")];
    let swap = descriptor(WSOL_MINT, vec![signed_account(payer)], "AQID");
    let r = build_instruction_list(
        key_bytes(COMPUTE_BUDGET_PROGRAM_ID),
        key_bytes(SYSTEM_PROGRAM_ID),
        200_000,
        &setups,
        &swap,
        payer,
        key_bytes(JITO_TIP_ACCOUNT),
        5_000,
    );
    assert!(matches!(r, Err(arb_engine::types::ArbError::PayloadDecodeError)));

    let setups = vec![descriptor("bad!address", vec![signed_account(payer)], "%%%%")];
    let r = build_instruction_list(
        key_bytes(COMPUTE_BUDGET_PROGRAM_ID),
        key_bytes(SYSTEM_PROGRAM_ID),
        200_000,
        &setups,
        &swap,
        payer,
        key_bytes(JITO_TIP_ACCOUNT),
        5_000,
    );
    assert!(matches!(r, Err(arb_engine::types::ArbError::MalformedAddress)));
}

#[test]
fn acknowledgement_needs_a_bundle_id() {
    assert_eq!(
        arb_engine::bundle::bundle_acknowledgement(Some("abc".to_string())),
        Ok("abc".to_string())
    );
    assert_eq!(
        arb_engine::bundle::bundle_acknowledgement(None),
        Err(arb_engine::types::ArbError::SubmissionError)
    );
}

#[test]
fn end_to_end_profitable_cycle() {
    let leg_a = QuoteResponse {
        input_mint: "X".to_string(),
        in_amount: "10000000".to_string(),
        output_mint: "Y".to_string(),
        out_amount: "12000000".to_string(),
        other_amount_threshold: "10000000".to_string(),
        price_impact_pct: "0".to_string(),
        route_plan: Vec::new(),
        swap_mode: "ExactIn".to_string(),
        slippage_bps: 0,
    };
    let leg_b = QuoteResponse {
        input_mint: "Y".to_string(),
        in_amount: "12000000".to_string(),
        output_mint: "X".to_string(),
        out_amount: "10010000".to_string(),
        other_amount_threshold: "12000000".to_string(),
        price_impact_pct: "0".to_string(),
        route_plan: Vec::new(),
        swap_mode: "ExactIn".to_string(),
        slippage_bps: 0,
    };
    let (merged, profitable, tip) = merge(leg_a, leg_b, 1000).unwrap();
    assert!(profitable, "a delta of 10000 exceeds the 1000 threshold");
    assert_eq!(tip, 5_000);
    assert_eq!(merged.other_amount_threshold, "10005000");

    let payer = Keypair::new_from_array([11u8; 32]);
    let payer_address = payer.pubkey().to_bytes();
    let swap = descriptor(WSOL_MINT, vec![signed_account(payer_address)], "AQID");
    let tx = assemble(200_000, &Vec::new(), &swap, tip, &payer, &Vec::new(), [5u8; 32]).unwrap();

    let bundle = encode_bundle(&vec![tx]).unwrap();
    assert_eq!(bundle.len(), 1);
    assert!(!bundle[0].is_empty());
}
