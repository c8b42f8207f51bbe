//! Assembling and signing the atomic transaction: compute-budget directive
//! first, then the setup instructions in order, then the swap, then the tip
//! payment last; the compiled message references the resolved lookup tables
//! and one recent block reference.

use vstd::prelude::*;
use solana_sdk::signer::Signer;
use crate::consts::{COMPUTE_BUDGET_PROGRAM_ID, JITO_TIP_ACCOUNT, SYSTEM_PROGRAM_ID};
use crate::convert::{convert, convert_error, parse_address, decoded_address, decoded_payload, descriptor_converts, converted_instruction};
use crate::types::{ArbError, InstructionData, LookupTableEntry, NativeAccount, NativeInstruction};

verus! {

/// Declares solana_sdk's `Instruction`; values of it are only carried from
/// the conversion wrapper into the message compiler.
#[verifier::external_type_specification]
#[verifier::external_body]
pub struct ExInstruction(solana_sdk::instruction::Instruction);

/// Declares solana_sdk's `AddressLookupTableAccount`; carried from the
/// conversion wrapper into the message compiler.
#[verifier::external_type_specification]
#[verifier::external_body]
pub struct ExAddressLookupTableAccount(solana_sdk::message::AddressLookupTableAccount);

/// Declares solana_sdk's compiled `v0::Message`; carried from the compiler
/// to the signer.
#[verifier::external_type_specification]
#[verifier::external_body]
pub struct ExV0Message(solana_sdk::message::v0::Message);

/// Declares solana_sdk's `VersionedTransaction`, the signed result that the
/// bundle encoder serializes.
#[verifier::external_type_specification]
#[verifier::external_body]
pub struct ExVersionedTransaction(solana_sdk::transaction::VersionedTransaction);

/// Declares solana_sdk's `Keypair`, the signer capability handed in by the
/// caller; the key material is never read here.
#[verifier::external_type_specification]
#[verifier::external_body]
pub struct ExKeypair(solana_sdk::signature::Keypair);

/// A `u32` as its four little-endian bytes.
pub open spec fn le_bytes_32(n: u32) -> Seq<u8> {
    seq![
        (n & 0xff) as u8,
        ((n >> 8) & 0xff) as u8,
        ((n >> 16) & 0xff) as u8,
        ((n >> 24) & 0xff) as u8,
    ]
}

/// A `u64` as its eight little-endian bytes.
pub open spec fn le_bytes_64(n: u64) -> Seq<u8> {
    seq![
        (n & 0xff) as u8,
        ((n >> 8) & 0xff) as u8,
        ((n >> 16) & 0xff) as u8,
        ((n >> 24) & 0xff) as u8,
        ((n >> 32) & 0xff) as u8,
        ((n >> 40) & 0xff) as u8,
        ((n >> 48) & 0xff) as u8,
        ((n >> 56) & 0xff) as u8,
    ]
}

/// The compute-budget program's set-compute-unit-limit directive: the
/// variant tag byte 2, then the limit in little-endian.
pub open spec fn compute_budget_data(limit: u32) -> Seq<u8> {
    seq![2u8] + le_bytes_32(limit)
}

/// The system program's transfer payload: the variant tag 2 as four
/// little-endian bytes, then the lamports in little-endian.
pub open spec fn transfer_data(lamports: u64) -> Seq<u8> {
    seq![2u8, 0u8, 0u8, 0u8] + le_bytes_64(lamports)
}

/// The instruction is the compute-budget directive setting `limit`.
pub open spec fn is_compute_budget(n: NativeInstruction, program: [u8; 32], limit: u32) -> bool {
    &&& n.program_id == program
    &&& n.accounts@.len() == 0
    &&& n.data@ == compute_budget_data(limit)
}

/// The instruction is a system transfer of `lamports` from `from` (signer,
/// writable) to `to` (writable).
pub open spec fn is_transfer(
    n: NativeInstruction,
    program: [u8; 32],
    from: [u8; 32],
    to: [u8; 32],
    lamports: u64,
) -> bool {
    &&& n.program_id == program
    &&& n.accounts@.len() == 2
    &&& n.accounts@[0].address == from && n.accounts@[0].is_signer && n.accounts@[0].is_writable
    &&& n.accounts@[1].address == to && !n.accounts@[1].is_signer && n.accounts@[1].is_writable
    &&& n.data@ == transfer_data(lamports)
}

/// Builds the compute-budget directive that caps the transaction's compute
/// units.
pub fn compute_budget_instruction(program: [u8; 32], limit: u32) -> (r: NativeInstruction)
    ensures
        is_compute_budget(r, program, limit),
{
    let mut data: Vec<u8> = Vec::new();
    data.push(2u8);
    data.push((limit & 0xff) as u8);
    data.push(((limit >> 8) & 0xff) as u8);
    data.push(((limit >> 16) & 0xff) as u8);
    data.push(((limit >> 24) & 0xff) as u8);
    proof {
        assert(data@ =~= compute_budget_data(limit));
    }
    NativeInstruction { program_id: program, accounts: Vec::new(), data }
}

/// Builds a system-program transfer of `lamports` from `from` to `to`.
pub fn transfer_instruction(program: [u8; 32], from: [u8; 32], to: [u8; 32], lamports: u64) -> (r:
    NativeInstruction)
    ensures
        is_transfer(r, program, from, to, lamports),
{
    let mut accounts: Vec<NativeAccount> = Vec::new();
    accounts.push(NativeAccount { address: from, is_signer: true, is_writable: true });
    accounts.push(NativeAccount { address: to, is_signer: false, is_writable: true });
    let mut data: Vec<u8> = Vec::new();
    data.push(2u8);
    data.push(0u8);
    data.push(0u8);
    data.push(0u8);
    data.push((lamports & 0xff) as u8);
    data.push(((lamports >> 8) & 0xff) as u8);
    data.push(((lamports >> 16) & 0xff) as u8);
    data.push(((lamports >> 24) & 0xff) as u8);
    data.push(((lamports >> 32) & 0xff) as u8);
    data.push(((lamports >> 40) & 0xff) as u8);
    data.push(((lamports >> 48) & 0xff) as u8);
    data.push(((lamports >> 56) & 0xff) as u8);
    proof {
        assert(data@ =~= transfer_data(lamports));
    }
    NativeInstruction { program_id: program, accounts, data }
}

/// Every setup descriptor and the swap descriptor convert.
pub open spec fn all_descriptors_convert(setups: Seq<InstructionData>, swap: InstructionData) -> bool {
    &&& forall|i: int| 0 <= i < setups.len() ==> descriptor_converts(&(#[trigger] setups[i]))
    &&& descriptor_converts(&swap)
}

/// The error a non-converting input is rejected with: the conversion error
/// of the first non-converting descriptor, setups in order, the swap last.
pub open spec fn build_error(setups: Seq<InstructionData>, swap: InstructionData) -> ArbError
    decreases setups.len(),
{
    if setups.len() == 0 {
        convert_error(swap)
    } else if !descriptor_converts(&setups[0]) {
        convert_error(setups[0])
    } else {
        build_error(setups.drop_first(), swap)
    }
}

proof fn lemma_build_error_at(setups: Seq<InstructionData>, swap: InstructionData, k: int)
    requires
        0 <= k < setups.len(),
        forall|j: int| 0 <= j < k ==> descriptor_converts(&(#[trigger] setups[j])),
        !descriptor_converts(&setups[k]),
    ensures
        build_error(setups, swap) == convert_error(setups[k]),
    decreases k,
{
    if k > 0 {
        assert(descriptor_converts(&setups[0]));
        assert forall|j: int| 0 <= j < k - 1 implies descriptor_converts(
            &(#[trigger] setups.drop_first()[j]),
        ) by {
            assert(setups.drop_first()[j] == setups[j + 1]);
        }
        assert(setups.drop_first()[k - 1] == setups[k]);
        lemma_build_error_at(setups.drop_first(), swap, k - 1);
    }
}

proof fn lemma_build_error_swap(setups: Seq<InstructionData>, swap: InstructionData)
    requires
        forall|j: int| 0 <= j < setups.len() ==> descriptor_converts(&(#[trigger] setups[j])),
    ensures
        build_error(setups, swap) == convert_error(swap),
    decreases setups.len(),
{
    if setups.len() > 0 {
        assert(descriptor_converts(&setups[0]));
        assert forall|j: int| 0 <= j < setups.drop_first().len() implies descriptor_converts(
            &(#[trigger] setups.drop_first()[j]),
        ) by {
            assert(setups.drop_first()[j] == setups[j + 1]);
        }
        lemma_build_error_swap(setups.drop_first(), swap);
    }
}

/// The conversion contract pins every account address, so a converted
/// descriptor converts.
proof fn lemma_converted_implies_converts(d: InstructionData, n: NativeInstruction)
    requires
        converted_instruction(&d, &n),
    ensures
        descriptor_converts(&d),
{
    assert forall|k: int| 0 <= k < d.accounts@.len() implies decoded_address(
        (#[trigger] d.accounts@[k]).pubkey@,
    ) is Some by {
        assert(crate::convert::converted_account(d.accounts@[k], n.accounts@[k]));
    }
}

/// Builds the full ordered instruction list of one atomic attempt.
///
/// The order is fixed and significant: the compute-budget directive first,
/// then the setup instructions in the order received, then the swap
/// instruction, then the tip transfer from the payer to the incentive
/// address last.
pub fn build_instruction_list(
    compute_budget_program: [u8; 32],
    system_program: [u8; 32],
    compute_unit_limit: u32,
    setups: &Vec<InstructionData>,
    swap: &InstructionData,
    payer: [u8; 32],
    tip_account: [u8; 32],
    tip_lamports: u64,
) -> (r: Result<Vec<NativeInstruction>, ArbError>)
    ensures
        r is Ok <==> all_descriptors_convert(setups@, *swap),
        r is Ok ==> ({
            let ixs = r.unwrap()@;
            &&& ixs.len() == setups@.len() + 3
            &&& is_compute_budget(ixs[0], compute_budget_program, compute_unit_limit)
            &&& forall|i: int|
                0 <= i < setups@.len() ==> converted_instruction(
                    &setups@[i],
                    &(#[trigger] ixs[i + 1]),
                )
            &&& converted_instruction(swap, &ixs[setups@.len() as int + 1])
            &&& is_transfer(
                ixs.last(),
                system_program,
                payer,
                tip_account,
                tip_lamports,
            )
        }),
        r is Err ==> r.unwrap_err() == build_error(setups@, *swap),
        r is Err ==> r.unwrap_err() == ArbError::MalformedAddress || r.unwrap_err()
            == ArbError::PayloadDecodeError,
{
    let mut ixs: Vec<NativeInstruction> = Vec::new();
    ixs.push(compute_budget_instruction(compute_budget_program, compute_unit_limit));
    let n = setups.len();
    let mut i: usize = 0;
    while i < n
        invariant
            n == setups@.len(),
            0 <= i <= n,
            ixs@.len() == i + 1,
            is_compute_budget(ixs@[0], compute_budget_program, compute_unit_limit),
            forall|j: int|
                0 <= j < i ==> converted_instruction(&setups@[j], &(#[trigger] ixs@[j + 1])),
        decreases n - i,
    {
        let native = match convert(&setups[i]) {
            Ok(ix) => ix,
            Err(e) => {
                proof {
                    assert(!descriptor_converts(&setups@[i as int]));
                    assert forall|j: int| 0 <= j < i implies descriptor_converts(
                        &(#[trigger] setups@[j]),
                    ) by {
                        lemma_converted_implies_converts(setups@[j], ixs@[j + 1]);
                    }
                    lemma_build_error_at(setups@, *swap, i as int);
                }
                return Err(e);
            },
        };
        ixs.push(native);
        i += 1;
    }
    let swap_native = match convert(swap) {
        Ok(ix) => ix,
        Err(e) => {
            proof {
                assert forall|j: int| 0 <= j < setups@.len() implies descriptor_converts(
                    &(#[trigger] setups@[j]),
                ) by {
                    lemma_converted_implies_converts(setups@[j], ixs@[j + 1]);
                }
                lemma_build_error_swap(setups@, *swap);
            }
            return Err(e);
        },
    };
    ixs.push(swap_native);
    ixs.push(transfer_instruction(system_program, payer, tip_account, tip_lamports));
    proof {
        assert forall|j: int| 0 <= j < setups@.len() implies descriptor_converts(
            &(#[trigger] setups@[j]),
        ) by {
            lemma_converted_implies_converts(setups@[j], ixs@[j + 1]);
        }
        assert(all_descriptors_convert(setups@, *swap));
    }
    Ok(ixs)
}

/// What `Signer::pubkey` yields: the payer's public address bytes, a
/// function of the keypair alone.
pub uninterp spec fn signer_key(payer: solana_sdk::signature::Keypair) -> Seq<u8>;

/// What the conversion into the ledger's instruction form yields, a function
/// of the program id bytes, the account views (address bytes, signer flag,
/// writable flag) and the payload bytes alone.
pub uninterp spec fn ledger_form(
    program_id: Seq<u8>,
    accounts: Seq<(Seq<u8>, bool, bool)>,
    data: Seq<u8>,
) -> solana_sdk::instruction::Instruction;

/// What the conversion into the ledger's lookup-table form yields, a
/// function of the table's address bytes and its address list alone.
pub uninterp spec fn ledger_table_form(
    key: Seq<u8>,
    addresses: Seq<Seq<u8>>,
) -> solana_sdk::message::AddressLookupTableAccount;

/// What `v0::Message::try_compile` yields: the compiled message, a function
/// of the fee payer, the instruction list, the lookup tables and the recent
/// block reference alone, or nothing when compilation fails.
pub uninterp spec fn compiled_message(
    payer: Seq<u8>,
    instructions: Seq<solana_sdk::instruction::Instruction>,
    tables: Seq<solana_sdk::message::AddressLookupTableAccount>,
    recent_block_ref: Seq<u8>,
) -> Option<solana_sdk::message::v0::Message>;

/// What `VersionedTransaction::try_new` yields: the signed transaction, a
/// deterministic function of the message and the signing key alone, or
/// nothing when signing fails.
pub uninterp spec fn signed_form(
    message: solana_sdk::message::v0::Message,
    payer: solana_sdk::signature::Keypair,
) -> Option<solana_sdk::transaction::VersionedTransaction>;

/// The account views of a native instruction's account list.
pub open spec fn account_views(accounts: Seq<NativeAccount>) -> Seq<(Seq<u8>, bool, bool)> {
    accounts.map_values(|a: NativeAccount| (a.address@, a.is_signer, a.is_writable))
}

/// The ledger form of one native instruction record.
pub open spec fn instruction_ledger_form(ix: NativeInstruction) -> solana_sdk::instruction::Instruction {
    ledger_form(ix.program_id@, account_views(ix.accounts@), ix.data@)
}

/// The ledger form of one decoded lookup table.
pub open spec fn entry_ledger_form(e: LookupTableEntry) -> solana_sdk::message::AddressLookupTableAccount {
    ledger_table_form(e.table_address@, e.addresses@.map_values(|a: [u8; 32]| a@))
}

/// The ledger forms of a decoded lookup-table list, in order.
pub open spec fn ledger_table_forms(entries: Seq<LookupTableEntry>) -> Seq<
    solana_sdk::message::AddressLookupTableAccount,
> {
    entries.map_values(|e: LookupTableEntry| entry_ledger_form(e))
}

/// The account views a converting descriptor yields.
pub open spec fn descriptor_account_views(d: InstructionData) -> Seq<(Seq<u8>, bool, bool)> {
    d.accounts@.map_values(
        |a: crate::types::AccountData| (decoded_address(a.pubkey@).unwrap(), a.is_signer, a.is_writable),
    )
}

/// The ledger form a converting descriptor yields.
pub open spec fn descriptor_ledger_form(d: InstructionData) -> solana_sdk::instruction::Instruction {
    ledger_form(
        decoded_address(d.program_id@).unwrap(),
        descriptor_account_views(d),
        decoded_payload(d.data@).unwrap(),
    )
}

/// The ledger instruction list one atomic attempt compiles, as a function of
/// the assembler's inputs: the compute-budget directive, the setups in
/// order, the swap, the tip transfer.
pub open spec fn assembly_instructions(
    compute_unit_limit: u32,
    setups: Seq<InstructionData>,
    swap: InstructionData,
    payer: Seq<u8>,
    tip_lamports: u64,
) -> Seq<solana_sdk::instruction::Instruction> {
    seq![
        ledger_form(
            decoded_address(COMPUTE_BUDGET_PROGRAM_ID@).unwrap(),
            Seq::<(Seq<u8>, bool, bool)>::empty(),
            compute_budget_data(compute_unit_limit),
        ),
    ] + setups.map_values(|d: InstructionData| descriptor_ledger_form(d)) + seq![
        descriptor_ledger_form(swap),
        ledger_form(
            decoded_address(SYSTEM_PROGRAM_ID@).unwrap(),
            seq![
                (payer, true, true),
                (decoded_address(JITO_TIP_ACCOUNT@).unwrap(), false, true),
            ],
            transfer_data(tip_lamports),
        ),
    ]
}

/// Relies on `Signer::pubkey` of solana_sdk's `Keypair`: the signer's public
/// address as its 32 bytes, a function of the key alone.
#[verifier::external_body]
fn signer_address(payer: &solana_sdk::signature::Keypair) -> (r: [u8; 32])
    ensures
        r@ == signer_key(*payer),
{
    payer.pubkey().to_bytes()
}

/// Relies on `Pubkey::new_from_array` and the public field layout of
/// solana_sdk's `Instruction` and `AccountMeta`: carries a native
/// instruction record into the ledger's own form, field for field.
#[verifier::external_body]
fn to_ledger_instruction(ix: &NativeInstruction) -> (r: solana_sdk::instruction::Instruction)
    ensures
        r == ledger_form(ix.program_id@, account_views(ix.accounts@), ix.data@),
{
    solana_sdk::instruction::Instruction {
        program_id: solana_sdk::pubkey::Pubkey::new_from_array(ix.program_id),
        accounts: ix.accounts.iter().map(
            |a| solana_sdk::instruction::AccountMeta {
                pubkey: solana_sdk::pubkey::Pubkey::new_from_array(a.address),
                is_signer: a.is_signer,
                is_writable: a.is_writable,
            },
        ).collect(),
        data: ix.data.clone(),
    }
}

/// Relies on `Pubkey::new_from_array` and the public field layout of
/// solana_sdk's `AddressLookupTableAccount`: carries a decoded lookup table
/// into the ledger's own form, field for field.
#[verifier::external_body]
fn to_ledger_table(entry: &LookupTableEntry) -> (r: solana_sdk::message::AddressLookupTableAccount)
    ensures
        r == ledger_table_form(
            entry.table_address@,
            entry.addresses@.map_values((|a: [u8; 32]| a@)),
        ),
{
    solana_sdk::message::AddressLookupTableAccount {
        key: solana_sdk::pubkey::Pubkey::new_from_array(entry.table_address),
        addresses: entry.addresses.iter().map(
            |a| solana_sdk::pubkey::Pubkey::new_from_array(*a),
        ).collect(),
    }
}

/// Relies on `v0::Message::try_compile` of solana_sdk: compiles the
/// instruction list against the lookup tables and one recent block
/// reference, with the payer as fee payer — a deterministic function of
/// those arguments; the compiler alone decides failure, reported here as
/// `UnresolvedReference`.
#[verifier::external_body]
fn compile_message(
    payer: &[u8; 32],
    instructions: &Vec<solana_sdk::instruction::Instruction>,
    tables: &Vec<solana_sdk::message::AddressLookupTableAccount>,
    recent_block_ref: &[u8; 32],
) -> (r: Result<solana_sdk::message::v0::Message, ArbError>)
    ensures
        r is Ok <==> compiled_message(payer@, instructions@, tables@, recent_block_ref@) is Some,
        r is Ok ==> Some(r.unwrap()) == compiled_message(
            payer@,
            instructions@,
            tables@,
            recent_block_ref@,
        ),
        r is Err ==> r.unwrap_err() == ArbError::UnresolvedReference,
{
    solana_sdk::message::v0::Message::try_compile(
        &solana_sdk::pubkey::Pubkey::new_from_array(*payer),
        instructions.as_slice(),
        tables.as_slice(),
        solana_sdk::hash::Hash::new_from_array(*recent_block_ref),
    ).map_err(|_| ArbError::UnresolvedReference)
}

/// Relies on `VersionedTransaction::try_new` of solana_sdk: signs the
/// compiled message with the payer's key — ed25519 signing is
/// deterministic, so the result is a function of the message and the key
/// alone; a signer fault is reported as `SigningError`. Its internal
/// serialization unwraps, and fails only when a list of the message exceeds
/// the wire format's 16-bit length prefix; the assembler's wire-limit guard
/// rejects such inputs before any message is compiled, so the call never
/// reaches that case.
#[verifier::external_body]
fn sign_message(
    message: solana_sdk::message::v0::Message,
    payer: &solana_sdk::signature::Keypair,
) -> (r: Result<solana_sdk::transaction::VersionedTransaction, ArbError>)
    ensures
        r is Ok <==> signed_form(message, *payer) is Some,
        r is Ok ==> Some(r.unwrap()) == signed_form(message, *payer),
        r is Err ==> r.unwrap_err() == ArbError::SigningError,
{
    solana_sdk::transaction::VersionedTransaction::try_new(
        solana_sdk::message::VersionedMessage::V0(message),
        &[payer],
    ).map_err(|_| ArbError::SigningError)
}

/// The wire format writes every list length as a 16-bit prefix: no list of
/// a serialized message may hold more than this many elements.
pub const WIRE_LIST_LIMIT: usize = 65535;

/// One native instruction's lists fit the wire format's length prefixes.
pub open spec fn instruction_within_limits(n: NativeInstruction) -> bool {
    n.accounts@.len() <= WIRE_LIST_LIMIT && n.data@.len() <= WIRE_LIST_LIMIT
}

/// The descriptor's account list and decoded payload fit the wire format's
/// length prefixes.
pub open spec fn descriptor_within_limits(d: InstructionData) -> bool {
    &&& d.accounts@.len() <= WIRE_LIST_LIMIT
    &&& decoded_payload(d.data@).unwrap().len() <= WIRE_LIST_LIMIT
}

/// Every list the compiled message would serialize fits the wire format's
/// 16-bit length prefixes: the instruction count, each instruction's
/// account list and payload, and the lookup-table count. A message beyond
/// these bounds cannot be wire-encoded, and the signer's serializer would
/// fail on it, so the assembler rejects such inputs before compiling.
pub open spec fn within_wire_limits(
    setups: Seq<InstructionData>,
    swap: InstructionData,
    tables: Seq<LookupTableEntry>,
) -> bool {
    &&& setups.len() + 3 <= WIRE_LIST_LIMIT
    &&& forall|i: int| 0 <= i < setups.len() ==> descriptor_within_limits(#[trigger] setups[i])
    &&& descriptor_within_limits(swap)
    &&& tables.len() <= WIRE_LIST_LIMIT
}

/// The three well-known addresses the assembler parses are valid.
pub open spec fn well_known_ids_decode() -> bool {
    &&& decoded_address(COMPUTE_BUDGET_PROGRAM_ID@) is Some
    &&& decoded_address(SYSTEM_PROGRAM_ID@) is Some
    &&& decoded_address(JITO_TIP_ACCOUNT@) is Some
}

/// Assembles and signs one atomic transaction: the ordered instruction list
/// of `build_instruction_list`, compiled against the resolved lookup tables
/// and the given recent block reference, signed by the payer.
///
/// Conversion failures are reported exactly as `convert` reports them; once
/// the well-known addresses parse and every descriptor converts, success
/// holds exactly when the named compile-and-sign chain succeeds on the named
/// ledger form of the built list.
pub fn assemble(
    compute_unit_limit: u32,
    setups: &Vec<InstructionData>,
    swap: &InstructionData,
    tip_lamports: u64,
    payer: &solana_sdk::signature::Keypair,
    lookup_tables: &Vec<LookupTableEntry>,
    recent_block_ref: [u8; 32],
) -> (r: Result<solana_sdk::transaction::VersionedTransaction, ArbError>)
    ensures
        r is Ok ==> all_descriptors_convert(setups@, *swap) && well_known_ids_decode()
            && within_wire_limits(setups@, *swap, lookup_tables@),
        !well_known_ids_decode() ==> r == Err::<
            solana_sdk::transaction::VersionedTransaction,
            ArbError,
        >(ArbError::MalformedAddress),
        well_known_ids_decode() && !all_descriptors_convert(setups@, *swap) ==> r is Err
            && r.unwrap_err() == build_error(setups@, *swap),
        well_known_ids_decode() && all_descriptors_convert(setups@, *swap)
            && !within_wire_limits(setups@, *swap, lookup_tables@) ==> r == Err::<
            solana_sdk::transaction::VersionedTransaction,
            ArbError,
        >(ArbError::UnresolvedReference),
        well_known_ids_decode() && all_descriptors_convert(setups@, *swap) && within_wire_limits(
            setups@,
            *swap,
            lookup_tables@,
        ) ==> ({
            let ledger = assembly_instructions(
                compute_unit_limit,
                setups@,
                *swap,
                signer_key(*payer),
                tip_lamports,
            );
            let msg = compiled_message(
                signer_key(*payer),
                ledger,
                ledger_table_forms(lookup_tables@),
                recent_block_ref@,
            );
            &&& (r is Ok <==> msg is Some && signed_form(msg.unwrap(), *payer) is Some)
            &&& (r is Ok ==> Some(r.unwrap()) == signed_form(msg.unwrap(), *payer))
            &&& (msg is None ==> r == Err::<
                solana_sdk::transaction::VersionedTransaction,
                ArbError,
            >(ArbError::UnresolvedReference))
            &&& (msg is Some && signed_form(msg.unwrap(), *payer) is None ==> r == Err::<
                solana_sdk::transaction::VersionedTransaction,
                ArbError,
            >(ArbError::SigningError))
        }),
{
    let compute_budget_program = match parse_address(COMPUTE_BUDGET_PROGRAM_ID) {
        Ok(b) => b,
        Err(e) => { return Err(e); },
    };
    let system_program = match parse_address(SYSTEM_PROGRAM_ID) {
        Ok(b) => b,
        Err(e) => { return Err(e); },
    };
    let tip_account = match parse_address(JITO_TIP_ACCOUNT) {
        Ok(b) => b,
        Err(e) => { return Err(e); },
    };
    let payer_address = signer_address(payer);
    let native = match build_instruction_list(
        compute_budget_program,
        system_program,
        compute_unit_limit,
        setups,
        swap,
        payer_address,
        tip_account,
        tip_lamports,
    ) {
        Ok(v) => v,
        Err(e) => { return Err(e); },
    };
    if native.len() > WIRE_LIST_LIMIT {
        proof {
            assert(!within_wire_limits(setups@, *swap, lookup_tables@));
        }
        return Err(ArbError::UnresolvedReference);
    }
    if lookup_tables.len() > WIRE_LIST_LIMIT {
        proof {
            assert(!within_wire_limits(setups@, *swap, lookup_tables@));
        }
        return Err(ArbError::UnresolvedReference);
    }
    let mut g: usize = 0;
    while g < native.len()
        invariant
            0 <= g <= native@.len(),
            well_known_ids_decode(),
            all_descriptors_convert(setups@, *swap),
            native@.len() == setups@.len() + 3,
            is_compute_budget(native@[0], compute_budget_program, compute_unit_limit),
            forall|j: int|
                0 <= j < setups@.len() ==> converted_instruction(
                    &setups@[j],
                    &(#[trigger] native@[j + 1]),
                ),
            converted_instruction(swap, &native@[setups@.len() as int + 1]),
            is_transfer(native@.last(), system_program, payer_address, tip_account, tip_lamports),
            forall|j: int| 0 <= j < g ==> instruction_within_limits(#[trigger] native@[j]),
        decreases native@.len() - g,
    {
        let guarded = &native[g];
        if guarded.accounts.len() > WIRE_LIST_LIMIT || guarded.data.len() > WIRE_LIST_LIMIT {
            proof {
                let k = g as int;
                let m = setups@.len() as int;
                if 1 <= k && k <= m {
                    assert(converted_instruction(&setups@[k - 1], &native@[k]));
                    assert(!descriptor_within_limits(setups@[k - 1]));
                } else if k == m + 1 {
                    assert(!descriptor_within_limits(*swap));
                }
                assert(!within_wire_limits(setups@, *swap, lookup_tables@));
            }
            return Err(ArbError::UnresolvedReference);
        }
        g += 1;
    }
    proof {
        assert forall|i: int| 0 <= i < setups@.len() implies descriptor_within_limits(
            #[trigger] setups@[i],
        ) by {
            assert(converted_instruction(&setups@[i], &native@[i + 1]));
            assert(instruction_within_limits(native@[i + 1]));
        }
        assert(instruction_within_limits(native@[setups@.len() as int + 1]));
        assert(descriptor_within_limits(*swap));
        assert(within_wire_limits(setups@, *swap, lookup_tables@));
    }
    let mut instructions: Vec<solana_sdk::instruction::Instruction> = Vec::new();
    let mut i: usize = 0;
    while i < native.len()
        invariant
            0 <= i <= native@.len(),
            instructions@.len() == i,
            forall|j: int|
                0 <= j < i ==> #[trigger] instructions@[j] == instruction_ledger_form(native@[j]),
        decreases native@.len() - i,
    {
        instructions.push(to_ledger_instruction(&native[i]));
        i += 1;
    }
    proof {
        lemma_built_list_ledger_forms(
            native@,
            instructions@,
            compute_budget_program,
            system_program,
            compute_unit_limit,
            setups@,
            *swap,
            payer_address,
            tip_account,
            tip_lamports,
        );
    }
    let mut tables: Vec<solana_sdk::message::AddressLookupTableAccount> = Vec::new();
    let mut j: usize = 0;
    while j < lookup_tables.len()
        invariant
            0 <= j <= lookup_tables@.len(),
            tables@.len() == j,
            forall|k: int|
                0 <= k < j ==> #[trigger] tables@[k] == entry_ledger_form(lookup_tables@[k]),
        decreases lookup_tables@.len() - j,
    {
        tables.push(to_ledger_table(&lookup_tables[j]));
        j += 1;
    }
    proof {
        assert(tables@ =~= ledger_table_forms(lookup_tables@));
    }
    let message = match compile_message(&payer_address, &instructions, &tables, &recent_block_ref) {
        Ok(m) => m,
        Err(e) => { return Err(e); },
    };
    sign_message(message, payer)
}

/// The ledger forms of a built instruction list are exactly the assembly
/// list that the inputs determine: every element's program id, account views
/// and payload are pinned by the builder's contract.
proof fn lemma_built_list_ledger_forms(
    native: Seq<NativeInstruction>,
    instructions: Seq<solana_sdk::instruction::Instruction>,
    compute_budget_program: [u8; 32],
    system_program: [u8; 32],
    compute_unit_limit: u32,
    setups: Seq<InstructionData>,
    swap: InstructionData,
    payer: [u8; 32],
    tip_account: [u8; 32],
    tip_lamports: u64,
)
    requires
        compute_budget_program@ == decoded_address(COMPUTE_BUDGET_PROGRAM_ID@).unwrap(),
        system_program@ == decoded_address(SYSTEM_PROGRAM_ID@).unwrap(),
        tip_account@ == decoded_address(JITO_TIP_ACCOUNT@).unwrap(),
        native.len() == setups.len() + 3,
        is_compute_budget(native[0], compute_budget_program, compute_unit_limit),
        forall|i: int|
            0 <= i < setups.len() ==> converted_instruction(&setups[i], &(#[trigger] native[i + 1])),
        converted_instruction(&swap, &native[setups.len() as int + 1]),
        is_transfer(native.last(), system_program, payer, tip_account, tip_lamports),
        instructions.len() == native.len(),
        forall|j: int|
            0 <= j < native.len() ==> #[trigger] instructions[j] == instruction_ledger_form(
                native[j],
            ),
    ensures
        instructions == assembly_instructions(
            compute_unit_limit,
            setups,
            swap,
            payer@,
            tip_lamports,
        ),
{
    let target = assembly_instructions(compute_unit_limit, setups, swap, payer@, tip_lamports);
    assert(account_views(native[0].accounts@) =~= Seq::<(Seq<u8>, bool, bool)>::empty());
    assert forall|i: int| 0 <= i < setups.len() implies #[trigger] instructions[i + 1]
        == descriptor_ledger_form(setups[i]) by {
        lemma_converted_ledger_form(setups[i], native[i + 1]);
    }
    lemma_converted_ledger_form(swap, native[setups.len() as int + 1]);
    let tip = native.last();
    assert(account_views(tip.accounts@) =~= seq![
        (payer@, true, true),
        (decoded_address(JITO_TIP_ACCOUNT@).unwrap(), false, true),
    ]);
    assert forall|k: int| 0 <= k < native.len() implies #[trigger] instructions[k]
        == target[k] by {
        if k == 0 {
        } else if k <= setups.len() {
            assert(instructions[k] == descriptor_ledger_form(setups[k - 1]));
        } else if k == setups.len() + 1 {
        } else {
            assert(instructions[k] == instruction_ledger_form(tip));
        }
    }
    assert(instructions =~= target);
}

/// A converted instruction's ledger form is its descriptor's ledger form:
/// the conversion contract pins the program id, every account view and the
/// payload.
proof fn lemma_converted_ledger_form(d: InstructionData, n: NativeInstruction)
    requires
        converted_instruction(&d, &n),
    ensures
        instruction_ledger_form(n) == descriptor_ledger_form(d),
{
    assert forall|k: int| 0 <= k < n.accounts@.len() implies account_views(n.accounts@)[k]
        == descriptor_account_views(d)[k] by {
        assert(crate::convert::converted_account(d.accounts@[k], n.accounts@[k]));
    }
    assert(account_views(n.accounts@) =~= descriptor_account_views(d));
}

} // verus!
