//! Instructions that create a mint and initialise it.

use vstd::prelude::*;
use crate::address::{
    instructions_view, AccountMeta, Address, Instruction, InstructionView,
};
use crate::encoding::le_bytes;
use crate::programs::{
    token_2022_program, RENT_SYSVAR, SYSTEM_PROGRAM, TOKEN_2022_PROGRAM, TOKEN_PROGRAM,
};

verus! {

/// Size in bytes of a mint account without extensions.
pub const MINT_LEN: u64 = 82;

/// The system program's instruction that creates an account: both the
/// payer and the new account sign and are written to; the data is the
/// variant number 0 in four bytes, then lamports, space and owner.
pub open spec fn create_account_instruction(
    from: Seq<u8>,
    to: Seq<u8>,
    lamports: u64,
    space: u64,
    owner: Seq<u8>,
) -> InstructionView {
    InstructionView {
        program_id: SYSTEM_PROGRAM@,
        accounts: seq![AccountMeta::writable(from, true), AccountMeta::writable(to, true)],
        data: le_bytes(0, 4) + le_bytes(lamports as nat, 8) + le_bytes(space as nat, 8) + owner,
    }
}

/// The token program's instruction that initialises a mint without a
/// freeze authority: the mint is written to, the rent sysvar is read; the
/// data is the tag 0, the decimals, the mint authority and a 0 for the
/// absent freeze authority.
pub open spec fn initialize_mint_instruction(
    token_program: Seq<u8>,
    mint: Seq<u8>,
    mint_authority: Seq<u8>,
    decimals: u8,
) -> InstructionView {
    InstructionView {
        program_id: token_program,
        accounts: seq![AccountMeta::writable(mint, false), AccountMeta::readonly(RENT_SYSVAR@, false)],
        data: seq![0u8, decimals] + mint_authority + seq![0u8],
    }
}

/// The two instructions that create a mint account owned by the extended
/// token program and initialise it.
pub open spec fn create_and_init_mint(
    payer: Seq<u8>,
    mint: Seq<u8>,
    mint_authority: Seq<u8>,
    decimals: u8,
    rent_lamports: u64,
) -> Seq<InstructionView> {
    seq![
        create_account_instruction(payer, mint, rent_lamports, MINT_LEN, TOKEN_2022_PROGRAM@),
        initialize_mint_instruction(TOKEN_2022_PROGRAM@, mint, mint_authority, decimals),
    ]
}

/// Calls `system_instruction::create_account` of `solana_sdk`, which builds
/// the instruction that [`create_account_instruction`] describes.
#[verifier::external_body]
fn system_create_account(
    from: &Address,
    to: &Address,
    lamports: u64,
    space: u64,
    owner: &Address,
) -> (ix: Instruction)
    ensures
        ix@ == create_account_instruction(from@, to@, lamports, space, owner@),
{
    let ix = solana_sdk::system_instruction::create_account(
        &from.bytes.into(), &to.bytes.into(), lamports, space, &owner.bytes.into());
    let accounts = ix.accounts.iter().map(|m| AccountMeta {
        pubkey: Address { bytes: m.pubkey.to_bytes() },
        is_signer: m.is_signer,
        is_writable: m.is_writable,
    }).collect();
    Instruction { program_id: Address { bytes: ix.program_id.to_bytes() }, accounts, data: ix.data }
}

/// Calls `instruction::initialize_mint` of `spl_token_2022` without a
/// freeze authority. It refuses a program that is neither token program,
/// and otherwise builds what [`initialize_mint_instruction`] describes.
#[verifier::external_body]
fn token_initialize_mint(
    token_program: &Address,
    mint: &Address,
    mint_authority: &Address,
    decimals: u8,
) -> (ix: Option<Instruction>)
    ensures
        ix is Some <==> (token_program@ == TOKEN_2022_PROGRAM@ || token_program@ == TOKEN_PROGRAM@),
        ix is Some ==> ix.unwrap()@ == initialize_mint_instruction(
            token_program@,
            mint@,
            mint_authority@,
            decimals,
        ),
{
    let ix = spl_token_2022::instruction::initialize_mint(
        &token_program.bytes.into(), &mint.bytes.into(), &mint_authority.bytes.into(), None, decimals).ok()?;
    let accounts = ix.accounts.iter().map(|m| AccountMeta {
        pubkey: Address { bytes: m.pubkey.to_bytes() },
        is_signer: m.is_signer,
        is_writable: m.is_writable,
    }).collect();
    Some(Instruction { program_id: Address { bytes: ix.program_id.to_bytes() }, accounts, data: ix.data })
}

/// Builds the instructions that create the account of a new mint, paid for
/// by `payer` with `rent_lamports`, and initialise the mint under the
/// extended token program.
pub fn create_and_init_mint_instr(
    payer: &Address,
    mint_key: &Address,
    mint_authority: &Address,
    decimals: u8,
    rent_lamports: u64,
) -> (instructions: Vec<Instruction>)
    ensures
        instructions_view(instructions@) == create_and_init_mint(
            payer@,
            mint_key@,
            mint_authority@,
            decimals,
            rent_lamports,
        ),
{
    let program = token_2022_program();
    let mut instructions: Vec<Instruction> = Vec::new();
    instructions.push(system_create_account(payer, mint_key, rent_lamports, MINT_LEN, &program));
    match token_initialize_mint(&program, mint_key, mint_authority, decimals) {
        Some(ix) => {
            instructions.push(ix);
        },
        None => {
            assert(false);
        },
    }
    assert(instructions_view(instructions@) =~= create_and_init_mint(
        payer@,
        mint_key@,
        mint_authority@,
        decimals,
        rent_lamports,
    ));
    instructions
}

} // verus!
