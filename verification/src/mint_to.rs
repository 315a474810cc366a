//! The instruction that mints tokens to a token account.

use vstd::prelude::*;
use crate::address::{
    instructions_view, AccountMeta, Address, Instruction, InstructionView,
};
use crate::encoding::le_bytes;
use crate::programs::{token_2022_program, TOKEN_2022_PROGRAM, TOKEN_PROGRAM};

verus! {

/// The token program's instruction that mints `amount` to an account on
/// the word of a single authority: mint and account are written to, the
/// authority signs; the data is the tag 7 and the amount.
pub open spec fn mint_to_instruction(
    token_program: Seq<u8>,
    mint: Seq<u8>,
    account: Seq<u8>,
    authority: Seq<u8>,
    amount: u64,
) -> InstructionView {
    InstructionView {
        program_id: token_program,
        accounts: seq![
            AccountMeta::writable(mint, false),
            AccountMeta::writable(account, false),
            AccountMeta::readonly(authority, true),
        ],
        data: seq![7u8] + le_bytes(amount as nat, 8),
    }
}

/// Calls `instruction::mint_to` of `spl_token_2022` with no further
/// signers. It refuses a program that is neither token program, and
/// otherwise builds what [`mint_to_instruction`] describes.
#[verifier::external_body]
fn token_mint_to(
    token_program: &Address,
    mint: &Address,
    account: &Address,
    authority: &Address,
    amount: u64,
) -> (ix: Option<Instruction>)
    ensures
        ix is Some <==> (token_program@ == TOKEN_2022_PROGRAM@ || token_program@ == TOKEN_PROGRAM@),
        ix is Some ==> ix.unwrap()@ == mint_to_instruction(
            token_program@,
            mint@,
            account@,
            authority@,
            amount,
        ),
{
    let ix = spl_token_2022::instruction::mint_to(
        &token_program.bytes.into(), &mint.bytes.into(), &account.bytes.into(),
        &authority.bytes.into(), &[], amount).ok()?;
    let accounts = ix.accounts.iter().map(|m| AccountMeta {
        pubkey: Address { bytes: m.pubkey.to_bytes() },
        is_signer: m.is_signer,
        is_writable: m.is_writable,
    }).collect();
    Some(Instruction { program_id: Address { bytes: ix.program_id.to_bytes() }, accounts, data: ix.data })
}

/// Builds the instruction by which `mint_authority` mints `amount` of
/// `mint` to `token_account` under the extended token program.
pub fn spl_token_mint_to_instr(
    mint: &Address,
    token_account: &Address,
    amount: u64,
    mint_authority: &Address,
) -> (instructions: Vec<Instruction>)
    ensures
        instructions_view(instructions@) == seq![
            mint_to_instruction(
                TOKEN_2022_PROGRAM@,
                mint@,
                token_account@,
                mint_authority@,
                amount,
            ),
        ],
{
    let program = token_2022_program();
    let mut instructions: Vec<Instruction> = Vec::new();
    match token_mint_to(&program, mint, token_account, mint_authority, amount) {
        Some(ix) => {
            instructions.push(ix);
        },
        None => {
            assert(false);
        },
    }
    assert(instructions_view(instructions@) =~= seq![
        mint_to_instruction(TOKEN_2022_PROGRAM@, mint@, token_account@, mint_authority@, amount),
    ]);
    instructions
}

} // verus!
