//! The instruction that creates a wallet's associated token account.

use vstd::prelude::*;
use crate::address::{
    instructions_view, AccountMeta, Address, Instruction, InstructionView,
};
use crate::pda::{associated_token_of, get_associated_token_address_with_program_id};
use crate::programs::{
    token_2022_program, ASSOCIATED_TOKEN_PROGRAM, SYSTEM_PROGRAM, TOKEN_2022_PROGRAM,
};

verus! {

/// The associated token account program's instruction that creates the
/// account at `associated`: the funder signs and pays, the new account is
/// written to, and wallet, mint, system program and token program are
/// read; the data is the single tag 0.
pub open spec fn create_associated_token_account_instruction(
    funder: Seq<u8>,
    associated: Seq<u8>,
    wallet: Seq<u8>,
    mint: Seq<u8>,
    token_program: Seq<u8>,
) -> InstructionView {
    InstructionView {
        program_id: ASSOCIATED_TOKEN_PROGRAM@,
        accounts: seq![
            AccountMeta::writable(funder, true),
            AccountMeta::writable(associated, false),
            AccountMeta::readonly(wallet, false),
            AccountMeta::readonly(mint, false),
            AccountMeta::readonly(SYSTEM_PROGRAM@, false),
            AccountMeta::readonly(token_program, false),
        ],
        data: seq![0u8],
    }
}

/// Calls `instruction::create_associated_token_account` of
/// `spl_associated_token_account`. The call derives the associated address
/// itself and does not return where there is none, so it is made only
/// where the derivation is known to succeed; it then builds what
/// [`create_associated_token_account_instruction`] describes for that
/// address.
#[verifier::external_body]
fn create_associated_token_account(
    funder: &Address,
    wallet: &Address,
    mint: &Address,
    token_program: &Address,
) -> (ix: Instruction)
    requires
        associated_token_of(wallet@, mint@, token_program@) is Some,
    ensures
        ix@ == create_associated_token_account_instruction(
            funder@,
            associated_token_of(wallet@, mint@, token_program@).unwrap(),
            wallet@,
            mint@,
            token_program@,
        ),
{
    let ix = spl_associated_token_account::instruction::create_associated_token_account(
        &funder.bytes.into(), &wallet.bytes.into(), &mint.bytes.into(), &token_program.bytes.into());
    let accounts = ix.accounts.iter().map(|m| AccountMeta {
        pubkey: Address { bytes: m.pubkey.to_bytes() },
        is_signer: m.is_signer,
        is_writable: m.is_writable,
    }).collect();
    Instruction { program_id: Address { bytes: ix.program_id.to_bytes() }, accounts, data: ix.data }
}

/// Builds the instruction by which `payer` creates the token account that
/// is associated with `owner` for `mint` under the extended token program.
/// There is none where no associated address can be derived.
pub fn create_ata_token_account_instr(payer: &Address, mint: &Address, owner: &Address) -> (
    instructions: Option<Vec<Instruction>>
)
    ensures
        instructions is Some <==> associated_token_of(owner@, mint@, TOKEN_2022_PROGRAM@) is Some,
        instructions is Some ==> instructions_view(instructions.unwrap()@) == seq![
            create_associated_token_account_instruction(
                payer@,
                associated_token_of(owner@, mint@, TOKEN_2022_PROGRAM@).unwrap(),
                owner@,
                mint@,
                TOKEN_2022_PROGRAM@,
            ),
        ],
{
    let program = token_2022_program();
    match get_associated_token_address_with_program_id(owner, mint, &program) {
        None => None,
        Some(_) => {
            let mut instructions: Vec<Instruction> = Vec::new();
            instructions.push(create_associated_token_account(payer, owner, mint, &program));
            assert(instructions_view(instructions@) =~= seq![
                create_associated_token_account_instruction(
                    payer@,
                    associated_token_of(owner@, mint@, TOKEN_2022_PROGRAM@).unwrap(),
                    owner@,
                    mint@,
                    TOKEN_2022_PROGRAM@,
                ),
            ]);
            Some(instructions)
        },
    }
}

} // verus!
