//! Instructions that remove liquidity from a position and close it.

use vstd::prelude::*;
use anchor_lang::{InstructionData, ToAccountMetas};
use raydium_amm_v3::accounts::{ClosePosition, DecreaseLiquidityV2};
use crate::address::{metas_view, AccountMeta, Address, Instruction};
use crate::encoding::le_bytes;
use crate::pda::{
    derived_address, personal_position_address, personal_position_seeds,
    protocol_position_address, protocol_position_seeds, tick_array_address, tick_array_seeds,
};
use crate::programs::{
    memo_program, system_program, token_2022_program, token_program, MEMO_PROGRAM,
    SYSTEM_PROGRAM, TOKEN_2022_PROGRAM, TOKEN_PROGRAM,
};

verus! {

/// The accounts that removing liquidity names, in the program's order.
#[derive(Clone, Copy, Debug, PartialEq, Eq)]
pub struct DecreaseLiquidityAccounts {
    pub nft_owner: Address,
    pub nft_account: Address,
    pub personal_position: Address,
    pub pool_state: Address,
    pub protocol_position: Address,
    pub token_vault_0: Address,
    pub token_vault_1: Address,
    pub tick_array_lower: Address,
    pub tick_array_upper: Address,
    pub recipient_token_account_0: Address,
    pub recipient_token_account_1: Address,
    pub token_program: Address,
    pub token_program_2022: Address,
    pub memo_program: Address,
    pub vault_0_mint: Address,
    pub vault_1_mint: Address,
}

impl DecreaseLiquidityAccounts {
    /// The accounts in the program's order.
    pub fn keys(&self) -> (keys: [Address; 16])
        ensures
            keys@ == seq![
                self.nft_owner,
                self.nft_account,
                self.personal_position,
                self.pool_state,
                self.protocol_position,
                self.token_vault_0,
                self.token_vault_1,
                self.tick_array_lower,
                self.tick_array_upper,
                self.recipient_token_account_0,
                self.recipient_token_account_1,
                self.token_program,
                self.token_program_2022,
                self.memo_program,
                self.vault_0_mint,
                self.vault_1_mint,
            ],
    {
        let keys = [
            self.nft_owner,
            self.nft_account,
            self.personal_position,
            self.pool_state,
            self.protocol_position,
            self.token_vault_0,
            self.token_vault_1,
            self.tick_array_lower,
            self.tick_array_upper,
            self.recipient_token_account_0,
            self.recipient_token_account_1,
            self.token_program,
            self.token_program_2022,
            self.memo_program,
            self.vault_0_mint,
            self.vault_1_mint,
        ];
        assert(keys@ =~= seq![
            self.nft_owner,
            self.nft_account,
            self.personal_position,
            self.pool_state,
            self.protocol_position,
            self.token_vault_0,
            self.token_vault_1,
            self.tick_array_lower,
            self.tick_array_upper,
            self.recipient_token_account_0,
            self.recipient_token_account_1,
            self.token_program,
            self.token_program_2022,
            self.memo_program,
            self.vault_0_mint,
            self.vault_1_mint,
        ]);
        keys
    }
}

/// The rights with which removing liquidity passes its sixteen accounts:
/// the first, the owner, signs; the second is read; the next nine are
/// written to; the last five, programs and mints, are read.
pub open spec fn decrease_liquidity_rights(keys: Seq<Address>) -> Seq<(Seq<u8>, bool, bool)> {
    seq![
        AccountMeta::readonly(keys[0]@, true),
        AccountMeta::readonly(keys[1]@, false),
        AccountMeta::writable(keys[2]@, false),
        AccountMeta::writable(keys[3]@, false),
        AccountMeta::writable(keys[4]@, false),
        AccountMeta::writable(keys[5]@, false),
        AccountMeta::writable(keys[6]@, false),
        AccountMeta::writable(keys[7]@, false),
        AccountMeta::writable(keys[8]@, false),
        AccountMeta::writable(keys[9]@, false),
        AccountMeta::writable(keys[10]@, false),
        AccountMeta::readonly(keys[11]@, false),
        AccountMeta::readonly(keys[12]@, false),
        AccountMeta::readonly(keys[13]@, false),
        AccountMeta::readonly(keys[14]@, false),
        AccountMeta::readonly(keys[15]@, false),
    ]
}

/// The four addresses that removing liquidity derives: the position of the
/// token, the pool-wide position of the tick range, and the tick arrays
/// that hold the two ends of the range.
pub open spec fn decrease_liquidity_derived(
    program_id: Seq<u8>,
    pool: Seq<u8>,
    nft_mint: Seq<u8>,
    tick_lower_index: int,
    tick_upper_index: int,
    tick_array_lower_start_index: int,
    tick_array_upper_start_index: int,
) -> (Option<Seq<u8>>, Option<Seq<u8>>, Option<Seq<u8>>, Option<Seq<u8>>) {
    (
        derived_address(personal_position_seeds(nft_mint), program_id),
        derived_address(
            protocol_position_seeds(pool, tick_lower_index, tick_upper_index),
            program_id,
        ),
        derived_address(tick_array_seeds(pool, tick_array_lower_start_index), program_id),
        derived_address(tick_array_seeds(pool, tick_array_upper_start_index), program_id),
    )
}

/// Whether all four addresses that removing liquidity derives exist.
pub open spec fn decrease_liquidity_derivable(
    program_id: Seq<u8>,
    pool: Seq<u8>,
    nft_mint: Seq<u8>,
    tick_lower_index: int,
    tick_upper_index: int,
    tick_array_lower_start_index: int,
    tick_array_upper_start_index: int,
) -> bool {
    let derived = decrease_liquidity_derived(
        program_id,
        pool,
        nft_mint,
        tick_lower_index,
        tick_upper_index,
        tick_array_lower_start_index,
        tick_array_upper_start_index,
    );
    derived.0 is Some && derived.1 is Some && derived.2 is Some && derived.3 is Some
}

/// The accounts of the instruction that removes liquidity, before any
/// remaining accounts.
pub open spec fn decrease_liquidity_account_list(
    program_id: Seq<u8>,
    payer: Seq<u8>,
    pool: Seq<u8>,
    token_vault_0: Seq<u8>,
    token_vault_1: Seq<u8>,
    token_mint_0: Seq<u8>,
    token_mint_1: Seq<u8>,
    nft_mint: Seq<u8>,
    nft_token: Seq<u8>,
    user_token_account_0: Seq<u8>,
    user_token_account_1: Seq<u8>,
    tick_lower_index: int,
    tick_upper_index: int,
    tick_array_lower_start_index: int,
    tick_array_upper_start_index: int,
) -> Seq<(Seq<u8>, bool, bool)> {
    let derived = decrease_liquidity_derived(
        program_id,
        pool,
        nft_mint,
        tick_lower_index,
        tick_upper_index,
        tick_array_lower_start_index,
        tick_array_upper_start_index,
    );
    seq![
        AccountMeta::readonly(payer, true),
        AccountMeta::readonly(nft_token, false),
        AccountMeta::writable(derived.0.unwrap(), false),
        AccountMeta::writable(pool, false),
        AccountMeta::writable(derived.1.unwrap(), false),
        AccountMeta::writable(token_vault_0, false),
        AccountMeta::writable(token_vault_1, false),
        AccountMeta::writable(derived.2.unwrap(), false),
        AccountMeta::writable(derived.3.unwrap(), false),
        AccountMeta::writable(user_token_account_0, false),
        AccountMeta::writable(user_token_account_1, false),
        AccountMeta::readonly(TOKEN_PROGRAM@, false),
        AccountMeta::readonly(TOKEN_2022_PROGRAM@, false),
        AccountMeta::readonly(MEMO_PROGRAM@, false),
        AccountMeta::readonly(token_mint_0, false),
        AccountMeta::readonly(token_mint_1, false),
    ]
}

/// The accounts that closing a position names, in the program's order.
#[derive(Clone, Copy, Debug, PartialEq, Eq)]
pub struct ClosePositionAccounts {
    pub nft_owner: Address,
    pub position_nft_mint: Address,
    pub position_nft_account: Address,
    pub personal_position: Address,
    pub system_program: Address,
    pub token_program: Address,
}

impl ClosePositionAccounts {
    /// The accounts in the program's order.
    pub fn keys(&self) -> (keys: [Address; 6])
        ensures
            keys@ == seq![
                self.nft_owner,
                self.position_nft_mint,
                self.position_nft_account,
                self.personal_position,
                self.system_program,
                self.token_program,
            ],
    {
        let keys = [
            self.nft_owner,
            self.position_nft_mint,
            self.position_nft_account,
            self.personal_position,
            self.system_program,
            self.token_program,
        ];
        assert(keys@ =~= seq![
            self.nft_owner,
            self.position_nft_mint,
            self.position_nft_account,
            self.personal_position,
            self.system_program,
            self.token_program,
        ]);
        keys
    }
}

/// The rights with which closing a position passes its six accounts: the
/// first, the owner, signs and is written to; the next three are written
/// to; the two programs are read.
pub open spec fn close_position_rights(keys: Seq<Address>) -> Seq<(Seq<u8>, bool, bool)> {
    seq![
        AccountMeta::writable(keys[0]@, true),
        AccountMeta::writable(keys[1]@, false),
        AccountMeta::writable(keys[2]@, false),
        AccountMeta::writable(keys[3]@, false),
        AccountMeta::readonly(keys[4]@, false),
        AccountMeta::readonly(keys[5]@, false),
    ]
}

/// The accounts of the instruction that closes a position.
pub open spec fn close_position_account_list(
    program_id: Seq<u8>,
    payer: Seq<u8>,
    nft_mint: Seq<u8>,
    nft_token: Seq<u8>,
    nft_token_program: Seq<u8>,
) -> Seq<(Seq<u8>, bool, bool)> {
    seq![
        AccountMeta::writable(payer, true),
        AccountMeta::writable(nft_mint, false),
        AccountMeta::writable(nft_token, false),
        AccountMeta::writable(
            derived_address(personal_position_seeds(nft_mint), program_id).unwrap(),
            false,
        ),
        AccountMeta::readonly(SYSTEM_PROGRAM@, false),
        AccountMeta::readonly(nft_token_program, false),
    ]
}

/// First bytes of the data of the instruction that removes liquidity: the
/// first eight bytes of the SHA-256 hash of `global:decrease_liquidity_v2`.
pub open spec fn decrease_liquidity_tag() -> Seq<u8> {
    seq![58u8, 127, 188, 62, 79, 82, 196, 96]
}

/// First bytes of the data of the instruction that closes a position: the
/// first eight bytes of the SHA-256 hash of `global:close_position`.
pub open spec fn close_position_tag() -> Seq<u8> {
    seq![123u8, 134, 81, 0, 49, 68, 98, 98]
}

/// Argument bytes for removing liquidity: the tag, then the liquidity and
/// the two minimum amounts, each little-endian.
pub open spec fn decrease_liquidity_data(
    liquidity: u128,
    amount_0_min: u64,
    amount_1_min: u64,
) -> Seq<u8> {
    decrease_liquidity_tag() + le_bytes(liquidity as nat, 16) + le_bytes(amount_0_min as nat, 8)
        + le_bytes(amount_1_min as nat, 8)
}

/// Calls `to_account_metas` on `accounts::DecreaseLiquidityV2` of
/// `raydium_amm_v3`, filled with the sixteen keys in the order of the
/// program's declaration. The list keeps that order and gives each account
/// the rights that the program declares for it.
#[verifier::external_body]
fn decrease_liquidity_metas(keys: [Address; 16]) -> (metas: Vec<AccountMeta>)
    ensures
        metas_view(metas@) == decrease_liquidity_rights(keys@),
{
    let k = keys.map(|a| a.bytes.into());
    let accounts = DecreaseLiquidityV2 {
        nft_owner: k[0], nft_account: k[1], personal_position: k[2], pool_state: k[3],
        protocol_position: k[4], token_vault_0: k[5], token_vault_1: k[6],
        tick_array_lower: k[7], tick_array_upper: k[8],
        recipient_token_account_0: k[9], recipient_token_account_1: k[10],
        token_program: k[11], token_program_2022: k[12], memo_program: k[13],
        vault_0_mint: k[14], vault_1_mint: k[15],
    };
    accounts.to_account_metas(None).iter().map(|m| AccountMeta {
        pubkey: Address { bytes: m.pubkey.to_bytes() }, is_signer: m.is_signer, is_writable: m.is_writable,
    }).collect()
}

/// Calls `data` on `instruction::DecreaseLiquidityV2` of `raydium_amm_v3`,
/// which writes the instruction's tag and then its three arguments.
#[verifier::external_body]
fn decrease_liquidity_args(liquidity: u128, amount_0_min: u64, amount_1_min: u64) -> (data: Vec<u8>)
    ensures
        data@ == decrease_liquidity_data(liquidity, amount_0_min, amount_1_min),
{
    raydium_amm_v3::instruction::DecreaseLiquidityV2 { liquidity, amount_0_min, amount_1_min }.data()
}

/// Calls `to_account_metas` on `accounts::ClosePosition` of
/// `raydium_amm_v3`, filled with the six keys in the order of the
/// program's declaration. The list keeps that order and gives each account
/// the rights that the program declares for it.
#[verifier::external_body]
fn close_position_metas(keys: [Address; 6]) -> (metas: Vec<AccountMeta>)
    ensures
        metas_view(metas@) == close_position_rights(keys@),
{
    let k = keys.map(|a| a.bytes.into());
    let accounts = ClosePosition {
        nft_owner: k[0], position_nft_mint: k[1], position_nft_account: k[2],
        personal_position: k[3], system_program: k[4], token_program: k[5],
    };
    accounts.to_account_metas(None).iter().map(|m| AccountMeta {
        pubkey: Address { bytes: m.pubkey.to_bytes() }, is_signer: m.is_signer, is_writable: m.is_writable,
    }).collect()
}

/// Calls `data` on `instruction::ClosePosition` of `raydium_amm_v3`, which
/// writes the instruction's tag and nothing else.
#[verifier::external_body]
fn close_position_args() -> (data: Vec<u8>)
    ensures
        data@ == close_position_tag(),
{
    raydium_amm_v3::instruction::ClosePosition.data()
}

/// Appends `more` to `accounts`.
fn append_metas(accounts: &mut Vec<AccountMeta>, more: &Vec<AccountMeta>)
    ensures
        final(accounts)@ == old(accounts)@ + more@,
{
    let mut i: usize = 0;
    while i < more.len()
        invariant
            i <= more.len(),
            accounts@ == old(accounts)@ + more@.subrange(0, i as int),
        decreases more.len() - i,
    {
        accounts.push(more[i]);
        assert(accounts@ =~= old(accounts)@ + more@.subrange(0, i + 1));
        i += 1;
    }
    assert(more@.subrange(0, more@.len() as int) =~= more@);
}

/// The view of a concatenation is the concatenation of the views.
pub proof fn lemma_metas_view_concat(a: Seq<AccountMeta>, b: Seq<AccountMeta>)
    ensures
        metas_view(a + b) == metas_view(a) + metas_view(b),
{
    assert(metas_view(a + b) =~= metas_view(a) + metas_view(b));
}

/// Builds the instruction that removes `liquidity` from the position that
/// `nft_mint_key` stands for, asking for at least the two minimum amounts.
///
/// The accounts are those of [`decrease_liquidity_account_list`], followed
/// by `remaining_accounts`. There is no instruction where one of the four
/// derived addresses does not exist.
pub fn decrease_liquidity_instr(
    program_id: &Address,
    payer: &Address,
    pool_account_key: &Address,
    token_vault_0: &Address,
    token_vault_1: &Address,
    token_mint_0: &Address,
    token_mint_1: &Address,
    nft_mint_key: &Address,
    nft_token_key: &Address,
    user_token_account_0: &Address,
    user_token_account_1: &Address,
    remaining_accounts: &Vec<AccountMeta>,
    liquidity: u128,
    amount_0_min: u64,
    amount_1_min: u64,
    tick_lower_index: i32,
    tick_upper_index: i32,
    tick_array_lower_start_index: i32,
    tick_array_upper_start_index: i32,
) -> (instructions: Option<Vec<Instruction>>)
    ensures
        instructions is Some <==> decrease_liquidity_derivable(
            program_id@,
            pool_account_key@,
            nft_mint_key@,
            tick_lower_index as int,
            tick_upper_index as int,
            tick_array_lower_start_index as int,
            tick_array_upper_start_index as int,
        ),
        instructions matches Some(list) ==> {
            &&& list@.len() == 1
            &&& list@[0]@.program_id == program_id@
            &&& list@[0]@.data == decrease_liquidity_data(liquidity, amount_0_min, amount_1_min)
            &&& list@[0]@.accounts == decrease_liquidity_account_list(
                program_id@,
                payer@,
                pool_account_key@,
                token_vault_0@,
                token_vault_1@,
                token_mint_0@,
                token_mint_1@,
                nft_mint_key@,
                nft_token_key@,
                user_token_account_0@,
                user_token_account_1@,
                tick_lower_index as int,
                tick_upper_index as int,
                tick_array_lower_start_index as int,
                tick_array_upper_start_index as int,
            ) + metas_view(remaining_accounts@)
        },
{
    let personal_position = match personal_position_address(program_id, nft_mint_key) {
        Some(address) => address,
        None => { return None; },
    };
    let protocol_position = match protocol_position_address(
        program_id,
        pool_account_key,
        tick_lower_index,
        tick_upper_index,
    ) {
        Some(address) => address,
        None => { return None; },
    };
    let tick_array_lower = match tick_array_address(
        program_id,
        pool_account_key,
        tick_array_lower_start_index,
    ) {
        Some(address) => address,
        None => { return None; },
    };
    let tick_array_upper = match tick_array_address(
        program_id,
        pool_account_key,
        tick_array_upper_start_index,
    ) {
        Some(address) => address,
        None => { return None; },
    };
    let accounts = DecreaseLiquidityAccounts {
        nft_owner: *payer,
        nft_account: *nft_token_key,
        personal_position,
        pool_state: *pool_account_key,
        protocol_position,
        token_vault_0: *token_vault_0,
        token_vault_1: *token_vault_1,
        tick_array_lower,
        tick_array_upper,
        recipient_token_account_0: *user_token_account_0,
        recipient_token_account_1: *user_token_account_1,
        token_program: token_program(),
        token_program_2022: token_2022_program(),
        memo_program: memo_program(),
        vault_0_mint: *token_mint_0,
        vault_1_mint: *token_mint_1,
    };
    let keys = accounts.keys();
    let mut metas = decrease_liquidity_metas(keys);
    let ghost listed = metas@;
    append_metas(&mut metas, remaining_accounts);
    proof {
        lemma_metas_view_concat(listed, remaining_accounts@);
    }
    let instruction = Instruction {
        program_id: *program_id,
        accounts: metas,
        data: decrease_liquidity_args(liquidity, amount_0_min, amount_1_min),
    };
    let mut instructions: Vec<Instruction> = Vec::new();
    instructions.push(instruction);
    assert(decrease_liquidity_rights(keys@) =~= decrease_liquidity_account_list(
        program_id@,
        payer@,
        pool_account_key@,
        token_vault_0@,
        token_vault_1@,
        token_mint_0@,
        token_mint_1@,
        nft_mint_key@,
        nft_token_key@,
        user_token_account_0@,
        user_token_account_1@,
        tick_lower_index as int,
        tick_upper_index as int,
        tick_array_lower_start_index as int,
        tick_array_upper_start_index as int,
    ));
    Some(instructions)
}

/// Builds the instruction that closes the position that `nft_mint_key`
/// stands for. There is no instruction where the position's address does
/// not exist.
pub fn close_personal_position_instr(
    program_id: &Address,
    payer: &Address,
    nft_mint_key: &Address,
    nft_token_key: &Address,
    nft_token_program: &Address,
) -> (instructions: Option<Vec<Instruction>>)
    ensures
        instructions is Some <==> derived_address(
            personal_position_seeds(nft_mint_key@),
            program_id@,
        ) is Some,
        instructions matches Some(list) ==> {
            &&& list@.len() == 1
            &&& list@[0]@.program_id == program_id@
            &&& list@[0]@.data == close_position_tag()
            &&& list@[0]@.accounts == close_position_account_list(
                program_id@,
                payer@,
                nft_mint_key@,
                nft_token_key@,
                nft_token_program@,
            )
        },
{
    let personal_position = match personal_position_address(program_id, nft_mint_key) {
        Some(address) => address,
        None => { return None; },
    };
    let accounts = ClosePositionAccounts {
        nft_owner: *payer,
        position_nft_mint: *nft_mint_key,
        position_nft_account: *nft_token_key,
        personal_position,
        system_program: system_program(),
        token_program: *nft_token_program,
    };
    let keys = accounts.keys();
    let instruction = Instruction {
        program_id: *program_id,
        accounts: close_position_metas(keys),
        data: close_position_args(),
    };
    let mut instructions: Vec<Instruction> = Vec::new();
    instructions.push(instruction);
    assert(close_position_rights(keys@) =~= close_position_account_list(
        program_id@,
        payer@,
        nft_mint_key@,
        nft_token_key@,
        nft_token_program@,
    ));
    Some(instructions)
}

} // verus!
