//! The instruction that creates a pool, and the order of its two mints.

use vstd::prelude::*;
use anchor_lang::{InstructionData, ToAccountMetas};
use raydium_amm_v3::accounts::CreatePool;
use solana_sdk::program_pack::Pack;
use crate::address::{
    instructions_view, lex_less, metas_view, AccountMeta, Address, Instruction, InstructionView,
};
use crate::encoding::le_bytes;
use crate::error::ClientError;
use crate::fee::MintAccount;
use crate::pda::{
    amm_config_address, amm_config_seeds, derived_address, get_tick_array_bitmap,
    observation_address, observation_seeds, pool_address, pool_seeds, pool_vault_address,
    pool_vault_seeds, tick_array_bitmap_seeds,
};
use crate::range::{sqrt_price_in_range, tick_at, tick_at_sqrt_price};
use crate::programs::{
    instructions_sysvar, rent_sysvar, system_program, INSTRUCTIONS_SYSVAR, RENT_SYSVAR,
    SYSTEM_PROGRAM,
};

verus! {

/// Puts two mints in the order in which a pool holds them: the one whose
/// address is lower comes first. The flag says whether they changed
/// places, in which case the price between them is to be inverted.
pub fn order_mints(mint0: Address, mint1: Address) -> (ordered: (Address, Address, bool))
    ensures
        ordered.2 == lex_less(mint1@, mint0@),
        ordered.2 ==> ordered.0 == mint1 && ordered.1 == mint0,
        !ordered.2 ==> ordered.0 == mint0 && ordered.1 == mint1,
        !lex_less(ordered.1@, ordered.0@),
{
    if mint1.precedes(&mint0) {
        proof {
            crate::address::lemma_lex_less_asymmetric(mint1@, mint0@);
        }
        (mint1, mint0, true)
    } else {
        (mint0, mint1, false)
    }
}

/// The accounts that creating a pool names, in the program's order.
#[derive(Clone, Copy, Debug, PartialEq, Eq)]
pub struct CreatePoolAccounts {
    pub pool_creator: Address,
    pub amm_config: Address,
    pub pool_state: Address,
    pub token_mint_0: Address,
    pub token_mint_1: Address,
    pub token_vault_0: Address,
    pub token_vault_1: Address,
    pub observation_state: Address,
    pub tick_array_bitmap: Address,
    pub token_program_0: Address,
    pub token_program_1: Address,
    pub system_program: Address,
    pub rent: Address,
    pub ixs_sysvar: Address,
}

impl CreatePoolAccounts {
    /// The accounts in the program's order.
    pub fn keys(&self) -> (keys: [Address; 14])
        ensures
            keys@ == seq![
                self.pool_creator,
                self.amm_config,
                self.pool_state,
                self.token_mint_0,
                self.token_mint_1,
                self.token_vault_0,
                self.token_vault_1,
                self.observation_state,
                self.tick_array_bitmap,
                self.token_program_0,
                self.token_program_1,
                self.system_program,
                self.rent,
                self.ixs_sysvar,
            ],
    {
        let keys = [
            self.pool_creator,
            self.amm_config,
            self.pool_state,
            self.token_mint_0,
            self.token_mint_1,
            self.token_vault_0,
            self.token_vault_1,
            self.observation_state,
            self.tick_array_bitmap,
            self.token_program_0,
            self.token_program_1,
            self.system_program,
            self.rent,
            self.ixs_sysvar,
        ];
        assert(keys@ =~= seq![
            self.pool_creator,
            self.amm_config,
            self.pool_state,
            self.token_mint_0,
            self.token_mint_1,
            self.token_vault_0,
            self.token_vault_1,
            self.observation_state,
            self.tick_array_bitmap,
            self.token_program_0,
            self.token_program_1,
            self.system_program,
            self.rent,
            self.ixs_sysvar,
        ]);
        keys
    }
}

/// The rights with which creating a pool passes its fourteen accounts: the
/// first, the creator, signs and pays; the pool, its two vaults, its
/// observation account and its bitmap extension are written to;
/// everything else is read.
pub open spec fn create_pool_rights(keys: Seq<Address>) -> Seq<(Seq<u8>, bool, bool)> {
    seq![
        AccountMeta::writable(keys[0]@, true),
        AccountMeta::readonly(keys[1]@, false),
        AccountMeta::writable(keys[2]@, false),
        AccountMeta::readonly(keys[3]@, false),
        AccountMeta::readonly(keys[4]@, false),
        AccountMeta::writable(keys[5]@, false),
        AccountMeta::writable(keys[6]@, false),
        AccountMeta::writable(keys[7]@, false),
        AccountMeta::writable(keys[8]@, false),
        AccountMeta::readonly(keys[9]@, false),
        AccountMeta::readonly(keys[10]@, false),
        AccountMeta::readonly(keys[11]@, false),
        AccountMeta::readonly(keys[12]@, false),
        AccountMeta::readonly(keys[13]@, false),
    ]
}

/// The addresses that creating a pool derives: the pool, its two vaults,
/// its observation account and its bitmap extension. There are none where
/// one of them does not exist.
pub open spec fn create_pool_derived(
    program_id: Seq<u8>,
    amm_config: Seq<u8>,
    token_mint_0: Seq<u8>,
    token_mint_1: Seq<u8>,
) -> Option<(Seq<u8>, Seq<u8>, Seq<u8>, Seq<u8>, Seq<u8>)> {
    match derived_address(pool_seeds(amm_config, token_mint_0, token_mint_1), program_id) {
        None => None,
        Some(pool) => match (
            derived_address(pool_vault_seeds(pool, token_mint_0), program_id),
            derived_address(pool_vault_seeds(pool, token_mint_1), program_id),
            derived_address(observation_seeds(pool), program_id),
            derived_address(tick_array_bitmap_seeds(pool), program_id),
        ) {
            (Some(vault_0), Some(vault_1), Some(observation), Some(bitmap)) => Some(
                (pool, vault_0, vault_1, observation, bitmap),
            ),
            _ => None,
        },
    }
}

/// The accounts of the instruction that creates a pool.
pub open spec fn create_pool_account_list(
    payer: Seq<u8>,
    amm_config: Seq<u8>,
    token_mint_0: Seq<u8>,
    token_mint_1: Seq<u8>,
    token_program_0: Seq<u8>,
    token_program_1: Seq<u8>,
    derived: (Seq<u8>, Seq<u8>, Seq<u8>, Seq<u8>, Seq<u8>),
) -> Seq<(Seq<u8>, bool, bool)> {
    seq![
        AccountMeta::writable(payer, true),
        AccountMeta::readonly(amm_config, false),
        AccountMeta::writable(derived.0, false),
        AccountMeta::readonly(token_mint_0, false),
        AccountMeta::readonly(token_mint_1, false),
        AccountMeta::writable(derived.1, false),
        AccountMeta::writable(derived.2, false),
        AccountMeta::writable(derived.3, false),
        AccountMeta::writable(derived.4, false),
        AccountMeta::readonly(token_program_0, false),
        AccountMeta::readonly(token_program_1, false),
        AccountMeta::readonly(SYSTEM_PROGRAM@, false),
        AccountMeta::readonly(RENT_SYSVAR@, false),
        AccountMeta::readonly(INSTRUCTIONS_SYSVAR@, false),
    ]
}

/// First bytes of the data of the instruction that creates a pool: the
/// first eight bytes of the SHA-256 hash of `global:create_pool`.
pub open spec fn create_pool_tag() -> Seq<u8> {
    seq![233u8, 146, 209, 142, 207, 104, 64, 188]
}

/// Argument bytes for creating a pool: the tag, then the initial
/// square-root price and the opening time, little-endian, and the two
/// one-byte settings.
pub open spec fn create_pool_data(
    sqrt_price_x64: u128,
    open_time: u64,
    other_idx: u8,
    leverage: u8,
) -> Seq<u8> {
    create_pool_tag() + le_bytes(sqrt_price_x64 as nat, 16) + le_bytes(open_time as nat, 8)
        + seq![other_idx, leverage]
}

/// Calls `to_account_metas` on `accounts::CreatePool` of `raydium_amm_v3`,
/// filled with the fourteen keys in the order of the program's
/// declaration. The list keeps that order and gives each account the
/// rights that the program declares for it.
#[verifier::external_body]
fn create_pool_metas(keys: [Address; 14]) -> (metas: Vec<AccountMeta>)
    ensures
        metas_view(metas@) == create_pool_rights(keys@),
{
    let k = keys.map(|a| a.bytes.into());
    let accounts = CreatePool {
        pool_creator: k[0], amm_config: k[1], pool_state: k[2],
        token_mint_0: k[3], token_mint_1: k[4], token_vault_0: k[5], token_vault_1: k[6],
        observation_state: k[7], tick_array_bitmap: k[8],
        token_program_0: k[9], token_program_1: k[10],
        system_program: k[11], rent: k[12], ixs_sysvar: k[13],
    };
    accounts.to_account_metas(None).iter().map(|m| AccountMeta {
        pubkey: Address { bytes: m.pubkey.to_bytes() }, is_signer: m.is_signer, is_writable: m.is_writable,
    }).collect()
}

/// Calls `data` on `instruction::CreatePool` of `raydium_amm_v3`, which
/// writes the instruction's tag and then its four arguments.
#[verifier::external_body]
fn create_pool_args(sqrt_price_x64: u128, open_time: u64, other_idx: u8, leverage: u8) -> (data:
    Vec<u8>)
    ensures
        data@ == create_pool_data(sqrt_price_x64, open_time, other_idx, leverage),
{
    raydium_amm_v3::instruction::CreatePool { sqrt_price_x64, open_time, other_idx, leverage }.data()
}

/// Builds the instruction by which `payer` creates the pool of two mints
/// under a fee configuration, at an initial square-root price.
///
/// The mints are taken in the order given. There is no instruction where
/// one of the derived addresses does not exist.
pub fn create_pool_instr(
    program_id: &Address,
    payer: &Address,
    amm_config: &Address,
    token_mint_0: &Address,
    token_mint_1: &Address,
    token_program_0: &Address,
    token_program_1: &Address,
    sqrt_price_x64: u128,
    open_time: u64,
    other_idx: u8,
    leverage: u8,
) -> (instructions: Option<Vec<Instruction>>)
    ensures
        instructions is Some <==> create_pool_derived(
            program_id@,
            amm_config@,
            token_mint_0@,
            token_mint_1@,
        ) is Some,
        instructions matches Some(list) ==> {
            &&& list@.len() == 1
            &&& list@[0]@.program_id == program_id@
            &&& list@[0]@.data == create_pool_data(sqrt_price_x64, open_time, other_idx, leverage)
            &&& list@[0]@.accounts == create_pool_account_list(
                payer@,
                amm_config@,
                token_mint_0@,
                token_mint_1@,
                token_program_0@,
                token_program_1@,
                create_pool_derived(program_id@, amm_config@, token_mint_0@, token_mint_1@).unwrap(),
            )
        },
{
    let pool_state = match pool_address(program_id, amm_config, token_mint_0, token_mint_1) {
        Some(address) => address,
        None => { return None; },
    };
    let token_vault_0 = match pool_vault_address(program_id, &pool_state, token_mint_0) {
        Some(address) => address,
        None => { return None; },
    };
    let token_vault_1 = match pool_vault_address(program_id, &pool_state, token_mint_1) {
        Some(address) => address,
        None => { return None; },
    };
    let observation_state = match observation_address(program_id, &pool_state) {
        Some(address) => address,
        None => { return None; },
    };
    let tick_array_bitmap = match get_tick_array_bitmap(
        amm_config,
        token_mint_0,
        token_mint_1,
        program_id,
    ) {
        Some(address) => address,
        None => { return None; },
    };
    let accounts = CreatePoolAccounts {
        pool_creator: *payer,
        amm_config: *amm_config,
        pool_state,
        token_mint_0: *token_mint_0,
        token_mint_1: *token_mint_1,
        token_vault_0,
        token_vault_1,
        observation_state,
        tick_array_bitmap,
        token_program_0: *token_program_0,
        token_program_1: *token_program_1,
        system_program: system_program(),
        rent: rent_sysvar(),
        ixs_sysvar: instructions_sysvar(),
    };
    let keys = accounts.keys();
    let instruction = Instruction {
        program_id: *program_id,
        accounts: create_pool_metas(keys),
        data: create_pool_args(sqrt_price_x64, open_time, other_idx, leverage),
    };
    let mut instructions: Vec<Instruction> = Vec::new();
    instructions.push(instruction);
    assert(create_pool_rights(keys@) =~= create_pool_account_list(
        payer@,
        amm_config@,
        token_mint_0@,
        token_mint_1@,
        token_program_0@,
        token_program_1@,
        create_pool_derived(program_id@, amm_config@, token_mint_0@, token_mint_1@).unwrap(),
    ));
    Some(instructions)
}

/// Whether the four bytes from `at` on mark an optional key as absent or
/// as present: a 0 or a 1, little-endian.
pub open spec fn is_option_tag(data: Seq<u8>, at: int) -> bool {
    (data[at] == 0 || data[at] == 1) && data[at + 1] == 0 && data[at + 2] == 0 && data[at + 3]
        == 0
}

/// The number of decimals that the data of a mint account without
/// extensions holds. The data is that of a mint where it is 82 bytes long,
/// the marks of the two optional authorities, at 0 and at 46, are well
/// formed, and the byte at 45 says that the mint is initialised; the
/// decimals are the byte at 44.
pub open spec fn mint_decimals_in(data: Seq<u8>) -> Option<u8> {
    if data.len() == 82 && is_option_tag(data, 0) && data[45] == 1 && is_option_tag(data, 46) {
        Some(data[44])
    } else {
        None
    }
}

/// Calls `Mint::unpack` of `spl_token_2022` on the data and picks the
/// decimals. It accepts exactly the data of an initialised mint, as
/// [`mint_decimals_in`] says.
#[verifier::external_body]
fn unpack_mint_decimals(data: &Vec<u8>) -> (decimals: Option<u8>)
    ensures
        decimals == mint_decimals_in(data@),
{
    spl_token_2022::state::Mint::unpack(data).ok().map(|mint| mint.decimals)
}

/// What creating a pool reads of its two mints: the programs that own
/// them and their decimals.
#[derive(Clone, Copy, Debug, PartialEq, Eq)]
pub struct PoolMints {
    pub mint0_owner: Address,
    pub mint1_owner: Address,
    pub mint0_decimals: u8,
    pub mint1_decimals: u8,
}

/// Reads the owners and the decimals of the two mints of a pool to be.
/// Data that is no mint is an error.
pub fn pool_mints(mint0_account: &MintAccount, mint1_account: &MintAccount) -> (mints: Result<
    PoolMints,
    ClientError,
>)
    ensures
        mints is Ok <==> mint_decimals_in(mint0_account.data@) is Some && mint_decimals_in(
            mint1_account.data@,
        ) is Some,
        mints is Ok ==> mints.unwrap() == (PoolMints {
            mint0_owner: mint0_account.owner,
            mint1_owner: mint1_account.owner,
            mint0_decimals: mint_decimals_in(mint0_account.data@).unwrap(),
            mint1_decimals: mint_decimals_in(mint1_account.data@).unwrap(),
        }),
        mints is Err ==> mints.unwrap_err() == ClientError::InvalidMintData,
{
    let mint0_decimals = match unpack_mint_decimals(&mint0_account.data) {
        Some(decimals) => decimals,
        None => { return Err(ClientError::InvalidMintData); },
    };
    let mint1_decimals = match unpack_mint_decimals(&mint1_account.data) {
        Some(decimals) => decimals,
        None => { return Err(ClientError::InvalidMintData); },
    };
    Ok(
        PoolMints {
            mint0_owner: mint0_account.owner,
            mint1_owner: mint1_account.owner,
            mint0_decimals,
            mint1_decimals,
        },
    )
}

/// What creating a pool comes to: the fee configuration it belongs to,
/// the tick of its initial price, the instructions to send, and the
/// address at which the pool will be found.
#[derive(Clone, Debug, PartialEq, Eq)]
pub struct PoolCreation {
    pub amm_config: Address,
    pub tick: i32,
    pub instructions: Vec<Instruction>,
    pub pool: Address,
}

/// The outcome of preparing a pool: an error where the fee configuration
/// has no address, where the price has no tick, or where an address of the
/// pool does not exist, the first of these in this order.
pub open spec fn pool_creation_of(
    program_id: Seq<u8>,
    payer: Seq<u8>,
    config_index: u16,
    mint0: Seq<u8>,
    mint1: Seq<u8>,
    mint0_owner: Seq<u8>,
    mint1_owner: Seq<u8>,
    sqrt_price_x64: u128,
    open_time: u64,
    other_idx: u8,
    leverage: u8,
) -> Result<(Seq<u8>, i32, Seq<InstructionView>, Seq<u8>), ClientError> {
    match derived_address(amm_config_seeds(config_index), program_id) {
        None => Err(ClientError::AddressNotFound),
        Some(amm_config) => if !sqrt_price_in_range(sqrt_price_x64) {
            Err(ClientError::SqrtPriceOutOfRange)
        } else {
            match create_pool_derived(program_id, amm_config, mint0, mint1) {
                None => Err(ClientError::AddressNotFound),
                Some(derived) => Ok(
                    (
                        amm_config,
                        tick_at_sqrt_price(sqrt_price_x64),
                        seq![
                            InstructionView {
                                program_id,
                                accounts: create_pool_account_list(
                                    payer,
                                    amm_config,
                                    mint0,
                                    mint1,
                                    mint0_owner,
                                    mint1_owner,
                                    derived,
                                ),
                                data: create_pool_data(sqrt_price_x64, open_time, other_idx, leverage),
                            },
                        ],
                        derived.0,
                    ),
                ),
            }
        },
    }
}

/// Prepares the creation of the pool of two mints, already in order, under
/// the fee configuration with the given index, at an initial square-root
/// price.
pub fn prepare_create_pool(
    program_id: &Address,
    payer: &Address,
    config_index: u16,
    mint0: &Address,
    mint1: &Address,
    mint0_owner: &Address,
    mint1_owner: &Address,
    sqrt_price_x64: u128,
    open_time: u64,
    other_idx: u8,
    leverage: u8,
) -> (creation: Result<PoolCreation, ClientError>)
    ensures
        match creation {
            Ok(c) => pool_creation_of(
                program_id@,
                payer@,
                config_index,
                mint0@,
                mint1@,
                mint0_owner@,
                mint1_owner@,
                sqrt_price_x64,
                open_time,
                other_idx,
                leverage,
            ) == Ok::<(Seq<u8>, i32, Seq<InstructionView>, Seq<u8>), ClientError>(
                (c.amm_config@, c.tick, instructions_view(c.instructions@), c.pool@),
            ),
            Err(e) => pool_creation_of(
                program_id@,
                payer@,
                config_index,
                mint0@,
                mint1@,
                mint0_owner@,
                mint1_owner@,
                sqrt_price_x64,
                open_time,
                other_idx,
                leverage,
            ) == Err::<(Seq<u8>, i32, Seq<InstructionView>, Seq<u8>), ClientError>(e),
        },
{
    let amm_config_key = match amm_config_address(program_id, config_index) {
        Some(address) => address,
        None => { return Err(ClientError::AddressNotFound); },
    };
    let tick = match tick_at(sqrt_price_x64) {
        Ok(tick) => tick,
        Err(e) => { return Err(e); },
    };
    let create_pool_instr = match create_pool_instr(
        program_id,
        payer,
        &amm_config_key,
        mint0,
        mint1,
        mint0_owner,
        mint1_owner,
        sqrt_price_x64,
        open_time,
        other_idx,
        leverage,
    ) {
        Some(list) => list,
        None => { return Err(ClientError::AddressNotFound); },
    };
    let pool = match pool_address(program_id, &amm_config_key, mint0, mint1) {
        Some(address) => address,
        None => { return Err(ClientError::AddressNotFound); },
    };
    assert(instructions_view(create_pool_instr@) =~= seq![create_pool_instr@[0]@]);
    Ok(PoolCreation { amm_config: amm_config_key, tick, instructions: create_pool_instr, pool })
}

} // verus!
