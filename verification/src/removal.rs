//! Planning the removal of liquidity: which position is meant, how much
//! leaves it, which accounts go along and what the owner must at least
//! receive.

use vstd::prelude::*;
use anchor_lang::AccountDeserialize;
use raydium_amm_v3::states::PersonalPositionState;
use crate::address::{
    instructions_view, metas_view, zero_address, AccountMeta, Address, Instruction,
    InstructionView,
};
use crate::decrease_liquidity::{
    close_personal_position_instr, close_position_account_list, close_position_tag,
    decrease_liquidity_account_list, decrease_liquidity_data, decrease_liquidity_derivable,
    decrease_liquidity_instr,
};
use crate::encoding::{le_value, signed_32};
use crate::error::ClientError;
use crate::fee::TransferFeeInfo;
use crate::pda::{
    associated_token_of, get_associated_token_address_with_program_id, get_tick_array_bitmap,
    tick_array_bitmap_of,
};
use crate::position::PositionNftTokenInfo;
use crate::programs::{token_program, TOKEN_PROGRAM};
use crate::range::TickRange;

verus! {

/// What the plan reads of a position account.
#[derive(Clone, Copy, Debug, PartialEq, Eq)]
pub struct PersonalPosition {
    pub nft_mint: Address,
    pub pool_id: Address,
    pub tick_lower_index: i32,
    pub tick_upper_index: i32,
    pub liquidity: u128,
}

/// The mathematical content of a [`PersonalPosition`].
pub struct PersonalPositionView {
    pub nft_mint: Seq<u8>,
    pub pool_id: Seq<u8>,
    pub tick_lower_index: i32,
    pub tick_upper_index: i32,
    pub liquidity: u128,
}

impl View for PersonalPosition {
    type V = PersonalPositionView;

    open spec fn view(&self) -> PersonalPositionView {
        PersonalPositionView {
            nft_mint: self.nft_mint@,
            pool_id: self.pool_id@,
            tick_lower_index: self.tick_lower_index,
            tick_upper_index: self.tick_upper_index,
            liquidity: self.liquidity,
        }
    }
}

/// What the plan reads of one reward of a pool.
#[derive(Clone, Copy, Debug, PartialEq, Eq)]
pub struct RewardInfo {
    pub token_mint: Address,
    pub token_vault: Address,
}

/// The first bytes of a position account: the first eight bytes of the
/// SHA-256 hash of `account:PersonalPositionState`.
pub open spec fn personal_position_tag() -> Seq<u8> {
    seq![70u8, 111, 150, 126, 230, 15, 25, 117]
}

/// Length in bytes of a position account.
pub const PERSONAL_POSITION_LEN: usize = 281;

/// The position that the data of an account holds. The data holds one
/// where it starts with the tag of position accounts and is long enough;
/// after the tag and one more byte come the mint of the token, the pool,
/// the two ends of the tick range and the liquidity, the numbers
/// little-endian.
pub open spec fn personal_position_in(data: Seq<u8>) -> Option<PersonalPositionView> {
    if data.len() >= PERSONAL_POSITION_LEN && data.subrange(0, 8) == personal_position_tag() {
        Some(
            PersonalPositionView {
                nft_mint: data.subrange(9, 41),
                pool_id: data.subrange(41, 73),
                tick_lower_index: signed_32(le_value(data.subrange(73, 77))) as i32,
                tick_upper_index: signed_32(le_value(data.subrange(77, 81))) as i32,
                liquidity: le_value(data.subrange(81, 97)) as u128,
            },
        )
    } else {
        None
    }
}

/// Calls `try_deserialize` of `raydium_amm_v3::states::PersonalPositionState`
/// on the data, which accepts exactly the data that holds a position and
/// reads it as [`personal_position_in`] says.
#[verifier::external_body]
fn parse_personal_position(data: &Vec<u8>) -> (parsed: Option<PersonalPosition>)
    ensures
        match parsed {
            Some(position) => personal_position_in(data@) == Some(position@),
            None => personal_position_in(data@) is None,
        },
{
    let state = PersonalPositionState::try_deserialize(&mut data.as_slice()).ok()?;
    Some(PersonalPosition {
        nft_mint: Address { bytes: state.nft_mint.to_bytes() },
        pool_id: Address { bytes: state.pool_id.to_bytes() },
        tick_lower_index: state.tick_lower_index,
        tick_upper_index: state.tick_upper_index,
        liquidity: state.liquidity,
    })
}

/// The views of a list of positions.
pub open spec fn positions_view(positions: Seq<PersonalPosition>) -> Seq<PersonalPositionView> {
    Seq::new(positions.len(), |i: int| positions[i]@)
}

/// The positions that a list of fetched accounts holds: absent accounts
/// are passed over, and the first account that holds no position is an
/// error.
pub open spec fn positions_in(accounts: Seq<Option<Vec<u8>>>) -> Result<
    Seq<PersonalPositionView>,
    ClientError,
>
    decreases accounts.len(),
{
    if accounts.len() == 0 {
        Ok(Seq::empty())
    } else {
        match positions_in(accounts.drop_last()) {
            Err(e) => Err(e),
            Ok(earlier) => match accounts.last() {
                None => Ok(earlier),
                Some(data) => match personal_position_in(data@) {
                    None => Err(ClientError::InvalidPositionData),
                    Some(position) => Ok(earlier.push(position)),
                },
            },
        }
    }
}

/// An error among the first `n` accounts is the error of the whole list.
pub proof fn lemma_positions_in_error_stays(accounts: Seq<Option<Vec<u8>>>, n: int)
    requires
        0 <= n <= accounts.len(),
        positions_in(accounts.subrange(0, n)) is Err,
    ensures
        positions_in(accounts) == positions_in(accounts.subrange(0, n)),
    decreases accounts.len() - n,
{
    if n == accounts.len() {
        assert(accounts.subrange(0, n) =~= accounts);
    } else {
        let longer = accounts.subrange(0, n + 1);
        assert(longer.drop_last() =~= accounts.subrange(0, n));
        lemma_positions_in_error_stays(accounts, n + 1);
    }
}

/// Reads the positions out of the accounts fetched for them.
pub fn user_positions(accounts: &Vec<Option<Vec<u8>>>) -> (found: Result<
    Vec<PersonalPosition>,
    ClientError,
>)
    ensures
        match found {
            Ok(list) => positions_in(accounts@) == Ok::<Seq<PersonalPositionView>, ClientError>(
                positions_view(list@),
            ),
            Err(e) => positions_in(accounts@) == Err::<Seq<PersonalPositionView>, ClientError>(e),
        },
{
    let mut user_positions: Vec<PersonalPosition> = Vec::new();
    let mut i: usize = 0;
    assert(accounts@.subrange(0, 0) =~= Seq::<Option<Vec<u8>>>::empty());
    assert(positions_view(user_positions@) =~= Seq::<PersonalPositionView>::empty());
    while i < accounts.len()
        invariant
            i <= accounts.len(),
            positions_in(accounts@.subrange(0, i as int)) == Ok::<
                Seq<PersonalPositionView>,
                ClientError,
            >(positions_view(user_positions@)),
        decreases accounts.len() - i,
    {
        let ghost next = accounts@.subrange(0, i + 1);
        assert(next.drop_last() =~= accounts@.subrange(0, i as int));
        assert(next.last() == accounts@[i as int]);
        match &accounts[i] {
            None => {},
            Some(data) => match parse_personal_position(data) {
                None => {
                    proof {
                        lemma_positions_in_error_stays(accounts@, i + 1);
                    }
                    return Err(ClientError::InvalidPositionData);
                },
                Some(position) => {
                    let ghost before = user_positions@;
                    user_positions.push(position);
                    assert(positions_view(user_positions@) =~= positions_view(before).push(
                        position@,
                    ));
                },
            },
        }
        i += 1;
    }
    assert(accounts@.subrange(0, accounts@.len() as int) =~= accounts@);
    Ok(user_positions)
}

/// Whether a position lies in a pool over a tick range.
pub open spec fn is_position_of(
    position: PersonalPosition,
    pool: Seq<u8>,
    tick_lower_index: i32,
    tick_upper_index: i32,
) -> bool {
    &&& position.pool_id@ == pool
    &&& position.tick_lower_index == tick_lower_index
    &&& position.tick_upper_index == tick_upper_index
}

/// The last position of a list that lies in a pool over a tick range.
pub open spec fn last_position_of(
    positions: Seq<PersonalPosition>,
    pool: Seq<u8>,
    tick_lower_index: i32,
    tick_upper_index: i32,
) -> Option<PersonalPosition>
    decreases positions.len(),
{
    if positions.len() == 0 {
        None
    } else if is_position_of(positions.last(), pool, tick_lower_index, tick_upper_index) {
        Some(positions.last())
    } else {
        last_position_of(positions.drop_last(), pool, tick_lower_index, tick_upper_index)
    }
}

/// The position that a removal is about: the last of the owner's that
/// lies in the pool over the tick range, provided that it names a token.
pub open spec fn position_to_decrease(
    positions: Seq<PersonalPosition>,
    pool: Seq<u8>,
    tick_lower_index: i32,
    tick_upper_index: i32,
) -> Option<PersonalPosition> {
    match last_position_of(positions, pool, tick_lower_index, tick_upper_index) {
        Some(position) => if position.nft_mint@ != zero_address() {
            Some(position)
        } else {
            None
        },
        None => None,
    }
}

/// A found position is one of the list and lies in the pool over the
/// range; where none is found, no position of the list does.
pub proof fn lemma_last_position_of(
    positions: Seq<PersonalPosition>,
    pool: Seq<u8>,
    tick_lower_index: i32,
    tick_upper_index: i32,
)
    ensures
        match last_position_of(positions, pool, tick_lower_index, tick_upper_index) {
            Some(position) => exists|k: int|
                0 <= k < positions.len() && positions[k] == position && is_position_of(
                    positions[k],
                    pool,
                    tick_lower_index,
                    tick_upper_index,
                ) && forall|j: int|
                    k < j < positions.len() ==> !is_position_of(
                        #[trigger] positions[j],
                        pool,
                        tick_lower_index,
                        tick_upper_index,
                    ),
            None => forall|j: int|
                0 <= j < positions.len() ==> !is_position_of(
                    #[trigger] positions[j],
                    pool,
                    tick_lower_index,
                    tick_upper_index,
                ),
        },
    decreases positions.len(),
{
    if positions.len() == 0 {
    } else if is_position_of(positions.last(), pool, tick_lower_index, tick_upper_index) {
        let k = positions.len() - 1;
        assert(positions[k] == positions.last());
    } else {
        let shorter = positions.drop_last();
        lemma_last_position_of(shorter, pool, tick_lower_index, tick_upper_index);
        match last_position_of(shorter, pool, tick_lower_index, tick_upper_index) {
            Some(position) => {
                let k = choose|k: int|
                    0 <= k < shorter.len() && shorter[k] == position && is_position_of(
                        shorter[k],
                        pool,
                        tick_lower_index,
                        tick_upper_index,
                    ) && forall|j: int|
                        k < j < shorter.len() ==> !is_position_of(
                            #[trigger] shorter[j],
                            pool,
                            tick_lower_index,
                            tick_upper_index,
                        );
                assert(positions[k] == shorter[k]);
                assert forall|j: int| k < j < positions.len() implies !is_position_of(
                    #[trigger] positions[j],
                    pool,
                    tick_lower_index,
                    tick_upper_index,
                ) by {
                    if j < shorter.len() {
                        assert(positions[j] == shorter[j]);
                    }
                }
            },
            None => {
                assert forall|j: int| 0 <= j < positions.len() implies !is_position_of(
                    #[trigger] positions[j],
                    pool,
                    tick_lower_index,
                    tick_upper_index,
                ) by {
                    if j < shorter.len() {
                        assert(positions[j] == shorter[j]);
                    }
                }
            },
        }
    }
}

/// Finds the position that a removal is about among the owner's
/// positions.
pub fn find_position(
    positions: &Vec<PersonalPosition>,
    pool: &Address,
    tick_lower_index: i32,
    tick_upper_index: i32,
) -> (found: Option<PersonalPosition>)
    ensures
        found == position_to_decrease(positions@, pool@, tick_lower_index, tick_upper_index),
{
    let mut find_position: Option<PersonalPosition> = None;
    let mut i: usize = 0;
    assert(positions@.subrange(0, 0) =~= Seq::<PersonalPosition>::empty());
    while i < positions.len()
        invariant
            i <= positions.len(),
            find_position == last_position_of(
                positions@.subrange(0, i as int),
                pool@,
                tick_lower_index,
                tick_upper_index,
            ),
        decreases positions.len() - i,
    {
        let ghost next = positions@.subrange(0, i + 1);
        assert(next.drop_last() =~= positions@.subrange(0, i as int));
        assert(next.last() == positions@[i as int]);
        let position = positions[i];
        if position.pool_id.same_as(pool) && position.tick_lower_index == tick_lower_index
            && position.tick_upper_index == tick_upper_index {
            find_position = Some(position);
        }
        i += 1;
    }
    assert(positions@.subrange(0, positions@.len() as int) =~= positions@);
    match find_position {
        Some(position) => if !position.nft_mint.is_zero() {
            Some(position)
        } else {
            None
        },
        None => None,
    }
}

/// The first token account of a list that holds the token of a mint.
pub open spec fn first_token_of(infos: Seq<PositionNftTokenInfo>, nft_mint: Seq<u8>) -> Option<
    PositionNftTokenInfo,
>
    decreases infos.len(),
{
    if infos.len() == 0 {
        None
    } else if infos[0].mint@ == nft_mint {
        Some(infos[0])
    } else {
        first_token_of(infos.subrange(1, infos.len() as int), nft_mint)
    }
}

/// Where no account before `k` holds the token, the first that does is
/// the first from `k` on.
pub proof fn lemma_first_token_skips(infos: Seq<PositionNftTokenInfo>, nft_mint: Seq<u8>, k: int)
    requires
        0 <= k <= infos.len(),
        forall|j: int| 0 <= j < k ==> infos[j].mint@ != nft_mint,
    ensures
        first_token_of(infos, nft_mint) == first_token_of(
            infos.subrange(k, infos.len() as int),
            nft_mint,
        ),
    decreases k,
{
    if k == 0 {
        assert(infos.subrange(0, infos.len() as int) =~= infos);
    } else {
        let rest = infos.subrange(1, infos.len() as int);
        assert(infos[0].mint@ != nft_mint);
        assert forall|j: int| 0 <= j < k - 1 implies rest[j].mint@ != nft_mint by {
            assert(rest[j] == infos[j + 1]);
        }
        lemma_first_token_skips(rest, nft_mint, k - 1);
        assert(rest.subrange(k - 1, rest.len() as int) =~= infos.subrange(k, infos.len() as int));
    }
}

/// Finds the token account that holds the token of a position.
pub fn position_token(infos: &Vec<PositionNftTokenInfo>, nft_mint: &Address) -> (found: Option<
    PositionNftTokenInfo,
>)
    ensures
        found == first_token_of(infos@, nft_mint@),
{
    let mut i: usize = 0;
    while i < infos.len()
        invariant
            i <= infos.len(),
            forall|j: int| 0 <= j < i ==> infos@[j].mint@ != nft_mint@,
        decreases infos.len() - i,
    {
        proof {
            lemma_first_token_skips(infos@, nft_mint@, i as int);
        }
        if infos[i].mint.same_as(nft_mint) {
            assert(infos@.subrange(i as int, infos@.len() as int)[0] == infos@[i as int]);
            return Some(infos[i]);
        }
        i += 1;
    }
    proof {
        lemma_first_token_skips(infos@, nft_mint@, infos@.len() as int);
    }
    None
}

/// How much liquidity leaves a position.
#[derive(Clone, Copy, Debug, PartialEq, Eq)]
pub struct Removal {
    /// The liquidity that is removed.
    pub liquidity: u128,
    /// The same as a change of the position's liquidity.
    pub liquidity_delta: i128,
    /// Whether nothing is left, so that the position is closed as well.
    pub closes_position: bool,
}

/// The removal of the liquidity asked for, or of all that the position
/// holds where none is named. It is refused where no signed change can
/// express it.
pub open spec fn removal_of(position_liquidity: u128, requested: Option<u128>) -> Result<
    Removal,
    ClientError,
> {
    let liquidity = match requested {
        Some(liquidity) => liquidity,
        None => position_liquidity,
    };
    if liquidity > i128::MAX {
        Err(ClientError::LiquidityTooLarge)
    } else {
        Ok(
            Removal {
                liquidity,
                liquidity_delta: (-(liquidity as int)) as i128,
                closes_position: liquidity == position_liquidity,
            },
        )
    }
}

/// Decides how much liquidity leaves a position and whether that closes
/// it.
pub fn plan_removal(position_liquidity: u128, requested: Option<u128>) -> (removal: Result<
    Removal,
    ClientError,
>)
    ensures
        removal == removal_of(position_liquidity, requested),
{
    let liquidity = match requested {
        Some(liquidity) => liquidity,
        None => position_liquidity,
    };
    if liquidity > i128::MAX as u128 {
        return Err(ClientError::LiquidityTooLarge);
    }
    let positive: i128 = liquidity as i128;
    Ok(
        Removal {
            liquidity,
            liquidity_delta: -positive,
            closes_position: liquidity == position_liquidity,
        },
    )
}

/// The least that the owner accepts of one token: what the removal
/// yields after slippage, less the transfer fee; nothing where the fee
/// exceeds it.
pub open spec fn minimum_of(amount_with_slippage: u64, transfer_fee: u64) -> Result<
    u64,
    ClientError,
> {
    if transfer_fee > amount_with_slippage {
        Err(ClientError::FeeExceedsAmount)
    } else {
        Ok((amount_with_slippage - transfer_fee) as u64)
    }
}

/// Takes the transfer fee off an amount.
pub fn minimum_amount(amount_with_slippage: u64, transfer_fee: u64) -> (minimum: Result<
    u64,
    ClientError,
>)
    ensures
        minimum == minimum_of(amount_with_slippage, transfer_fee),
{
    match amount_with_slippage.checked_sub(transfer_fee) {
        Some(minimum) => Ok(minimum),
        None => Err(ClientError::FeeExceedsAmount),
    }
}

/// The accounts that go along for the rewards of a pool: for each reward
/// that names a mint, in order, its vault, the owner's associated token
/// account for the mint, and the mint.
pub open spec fn reward_accounts_of(rewards: Seq<RewardInfo>, payer: Seq<u8>) -> Result<
    Seq<Seq<u8>>,
    ClientError,
>
    decreases rewards.len(),
{
    if rewards.len() == 0 {
        Ok(Seq::empty())
    } else {
        match reward_accounts_of(rewards.drop_last(), payer) {
            Err(e) => Err(e),
            Ok(earlier) => {
                let reward = rewards.last();
                if reward.token_mint@ == zero_address() {
                    Ok(earlier)
                } else {
                    match associated_token_of(payer, reward.token_mint@, TOKEN_PROGRAM@) {
                        None => Err(ClientError::AddressNotFound),
                        Some(account) => Ok(
                            earlier + seq![reward.token_vault@, account, reward.token_mint@],
                        ),
                    }
                }
            },
        }
    }
}

/// An error among the first `n` rewards is the error of the whole list.
pub proof fn lemma_reward_error_stays(rewards: Seq<RewardInfo>, payer: Seq<u8>, n: int)
    requires
        0 <= n <= rewards.len(),
        reward_accounts_of(rewards.subrange(0, n), payer) is Err,
    ensures
        reward_accounts_of(rewards, payer) == reward_accounts_of(rewards.subrange(0, n), payer),
    decreases rewards.len() - n,
{
    if n == rewards.len() {
        assert(rewards.subrange(0, n) =~= rewards);
    } else {
        let longer = rewards.subrange(0, n + 1);
        assert(longer.drop_last() =~= rewards.subrange(0, n));
        lemma_reward_error_stays(rewards, payer, n + 1);
    }
}

/// The byte strings of a list of addresses.
pub open spec fn addresses_view(addresses: Seq<Address>) -> Seq<Seq<u8>> {
    Seq::new(addresses.len(), |i: int| addresses[i]@)
}

/// Lists the accounts that go along for the rewards of a pool.
pub fn reward_accounts(rewards: &Vec<RewardInfo>, payer: &Address) -> (found: Result<
    Vec<Address>,
    ClientError,
>)
    ensures
        match found {
            Ok(list) => reward_accounts_of(rewards@, payer@) == Ok::<Seq<Seq<u8>>, ClientError>(
                addresses_view(list@),
            ),
            Err(e) => reward_accounts_of(rewards@, payer@) == Err::<Seq<Seq<u8>>, ClientError>(e),
        },
{
    let program = token_program();
    let mut reward_vault_with_user_vault: Vec<Address> = Vec::new();
    let mut i: usize = 0;
    assert(rewards@.subrange(0, 0) =~= Seq::<RewardInfo>::empty());
    assert(addresses_view(reward_vault_with_user_vault@) =~= Seq::<Seq<u8>>::empty());
    while i < rewards.len()
        invariant
            i <= rewards.len(),
            program@ == TOKEN_PROGRAM@,
            reward_accounts_of(rewards@.subrange(0, i as int), payer@) == Ok::<
                Seq<Seq<u8>>,
                ClientError,
            >(addresses_view(reward_vault_with_user_vault@)),
        decreases rewards.len() - i,
    {
        let ghost next = rewards@.subrange(0, i + 1);
        assert(next.drop_last() =~= rewards@.subrange(0, i as int));
        assert(next.last() == rewards@[i as int]);
        let item = rewards[i];
        if !item.token_mint.is_zero() {
            match get_associated_token_address_with_program_id(payer, &item.token_mint, &program) {
                None => {
                    proof {
                        lemma_reward_error_stays(rewards@, payer@, i + 1);
                    }
                    return Err(ClientError::AddressNotFound);
                },
                Some(account) => {
                    let ghost before = reward_vault_with_user_vault@;
                    reward_vault_with_user_vault.push(item.token_vault);
                    reward_vault_with_user_vault.push(account);
                    reward_vault_with_user_vault.push(item.token_mint);
                    assert(addresses_view(reward_vault_with_user_vault@) =~= addresses_view(before)
                        + seq![item.token_vault@, account@, item.token_mint@]);
                },
            }
        }
        i += 1;
    }
    assert(rewards@.subrange(0, rewards@.len() as int) =~= rewards@);
    Ok(reward_vault_with_user_vault)
}

/// The accounts that follow those of the instruction itself: the bitmap
/// extension of the pool and then the reward accounts, all written to and
/// none signing.
pub open spec fn remaining_accounts_of(bitmap: Seq<u8>, rewards: Seq<Seq<u8>>) -> Seq<
    (Seq<u8>, bool, bool),
> {
    seq![AccountMeta::writable(bitmap, false)] + Seq::new(
        rewards.len(),
        |i: int| AccountMeta::writable(rewards[i], false),
    )
}

/// Lists the accounts that follow those of the instruction itself.
pub fn remaining_accounts(bitmap: &Address, rewards: &Vec<Address>) -> (accounts: Vec<AccountMeta>)
    ensures
        metas_view(accounts@) == remaining_accounts_of(bitmap@, addresses_view(rewards@)),
{
    let mut accounts: Vec<AccountMeta> = Vec::new();
    accounts.push(AccountMeta { pubkey: *bitmap, is_signer: false, is_writable: true });
    let mut i: usize = 0;
    while i < rewards.len()
        invariant
            i <= rewards.len(),
            accounts@.len() == i + 1,
            accounts@[0]@ == AccountMeta::writable(bitmap@, false),
            forall|j: int| 0 <= j < i ==> (#[trigger] accounts@[j + 1])@ == AccountMeta::writable(
                rewards@[j]@,
                false,
            ),
        decreases rewards.len() - i,
    {
        accounts.push(AccountMeta { pubkey: rewards[i], is_signer: false, is_writable: true });
        i += 1;
    }
    assert(metas_view(accounts@) =~= remaining_accounts_of(bitmap@, addresses_view(rewards@))) by {
        let expected = remaining_accounts_of(bitmap@, addresses_view(rewards@));
        assert(expected.len() == rewards@.len() + 1);
        assert forall|k: int| 0 <= k < accounts@.len() implies metas_view(accounts@)[k]
            == expected[k] by {
            if k > 0 {
                assert(accounts@[(k - 1) + 1]@ == AccountMeta::writable(rewards@[k - 1]@, false));
            }
        }
    }
    accounts
}

/// What the plan reads of a pool.
#[derive(Clone, Debug, PartialEq, Eq)]
pub struct Pool {
    pub amm_config: Address,
    pub token_mint_0: Address,
    pub token_mint_1: Address,
    pub token_vault_0: Address,
    pub token_vault_1: Address,
    pub mint_decimals_0: u8,
    pub mint_decimals_1: u8,
    pub tick_spacing: u16,
    pub sqrt_price_x64: u128,
    pub tick_current: i32,
    pub reward_infos: Vec<RewardInfo>,
}

/// The instruction that removes liquidity from a position of `payer`, with
/// the accounts that go along appended.
pub open spec fn decrease_instruction_of(
    program_id: Seq<u8>,
    payer: Seq<u8>,
    pool_key: Seq<u8>,
    pool: Pool,
    position: PersonalPosition,
    nft_token: PositionNftTokenInfo,
    liquidity: u128,
    range: TickRange,
    amount_0_min: u64,
    amount_1_min: u64,
    user_token_account_0: Seq<u8>,
    user_token_account_1: Seq<u8>,
    remaining: Seq<(Seq<u8>, bool, bool)>,
) -> InstructionView {
    InstructionView {
        program_id,
        accounts: decrease_liquidity_account_list(
            program_id,
            payer,
            pool_key,
            pool.token_vault_0@,
            pool.token_vault_1@,
            pool.token_mint_0@,
            pool.token_mint_1@,
            position.nft_mint@,
            nft_token.key@,
            user_token_account_0,
            user_token_account_1,
            range.tick_lower_index as int,
            range.tick_upper_index as int,
            range.tick_array_lower_start_index as int,
            range.tick_array_upper_start_index as int,
        ) + remaining,
        data: decrease_liquidity_data(liquidity, amount_0_min, amount_1_min),
    }
}

/// The instruction that closes a position of `payer`.
pub open spec fn close_instruction_of(
    program_id: Seq<u8>,
    payer: Seq<u8>,
    position: PersonalPosition,
    nft_token: PositionNftTokenInfo,
) -> InstructionView {
    InstructionView {
        program_id,
        accounts: close_position_account_list(
            program_id,
            payer,
            position.nft_mint@,
            nft_token.key@,
            nft_token.program@,
        ),
        data: close_position_tag(),
    }
}

/// The instructions of a removal.
///
/// The bitmap extension of the pool and the reward accounts go along. The
/// owner receives the tokens in the associated token accounts under the
/// programs that own the two mints, and accepts no less than the amounts
/// after slippage less the transfer fees. Where the removal takes all the
/// liquidity, a second instruction closes the position. An address that
/// does not exist, or a fee above its amount, is an error; of several the
/// first in this order: the bitmap extension, the reward accounts, the
/// fees, the owner's accounts, the addresses of the position.
pub open spec fn decrease_instructions_of(
    program_id: Seq<u8>,
    payer: Seq<u8>,
    pool_key: Seq<u8>,
    pool: Pool,
    position: PersonalPosition,
    nft_token: PositionNftTokenInfo,
    removal: Removal,
    range: TickRange,
    amount_0_with_slippage: u64,
    amount_1_with_slippage: u64,
    fee_0: TransferFeeInfo,
    fee_1: TransferFeeInfo,
) -> Result<Seq<InstructionView>, ClientError> {
    match tick_array_bitmap_of(
        pool.amm_config@,
        pool.token_mint_0@,
        pool.token_mint_1@,
        program_id,
    ) {
        None => Err(ClientError::AddressNotFound),
        Some(bitmap) => match reward_accounts_of(pool.reward_infos@, payer) {
            Err(e) => Err(e),
            Ok(rewards) => match (
                minimum_of(amount_0_with_slippage, fee_0.transfer_fee),
                minimum_of(amount_1_with_slippage, fee_1.transfer_fee),
            ) {
                (Ok(amount_0_min), Ok(amount_1_min)) => match (
                    associated_token_of(payer, pool.token_mint_0@, fee_0.owner@),
                    associated_token_of(payer, pool.token_mint_1@, fee_1.owner@),
                ) {
                    (Some(user_0), Some(user_1)) => if decrease_liquidity_derivable(
                        program_id,
                        pool_key,
                        position.nft_mint@,
                        range.tick_lower_index as int,
                        range.tick_upper_index as int,
                        range.tick_array_lower_start_index as int,
                        range.tick_array_upper_start_index as int,
                    ) {
                        let decrease = decrease_instruction_of(
                            program_id,
                            payer,
                            pool_key,
                            pool,
                            position,
                            nft_token,
                            removal.liquidity,
                            range,
                            amount_0_min,
                            amount_1_min,
                            user_0,
                            user_1,
                            remaining_accounts_of(bitmap, rewards),
                        );
                        if removal.closes_position {
                            Ok(
                                seq![
                                    decrease,
                                    close_instruction_of(program_id, payer, position, nft_token),
                                ],
                            )
                        } else {
                            Ok(seq![decrease])
                        }
                    } else {
                        Err(ClientError::AddressNotFound)
                    },
                    _ => Err(ClientError::AddressNotFound),
                },
                _ => Err(ClientError::FeeExceedsAmount),
            },
        },
    }
}

/// Builds the instructions of a removal from the position found, the
/// token account that holds its token, the amounts that the removal yields
/// after slippage and the transfer fees on them.
pub fn decrease_liquidity_instructions(
    program_id: &Address,
    payer: &Address,
    pool_key: &Address,
    pool: &Pool,
    position: &PersonalPosition,
    nft_token: &PositionNftTokenInfo,
    removal: &Removal,
    range: &TickRange,
    amount_0_with_slippage: u64,
    amount_1_with_slippage: u64,
    transfer_fee: &(TransferFeeInfo, TransferFeeInfo),
) -> (found: Result<Vec<Instruction>, ClientError>)
    ensures
        match found {
            Ok(list) => decrease_instructions_of(
                program_id@,
                payer@,
                pool_key@,
                *pool,
                *position,
                *nft_token,
                *removal,
                *range,
                amount_0_with_slippage,
                amount_1_with_slippage,
                transfer_fee.0,
                transfer_fee.1,
            ) == Ok::<Seq<InstructionView>, ClientError>(instructions_view(list@)),
            Err(e) => decrease_instructions_of(
                program_id@,
                payer@,
                pool_key@,
                *pool,
                *position,
                *nft_token,
                *removal,
                *range,
                amount_0_with_slippage,
                amount_1_with_slippage,
                transfer_fee.0,
                transfer_fee.1,
            ) == Err::<Seq<InstructionView>, ClientError>(e),
        },
{
    let tickarray_bitmap_extension = match get_tick_array_bitmap(
        &pool.amm_config,
        &pool.token_mint_0,
        &pool.token_mint_1,
        program_id,
    ) {
        Some(address) => address,
        None => { return Err(ClientError::AddressNotFound); },
    };
    let reward_vault_with_user_vault = match reward_accounts(&pool.reward_infos, payer) {
        Ok(list) => list,
        Err(e) => { return Err(e); },
    };
    let amount_0_min = match minimum_amount(amount_0_with_slippage, transfer_fee.0.transfer_fee) {
        Ok(amount) => amount,
        Err(e) => { return Err(e); },
    };
    let amount_1_min = match minimum_amount(amount_1_with_slippage, transfer_fee.1.transfer_fee) {
        Ok(amount) => amount,
        Err(e) => { return Err(e); },
    };
    let remaining = remaining_accounts(&tickarray_bitmap_extension, &reward_vault_with_user_vault);
    let user_token_account_0 = match get_associated_token_address_with_program_id(
        payer,
        &pool.token_mint_0,
        &transfer_fee.0.owner,
    ) {
        Some(address) => address,
        None => { return Err(ClientError::AddressNotFound); },
    };
    let user_token_account_1 = match get_associated_token_address_with_program_id(
        payer,
        &pool.token_mint_1,
        &transfer_fee.1.owner,
    ) {
        Some(address) => address,
        None => { return Err(ClientError::AddressNotFound); },
    };
    let mut decrease_instr = match decrease_liquidity_instr(
        program_id,
        payer,
        pool_key,
        &pool.token_vault_0,
        &pool.token_vault_1,
        &pool.token_mint_0,
        &pool.token_mint_1,
        &position.nft_mint,
        &nft_token.key,
        &user_token_account_0,
        &user_token_account_1,
        &remaining,
        removal.liquidity,
        amount_0_min,
        amount_1_min,
        range.tick_lower_index,
        range.tick_upper_index,
        range.tick_array_lower_start_index,
        range.tick_array_upper_start_index,
    ) {
        Some(list) => list,
        None => { return Err(ClientError::AddressNotFound); },
    };
    let ghost decrease = decrease_instruction_of(
        program_id@,
        payer@,
        pool_key@,
        *pool,
        *position,
        *nft_token,
        removal.liquidity,
        *range,
        amount_0_min,
        amount_1_min,
        user_token_account_0@,
        user_token_account_1@,
        remaining_accounts_of(
            tickarray_bitmap_extension@,
            addresses_view(reward_vault_with_user_vault@),
        ),
    );
    assert(decrease_instr@[0]@ == decrease);
    if removal.closes_position {
        match close_personal_position_instr(
            program_id,
            payer,
            &position.nft_mint,
            &nft_token.key,
            &nft_token.program,
        ) {
            Some(close_position_instr) => {
                let ghost close = close_instruction_of(program_id@, payer@, *position, *nft_token);
                assert(close_position_instr@[0]@ == close);
                let mut close_position_instr = close_position_instr;
                decrease_instr.append(&mut close_position_instr);
                assert(instructions_view(decrease_instr@) =~= seq![decrease, close]);
            },
            None => {
                assert(false);
            },
        }
    } else {
        assert(instructions_view(decrease_instr@) =~= seq![decrease]);
    }
    Ok(decrease_instr)
}

} // verus!
