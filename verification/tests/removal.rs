use anchor_lang::AccountSerialize;
use clmm_client::address::{AccountMeta, Address, Instruction};
use clmm_client::error::ClientError;
use clmm_client::fee::TransferFeeInfo;
use clmm_client::position::PositionNftTokenInfo;
use clmm_client::range::TickRange;
use clmm_client::removal::{
    decrease_liquidity_instructions, find_position, minimum_amount, plan_removal,
    position_token, remaining_accounts, reward_accounts, user_positions, PersonalPosition, Pool,
    Removal, RewardInfo, PERSONAL_POSITION_LEN,
};
use raydium_amm_v3::states::PersonalPositionState;
use solana_sdk::pubkey::Pubkey;

fn addr(key: &Pubkey) -> Address {
    Address { bytes: key.to_bytes() }
}

fn key(n: u8) -> Pubkey {
    Pubkey::new_from_array([n; 32])
}

fn a(n: u8) -> Address {
    addr(&key(n))
}

fn w(key: Pubkey, is_signer: bool) -> AccountMeta {
    AccountMeta { pubkey: addr(&key), is_signer, is_writable: true }
}

fn r(key: Pubkey, is_signer: bool) -> AccountMeta {
    AccountMeta { pubkey: addr(&key), is_signer, is_writable: false }
}

fn pda(seeds: &[&[u8]], program: &Pubkey) -> Pubkey {
    Pubkey::find_program_address(seeds, program).0
}

fn position(nft_mint: u8, pool: u8, lower: i32, upper: i32, liquidity: u128) -> PersonalPosition {
    PersonalPosition {
        nft_mint: a(nft_mint),
        pool_id: a(pool),
        tick_lower_index: lower,
        tick_upper_index: upper,
        liquidity,
    }
}

fn position_data(p: &PersonalPosition) -> Vec<u8> {
    let state = PersonalPositionState {
        bump: 254,
        nft_mint: Pubkey::new_from_array(p.nft_mint.bytes),
        pool_id: Pubkey::new_from_array(p.pool_id.bytes),
        tick_lower_index: p.tick_lower_index,
        tick_upper_index: p.tick_upper_index,
        liquidity: p.liquidity,
        fee_growth_inside_0_last_x64: 5,
        ..Default::default()
    };
    let mut data = Vec::new();
    state.try_serialize(&mut data).unwrap();
    data
}

#[test]
fn positions_are_read_from_their_accounts() {
    let first = position(1, 9, -120, 240, 1 << 90);
    let second = position(2, 9, i32::MIN, i32::MAX, u128::MAX);
    let accounts = vec![Some(position_data(&first)), None, Some(position_data(&second)), None];
    assert_eq!(user_positions(&accounts), Ok(vec![first, second]));
    assert_eq!(user_positions(&vec![]), Ok(vec![]));
    assert_eq!(user_positions(&vec![None, None]), Ok(vec![]));
}

#[test]
fn accounts_that_hold_no_position_are_errors() {
    let first = position(1, 9, -120, 240, 7);
    let mut wrong_kind = position_data(&first);
    wrong_kind[0] ^= 0xff;
    assert_eq!(
        user_positions(&vec![Some(position_data(&first)), Some(wrong_kind)]),
        Err(ClientError::InvalidPositionData)
    );
    assert_eq!(user_positions(&vec![Some(vec![1, 2, 3])]), Err(ClientError::InvalidPositionData));
    let mut truncated = position_data(&first);
    truncated.truncate(40);
    assert_eq!(
        user_positions(&vec![None, Some(truncated), Some(position_data(&first))]),
        Err(ClientError::InvalidPositionData)
    );
}

#[test]
fn the_last_matching_position_is_found() {
    let positions = vec![
        position(1, 9, -120, 240, 10),
        position(2, 8, -120, 240, 20),
        position(3, 9, -120, 240, 30),
        position(4, 9, -120, 300, 40),
        position(5, 9, -180, 240, 50),
    ];
    assert_eq!(find_position(&positions, &a(9), -120, 240), Some(positions[2]));
    assert_eq!(find_position(&positions, &a(8), -120, 240), Some(positions[1]));
    assert_eq!(find_position(&positions, &a(9), -180, 240), Some(positions[4]));
    assert_eq!(find_position(&positions, &a(7), -120, 240), None);
    assert_eq!(find_position(&positions, &a(9), -120, 241), None);
    assert_eq!(find_position(&vec![], &a(9), -120, 240), None);
}

#[test]
fn a_position_without_a_token_does_not_count() {
    let positions = vec![position(1, 9, -120, 240, 10), position(0, 9, -120, 240, 20)];
    assert_eq!(find_position(&positions, &a(9), -120, 240), None);
}

fn token(account: u8, mint: u8) -> PositionNftTokenInfo {
    PositionNftTokenInfo {
        key: a(account),
        program: a(70),
        position: a(account + 100),
        mint: a(mint),
        amount: 1,
        decimals: 0,
    }
}

#[test]
fn the_first_token_account_of_the_mint_is_found() {
    let infos = vec![token(1, 11), token(2, 12), token(3, 12)];
    assert_eq!(position_token(&infos, &a(12)), Some(token(2, 12)));
    assert_eq!(position_token(&infos, &a(11)), Some(token(1, 11)));
    assert_eq!(position_token(&infos, &a(13)), None);
    assert_eq!(position_token(&vec![], &a(13)), None);
}

#[test]
fn removal_defaults_to_all_the_liquidity() {
    assert_eq!(
        plan_removal(500, None),
        Ok(Removal { liquidity: 500, liquidity_delta: -500, closes_position: true })
    );
    assert_eq!(
        plan_removal(500, Some(10)),
        Ok(Removal { liquidity: 10, liquidity_delta: -10, closes_position: false })
    );
    assert_eq!(
        plan_removal(500, Some(500)),
        Ok(Removal { liquidity: 500, liquidity_delta: -500, closes_position: true })
    );
    assert_eq!(
        plan_removal(0, None),
        Ok(Removal { liquidity: 0, liquidity_delta: 0, closes_position: true })
    );
}

#[test]
fn removal_beyond_a_signed_change_is_refused() {
    let most = i128::MAX as u128;
    assert_eq!(
        plan_removal(most, None),
        Ok(Removal { liquidity: most, liquidity_delta: -i128::MAX, closes_position: true })
    );
    assert_eq!(plan_removal(most + 1, None), Err(ClientError::LiquidityTooLarge));
    assert_eq!(plan_removal(5, Some(u128::MAX)), Err(ClientError::LiquidityTooLarge));
}

#[test]
fn minimum_is_the_amount_less_the_fee() {
    assert_eq!(minimum_amount(100, 30), Ok(70));
    assert_eq!(minimum_amount(100, 100), Ok(0));
    assert_eq!(minimum_amount(100, 101), Err(ClientError::FeeExceedsAmount));
    assert_eq!(minimum_amount(0, 0), Ok(0));
}

fn rewards() -> Vec<RewardInfo> {
    vec![
        RewardInfo { token_mint: a(21), token_vault: a(31) },
        RewardInfo { token_mint: a(0), token_vault: a(32) },
        RewardInfo { token_mint: a(23), token_vault: a(33) },
    ]
}

#[test]
fn rewards_bring_vault_owner_account_and_mint() {
    let payer = key(1);
    let ata21 = spl_associated_token_account::get_associated_token_address(&payer, &key(21));
    let ata23 = spl_associated_token_account::get_associated_token_address(&payer, &key(23));
    assert_eq!(
        reward_accounts(&rewards(), &addr(&payer)),
        Ok(vec![a(31), addr(&ata21), a(21), a(33), addr(&ata23), a(23)])
    );
    assert_eq!(reward_accounts(&vec![], &addr(&payer)), Ok(vec![]));
    let unset = vec![RewardInfo { token_mint: a(0), token_vault: a(32) }; 3];
    assert_eq!(reward_accounts(&unset, &addr(&payer)), Ok(vec![]));
}

#[test]
fn remaining_accounts_start_with_the_bitmap() {
    assert_eq!(
        remaining_accounts(&a(5), &vec![a(6), a(7)]),
        vec![w(key(5), false), w(key(6), false), w(key(7), false)]
    );
    assert_eq!(remaining_accounts(&a(5), &vec![]), vec![w(key(5), false)]);
}

fn pool() -> Pool {
    Pool {
        amm_config: a(40),
        token_mint_0: a(41),
        token_mint_1: a(42),
        token_vault_0: a(43),
        token_vault_1: a(44),
        mint_decimals_0: 6,
        mint_decimals_1: 9,
        tick_spacing: 10,
        sqrt_price_x64: 1 << 64,
        tick_current: 0,
        reward_infos: rewards(),
    }
}

fn range() -> TickRange {
    TickRange {
        tick_lower_index: -120,
        tick_upper_index: 240,
        tick_array_lower_start_index: -600,
        tick_array_upper_start_index: 0,
    }
}

fn fees(fee_0: u64, fee_1: u64) -> (TransferFeeInfo, TransferFeeInfo) {
    (
        TransferFeeInfo { mint: a(41), owner: addr(&spl_token::id()), transfer_fee: fee_0 },
        TransferFeeInfo { mint: a(42), owner: addr(&spl_token_2022::id()), transfer_fee: fee_1 },
    )
}

fn expected_decrease(program: &Pubkey, liquidity: u128, min_0: u64, min_1: u64) -> Instruction {
    let payer = key(1);
    let pool_key = key(9);
    let personal = pda(&[b"position", key(11).as_ref()], program);
    let protocol = pda(
        &[b"position", pool_key.as_ref(), &(-120i32).to_be_bytes(), &240i32.to_be_bytes()],
        program,
    );
    let lower = pda(&[b"tick_array", pool_key.as_ref(), &(-600i32).to_be_bytes()], program);
    let upper = pda(&[b"tick_array", pool_key.as_ref(), &0i32.to_be_bytes()], program);
    let pool_of_mints =
        pda(&[b"pool", key(40).as_ref(), key(41).as_ref(), key(42).as_ref()], program);
    let bitmap =
        pda(&[b"pool_tick_array_bitmap_extension", pool_of_mints.as_ref()], program);
    let user_0 = spl_associated_token_account::get_associated_token_address_with_program_id(
        &payer,
        &key(41),
        &spl_token::id(),
    );
    let user_1 = spl_associated_token_account::get_associated_token_address_with_program_id(
        &payer,
        &key(42),
        &spl_token_2022::id(),
    );
    let ata21 = spl_associated_token_account::get_associated_token_address(&payer, &key(21));
    let ata23 = spl_associated_token_account::get_associated_token_address(&payer, &key(23));
    let mut data = vec![58u8, 127, 188, 62, 79, 82, 196, 96];
    data.extend_from_slice(&liquidity.to_le_bytes());
    data.extend_from_slice(&min_0.to_le_bytes());
    data.extend_from_slice(&min_1.to_le_bytes());
    Instruction {
        program_id: addr(program),
        accounts: vec![
            r(payer, true),
            r(key(2), false),
            w(personal, false),
            w(pool_key, false),
            w(protocol, false),
            w(key(43), false),
            w(key(44), false),
            w(lower, false),
            w(upper, false),
            w(user_0, false),
            w(user_1, false),
            r(spl_token::id(), false),
            r(spl_token_2022::id(), false),
            r(spl_memo::id(), false),
            r(key(41), false),
            r(key(42), false),
            w(bitmap, false),
            w(key(31), false),
            w(ata21, false),
            w(key(21), false),
            w(key(33), false),
            w(ata23, false),
            w(key(23), false),
        ],
        data,
    }
}

fn expected_close(program: &Pubkey) -> Instruction {
    let personal = pda(&[b"position", key(11).as_ref()], program);
    Instruction {
        program_id: addr(program),
        accounts: vec![
            w(key(1), true),
            w(key(11), false),
            w(key(2), false),
            w(personal, false),
            r(solana_sdk::system_program::id(), false),
            r(key(70), false),
        ],
        data: vec![123u8, 134, 81, 0, 49, 68, 98, 98],
    }
}

#[test]
fn partial_removal_is_one_instruction() {
    let program = key(50);
    let removal = Removal { liquidity: 10, liquidity_delta: -10, closes_position: false };
    let got = decrease_liquidity_instructions(
        &addr(&program),
        &a(1),
        &a(9),
        &pool(),
        &position(11, 9, -120, 240, 500),
        &token(2, 11),
        &removal,
        &range(),
        1000,
        2000,
        &fees(10, 25),
    );
    assert_eq!(got, Ok(vec![expected_decrease(&program, 10, 990, 1975)]));
}

#[test]
fn full_removal_closes_the_position_too() {
    let program = key(50);
    let removal = Removal { liquidity: 500, liquidity_delta: -500, closes_position: true };
    let got = decrease_liquidity_instructions(
        &addr(&program),
        &a(1),
        &a(9),
        &pool(),
        &position(11, 9, -120, 240, 500),
        &token(2, 11),
        &removal,
        &range(),
        1000,
        2000,
        &fees(0, 0),
    );
    assert_eq!(
        got,
        Ok(vec![expected_decrease(&program, 500, 1000, 2000), expected_close(&program)])
    );
}

#[test]
fn a_fee_above_its_amount_stops_the_removal() {
    let program = key(50);
    let removal = Removal { liquidity: 10, liquidity_delta: -10, closes_position: false };
    for (fee_0, fee_1) in [(1001, 0), (0, 2001), (u64::MAX, u64::MAX)] {
        let got = decrease_liquidity_instructions(
            &addr(&program),
            &a(1),
            &a(9),
            &pool(),
            &position(11, 9, -120, 240, 500),
            &token(2, 11),
            &removal,
            &range(),
            1000,
            2000,
            &fees(fee_0, fee_1),
        );
        assert_eq!(got, Err(ClientError::FeeExceedsAmount));
    }
}

#[test]
fn a_position_account_has_its_length_and_tag() {
    let data = position_data(&position(1, 9, -120, 240, 7));
    assert_eq!(data.len(), PERSONAL_POSITION_LEN);
    assert_eq!(&data[..8], &[70u8, 111, 150, 126, 230, 15, 25, 117]);
}

#[test]
fn a_position_is_read_from_its_place_in_the_data() {
    let mut data = vec![0u8; PERSONAL_POSITION_LEN];
    data[..8].copy_from_slice(&[70, 111, 150, 126, 230, 15, 25, 117]);
    data[8] = 77;
    for i in 0..32 {
        data[9 + i] = 100 + i as u8;
        data[41 + i] = 200u8.wrapping_add(i as u8);
    }
    data[73..77].copy_from_slice(&(-443636i32).to_le_bytes());
    data[77..81].copy_from_slice(&(443636i32).to_le_bytes());
    data[81..97].copy_from_slice(&0x0102_0304_0506_0708_090a_0b0c_0d0e_0f10u128.to_le_bytes());
    for byte in data[97..].iter_mut() {
        *byte = 0xab;
    }
    let mut nft_mint = [0u8; 32];
    let mut pool_id = [0u8; 32];
    for i in 0..32 {
        nft_mint[i] = 100 + i as u8;
        pool_id[i] = 200u8.wrapping_add(i as u8);
    }
    let expected = PersonalPosition {
        nft_mint: Address { bytes: nft_mint },
        pool_id: Address { bytes: pool_id },
        tick_lower_index: -443636,
        tick_upper_index: 443636,
        liquidity: 0x0102_0304_0506_0708_090a_0b0c_0d0e_0f10,
    };
    assert_eq!(user_positions(&vec![Some(data.clone())]), Ok(vec![expected]));
    let mut longer = data.clone();
    longer.extend_from_slice(&[1, 2, 3]);
    assert_eq!(user_positions(&vec![Some(longer)]), Ok(vec![expected]));
    let mut shorter = data.clone();
    shorter.pop();
    assert_eq!(user_positions(&vec![Some(shorter)]), Err(ClientError::InvalidPositionData));
    for index in 0..8 {
        let mut other = data.clone();
        other[index] ^= 1;
        assert_eq!(user_positions(&vec![Some(other)]), Err(ClientError::InvalidPositionData));
    }
    assert_eq!(user_positions(&vec![Some(vec![])]), Err(ClientError::InvalidPositionData));
}
