use std::str::FromStr;

use clmm_client::address::Address;
use clmm_client::pda::{
    amm_config_address, find_address, get_tick_array_bitmap, observation_address,
    personal_position_address, pool_address, pool_vault_address, protocol_position_address,
    tick_array_address, tick_array_bitmap_address,
};
use clmm_client::programs::{
    associated_token_program, instructions_sysvar, memo_program, rent_sysvar, system_program,
    token_2022_program, token_program,
};
use solana_sdk::pubkey::Pubkey;

fn addr(key: &Pubkey) -> Address {
    Address { bytes: key.to_bytes() }
}

fn sample(n: u8) -> Pubkey {
    Pubkey::new_from_array([n; 32])
}

fn program() -> Pubkey {
    Pubkey::from_str("CAMMCzo5YL8w4VFF8KVHrK22GGUsp5VTaW7grrKgrWqK").unwrap()
}

#[test]
fn well_known_programs_match_their_crates() {
    assert_eq!(token_program(), addr(&spl_token::id()));
    assert_eq!(token_2022_program(), addr(&spl_token_2022::id()));
    assert_eq!(memo_program(), addr(&spl_memo::id()));
    assert_eq!(system_program(), addr(&solana_sdk::system_program::id()));
    assert_eq!(rent_sysvar(), addr(&solana_sdk::sysvar::rent::id()));
    assert_eq!(instructions_sysvar(), addr(&solana_sdk::sysvar::instructions::id()));
    assert_eq!(associated_token_program(), addr(&spl_associated_token_account::id()));
}

#[test]
fn find_address_agrees_with_the_sdk() {
    let seeds = vec![b"hello".to_vec(), vec![1, 2, 3]];
    let expected = Pubkey::find_program_address(&[b"hello", &[1, 2, 3]], &program()).0;
    assert_eq!(find_address(&seeds, &addr(&program())), Some(addr(&expected)));
    assert_ne!(find_address(&seeds, &addr(&program())), Some(addr(&program())));
}

#[test]
fn find_address_gives_up_on_too_many_or_too_long_seeds() {
    let many: Vec<Vec<u8>> = (0..16).map(|i| vec![i as u8]).collect();
    assert_eq!(find_address(&many, &addr(&program())), None);
    let long = vec![vec![7u8; 33]];
    assert_eq!(find_address(&long, &addr(&program())), None);
}

#[test]
fn amm_config_seeds_are_the_text_and_the_big_endian_index() {
    let expected = Pubkey::find_program_address(
        &[raydium_amm_v3::states::AMM_CONFIG_SEED.as_bytes(), &258u16.to_be_bytes()],
        &program(),
    )
    .0;
    assert_eq!(amm_config_address(&addr(&program()), 258), Some(addr(&expected)));
}

#[test]
fn pool_and_its_accounts_use_the_program_seeds() {
    let p = program();
    let (cfg, m0, m1) = (sample(1), sample(2), sample(3));
    let pool = Pubkey::find_program_address(
        &[
            raydium_amm_v3::states::POOL_SEED.as_bytes(),
            cfg.as_ref(),
            m0.as_ref(),
            m1.as_ref(),
        ],
        &p,
    )
    .0;
    assert_eq!(pool_address(&addr(&p), &addr(&cfg), &addr(&m0), &addr(&m1)), Some(addr(&pool)));
    let vault = Pubkey::find_program_address(
        &[raydium_amm_v3::states::POOL_VAULT_SEED.as_bytes(), pool.as_ref(), m0.as_ref()],
        &p,
    )
    .0;
    assert_eq!(pool_vault_address(&addr(&p), &addr(&pool), &addr(&m0)), Some(addr(&vault)));
    let observation = Pubkey::find_program_address(
        &[raydium_amm_v3::states::OBSERVATION_SEED.as_bytes(), pool.as_ref()],
        &p,
    )
    .0;
    assert_eq!(observation_address(&addr(&p), &addr(&pool)), Some(addr(&observation)));
    let bitmap = Pubkey::find_program_address(
        &[raydium_amm_v3::states::POOL_TICK_ARRAY_BITMAP_SEED.as_bytes(), pool.as_ref()],
        &p,
    )
    .0;
    assert_eq!(tick_array_bitmap_address(&addr(&p), &addr(&pool)), Some(addr(&bitmap)));
    assert_eq!(
        get_tick_array_bitmap(&addr(&cfg), &addr(&m0), &addr(&m1), &addr(&p)),
        Some(addr(&bitmap))
    );
}

#[test]
fn positions_and_tick_arrays_encode_ticks_big_endian() {
    let p = program();
    let pool = sample(9);
    let mint = sample(4);
    let personal = Pubkey::find_program_address(
        &[raydium_amm_v3::states::POSITION_SEED.as_bytes(), mint.as_ref()],
        &p,
    )
    .0;
    assert_eq!(personal_position_address(&addr(&p), &addr(&mint)), Some(addr(&personal)));
    let protocol = Pubkey::find_program_address(
        &[
            raydium_amm_v3::states::POSITION_SEED.as_bytes(),
            pool.as_ref(),
            &(-120i32).to_be_bytes(),
            &(443580i32).to_be_bytes(),
        ],
        &p,
    )
    .0;
    assert_eq!(
        protocol_position_address(&addr(&p), &addr(&pool), -120, 443580),
        Some(addr(&protocol))
    );
    for start in [-443640i32, -600, 0, 600, i32::MIN, i32::MAX] {
        let array = Pubkey::find_program_address(
            &[
                raydium_amm_v3::states::TICK_ARRAY_SEED.as_bytes(),
                pool.as_ref(),
                &start.to_be_bytes(),
            ],
            &p,
        )
        .0;
        assert_eq!(tick_array_address(&addr(&p), &addr(&pool), start), Some(addr(&array)));
    }
}
