use clmm_client::address::{AccountMeta, Address};
use clmm_client::command::SolendSubcommands;
use clmm_client::create_pool::{pool_mints, prepare_create_pool, PoolMints};
use clmm_client::encoding::{encode_be, encode_le, i32_be_bytes, u128_le_bytes, u16_be_bytes, u64_le_bytes};
use clmm_client::error::ClientError;
use clmm_client::fee::MintAccount;
use clmm_client::path::{expand_home, PathError};
use clmm_client::range::{tick_at, MAX_SQRT_PRICE_X64};
use raydium_amm_v3::libraries::tick_math;
use solana_sdk::program_option::COption;
use solana_sdk::program_pack::Pack;
use solana_sdk::pubkey::Pubkey;
use spl_token_2022::state::Mint;
use std::str::FromStr;

fn addr(key: &Pubkey) -> Address {
    Address { bytes: key.to_bytes() }
}

fn key(n: u8) -> Pubkey {
    Pubkey::new_from_array([n; 32])
}

fn mint_data(decimals: u8) -> Vec<u8> {
    let mut data = vec![0u8; Mint::LEN];
    let mint = Mint {
        mint_authority: COption::None,
        supply: 0,
        decimals,
        is_initialized: true,
        freeze_authority: COption::None,
    };
    Mint::pack(mint, &mut data).unwrap();
    data
}

#[test]
fn encodings_agree_with_the_standard_ones() {
    assert_eq!(u16_be_bytes(0x1234), 0x1234u16.to_be_bytes().to_vec());
    assert_eq!(u16_be_bytes(0), vec![0, 0]);
    assert_eq!(u16_be_bytes(u16::MAX), vec![255, 255]);
    for n in [0i32, 1, -1, 255, -256, 443636, -443636, i32::MAX, i32::MIN] {
        assert_eq!(i32_be_bytes(n), n.to_be_bytes().to_vec());
    }
    for n in [0u64, 1, 0x0102_0304_0506_0708, u64::MAX] {
        assert_eq!(u64_le_bytes(n), n.to_le_bytes().to_vec());
    }
    for n in [0u128, 1, 1 << 100, u128::MAX] {
        assert_eq!(u128_le_bytes(n), n.to_le_bytes().to_vec());
    }
    assert_eq!(encode_le(0x010203, 2), vec![3, 2]);
    assert_eq!(encode_be(0x010203, 2), vec![2, 3]);
    assert_eq!(encode_le(7, 0), Vec::<u8>::new());
    assert_eq!(encode_be(1, 17).len(), 17);
}

#[test]
fn home_is_put_in_place_of_a_leading_tilde() {
    assert_eq!(expand_home("~/id.json", Some("/home/u")), Ok("/home/u/id.json".to_string()));
    assert_eq!(expand_home("~", Some("/home/u")), Ok("/home/u".to_string()));
    assert_eq!(expand_home("~~/a~b", Some("/h")), Ok("/h~/a~b".to_string()));
    assert_eq!(expand_home("~/ключ", Some("/дом")), Ok("/дом/ключ".to_string()));
}

#[test]
fn other_paths_stay_as_they_are() {
    assert_eq!(expand_home("/etc/id.json", Some("/home/u")), Ok("/etc/id.json".to_string()));
    assert_eq!(expand_home("a/~/b", None), Ok("a/~/b".to_string()));
    assert_eq!(expand_home("", None), Ok(String::new()));
}

#[test]
fn a_tilde_without_a_home_is_an_error() {
    assert_eq!(expand_home("~/id.json", None), Err(PathError::HomeNotSet));
}

#[test]
fn the_lending_command_names_the_main_market() {
    let expected = Pubkey::from_str("6xSkPYdpga1SgjZUemGNzDFkwbV68GSdySrP7XYShhE5").unwrap();
    assert_eq!(SolendSubcommands::Test.account(), Some(addr(&expected)));
}

#[test]
fn a_price_has_the_tick_of_the_pool_program() {
    for tick in [-443636, -100, 0, 1, 46054, 443635] {
        let price = tick_math::get_sqrt_price_at_tick(tick).unwrap();
        assert_eq!(tick_at(price), Ok(tick));
    }
    assert_eq!(tick_at(0), Err(ClientError::SqrtPriceOutOfRange));
    assert_eq!(tick_at(MAX_SQRT_PRICE_X64), Err(ClientError::SqrtPriceOutOfRange));
}

#[test]
fn mints_give_their_owners_and_decimals() {
    let m0 = MintAccount { owner: addr(&key(1)), data: mint_data(6) };
    let m1 = MintAccount { owner: addr(&key(2)), data: mint_data(9) };
    assert_eq!(
        pool_mints(&m0, &m1),
        Ok(PoolMints {
            mint0_owner: addr(&key(1)),
            mint1_owner: addr(&key(2)),
            mint0_decimals: 6,
            mint1_decimals: 9,
        })
    );
    let short = MintAccount { owner: addr(&key(2)), data: vec![0; 81] };
    let long = MintAccount { owner: addr(&key(2)), data: vec![0; 83] };
    let blank = MintAccount { owner: addr(&key(2)), data: vec![0; 82] };
    assert_eq!(pool_mints(&m0, &short), Err(ClientError::InvalidMintData));
    assert_eq!(pool_mints(&long, &m1), Err(ClientError::InvalidMintData));
    assert_eq!(pool_mints(&blank, &m1), Err(ClientError::InvalidMintData));
}

#[test]
fn pool_preparation_gives_configuration_tick_instruction_and_pool() {
    let program = key(50);
    let (payer, m0, m1, o0, o1) = (key(1), key(3), key(4), key(5), key(6));
    let cfg = Pubkey::find_program_address(&[b"amm_config", &7u16.to_be_bytes()], &program).0;
    let pool =
        Pubkey::find_program_address(&[b"pool", cfg.as_ref(), m0.as_ref(), m1.as_ref()], &program)
            .0;
    let price = tick_math::get_sqrt_price_at_tick(23027).unwrap();
    let got = prepare_create_pool(
        &addr(&program),
        &addr(&payer),
        7,
        &addr(&m0),
        &addr(&m1),
        &addr(&o0),
        &addr(&o1),
        price,
        0,
        0,
        1,
    )
    .unwrap();
    assert_eq!(got.amm_config, addr(&cfg));
    assert_eq!(got.tick, 23027);
    assert_eq!(got.pool, addr(&pool));
    assert_eq!(got.instructions.len(), 1);
    let ix = &got.instructions[0];
    assert_eq!(ix.program_id, addr(&program));
    assert_eq!(ix.accounts.len(), 14);
    assert_eq!(
        ix.accounts[0],
        AccountMeta { pubkey: addr(&payer), is_signer: true, is_writable: true }
    );
    assert_eq!(
        ix.accounts[1],
        AccountMeta { pubkey: addr(&cfg), is_signer: false, is_writable: false }
    );
    assert_eq!(
        ix.accounts[2],
        AccountMeta { pubkey: addr(&pool), is_signer: false, is_writable: true }
    );
    assert_eq!(
        ix.accounts[9],
        AccountMeta { pubkey: addr(&o0), is_signer: false, is_writable: false }
    );
    let mut data = vec![233u8, 146, 209, 142, 207, 104, 64, 188];
    data.extend_from_slice(&price.to_le_bytes());
    data.extend_from_slice(&0u64.to_le_bytes());
    data.extend_from_slice(&[0, 1]);
    assert_eq!(ix.data, data);
}

#[test]
fn pool_preparation_refuses_a_price_without_a_tick() {
    let got = prepare_create_pool(
        &addr(&key(50)),
        &addr(&key(1)),
        0,
        &addr(&key(3)),
        &addr(&key(4)),
        &addr(&key(5)),
        &addr(&key(6)),
        1,
        0,
        0,
        0,
    );
    assert_eq!(got, Err(ClientError::SqrtPriceOutOfRange));
}

#[test]
fn decimals_are_read_from_every_well_formed_mint() {
    let other = MintAccount { owner: addr(&key(2)), data: mint_data(9) };
    for decimals in [0u8, 1, 6, 9, 18, 255] {
        for (authority, freeze) in [(0u8, 0u8), (1, 0), (0, 1), (1, 1)] {
            let mut data = mint_data(decimals);
            data[0] = authority;
            data[46] = freeze;
            let account = MintAccount { owner: addr(&key(1)), data };
            assert_eq!(pool_mints(&account, &other).map(|m| m.mint0_decimals), Ok(decimals));
        }
    }
}

#[test]
fn malformed_mints_are_refused() {
    let other = MintAccount { owner: addr(&key(2)), data: mint_data(9) };
    let spoiled =
        [(0usize, 2u8), (1, 1), (2, 1), (3, 1), (45, 0), (45, 2), (46, 2), (47, 1), (48, 1), (49, 1)];
    for (index, value) in spoiled {
        let mut data = mint_data(6);
        data[index] = value;
        let account = MintAccount { owner: addr(&key(1)), data };
        assert_eq!(pool_mints(&account, &other), Err(ClientError::InvalidMintData), "byte {}", index);
        assert_eq!(pool_mints(&other, &account), Err(ClientError::InvalidMintData), "byte {}", index);
    }
    for index in [4usize, 35, 36, 43, 50, 81] {
        let mut data = mint_data(6);
        data[index] = 0xee;
        let account = MintAccount { owner: addr(&key(1)), data };
        assert_eq!(pool_mints(&account, &other).map(|m| m.mint0_decimals), Ok(6), "byte {}", index);
    }
}
