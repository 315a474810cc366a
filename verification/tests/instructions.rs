use clmm_client::address::{AccountMeta, Address, Instruction};
use clmm_client::create_mint::{create_and_init_mint_instr, MINT_LEN};
use clmm_client::create_pool::{create_pool_instr, order_mints};
use clmm_client::create_token_account::create_ata_token_account_instr;
use clmm_client::decrease_liquidity::{close_personal_position_instr, decrease_liquidity_instr};
use clmm_client::mint_to::spl_token_mint_to_instr;
use clmm_client::pda::get_associated_token_address_with_program_id;
use solana_sdk::program_pack::Pack;
use solana_sdk::pubkey::Pubkey;

fn addr(key: &Pubkey) -> Address {
    Address { bytes: key.to_bytes() }
}

fn key(n: u8) -> Pubkey {
    Pubkey::new_from_array([n; 32])
}

fn a(n: u8) -> Address {
    addr(&key(n))
}

fn w(key: Pubkey, is_signer: bool) -> AccountMeta {
    AccountMeta { pubkey: addr(&key), is_signer, is_writable: true }
}

fn r(key: Pubkey, is_signer: bool) -> AccountMeta {
    AccountMeta { pubkey: addr(&key), is_signer, is_writable: false }
}

fn pda(seeds: &[&[u8]], program: &Pubkey) -> Pubkey {
    Pubkey::find_program_address(seeds, program).0
}

#[test]
fn mint_length_is_that_of_the_token_program() {
    assert_eq!(MINT_LEN as usize, spl_token_2022::state::Mint::LEN);
}

#[test]
fn create_mint_is_create_account_then_initialize() {
    let got = create_and_init_mint_instr(&a(1), &a(2), &a(3), 6, 1_461_600);
    let mut create_data = vec![0u8, 0, 0, 0];
    create_data.extend_from_slice(&1_461_600u64.to_le_bytes());
    create_data.extend_from_slice(&82u64.to_le_bytes());
    create_data.extend_from_slice(&spl_token_2022::id().to_bytes());
    let mut init_data = vec![0u8, 6];
    init_data.extend_from_slice(&[3u8; 32]);
    init_data.push(0);
    let expected = vec![
        Instruction {
            program_id: addr(&solana_sdk::system_program::id()),
            accounts: vec![w(key(1), true), w(key(2), true)],
            data: create_data,
        },
        Instruction {
            program_id: addr(&spl_token_2022::id()),
            accounts: vec![w(key(2), false), r(solana_sdk::sysvar::rent::id(), false)],
            data: init_data,
        },
    ];
    assert_eq!(got, expected);
}

#[test]
fn mint_to_names_mint_account_and_signing_authority() {
    let got = spl_token_mint_to_instr(&a(1), &a(2), 1000, &a(3));
    let mut data = vec![7u8];
    data.extend_from_slice(&1000u64.to_le_bytes());
    let expected = vec![Instruction {
        program_id: addr(&spl_token_2022::id()),
        accounts: vec![w(key(1), false), w(key(2), false), r(key(3), true)],
        data,
    }];
    assert_eq!(got, expected);
}

#[test]
fn mint_to_encodes_the_largest_amount() {
    let got = spl_token_mint_to_instr(&a(1), &a(2), u64::MAX, &a(3));
    assert_eq!(got[0].data, vec![7u8, 255, 255, 255, 255, 255, 255, 255, 255]);
}

#[test]
fn associated_token_address_is_that_of_the_program_crate() {
    let expected = spl_associated_token_account::get_associated_token_address_with_program_id(
        &key(5),
        &key(6),
        &spl_token_2022::id(),
    );
    assert_eq!(
        get_associated_token_address_with_program_id(&a(5), &a(6), &addr(&spl_token_2022::id())),
        Some(addr(&expected))
    );
    let legacy = spl_associated_token_account::get_associated_token_address(&key(5), &key(6));
    assert_eq!(
        get_associated_token_address_with_program_id(&a(5), &a(6), &addr(&spl_token::id())),
        Some(addr(&legacy))
    );
}

#[test]
fn create_token_account_names_the_associated_account() {
    let (payer, mint, owner) = (key(1), key(2), key(3));
    let ata = spl_associated_token_account::get_associated_token_address_with_program_id(
        &owner,
        &mint,
        &spl_token_2022::id(),
    );
    let got = create_ata_token_account_instr(&addr(&payer), &addr(&mint), &addr(&owner));
    let expected = vec![Instruction {
        program_id: addr(&spl_associated_token_account::id()),
        accounts: vec![
            w(payer, true),
            w(ata, false),
            r(owner, false),
            r(mint, false),
            r(solana_sdk::system_program::id(), false),
            r(spl_token_2022::id(), false),
        ],
        data: vec![0],
    }];
    assert_eq!(got, Some(expected));
}

#[test]
fn order_mints_puts_the_lower_address_first() {
    assert_eq!(order_mints(a(2), a(1)), (a(1), a(2), true));
    assert_eq!(order_mints(a(1), a(2)), (a(1), a(2), false));
    assert_eq!(order_mints(a(1), a(1)), (a(1), a(1), false));
    let mut low = [9u8; 32];
    low[31] = 8;
    let low = Address { bytes: low };
    assert_eq!(order_mints(a(9), low), (low, a(9), true));
    assert_eq!(key(9) > Pubkey::new_from_array(low.bytes), true);
}

#[test]
fn create_pool_lists_the_accounts_in_program_order() {
    let program = key(50);
    let (payer, cfg, m0, m1, tp0, tp1) = (key(1), key(2), key(3), key(4), key(5), key(6));
    let pool = pda(&[b"pool", cfg.as_ref(), m0.as_ref(), m1.as_ref()], &program);
    let vault0 = pda(&[b"pool_vault", pool.as_ref(), m0.as_ref()], &program);
    let vault1 = pda(&[b"pool_vault", pool.as_ref(), m1.as_ref()], &program);
    let observation = pda(&[b"observation", pool.as_ref()], &program);
    let bitmap = pda(&[b"pool_tick_array_bitmap_extension", pool.as_ref()], &program);
    let got = create_pool_instr(
        &addr(&program),
        &addr(&payer),
        &addr(&cfg),
        &addr(&m0),
        &addr(&m1),
        &addr(&tp0),
        &addr(&tp1),
        0x0102_0304_0506_0708_090a_0b0c_0d0e_0f10,
        77,
        3,
        4,
    );
    let mut data = vec![233u8, 146, 209, 142, 207, 104, 64, 188];
    data.extend_from_slice(&0x0102_0304_0506_0708_090a_0b0c_0d0e_0f10u128.to_le_bytes());
    data.extend_from_slice(&77u64.to_le_bytes());
    data.push(3);
    data.push(4);
    let expected = vec![Instruction {
        program_id: addr(&program),
        accounts: vec![
            w(payer, true),
            r(cfg, false),
            w(pool, false),
            r(m0, false),
            r(m1, false),
            w(vault0, false),
            w(vault1, false),
            w(observation, false),
            w(bitmap, false),
            r(tp0, false),
            r(tp1, false),
            r(solana_sdk::system_program::id(), false),
            r(solana_sdk::sysvar::rent::id(), false),
            r(solana_sdk::sysvar::instructions::id(), false),
        ],
        data,
    }];
    assert_eq!(got, Some(expected));
}

#[test]
fn decrease_liquidity_lists_accounts_then_remaining_accounts() {
    let program = key(50);
    let (payer, pool, v0, v1, m0, m1, nft_mint, nft_token, u0, u1) =
        (key(1), key(2), key(3), key(4), key(5), key(6), key(7), key(8), key(9), key(10));
    let personal = pda(&[b"position", nft_mint.as_ref()], &program);
    let protocol = pda(
        &[b"position", pool.as_ref(), &(-120i32).to_be_bytes(), &240i32.to_be_bytes()],
        &program,
    );
    let lower = pda(&[b"tick_array", pool.as_ref(), &(-600i32).to_be_bytes()], &program);
    let upper = pda(&[b"tick_array", pool.as_ref(), &0i32.to_be_bytes()], &program);
    let remaining = vec![w(key(20), false), w(key(21), false)];
    let got = decrease_liquidity_instr(
        &addr(&program),
        &addr(&payer),
        &addr(&pool),
        &addr(&v0),
        &addr(&v1),
        &addr(&m0),
        &addr(&m1),
        &addr(&nft_mint),
        &addr(&nft_token),
        &addr(&u0),
        &addr(&u1),
        &remaining,
        1u128 << 100,
        11,
        12,
        -120,
        240,
        -600,
        0,
    );
    let mut data = vec![58u8, 127, 188, 62, 79, 82, 196, 96];
    data.extend_from_slice(&(1u128 << 100).to_le_bytes());
    data.extend_from_slice(&11u64.to_le_bytes());
    data.extend_from_slice(&12u64.to_le_bytes());
    let expected = vec![Instruction {
        program_id: addr(&program),
        accounts: vec![
            r(payer, true),
            r(nft_token, false),
            w(personal, false),
            w(pool, false),
            w(protocol, false),
            w(v0, false),
            w(v1, false),
            w(lower, false),
            w(upper, false),
            w(u0, false),
            w(u1, false),
            r(spl_token::id(), false),
            r(spl_token_2022::id(), false),
            r(spl_memo::id(), false),
            r(m0, false),
            r(m1, false),
            w(key(20), false),
            w(key(21), false),
        ],
        data,
    }];
    assert_eq!(got, Some(expected));
}

#[test]
fn close_position_lists_owner_token_and_position() {
    let program = key(50);
    let (payer, nft_mint, nft_token, token_program) = (key(1), key(7), key(8), key(9));
    let personal = pda(&[b"position", nft_mint.as_ref()], &program);
    let got = close_personal_position_instr(
        &addr(&program),
        &addr(&payer),
        &addr(&nft_mint),
        &addr(&nft_token),
        &addr(&token_program),
    );
    let expected = vec![Instruction {
        program_id: addr(&program),
        accounts: vec![
            w(payer, true),
            w(nft_mint, false),
            w(nft_token, false),
            w(personal, false),
            r(solana_sdk::system_program::id(), false),
            r(token_program, false),
        ],
        data: vec![123u8, 134, 81, 0, 49, 68, 98, 98],
    }];
    assert_eq!(got, Some(expected));
}
