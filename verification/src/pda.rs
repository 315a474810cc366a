//! Program-derived addresses: the seeds of each account the pool program
//! owns, and the derivation itself.

use vstd::prelude::*;
use vstd::slice::slice_to_vec;
use vstd::string::StringSliceAdditionalSpecFns;
use crate::address::Address;
use crate::encoding::{be_bytes, i32_be_bytes, twos_complement_32, u16_be_bytes};
use crate::programs::{associated_token_program, ASSOCIATED_TOKEN_PROGRAM};

verus! {

/// The address and bump seed that a program derives from a list of seeds,
/// or `None` where no bump seed yields an address off the curve.
pub uninterp spec fn program_address(seeds: Seq<Seq<u8>>, program_id: Seq<u8>) -> Option<
    (Seq<u8>, u8),
>;

/// The address part of [`program_address`].
pub open spec fn derived_address(seeds: Seq<Seq<u8>>, program_id: Seq<u8>) -> Option<Seq<u8>> {
    match program_address(seeds, program_id) {
        Some((address, _)) => Some(address),
        None => None,
    }
}

/// The byte strings that a list of seeds holds.
pub open spec fn seeds_view(seeds: Seq<Vec<u8>>) -> Seq<Seq<u8>> {
    Seq::new(seeds.len(), |i: int| seeds[i]@)
}

/// The bytes of a textual seed.
pub open spec fn text(s: &str) -> Seq<u8> {
    s.spec_bytes()
}

/// Whether an optional address holds exactly the given bytes, or both are
/// absent.
pub open spec fn is_address(found: Option<Address>, expected: Option<Seq<u8>>) -> bool {
    match found {
        Some(address) => expected == Some(address@),
        None => expected is None,
    }
}

/// Calls `Pubkey::try_find_program_address` of `solana_sdk`. The result is
/// the named derivation of the seeds and the program; the search gives up
/// at once where there are more than 15 seeds or a seed is longer than 32
/// bytes.
#[verifier::external_body]
fn try_find_program_address(seeds: &Vec<Vec<u8>>, program_id: &Address) -> (found: Option<
    (Address, u8),
>)
    ensures
        match found {
            Some((address, bump)) => program_address(seeds_view(seeds@), program_id@) == Some(
                (address@, bump),
            ),
            None => program_address(seeds_view(seeds@), program_id@) is None,
        },
        seeds@.len() > 15 ==> found is None,
        (exists|i: int| 0 <= i < seeds@.len() && seeds@[i]@.len() > 32) ==> found is None,
{
    let parts: Vec<&[u8]> = seeds.iter().map(|seed| seed.as_slice()).collect();
    let program = solana_sdk::pubkey::Pubkey::new_from_array(program_id.bytes);
    solana_sdk::pubkey::Pubkey::try_find_program_address(&parts, &program)
        .map(|(key, bump)| (Address { bytes: key.to_bytes() }, bump))
}

/// Derives the address that `program_id` owns for `seeds`.
pub fn find_address(seeds: &Vec<Vec<u8>>, program_id: &Address) -> (address: Option<Address>)
    ensures
        is_address(address, derived_address(seeds_view(seeds@), program_id@)),
        seeds@.len() > 15 ==> address is None,
{
    match try_find_program_address(seeds, program_id) {
        Some((address, _)) => Some(address),
        None => None,
    }
}

/// The bytes of an address as a seed.
pub fn address_seed(address: &Address) -> (seed: Vec<u8>)
    ensures
        seed@ == address@,
{
    let mut seed: Vec<u8> = Vec::new();
    let mut i: usize = 0;
    while i < 32
        invariant
            i <= 32,
            address@.len() == 32,
            seed@.len() == i,
            forall|j: int| 0 <= j < i ==> seed@[j] == address@[j],
        decreases 32 - i,
    {
        seed.push(address.bytes[i]);
        i += 1;
    }
    assert(seed@ =~= address@);
    seed
}

/// The bytes of a textual seed.
pub fn text_seed(s: &str) -> (seed: Vec<u8>)
    ensures
        seed@ == text(s),
{
    slice_to_vec(s.as_bytes())
}

/// Seeds of the fee configuration account with the given index.
pub open spec fn amm_config_seeds(index: u16) -> Seq<Seq<u8>> {
    seq![text("amm_config"), be_bytes(index as nat, 2)]
}

/// Seeds of the pool for a fee configuration and an ordered pair of mints.
pub open spec fn pool_seeds(amm_config: Seq<u8>, mint_0: Seq<u8>, mint_1: Seq<u8>) -> Seq<Seq<u8>> {
    seq![text("pool"), amm_config, mint_0, mint_1]
}

/// Seeds of the vault in which a pool keeps one of its mints.
pub open spec fn pool_vault_seeds(pool: Seq<u8>, mint: Seq<u8>) -> Seq<Seq<u8>> {
    seq![text("pool_vault"), pool, mint]
}

/// Seeds of a pool's price observation account.
pub open spec fn observation_seeds(pool: Seq<u8>) -> Seq<Seq<u8>> {
    seq![text("observation"), pool]
}

/// Seeds of the extension of a pool's tick-array bitmap.
pub open spec fn tick_array_bitmap_seeds(pool: Seq<u8>) -> Seq<Seq<u8>> {
    seq![text("pool_tick_array_bitmap_extension"), pool]
}

/// Seeds of the position that a position token stands for.
pub open spec fn personal_position_seeds(nft_mint: Seq<u8>) -> Seq<Seq<u8>> {
    seq![text("position"), nft_mint]
}

/// Seeds of the pool-wide position for a tick range.
pub open spec fn protocol_position_seeds(pool: Seq<u8>, tick_lower: int, tick_upper: int) -> Seq<
    Seq<u8>,
> {
    seq![
        text("position"),
        pool,
        be_bytes(twos_complement_32(tick_lower), 4),
        be_bytes(twos_complement_32(tick_upper), 4),
    ]
}

/// Seeds of the tick array that starts at a given tick.
pub open spec fn tick_array_seeds(pool: Seq<u8>, start_index: int) -> Seq<Seq<u8>> {
    seq![text("tick_array"), pool, be_bytes(twos_complement_32(start_index), 4)]
}

/// Address of the fee configuration account with the given index.
pub fn amm_config_address(program_id: &Address, index: u16) -> (address: Option<Address>)
    ensures
        is_address(address, derived_address(amm_config_seeds(index), program_id@)),
{
    let mut seeds: Vec<Vec<u8>> = Vec::new();
    seeds.push(text_seed("amm_config"));
    seeds.push(u16_be_bytes(index));
    assert(seeds_view(seeds@) =~= amm_config_seeds(index));
    find_address(&seeds, program_id)
}

/// Address of the pool for a fee configuration and an ordered pair of mints.
pub fn pool_address(
    program_id: &Address,
    amm_config: &Address,
    mint_0: &Address,
    mint_1: &Address,
) -> (address: Option<Address>)
    ensures
        is_address(address, derived_address(pool_seeds(amm_config@, mint_0@, mint_1@), program_id@)),
{
    let mut seeds: Vec<Vec<u8>> = Vec::new();
    seeds.push(text_seed("pool"));
    seeds.push(address_seed(amm_config));
    seeds.push(address_seed(mint_0));
    seeds.push(address_seed(mint_1));
    assert(seeds_view(seeds@) =~= pool_seeds(amm_config@, mint_0@, mint_1@));
    find_address(&seeds, program_id)
}

/// Address of the vault in which a pool keeps one of its mints.
pub fn pool_vault_address(program_id: &Address, pool: &Address, mint: &Address) -> (address: Option<
    Address,
>)
    ensures
        is_address(address, derived_address(pool_vault_seeds(pool@, mint@), program_id@)),
{
    let mut seeds: Vec<Vec<u8>> = Vec::new();
    seeds.push(text_seed("pool_vault"));
    seeds.push(address_seed(pool));
    seeds.push(address_seed(mint));
    assert(seeds_view(seeds@) =~= pool_vault_seeds(pool@, mint@));
    find_address(&seeds, program_id)
}

/// Address of a pool's price observation account.
pub fn observation_address(program_id: &Address, pool: &Address) -> (address: Option<Address>)
    ensures
        is_address(address, derived_address(observation_seeds(pool@), program_id@)),
{
    let mut seeds: Vec<Vec<u8>> = Vec::new();
    seeds.push(text_seed("observation"));
    seeds.push(address_seed(pool));
    assert(seeds_view(seeds@) =~= observation_seeds(pool@));
    find_address(&seeds, program_id)
}

/// Address of the extension of a pool's tick-array bitmap.
pub fn tick_array_bitmap_address(program_id: &Address, pool: &Address) -> (address: Option<Address>)
    ensures
        is_address(address, derived_address(tick_array_bitmap_seeds(pool@), program_id@)),
{
    let mut seeds: Vec<Vec<u8>> = Vec::new();
    seeds.push(text_seed("pool_tick_array_bitmap_extension"));
    seeds.push(address_seed(pool));
    assert(seeds_view(seeds@) =~= tick_array_bitmap_seeds(pool@));
    find_address(&seeds, program_id)
}

/// Address of the position that a position token stands for.
pub fn personal_position_address(program_id: &Address, nft_mint: &Address) -> (address: Option<
    Address,
>)
    ensures
        is_address(address, derived_address(personal_position_seeds(nft_mint@), program_id@)),
{
    let mut seeds: Vec<Vec<u8>> = Vec::new();
    seeds.push(text_seed("position"));
    seeds.push(address_seed(nft_mint));
    assert(seeds_view(seeds@) =~= personal_position_seeds(nft_mint@));
    find_address(&seeds, program_id)
}

/// Address of the pool-wide position for a tick range.
pub fn protocol_position_address(
    program_id: &Address,
    pool: &Address,
    tick_lower: i32,
    tick_upper: i32,
) -> (address: Option<Address>)
    ensures
        is_address(
            address,
            derived_address(
                protocol_position_seeds(pool@, tick_lower as int, tick_upper as int),
                program_id@,
            ),
        ),
{
    let mut seeds: Vec<Vec<u8>> = Vec::new();
    seeds.push(text_seed("position"));
    seeds.push(address_seed(pool));
    seeds.push(i32_be_bytes(tick_lower));
    seeds.push(i32_be_bytes(tick_upper));
    assert(seeds_view(seeds@) =~= protocol_position_seeds(
        pool@,
        tick_lower as int,
        tick_upper as int,
    ));
    find_address(&seeds, program_id)
}

/// Address of the tick array that starts at a given tick.
pub fn tick_array_address(program_id: &Address, pool: &Address, start_index: i32) -> (address:
    Option<Address>)
    ensures
        is_address(
            address,
            derived_address(tick_array_seeds(pool@, start_index as int), program_id@),
        ),
{
    let mut seeds: Vec<Vec<u8>> = Vec::new();
    seeds.push(text_seed("tick_array"));
    seeds.push(address_seed(pool));
    seeds.push(i32_be_bytes(start_index));
    assert(seeds_view(seeds@) =~= tick_array_seeds(pool@, start_index as int));
    find_address(&seeds, program_id)
}

/// Seeds of the token account associated with a wallet for a mint under a
/// token program.
pub open spec fn associated_token_seeds(
    wallet: Seq<u8>,
    token_program: Seq<u8>,
    mint: Seq<u8>,
) -> Seq<Seq<u8>> {
    seq![wallet, token_program, mint]
}

/// The token account associated with a wallet for a mint under a token
/// program, which the associated token account program derives.
pub open spec fn associated_token_of(
    wallet: Seq<u8>,
    mint: Seq<u8>,
    token_program: Seq<u8>,
) -> Option<Seq<u8>> {
    derived_address(
        associated_token_seeds(wallet, token_program, mint),
        ASSOCIATED_TOKEN_PROGRAM@,
    )
}

/// Address of the token account associated with a wallet for a mint under
/// a token program.
pub fn get_associated_token_address_with_program_id(
    wallet: &Address,
    mint: &Address,
    token_program: &Address,
) -> (address: Option<Address>)
    ensures
        is_address(address, associated_token_of(wallet@, mint@, token_program@)),
{
    let mut seeds: Vec<Vec<u8>> = Vec::new();
    seeds.push(address_seed(wallet));
    seeds.push(address_seed(token_program));
    seeds.push(address_seed(mint));
    assert(seeds_view(seeds@) =~= associated_token_seeds(wallet@, token_program@, mint@));
    find_address(&seeds, &associated_token_program())
}

/// The bitmap extension of the pool that a fee configuration and a pair of
/// mints identify: `None` where either derivation finds no address.
pub open spec fn tick_array_bitmap_of(
    amm_config: Seq<u8>,
    mint_0: Seq<u8>,
    mint_1: Seq<u8>,
    program_id: Seq<u8>,
) -> Option<Seq<u8>> {
    match derived_address(pool_seeds(amm_config, mint_0, mint_1), program_id) {
        Some(pool) => derived_address(tick_array_bitmap_seeds(pool), program_id),
        None => None,
    }
}

/// Address of the tick-array bitmap extension of the pool for a fee
/// configuration and a pair of mints.
pub fn get_tick_array_bitmap(
    amm_config: &Address,
    mint0: &Address,
    mint1: &Address,
    program_id: &Address,
) -> (address: Option<Address>)
    ensures
        is_address(address, tick_array_bitmap_of(amm_config@, mint0@, mint1@, program_id@)),
{
    match pool_address(program_id, amm_config, mint0, mint1) {
        Some(pool) => tick_array_bitmap_address(program_id, &pool),
        None => None,
    }
}

} // verus!
