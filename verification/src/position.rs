//! Position tokens among an owner's token accounts, and the positions
//! they stand for.

use vstd::prelude::*;
use crate::address::Address;
use crate::error::ClientError;
use crate::pda::{derived_address, personal_position_address, personal_position_seeds};
use crate::programs::{token_2022_program, token_program, TOKEN_2022_PROGRAM, TOKEN_PROGRAM};

verus! {

/// What a node reports of a token account, as text.
#[derive(Clone, Debug, PartialEq, Eq)]
pub struct TokenAccountFields {
    pub mint: String,
    pub amount: String,
    pub decimals: u8,
    pub close_authority: Option<String>,
}

/// One account of an owner as a node reports it: its key, the name of the
/// program that it belongs to, and its fields where it is a token account.
#[derive(Clone, Debug, PartialEq, Eq)]
pub struct TokenAccountEntry {
    pub pubkey: String,
    pub program: String,
    pub account: Option<TokenAccountFields>,
}

/// A token account that holds the token of a position.
#[derive(Clone, Copy, Debug, PartialEq, Eq)]
pub struct PositionNftTokenInfo {
    pub key: Address,
    pub program: Address,
    pub position: Address,
    pub mint: Address,
    pub amount: u64,
    pub decimals: u8,
}

/// The mathematical content of a [`PositionNftTokenInfo`].
pub struct PositionNftTokenView {
    pub key: Seq<u8>,
    pub program: Seq<u8>,
    pub position: Seq<u8>,
    pub mint: Seq<u8>,
    pub amount: u64,
    pub decimals: u8,
}

impl View for PositionNftTokenInfo {
    type V = PositionNftTokenView;

    open spec fn view(&self) -> PositionNftTokenView {
        PositionNftTokenView {
            key: self.key@,
            program: self.program@,
            position: self.position@,
            mint: self.mint@,
            amount: self.amount,
            decimals: self.decimals,
        }
    }
}

/// The views of a list of position tokens.
pub open spec fn infos_view(infos: Seq<PositionNftTokenInfo>) -> Seq<PositionNftTokenView> {
    Seq::new(infos.len(), |i: int| infos[i]@)
}

/// The address that a text in base 58 stands for, if it stands for one.
pub uninterp spec fn parsed_address(text: Seq<char>) -> Option<Seq<u8>>;

/// The number that a decimal text stands for, if it fits 64 bits.
pub uninterp spec fn parsed_u64(text: Seq<char>) -> Option<u64>;

/// Whether a program name is that of one of the two token programs.
pub open spec fn names_token_program(program: Seq<char>) -> bool {
    program == "spl-token"@ || program == "spl-token-2022"@
}

/// Calls `Pubkey::from_str` of `solana_sdk`; the result is the named
/// address of the text.
#[verifier::external_body]
pub(crate) fn parse_address(text: &str) -> (parsed: Option<Address>)
    ensures
        match parsed {
            Some(address) => parsed_address(text@) == Some(address@),
            None => parsed_address(text@) is None,
        },
{
    <solana_sdk::pubkey::Pubkey as std::str::FromStr>::from_str(text).ok().map(|key| Address {
        bytes: key.to_bytes(),
    })
}

/// Calls `str::parse` for a `u64`; the result is the named number of the
/// text.
#[verifier::external_body]
fn parse_u64(text: &str) -> (parsed: Option<u64>)
    ensures
        parsed == parsed_u64(text@),
{
    text.parse::<u64>().ok()
}

/// What one reported account contributes: nothing where it is no token
/// account of a token program; an error where its mint, its key, its
/// amount or its close authority, in this order, cannot be read; the
/// position token where it holds exactly one token of a mint without
/// decimals; nothing otherwise.
pub open spec fn entry_position(
    entry: TokenAccountEntry,
    token_program: Seq<u8>,
    program_id: Seq<u8>,
) -> Result<Option<PositionNftTokenView>, ClientError> {
    if !names_token_program(entry.program@) {
        Ok(None)
    } else {
        match entry.account {
            None => Ok(None),
            Some(fields) => match parsed_address(fields.mint@) {
                None => Err(ClientError::InvalidMint),
                Some(mint) => match parsed_address(entry.pubkey@) {
                    None => Err(ClientError::InvalidTokenAccount),
                    Some(key) => match parsed_u64(fields.amount@) {
                        None => Err(ClientError::InvalidTokenAmount),
                        Some(amount) => if fields.close_authority is Some && parsed_address(
                            fields.close_authority.unwrap()@,
                        ) is None {
                            Err(ClientError::InvalidCloseAuthority)
                        } else if fields.decimals == 0 && amount == 1 {
                            match derived_address(personal_position_seeds(mint), program_id) {
                                None => Err(ClientError::AddressNotFound),
                                Some(position) => Ok(
                                    Some(
                                        PositionNftTokenView {
                                            key,
                                            program: token_program,
                                            position,
                                            mint,
                                            amount,
                                            decimals: fields.decimals,
                                        },
                                    ),
                                ),
                            }
                        } else {
                            Ok(None)
                        },
                    },
                },
            },
        }
    }
}

/// What a list of reported accounts contributes: the position tokens in
/// the order of the accounts, or the error of the first account that has
/// one.
pub open spec fn positions_of(
    entries: Seq<TokenAccountEntry>,
    token_program: Seq<u8>,
    program_id: Seq<u8>,
) -> Result<Seq<PositionNftTokenView>, ClientError>
    decreases entries.len(),
{
    if entries.len() == 0 {
        Ok(Seq::empty())
    } else {
        match positions_of(entries.drop_last(), token_program, program_id) {
            Err(e) => Err(e),
            Ok(earlier) => match entry_position(entries.last(), token_program, program_id) {
                Err(e) => Err(e),
                Ok(None) => Ok(earlier),
                Ok(Some(info)) => Ok(earlier.push(info)),
            },
        }
    }
}

/// Whether a result holds exactly the given views, or the given error.
pub open spec fn is_positions(
    found: Result<Vec<PositionNftTokenInfo>, ClientError>,
    expected: Result<Seq<PositionNftTokenView>, ClientError>,
) -> bool {
    match found {
        Ok(list) => expected == Ok::<Seq<PositionNftTokenView>, ClientError>(infos_view(list@)),
        Err(e) => expected == Err::<Seq<PositionNftTokenView>, ClientError>(e),
    }
}

/// Whether a program name is that of one of the two token programs.
fn is_token_program_name(program: &String) -> (named: bool)
    ensures
        named == names_token_program(program@),
{
    let legacy = "spl-token".to_owned();
    let extended = "spl-token-2022".to_owned();
    *program == legacy || *program == extended
}

/// Reads one reported account.
fn position_of_entry(entry: &TokenAccountEntry, token_program: Address, program_id: &Address) -> (found:
    Result<Option<PositionNftTokenInfo>, ClientError>)
    ensures
        match found {
            Ok(Some(info)) => entry_position(*entry, token_program@, program_id@) == Ok::<
                Option<PositionNftTokenView>,
                ClientError,
            >(Some(info@)),
            Ok(None) => entry_position(*entry, token_program@, program_id@) == Ok::<
                Option<PositionNftTokenView>,
                ClientError,
            >(None),
            Err(e) => entry_position(*entry, token_program@, program_id@) == Err::<
                Option<PositionNftTokenView>,
                ClientError,
            >(e),
        },
{
    if !is_token_program_name(&entry.program) {
        return Ok(None);
    }
    let fields = match &entry.account {
        None => { return Ok(None); },
        Some(fields) => fields,
    };
    let mint = match parse_address(fields.mint.as_str()) {
        None => { return Err(ClientError::InvalidMint); },
        Some(mint) => mint,
    };
    let key = match parse_address(entry.pubkey.as_str()) {
        None => { return Err(ClientError::InvalidTokenAccount); },
        Some(key) => key,
    };
    let amount = match parse_u64(fields.amount.as_str()) {
        None => { return Err(ClientError::InvalidTokenAmount); },
        Some(amount) => amount,
    };
    match &fields.close_authority {
        None => {},
        Some(text) => {
            if parse_address(text.as_str()).is_none() {
                return Err(ClientError::InvalidCloseAuthority);
            }
        },
    }
    if fields.decimals == 0 && amount == 1 {
        match personal_position_address(program_id, &mint) {
            None => Err(ClientError::AddressNotFound),
            Some(position) => Ok(
                Some(
                    PositionNftTokenInfo {
                        key,
                        program: token_program,
                        position,
                        mint,
                        amount,
                        decimals: fields.decimals,
                    },
                ),
            ),
        }
    } else {
        Ok(None)
    }
}

/// Picks, from the accounts that a node reports of an owner under one
/// token program, those that hold the token of a position, and derives
/// the position of each.
pub fn get_nft_account_and_position_by_owner(
    entries: &Vec<TokenAccountEntry>,
    token_program: Address,
    raydium_amm_v3_program: &Address,
) -> (found: Result<Vec<PositionNftTokenInfo>, ClientError>)
    ensures
        is_positions(found, positions_of(entries@, token_program@, raydium_amm_v3_program@)),
{
    let mut position_nft_accounts: Vec<PositionNftTokenInfo> = Vec::new();
    let mut i: usize = 0;
    assert(entries@.subrange(0, 0) =~= Seq::<TokenAccountEntry>::empty());
    assert(infos_view(position_nft_accounts@) =~= Seq::<PositionNftTokenView>::empty());
    while i < entries.len()
        invariant
            i <= entries.len(),
            positions_of(entries@.subrange(0, i as int), token_program@, raydium_amm_v3_program@)
                == Ok::<Seq<PositionNftTokenView>, ClientError>(
                infos_view(position_nft_accounts@),
            ),
        decreases entries.len() - i,
    {
        let ghost prefix = entries@.subrange(0, i as int);
        let ghost next = entries@.subrange(0, i + 1);
        assert(next.drop_last() =~= prefix);
        assert(next.last() == entries@[i as int]);
        match position_of_entry(&entries[i], token_program, raydium_amm_v3_program) {
            Err(e) => {
                proof {
                    lemma_positions_error_stays(
                        entries@,
                        i + 1,
                        token_program@,
                        raydium_amm_v3_program@,
                    );
                }
                return Err(e);
            },
            Ok(None) => {},
            Ok(Some(info)) => {
                let ghost before = position_nft_accounts@;
                position_nft_accounts.push(info);
                assert(infos_view(position_nft_accounts@) =~= infos_view(before).push(info@));
            },
        }
        i += 1;
    }
    assert(entries@.subrange(0, entries@.len() as int) =~= entries@);
    Ok(position_nft_accounts)
}

/// An error among the first `n` accounts is the error of the whole list.
pub proof fn lemma_positions_error_stays(
    entries: Seq<TokenAccountEntry>,
    n: int,
    token_program: Seq<u8>,
    program_id: Seq<u8>,
)
    requires
        0 <= n <= entries.len(),
        positions_of(entries.subrange(0, n), token_program, program_id) is Err,
    ensures
        positions_of(entries, token_program, program_id) == positions_of(
            entries.subrange(0, n),
            token_program,
            program_id,
        ),
    decreases entries.len() - n,
{
    if n == entries.len() {
        assert(entries.subrange(0, n) =~= entries);
    } else {
        let longer = entries.subrange(0, n + 1);
        assert(longer.drop_last() =~= entries.subrange(0, n));
        lemma_positions_error_stays(entries, n + 1, token_program, program_id);
    }
}

/// The position tokens of an owner under both token programs: those under
/// the token program first, then those under the extended one; the first
/// error where there is one.
pub open spec fn all_positions_of(
    legacy_entries: Seq<TokenAccountEntry>,
    extended_entries: Seq<TokenAccountEntry>,
    program_id: Seq<u8>,
) -> Result<Seq<PositionNftTokenView>, ClientError> {
    match positions_of(legacy_entries, TOKEN_PROGRAM@, program_id) {
        Err(e) => Err(e),
        Ok(legacy) => match positions_of(extended_entries, TOKEN_2022_PROGRAM@, program_id) {
            Err(e) => Err(e),
            Ok(extended) => Ok(legacy + extended),
        },
    }
}

/// Picks the position tokens of an owner from the accounts that a node
/// reports under the token program and under the extended token program.
pub fn get_all_nft_and_position_by_owner(
    legacy_entries: &Vec<TokenAccountEntry>,
    extended_entries: &Vec<TokenAccountEntry>,
    raydium_amm_v3_program: &Address,
) -> (found: Result<Vec<PositionNftTokenInfo>, ClientError>)
    ensures
        is_positions(
            found,
            all_positions_of(legacy_entries@, extended_entries@, raydium_amm_v3_program@),
        ),
{
    let mut spl_nfts = match get_nft_account_and_position_by_owner(
        legacy_entries,
        token_program(),
        raydium_amm_v3_program,
    ) {
        Ok(list) => list,
        Err(e) => { return Err(e); },
    };
    let spl_2022_nfts = match get_nft_account_and_position_by_owner(
        extended_entries,
        token_2022_program(),
        raydium_amm_v3_program,
    ) {
        Ok(list) => list,
        Err(e) => { return Err(e); },
    };
    let ghost legacy = spl_nfts@;
    let mut i: usize = 0;
    while i < spl_2022_nfts.len()
        invariant
            i <= spl_2022_nfts.len(),
            spl_nfts@ == legacy + spl_2022_nfts@.subrange(0, i as int),
        decreases spl_2022_nfts.len() - i,
    {
        spl_nfts.push(spl_2022_nfts[i]);
        assert(spl_nfts@ =~= legacy + spl_2022_nfts@.subrange(0, i + 1));
        i += 1;
    }
    assert(spl_2022_nfts@.subrange(0, spl_2022_nfts@.len() as int) =~= spl_2022_nfts@);
    assert(infos_view(legacy + spl_2022_nfts@) =~= infos_view(legacy) + infos_view(
        spl_2022_nfts@,
    ));
    Ok(spl_nfts)
}

} // verus!
