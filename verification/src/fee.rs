//! Transfer fees that a mint levies, and what they take from the amounts
//! that move in and out of a pool.

use vstd::prelude::*;
use spl_token_2022::extension::{transfer_fee, BaseStateWithExtensions, StateWithExtensions};
use spl_token_2022::state::Mint;
use crate::address::Address;
use crate::error::ClientError;

verus! {

/// The fee in basis points at which the whole amount is taken.
pub const MAX_FEE_BASIS_POINTS: u16 = 10_000;

/// A transfer fee: the first epoch in which it holds, the most it takes
/// from one transfer, and its rate in basis points of the amount.
#[derive(Clone, Copy, Debug, PartialEq, Eq)]
pub struct TransferFee {
    pub epoch: u64,
    pub maximum_fee: u64,
    pub transfer_fee_basis_points: u16,
}

/// The transfer fees of a mint: the newer one holds from its epoch on,
/// the older one before.
#[derive(Clone, Copy, Debug, PartialEq, Eq)]
pub struct TransferFeeConfig {
    pub older_transfer_fee: TransferFee,
    pub newer_transfer_fee: TransferFee,
}

/// The transfer fee that falls on one mint of a pool, with the program
/// that owns the mint.
#[derive(Clone, Copy, Debug, PartialEq, Eq)]
pub struct TransferFeeInfo {
    pub mint: Address,
    pub owner: Address,
    pub transfer_fee: u64,
}

/// A mint account as a node hands it out: the program that owns it and
/// its data.
#[derive(Clone, Debug, PartialEq, Eq)]
pub struct MintAccount {
    pub owner: Address,
    pub data: Vec<u8>,
}

/// The fee that holds in an epoch.
pub open spec fn epoch_fee(config: TransferFeeConfig, epoch: u64) -> TransferFee {
    if epoch >= config.newer_transfer_fee.epoch {
        config.newer_transfer_fee
    } else {
        config.older_transfer_fee
    }
}

/// The fee taken from an amount: the rate applied to the amount, rounded
/// up, but no more than the maximum; nothing where the rounded-up share
/// exceeds 64 bits.
pub open spec fn fee_on(fee: TransferFee, pre_fee_amount: u64) -> Option<u64> {
    if fee.transfer_fee_basis_points == 0 || pre_fee_amount == 0 {
        Some(0)
    } else {
        let share = (pre_fee_amount * fee.transfer_fee_basis_points + 9_999) / 10_000;
        if share > u64::MAX {
            None
        } else if share < fee.maximum_fee {
            Some(share as u64)
        } else {
            Some(fee.maximum_fee)
        }
    }
}

/// The least amount that, sent with a fee, leaves a given amount after
/// the fee is taken: the amount itself without a rate; nothing where the
/// rate takes everything or nothing is to be left; else the amount divided
/// by the share that the rate leaves, rounded up, or the amount and the
/// maximum fee where the fee would exceed the maximum. There is none where
/// the rate is above the whole or the result exceeds 64 bits.
pub open spec fn pre_fee_amount(fee: TransferFee, post_fee_amount: u64) -> Option<u64> {
    let rate = fee.transfer_fee_basis_points as int;
    if rate == 0 {
        Some(post_fee_amount)
    } else if rate == 10_000 || post_fee_amount == 0 {
        Some(0)
    } else if rate > 10_000 {
        None
    } else {
        let raw = (post_fee_amount * 10_000 + (10_000 - rate) - 1) / (10_000 - rate);
        if raw - post_fee_amount >= fee.maximum_fee {
            if post_fee_amount + fee.maximum_fee > u64::MAX {
                None
            } else {
                Some((post_fee_amount + fee.maximum_fee) as u64)
            }
        } else if raw > u64::MAX {
            None
        } else {
            Some(raw as u64)
        }
    }
}

/// The fee that a transfer carries when a given amount is to be left after
/// it: the fee on the least amount that leaves it.
pub open spec fn inverse_fee_on(fee: TransferFee, post_fee_amount: u64) -> Option<u64> {
    match pre_fee_amount(fee, post_fee_amount) {
        Some(amount) => fee_on(fee, amount),
        None => None,
    }
}

/// The transfer fees that the data of a mint account holds: `None` where
/// the data is no initialised mint, `Some(None)` where the mint has no
/// readable transfer-fee extension.
pub uninterp spec fn mint_transfer_fee(data: Seq<u8>) -> Option<Option<TransferFeeConfig>>;

/// Calls `TransferFeeConfig::get_epoch_fee` of `spl_token_2022`, which
/// picks the newer fee from its epoch on and the older fee before.
#[verifier::external_body]
fn get_epoch_fee(config: &TransferFeeConfig, epoch: u64) -> (fee: TransferFee)
    ensures
        fee == epoch_fee(*config, epoch),
{
    let pod = |fee: &TransferFee| transfer_fee::TransferFee {
        epoch: fee.epoch.into(),
        maximum_fee: fee.maximum_fee.into(),
        transfer_fee_basis_points: fee.transfer_fee_basis_points.into(),
    };
    let spl = transfer_fee::TransferFeeConfig {
        older_transfer_fee: pod(&config.older_transfer_fee),
        newer_transfer_fee: pod(&config.newer_transfer_fee),
        ..Default::default()
    };
    let fee = spl.get_epoch_fee(epoch);
    let (epoch, maximum_fee) = (fee.epoch.into(), fee.maximum_fee.into());
    TransferFee { epoch, maximum_fee, transfer_fee_basis_points: fee.transfer_fee_basis_points.into() }
}

/// Calls `TransferFeeConfig::calculate_epoch_fee` of `spl_token_2022`,
/// which applies the fee of the epoch to the amount as [`fee_on`] says.
#[verifier::external_body]
fn calculate_epoch_fee(config: &TransferFeeConfig, epoch: u64, pre_fee_amount: u64) -> (fee:
    Option<u64>)
    ensures
        fee == fee_on(epoch_fee(*config, epoch), pre_fee_amount),
{
    let pod = |fee: &TransferFee| transfer_fee::TransferFee {
        epoch: fee.epoch.into(),
        maximum_fee: fee.maximum_fee.into(),
        transfer_fee_basis_points: fee.transfer_fee_basis_points.into(),
    };
    let spl = transfer_fee::TransferFeeConfig {
        older_transfer_fee: pod(&config.older_transfer_fee),
        newer_transfer_fee: pod(&config.newer_transfer_fee),
        ..Default::default()
    };
    spl.calculate_epoch_fee(epoch, pre_fee_amount)
}

/// Calls `TransferFeeConfig::calculate_inverse_epoch_fee` of
/// `spl_token_2022`, which finds the least amount that leaves the given
/// one under the fee of the epoch and gives the fee on it, as
/// [`inverse_fee_on`] says.
#[verifier::external_body]
fn calculate_inverse_epoch_fee(config: &TransferFeeConfig, epoch: u64, post_fee_amount: u64) -> (fee:
    Option<u64>)
    ensures
        fee == inverse_fee_on(epoch_fee(*config, epoch), post_fee_amount),
{
    let pod = |fee: &TransferFee| transfer_fee::TransferFee {
        epoch: fee.epoch.into(),
        maximum_fee: fee.maximum_fee.into(),
        transfer_fee_basis_points: fee.transfer_fee_basis_points.into(),
    };
    let spl = transfer_fee::TransferFeeConfig {
        older_transfer_fee: pod(&config.older_transfer_fee),
        newer_transfer_fee: pod(&config.newer_transfer_fee),
        ..Default::default()
    };
    spl.calculate_inverse_epoch_fee(epoch, post_fee_amount)
}

/// Calls `StateWithExtensions::<Mint>::unpack` of `spl_token_2022` on the
/// data and then `get_extension` for the transfer fees. The result is the
/// named content of the data; data shorter than a mint is refused.
#[verifier::external_body]
fn unpack_mint_transfer_fee(data: &Vec<u8>) -> (parsed: Option<Option<TransferFeeConfig>>)
    ensures
        parsed == mint_transfer_fee(data@),
        data@.len() < 82 ==> parsed is None,
{
    let plain = |fee: &transfer_fee::TransferFee| TransferFee {
        epoch: fee.epoch.into(),
        maximum_fee: fee.maximum_fee.into(),
        transfer_fee_basis_points: fee.transfer_fee_basis_points.into(),
    };
    let state = StateWithExtensions::<Mint>::unpack(data).ok()?;
    Some(state.get_extension::<transfer_fee::TransferFeeConfig>().ok().map(|found| {
        TransferFeeConfig {
            older_transfer_fee: plain(&found.older_transfer_fee),
            newer_transfer_fee: plain(&found.newer_transfer_fee),
        }
    }))
}

/// The fee on an amount that goes into a transfer: nothing for a mint
/// without transfer fees, else the fee of the epoch on the amount.
pub open spec fn transfer_fee_of(
    config: Option<TransferFeeConfig>,
    epoch: u64,
    pre_fee_amount: u64,
) -> Result<u64, ClientError> {
    match config {
        None => Ok(0),
        Some(c) => match fee_on(epoch_fee(c, epoch), pre_fee_amount) {
            Some(fee) => Ok(fee),
            None => Err(ClientError::FeeOverflow),
        },
    }
}

/// The fee that a transfer must carry for a given amount to come out of
/// it: nothing for a mint without transfer fees; the maximum fee where the
/// rate takes everything; else the inverse fee of the epoch.
pub open spec fn transfer_inverse_fee_of(
    config: Option<TransferFeeConfig>,
    epoch: u64,
    post_fee_amount: u64,
) -> Result<u64, ClientError> {
    match config {
        None => Ok(0),
        Some(c) => {
            let fee = epoch_fee(c, epoch);
            if fee.transfer_fee_basis_points == MAX_FEE_BASIS_POINTS {
                Ok(fee.maximum_fee)
            } else {
                match inverse_fee_on(fee, post_fee_amount) {
                    Some(amount) => Ok(amount),
                    None => Err(ClientError::FeeOverflow),
                }
            }
        },
    }
}

/// A fee at a rate of no more than the whole exists, and exceeds neither
/// the amount it is taken from nor the maximum.
pub proof fn lemma_fee_within_amount(fee: TransferFee, pre_fee_amount: u64)
    requires
        fee.transfer_fee_basis_points <= MAX_FEE_BASIS_POINTS,
    ensures
        fee_on(fee, pre_fee_amount) is Some,
        fee_on(fee, pre_fee_amount).unwrap() <= pre_fee_amount,
        fee_on(fee, pre_fee_amount).unwrap() <= fee.maximum_fee,
{
    let rate = fee.transfer_fee_basis_points as int;
    let amount = pre_fee_amount as int;
    if rate != 0 && amount != 0 {
        let share = (amount * rate + 9_999) / 10_000;
        assert(share <= amount) by (nonlinear_arith)
            requires
                0 < rate <= 10_000,
                0 < amount,
                share == (amount * rate + 9_999) / 10_000,
        ;
    }
}

/// Where both fees of a mint are at rates of no more than the whole, the
/// fee on an amount can be taken off that amount.
pub proof fn lemma_transfer_fee_leaves_a_minimum(
    config: Option<TransferFeeConfig>,
    epoch: u64,
    pre_fee_amount: u64,
)
    requires
        config matches Some(c) ==> c.older_transfer_fee.transfer_fee_basis_points
            <= MAX_FEE_BASIS_POINTS && c.newer_transfer_fee.transfer_fee_basis_points
            <= MAX_FEE_BASIS_POINTS,
    ensures
        transfer_fee_of(config, epoch, pre_fee_amount) is Ok,
        transfer_fee_of(config, epoch, pre_fee_amount).unwrap() <= pre_fee_amount,
{
    match config {
        None => {},
        Some(c) => {
            lemma_fee_within_amount(epoch_fee(c, epoch), pre_fee_amount);
        },
    }
}

/// Calculates the fee on an amount that goes into a transfer.
pub fn get_transfer_fee(config: &Option<TransferFeeConfig>, epoch: u64, pre_fee_amount: u64) -> (fee:
    Result<u64, ClientError>)
    ensures
        fee == transfer_fee_of(*config, epoch, pre_fee_amount),
{
    match config {
        None => Ok(0),
        Some(c) => match calculate_epoch_fee(c, epoch, pre_fee_amount) {
            Some(fee) => Ok(fee),
            None => Err(ClientError::FeeOverflow),
        },
    }
}

/// Calculates the fee that a transfer carries when a given amount is to
/// come out of it.
pub fn get_transfer_inverse_fee(
    config: &Option<TransferFeeConfig>,
    epoch: u64,
    post_fee_amount: u64,
) -> (fee: Result<u64, ClientError>)
    ensures
        fee == transfer_inverse_fee_of(*config, epoch, post_fee_amount),
{
    match config {
        None => Ok(0),
        Some(c) => {
            let fee = get_epoch_fee(c, epoch);
            if fee.transfer_fee_basis_points == MAX_FEE_BASIS_POINTS {
                Ok(fee.maximum_fee)
            } else {
                match calculate_inverse_epoch_fee(c, epoch, post_fee_amount) {
                    Some(amount) => Ok(amount),
                    None => Err(ClientError::FeeOverflow),
                }
            }
        },
    }
}

/// Which of the two fees is asked for of a pool's mints.
#[derive(Clone, Copy, Debug, PartialEq, Eq, Structural)]
pub enum FeeDirection {
    /// The fee on an amount that goes into a transfer.
    OnInput,
    /// The fee for an amount that is to come out of a transfer.
    ForOutput,
}

/// The fee on one mint of a pool, from the data of its account.
pub open spec fn mint_fee_of(
    data: Seq<u8>,
    direction: FeeDirection,
    epoch: u64,
    amount: u64,
) -> Result<u64, ClientError> {
    match mint_transfer_fee(data) {
        None => Err(ClientError::InvalidMintData),
        Some(config) => match direction {
            FeeDirection::OnInput => transfer_fee_of(config, epoch, amount),
            FeeDirection::ForOutput => transfer_inverse_fee_of(config, epoch, amount),
        },
    }
}

/// The fees on both mints of a pool: the first error of the first mint,
/// else the first of the second, else both fees.
pub open spec fn pool_mints_fee_of(
    data_0: Seq<u8>,
    data_1: Seq<u8>,
    direction: FeeDirection,
    epoch: u64,
    amount_0: u64,
    amount_1: u64,
) -> Result<(u64, u64), ClientError> {
    match mint_fee_of(data_0, direction, epoch, amount_0) {
        Err(e) => Err(e),
        Ok(fee_0) => match mint_fee_of(data_1, direction, epoch, amount_1) {
            Err(e) => Err(e),
            Ok(fee_1) => Ok((fee_0, fee_1)),
        },
    }
}

/// Whether a pair of fee records is the outcome for a pool's two mints.
pub open spec fn is_pool_mints_fee(
    found: Result<(TransferFeeInfo, TransferFeeInfo), ClientError>,
    token_mint_0: Address,
    token_mint_1: Address,
    mint_0_account: MintAccount,
    mint_1_account: MintAccount,
    direction: FeeDirection,
    epoch: u64,
    amount_0: u64,
    amount_1: u64,
) -> bool {
    match pool_mints_fee_of(
        mint_0_account.data@,
        mint_1_account.data@,
        direction,
        epoch,
        amount_0,
        amount_1,
    ) {
        Err(e) => found == Err::<(TransferFeeInfo, TransferFeeInfo), ClientError>(e),
        Ok((fee_0, fee_1)) => found == Ok::<(TransferFeeInfo, TransferFeeInfo), ClientError>(
            (
                TransferFeeInfo {
                    mint: token_mint_0,
                    owner: mint_0_account.owner,
                    transfer_fee: fee_0,
                },
                TransferFeeInfo {
                    mint: token_mint_1,
                    owner: mint_1_account.owner,
                    transfer_fee: fee_1,
                },
            ),
        ),
    }
}

/// The fee on one mint, from the data of its account.
fn mint_fee(data: &Vec<u8>, direction: FeeDirection, epoch: u64, amount: u64) -> (fee: Result<
    u64,
    ClientError,
>)
    ensures
        fee == mint_fee_of(data@, direction, epoch, amount),
{
    match unpack_mint_transfer_fee(data) {
        None => Err(ClientError::InvalidMintData),
        Some(config) => match direction {
            FeeDirection::OnInput => get_transfer_fee(&config, epoch, amount),
            FeeDirection::ForOutput => get_transfer_inverse_fee(&config, epoch, amount),
        },
    }
}

/// The fees of both mints in one direction.
fn pool_mints_fee(
    token_mint_0: Address,
    token_mint_1: Address,
    mint_0_account: &MintAccount,
    mint_1_account: &MintAccount,
    direction: FeeDirection,
    epoch: u64,
    amount_0: u64,
    amount_1: u64,
) -> (found: Result<(TransferFeeInfo, TransferFeeInfo), ClientError>)
    ensures
        is_pool_mints_fee(
            found,
            token_mint_0,
            token_mint_1,
            *mint_0_account,
            *mint_1_account,
            direction,
            epoch,
            amount_0,
            amount_1,
        ),
{
    let fee_0 = match mint_fee(&mint_0_account.data, direction, epoch, amount_0) {
        Ok(fee) => fee,
        Err(e) => { return Err(e); },
    };
    let fee_1 = match mint_fee(&mint_1_account.data, direction, epoch, amount_1) {
        Ok(fee) => fee,
        Err(e) => { return Err(e); },
    };
    Ok(
        (
            TransferFeeInfo { mint: token_mint_0, owner: mint_0_account.owner, transfer_fee: fee_0 },
            TransferFeeInfo { mint: token_mint_1, owner: mint_1_account.owner, transfer_fee: fee_1 },
        ),
    )
}

/// Calculates, for the two mints of a pool, the fees that transfers must
/// carry for the given amounts to come out of them in the given epoch.
pub fn get_pool_mints_inverse_fee(
    token_mint_0: Address,
    token_mint_1: Address,
    mint_0_account: &MintAccount,
    mint_1_account: &MintAccount,
    epoch: u64,
    post_fee_amount_0: u64,
    post_fee_amount_1: u64,
) -> (found: Result<(TransferFeeInfo, TransferFeeInfo), ClientError>)
    ensures
        is_pool_mints_fee(
            found,
            token_mint_0,
            token_mint_1,
            *mint_0_account,
            *mint_1_account,
            FeeDirection::ForOutput,
            epoch,
            post_fee_amount_0,
            post_fee_amount_1,
        ),
{
    pool_mints_fee(
        token_mint_0,
        token_mint_1,
        mint_0_account,
        mint_1_account,
        FeeDirection::ForOutput,
        epoch,
        post_fee_amount_0,
        post_fee_amount_1,
    )
}

/// Calculates, for the two mints of a pool, the fees on the given amounts
/// going into transfers in the given epoch.
pub fn get_pool_mints_transfer_fee(
    token_mint_0: Address,
    token_mint_1: Address,
    mint_0_account: &MintAccount,
    mint_1_account: &MintAccount,
    epoch: u64,
    pre_fee_amount_0: u64,
    pre_fee_amount_1: u64,
) -> (found: Result<(TransferFeeInfo, TransferFeeInfo), ClientError>)
    ensures
        is_pool_mints_fee(
            found,
            token_mint_0,
            token_mint_1,
            *mint_0_account,
            *mint_1_account,
            FeeDirection::OnInput,
            epoch,
            pre_fee_amount_0,
            pre_fee_amount_1,
        ),
{
    pool_mints_fee(
        token_mint_0,
        token_mint_1,
        mint_0_account,
        mint_1_account,
        FeeDirection::OnInput,
        epoch,
        pre_fee_amount_0,
        pre_fee_amount_1,
    )
}

} // verus!
