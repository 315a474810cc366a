//! Reasons for which a plan or an instruction cannot be made.

use vstd::prelude::*;

verus! {

/// Why the library could not produce what it was asked for.
#[derive(Clone, Copy, Debug, PartialEq, Eq, Structural)]
pub enum ClientError {
    /// A square-root price lies outside the range that ticks cover.
    SqrtPriceOutOfRange,
    /// The pool's tick spacing is zero.
    ZeroTickSpacing,
    /// A tick is so low that aligning it leaves the range of 32-bit ticks.
    TickOutOfRange,
    /// No program-derived address exists for some seeds.
    AddressNotFound,
    /// The mint of a token account is no address.
    InvalidMint,
    /// The key of a token account is no address.
    InvalidTokenAccount,
    /// The amount of a token account is no 64-bit number.
    InvalidTokenAmount,
    /// The close authority of a token account is no address.
    InvalidCloseAuthority,
    /// The data of a position account is malformed.
    InvalidPositionData,
    /// The liquidity does not fit a signed 128-bit change.
    LiquidityTooLarge,
    /// A transfer fee could not be computed.
    FeeOverflow,
    /// A transfer fee exceeds the amount it is taken from.
    FeeExceedsAmount,
    /// The data of a mint account is malformed.
    InvalidMintData,
}

} // verus!
