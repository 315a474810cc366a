//! The tick range of a position, from the prices that bound it.

use vstd::prelude::*;
use crate::error::ClientError;
use crate::tick::{aligned_tick, aligned_tick_wide, tick_with_spacing};

verus! {

/// The lowest square-root price, in 64.64 fixed point, that has a tick.
pub const MIN_SQRT_PRICE_X64: u128 = 4295048016;

/// The square-root price, in 64.64 fixed point, below which every price
/// has a tick.
pub const MAX_SQRT_PRICE_X64: u128 = 79226673521066979257578248091;

/// Number of ticks that one tick array holds, in units of the spacing.
pub const TICK_ARRAY_SIZE: i32 = 60;

/// The tick whose price is the greatest not above a square-root price, as
/// the pool program computes it for prices in range.
pub uninterp spec fn tick_at_sqrt_price(sqrt_price_x64: u128) -> i32;

/// Whether a square-root price has a tick.
pub open spec fn sqrt_price_in_range(sqrt_price_x64: u128) -> bool {
    MIN_SQRT_PRICE_X64 <= sqrt_price_x64 < MAX_SQRT_PRICE_X64
}

/// The first tick of the tick array that holds `tick`.
pub open spec fn array_start(tick: int, tick_spacing: int) -> int {
    aligned_tick(tick, TICK_ARRAY_SIZE * tick_spacing)
}

/// Calls `tick_math::get_tick_at_sqrt_price` of `raydium_amm_v3`. It
/// refuses exactly the prices out of range and otherwise gives the named
/// tick.
#[verifier::external_body]
fn get_tick_at_sqrt_price(sqrt_price_x64: u128) -> (tick: Option<i32>)
    ensures
        tick is Some <==> sqrt_price_in_range(sqrt_price_x64),
        tick is Some ==> tick.unwrap() == tick_at_sqrt_price(sqrt_price_x64),
{
    raydium_amm_v3::libraries::tick_math::get_tick_at_sqrt_price(sqrt_price_x64).ok()
}

/// Calls `TickArrayState::get_array_start_index` of `raydium_amm_v3`,
/// which aligns the tick downwards to a multiple of sixty spacings. The
/// spacing must not be zero and the result must be representable.
#[verifier::external_body]
fn get_array_start_index(tick_index: i32, tick_spacing: u16) -> (start: i32)
    requires
        tick_spacing > 0,
        i32::MIN <= array_start(tick_index as int, tick_spacing as int),
    ensures
        start == array_start(tick_index as int, tick_spacing as int),
{
    raydium_amm_v3::states::TickArrayState::get_array_start_index(tick_index, tick_spacing)
}

/// The tick that a square-root price falls on, where it has one.
pub fn tick_at(sqrt_price_x64: u128) -> (tick: Result<i32, ClientError>)
    ensures
        tick is Ok <==> sqrt_price_in_range(sqrt_price_x64),
        tick is Ok ==> tick.unwrap() == tick_at_sqrt_price(sqrt_price_x64),
        tick is Err ==> tick.unwrap_err() == ClientError::SqrtPriceOutOfRange,
{
    match get_tick_at_sqrt_price(sqrt_price_x64) {
        Some(tick) => Ok(tick),
        None => Err(ClientError::SqrtPriceOutOfRange),
    }
}

/// The two ends of a position's tick range and the first ticks of the tick
/// arrays that hold them.
#[derive(Clone, Copy, Debug, PartialEq, Eq)]
pub struct TickRange {
    pub tick_lower_index: i32,
    pub tick_upper_index: i32,
    pub tick_array_lower_start_index: i32,
    pub tick_array_upper_start_index: i32,
}

/// The tick that a square-root price falls on, aligned to the spacing.
pub open spec fn aligned_tick_at(sqrt_price_x64: u128, tick_spacing: u16) -> int {
    aligned_tick(tick_at_sqrt_price(sqrt_price_x64) as int, tick_spacing as int)
}

/// The outcome of aligning the tick of one price and finding its array.
pub open spec fn tick_and_array(sqrt_price_x64: u128, tick_spacing: u16) -> Result<
    (int, int),
    ClientError,
> {
    if !sqrt_price_in_range(sqrt_price_x64) {
        Err(ClientError::SqrtPriceOutOfRange)
    } else if tick_spacing == 0 {
        Err(ClientError::ZeroTickSpacing)
    } else if array_start(aligned_tick_at(sqrt_price_x64, tick_spacing), tick_spacing as int)
        < i32::MIN {
        Err(ClientError::TickOutOfRange)
    } else {
        Ok(
            (
                aligned_tick_at(sqrt_price_x64, tick_spacing),
                array_start(aligned_tick_at(sqrt_price_x64, tick_spacing), tick_spacing as int),
            ),
        )
    }
}

/// The tick range between two square-root prices for a pool's spacing: the
/// first error of the lower price, else the first of the upper, else both
/// ends with their arrays.
pub open spec fn tick_range(
    lower_sqrt_price_x64: u128,
    upper_sqrt_price_x64: u128,
    tick_spacing: u16,
) -> Result<(int, int, int, int), ClientError> {
    match tick_and_array(lower_sqrt_price_x64, tick_spacing) {
        Err(e) => Err(e),
        Ok((lower, lower_start)) => match tick_and_array(upper_sqrt_price_x64, tick_spacing) {
            Err(e) => Err(e),
            Ok((upper, upper_start)) => Ok((lower, upper, lower_start, upper_start)),
        },
    }
}

/// Aligns the tick of one price to the spacing and finds the start of its
/// tick array.
pub fn tick_and_array_at(sqrt_price_x64: u128, tick_spacing: u16) -> (found: Result<
    (i32, i32),
    ClientError,
>)
    ensures
        match found {
            Ok((tick, start)) => tick_and_array(sqrt_price_x64, tick_spacing) == Ok::<
                (int, int),
                ClientError,
            >((tick as int, start as int)),
            Err(e) => tick_and_array(sqrt_price_x64, tick_spacing) == Err::<
                (int, int),
                ClientError,
            >(e),
        },
{
    let raw = match get_tick_at_sqrt_price(sqrt_price_x64) {
        Some(tick) => tick,
        None => { return Err(ClientError::SqrtPriceOutOfRange); },
    };
    if tick_spacing == 0 {
        return Err(ClientError::ZeroTickSpacing);
    }
    let spacing: i32 = tick_spacing as i32;
    // In 64 bits neither alignment can overflow, so the test is exact.
    let wide_tick = aligned_tick_wide(raw as i64, spacing as i64);
    let size: i64 = TICK_ARRAY_SIZE as i64;
    assert(size == 60);
    let wide_start = aligned_tick_wide(wide_tick, size * (spacing as i64));
    if wide_start < i32::MIN as i64 {
        return Err(ClientError::TickOutOfRange);
    }
    let tick = tick_with_spacing(raw, spacing);
    let start = get_array_start_index(tick, tick_spacing);
    Ok((tick, start))
}

/// Finds the tick range of a position between two square-root prices in a
/// pool with the given tick spacing, and the tick arrays of its two ends.
pub fn position_tick_range(
    lower_sqrt_price_x64: u128,
    upper_sqrt_price_x64: u128,
    tick_spacing: u16,
) -> (found: Result<TickRange, ClientError>)
    ensures
        match found {
            Ok(range) => tick_range(lower_sqrt_price_x64, upper_sqrt_price_x64, tick_spacing)
                == Ok::<(int, int, int, int), ClientError>(
                (
                    range.tick_lower_index as int,
                    range.tick_upper_index as int,
                    range.tick_array_lower_start_index as int,
                    range.tick_array_upper_start_index as int,
                ),
            ),
            Err(e) => tick_range(lower_sqrt_price_x64, upper_sqrt_price_x64, tick_spacing)
                == Err::<(int, int, int, int), ClientError>(e),
        },
{
    let (tick_lower_index, tick_array_lower_start_index) = match tick_and_array_at(
        lower_sqrt_price_x64,
        tick_spacing,
    ) {
        Ok(pair) => pair,
        Err(e) => { return Err(e); },
    };
    let (tick_upper_index, tick_array_upper_start_index) = match tick_and_array_at(
        upper_sqrt_price_x64,
        tick_spacing,
    ) {
        Ok(pair) => pair,
        Err(e) => { return Err(e); },
    };
    Ok(
        TickRange {
            tick_lower_index,
            tick_upper_index,
            tick_array_lower_start_index,
            tick_array_upper_start_index,
        },
    )
}

} // verus!
