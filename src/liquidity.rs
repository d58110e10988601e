//! Checked application of a signed liquidity delta.
use vstd::prelude::*;

use crate::error::SwapError;

verus! {

/// The result of adding `delta` to `liquidity`: the sum where it fits in a
/// `u128`, else the error for the direction of the delta.
pub open spec fn add_delta_spec(liquidity: u128, delta: int) -> Result<u128, SwapError> {
    let sum = liquidity as int + delta;
    if sum < 0 {
        Err(SwapError::LiquiditySub)
    } else if sum > u128::MAX as int {
        Err(SwapError::LiquidityAdd)
    } else {
        Ok(sum as u128)
    }
}

/// The liquidity delta that crossing a tick applies: its net liquidity when
/// the price rises, the negation when it falls.
pub open spec fn crossing_delta(liquidity_net: i128, zero_for_one: bool) -> int {
    if zero_for_one {
        -(liquidity_net as int)
    } else {
        liquidity_net as int
    }
}

/// Adds or removes `amount` of liquidity, checked.
fn apply_magnitude(liquidity: u128, increase: bool, amount: u128) -> (r: Result<u128, SwapError>)
    ensures
        r == add_delta_spec(
            liquidity,
            if increase {
                amount as int
            } else {
                -(amount as int)
            },
        ),
{
    if increase {
        if liquidity <= u128::MAX - amount {
            Ok(liquidity + amount)
        } else {
            Err(SwapError::LiquidityAdd)
        }
    } else if amount <= liquidity {
        Ok(liquidity - amount)
    } else {
        Err(SwapError::LiquiditySub)
    }
}

/// The magnitude of a signed 128-bit value.
fn magnitude_i128(v: i128) -> (r: u128)
    ensures
        r as int == if v < 0 {
            -(v as int)
        } else {
            v as int
        },
{
    if v >= 0 {
        v as u128
    } else if v == i128::MIN {
        0x8000_0000_0000_0000_0000_0000_0000_0000u128
    } else {
        (-v) as u128
    }
}

/// Adds a signed delta to a liquidity amount, failing where the result would
/// fall below zero or exceed `u128::MAX`.
pub fn add_delta(liquidity: u128, delta: i128) -> (r: Result<u128, SwapError>)
    ensures
        r == add_delta_spec(liquidity, delta as int),
{
    apply_magnitude(liquidity, delta >= 0, magnitude_i128(delta))
}

/// The liquidity after crossing a tick with net liquidity `liquidity_net` in
/// the direction of the swap.
pub fn cross_liquidity(liquidity: u128, liquidity_net: i128, zero_for_one: bool) -> (r: Result<
    u128,
    SwapError,
>)
    ensures
        r == add_delta_spec(liquidity, crossing_delta(liquidity_net, zero_for_one)),
{
    let increase = if zero_for_one {
        liquidity_net <= 0
    } else {
        liquidity_net >= 0
    };
    apply_magnitude(liquidity, increase, magnitude_i128(liquidity_net))
}

} // verus!
