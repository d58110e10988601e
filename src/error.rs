//! Why a swap could not be evaluated.
use vstd::prelude::*;

verus! {

/// A failure of one of the engine's fixed-point collaborators.
#[derive(Clone, Copy, Debug, PartialEq, Eq, Structural)]
pub enum MathError {
    /// A tick index has no square-root price.
    TickOutOfRange,
    /// A square-root price has no tick index.
    PriceOutOfRange,
    /// The tick bitmap could not be searched.
    BitmapLookup,
    /// The swap-step math failed.
    StepMath,
}

#[derive(Clone, Copy, Debug, PartialEq, Eq, Structural)]
pub enum SwapError {
    /// The price limit is at or below the smallest valid square-root price.
    PriceLimitBelowMin,
    /// The price limit is at or above the largest valid square-root price.
    PriceLimitAboveMax,
    /// Selling asset 0, but the price limit is not below the current price.
    PriceLimitNotBelowCurrent,
    /// Selling asset 1, but the price limit is not above the current price.
    PriceLimitNotAboveCurrent,
    /// A negative liquidity delta would take liquidity below zero.
    LiquiditySub,
    /// A positive liquidity delta would take liquidity past `u128::MAX`.
    LiquidityAdd,
    /// A running amount left the signed 256-bit range.
    Overflow,
    /// The bitmap reported an initialized tick that the tick map does not hold.
    MissingTick,
    /// A collaborator of the engine failed.
    Math(MathError),
    /// The swap-step math returned a price outside the step's range, or moved
    /// more of the specified amount than remained.
    InvalidStep,
    /// A step moved neither the price, the remaining amount, nor the tick.
    NoProgress,
}

impl SwapError {
    /// Whether this is one of the errors of the price limit's validation.
    pub open spec fn is_limit_error(self) -> bool {
        self is PriceLimitBelowMin || self is PriceLimitAboveMax || self is PriceLimitNotBelowCurrent
            || self is PriceLimitNotAboveCurrent
    }
}

} // verus!
