//! The per-boundary record of a pool.
use vstd::prelude::*;

use crate::int256::U256;

verus! {

/// What a pool keeps for one initialized price boundary.
#[derive(Clone, Copy, Debug, PartialEq, Eq, Structural)]
pub struct Tick {
    /// The total position liquidity that references this tick.
    pub liquidity_gross: u128,
    /// Liquidity added when the price crosses this tick upwards, and removed
    /// when it crosses it downwards.
    pub liquidity_net: i128,
    /// Fee growth per unit of liquidity on the other side of this tick.
    pub fee_growth_outside_0_x_128: U256,
    pub fee_growth_outside_1_x_128: U256,
    /// The cumulative tick value on the other side of this tick.
    pub tick_cumulative_outside: U256,
    /// Seconds per unit of liquidity on the other side of this tick.
    pub seconds_per_liquidity_outside_x_128: U256,
    /// Seconds spent on the other side of this tick.
    pub seconds_outside: u32,
    /// Whether any position references this tick.
    pub initialized: bool,
}

impl Tick {
    /// A tick is initialized exactly when some liquidity references it.
    pub open spec fn wf(&self) -> bool {
        self.initialized <==> self.liquidity_gross != 0
    }

    /// Whether the record keeps its invariant.
    pub fn is_well_formed(&self) -> (r: bool)
        ensures
            r == self.wf(),
    {
        self.initialized == (self.liquidity_gross != 0)
    }
}

} // verus!
