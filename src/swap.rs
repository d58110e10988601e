//! The swap engine: validates the price limit, then steps along the price
//! curve one initialized tick at a time until the specified amount is used up
//! or the price reaches the limit.
use vstd::prelude::*;

use std::collections::HashMap;

use crate::error::{MathError, SwapError};
use crate::int256::{fits_i256, two_pow_255, I256, U256};
use crate::liquidity::{add_delta_spec, cross_liquidity, crossing_delta};
use crate::tick::Tick;

verus! {

broadcast use vstd::std_specs::hash::group_hash_axioms;

/// The smallest tick whose square-root price is defined.
pub const MIN_TICK: i32 = -887272;

/// The largest tick whose square-root price is defined.
pub const MAX_TICK: i32 = 887272;

/// The square-root price at `MIN_TICK` (it fits in the low half).
pub const MIN_SQRT_RATIO_LO: u128 = 4295128739;

/// The high half of the square-root price at `MAX_TICK`.
pub const MAX_SQRT_RATIO_HI: u128 = 4294805859;

/// The low half of the square-root price at `MAX_TICK`.
pub const MAX_SQRT_RATIO_LO: u128 = 318775800626314356294205765087544249638;

pub open spec fn min_sqrt_ratio_spec() -> nat {
    4295128739
}

pub open spec fn max_sqrt_ratio_spec() -> nat {
    1461446703485210103287273052203988822378723970342nat
}

/// The smallest valid square-root price, in Q64.96.
pub fn min_sqrt_ratio() -> (r: U256)
    ensures
        r@ == min_sqrt_ratio_spec(),
{
    U256::from_u128(MIN_SQRT_RATIO_LO)
}

/// The largest valid square-root price, in Q64.96.
pub fn max_sqrt_ratio() -> (r: U256)
    ensures
        r@ == max_sqrt_ratio_spec(),
{
    U256::from_halves(MAX_SQRT_RATIO_HI, MAX_SQRT_RATIO_LO)
}

/// The pool's state just before the swap.
#[derive(Clone, Copy, Debug, PartialEq, Eq, Structural)]
pub struct Slot0 {
    /// The current square-root price, in Q64.96.
    pub sqrt_price: U256,
    /// The liquidity in range at the current price.
    pub liquidity: u128,
    /// The current tick.
    pub tick: i32,
}

/// What a swap owes and where it leaves the pool. A positive delta is owed to
/// the pool, a negative one to the swapper.
#[derive(Clone, Copy, Debug, PartialEq, Eq, Structural)]
pub struct SwapResult {
    pub amount0_delta: I256,
    pub amount1_delta: I256,
    pub sqrt_price_after: U256,
    pub liquidity_after: u128,
    pub tick_after: i32,
}

/// One bounded step of the swap, as the step math computes it.
#[derive(Clone, Copy, Debug, PartialEq, Eq, Structural)]
pub struct SwapStep {
    /// The price after the step.
    pub sqrt_price_next: U256,
    /// The amount of the input asset taken, fee excluded.
    pub amount_in: U256,
    /// The amount of the output asset given.
    pub amount_out: U256,
    /// The fee taken on the input.
    pub fee_amount: U256,
}

/// The fixed-point collaborators of the engine: the tick bitmap search, the
/// conversions between ticks and square-root prices, and the step math. Each
/// is a function of its arguments, named by a spec model that an
/// implementation defines; the engine checks what they return against the
/// bounds it relies on.
pub trait PoolMath {
    closed spec fn next_initialized_tick_model(
        &self,
        tick_bitmap: Map<i16, U256>,
        tick: i32,
        tick_spacing: i32,
        lte: bool,
    ) -> Result<(i32, bool), MathError> {
        arbitrary()
    }

    closed spec fn sqrt_ratio_at_tick_model(&self, tick: i32) -> Result<U256, MathError> {
        arbitrary()
    }

    closed spec fn tick_at_sqrt_ratio_model(&self, sqrt_price: U256) -> Result<i32, MathError> {
        arbitrary()
    }

    closed spec fn compute_swap_step_model(
        &self,
        sqrt_price_current: U256,
        sqrt_price_target: U256,
        liquidity: u128,
        amount_remaining: int,
        fee_pips: u32,
    ) -> Result<SwapStep, MathError> {
        arbitrary()
    }

    /// The nearest initialized tick from `tick` within its bitmap word: at or
    /// below `tick` when `lte`, strictly above it otherwise. Where the word
    /// holds none, its edge is returned with `false`.
    fn next_initialized_tick_within_one_word(
        &self,
        tick_bitmap: &HashMap<i16, U256>,
        tick: i32,
        tick_spacing: i32,
        lte: bool,
    ) -> (r: Result<(i32, bool), MathError>)
        ensures
            r == self.next_initialized_tick_model(tick_bitmap@, tick, tick_spacing, lte),
    ;

    /// The square-root price at a tick.
    fn sqrt_ratio_at_tick(&self, tick: i32) -> (r: Result<U256, MathError>)
        ensures
            r == self.sqrt_ratio_at_tick_model(tick),
    ;

    /// The greatest tick whose square-root price is at most `sqrt_price`.
    fn tick_at_sqrt_ratio(&self, sqrt_price: &U256) -> (r: Result<i32, MathError>)
        ensures
            r == self.tick_at_sqrt_ratio_model(*sqrt_price),
    ;

    /// One step from `sqrt_price_current` towards `sqrt_price_target` with
    /// `liquidity` in range. A positive `amount_remaining` is an exact input,
    /// a negative one an exact output.
    fn compute_swap_step(
        &self,
        sqrt_price_current: &U256,
        sqrt_price_target: &U256,
        liquidity: u128,
        amount_remaining: &I256,
        fee_pips: u32,
    ) -> (r: Result<SwapStep, MathError>)
        requires
            amount_remaining.wf(),
        ensures
            r == self.compute_swap_step_model(
                *sqrt_price_current,
                *sqrt_price_target,
                liquidity,
                amount_remaining@,
                fee_pips,
            ),
    ;
}

/// Which error, if any, the price limit draws, checked in this order.
pub open spec fn price_limit_check(zero_for_one: bool, limit: nat, current: nat) -> Result<
    (),
    SwapError,
> {
    if limit <= min_sqrt_ratio_spec() {
        Err(SwapError::PriceLimitBelowMin)
    } else if limit >= max_sqrt_ratio_spec() {
        Err(SwapError::PriceLimitAboveMax)
    } else if zero_for_one && limit >= current {
        Err(SwapError::PriceLimitNotBelowCurrent)
    } else if !zero_for_one && limit <= current {
        Err(SwapError::PriceLimitNotAboveCurrent)
    } else {
        Ok(())
    }
}

/// Checks that the price limit lies strictly inside the valid price range and
/// strictly on the side of the current price that the swap moves towards.
pub fn validate_price_limit(zero_for_one: bool, sqrt_price_limit: &U256, sqrt_price: &U256) -> (r:
    Result<(), SwapError>)
    ensures
        r == price_limit_check(zero_for_one, sqrt_price_limit@, sqrt_price@),
{
    if sqrt_price_limit.le(&min_sqrt_ratio()) {
        Err(SwapError::PriceLimitBelowMin)
    } else if max_sqrt_ratio().le(sqrt_price_limit) {
        Err(SwapError::PriceLimitAboveMax)
    } else if zero_for_one && sqrt_price.le(sqrt_price_limit) {
        Err(SwapError::PriceLimitNotBelowCurrent)
    } else if !zero_for_one && sqrt_price_limit.le(sqrt_price) {
        Err(SwapError::PriceLimitNotAboveCurrent)
    } else {
        Ok(())
    }
}

pub open spec fn clamp_tick_spec(tick: i32) -> i32 {
    if tick < MIN_TICK {
        MIN_TICK
    } else if tick > MAX_TICK {
        MAX_TICK
    } else {
        tick
    }
}

/// The tick moved into `MIN_TICK ..= MAX_TICK`.
pub fn clamp_tick(tick: i32) -> (r: i32)
    ensures
        r == clamp_tick_spec(tick),
        MIN_TICK <= r <= MAX_TICK,
{
    if tick < MIN_TICK {
        MIN_TICK
    } else if tick > MAX_TICK {
        MAX_TICK
    } else {
        tick
    }
}

/// Whether reaching `sqrt_price_next` would carry the price past the limit.
pub open spec fn passes_limit(zero_for_one: bool, sqrt_price_next: nat, limit: nat) -> bool {
    if zero_for_one {
        sqrt_price_next < limit
    } else {
        sqrt_price_next > limit
    }
}

/// Whether a tick's price lies behind the current price, against the swap's
/// direction.
pub open spec fn behind_current(zero_for_one: bool, sqrt_price_next: nat, current: nat) -> bool {
    if zero_for_one {
        sqrt_price_next > current
    } else {
        sqrt_price_next < current
    }
}

/// The price a step aims for: the next tick's price, or the limit where the
/// tick's price lies beyond the limit or behind the current price.
pub open spec fn target_spec(zero_for_one: bool, sqrt_price_next: U256, limit: U256, current: U256) -> U256 {
    if passes_limit(zero_for_one, sqrt_price_next@, limit@) || behind_current(
        zero_for_one,
        sqrt_price_next@,
        current@,
    ) {
        limit
    } else {
        sqrt_price_next
    }
}

/// The price a step aims for.
pub fn step_target_price(
    zero_for_one: bool,
    sqrt_price_next: &U256,
    sqrt_price_limit: &U256,
    current: &U256,
) -> (r: U256)
    ensures
        r == target_spec(zero_for_one, *sqrt_price_next, *sqrt_price_limit, *current),
{
    let aim_at_limit = if zero_for_one {
        sqrt_price_next.lt(sqrt_price_limit) || current.lt(sqrt_price_next)
    } else {
        sqrt_price_limit.lt(sqrt_price_next) || sqrt_price_next.lt(current)
    };
    if aim_at_limit {
        *sqrt_price_limit
    } else {
        *sqrt_price_next
    }
}

/// Whether a step from `current` towards `target` ended at `next`, between the two.
pub open spec fn within_step(zero_for_one: bool, current: nat, target: nat, next: nat) -> bool {
    if zero_for_one {
        target <= next <= current
    } else {
        current <= next <= target
    }
}

/// Checks that a step's price lies between its start and its target.
pub fn step_price_in_range(zero_for_one: bool, current: &U256, target: &U256, next: &U256) -> (r:
    bool)
    ensures
        r == within_step(zero_for_one, current@, target@, next@),
{
    if zero_for_one {
        target.le(next) && next.le(current)
    } else {
        current.le(next) && next.le(target)
    }
}

/// The running amounts after a step: for an exact input the input and fee
/// come off the remaining amount and the output off the calculated one; for an
/// exact output the output goes onto the remaining amount and the input and
/// fee onto the calculated one. A step that moves more than remains is
/// invalid; a calculated amount that leaves the signed range overflows.
pub open spec fn step_amounts_spec(
    exact_input: bool,
    remaining: int,
    calculated: int,
    amount_in: nat,
    amount_out: nat,
    fee_amount: nat,
) -> Result<(int, int), SwapError> {
    let consumed = amount_in + fee_amount;
    if exact_input {
        if consumed > remaining {
            Err(SwapError::InvalidStep)
        } else if !fits_i256(calculated - amount_out) {
            Err(SwapError::Overflow)
        } else {
            Ok((remaining - consumed, calculated - amount_out))
        }
    } else {
        if amount_out > -remaining {
            Err(SwapError::InvalidStep)
        } else if !fits_i256(calculated + consumed) {
            Err(SwapError::Overflow)
        } else {
            Ok((remaining + amount_out, calculated + consumed))
        }
    }
}

/// Updates the remaining and calculated amounts by one step.
pub fn apply_step_amounts(
    exact_input: bool,
    remaining: &I256,
    calculated: &I256,
    step: &SwapStep,
) -> (r: Result<(I256, I256), SwapError>)
    requires
        remaining.wf(),
        calculated.wf(),
        exact_input ==> remaining@ >= 0,
        !exact_input ==> remaining@ <= 0,
    ensures
        match r {
            Ok((rem, calc)) => rem.wf() && calc.wf() && step_amounts_spec(
                exact_input,
                remaining@,
                calculated@,
                step.amount_in@,
                step.amount_out@,
                step.fee_amount@,
            ) == Ok::<(int, int), SwapError>((rem@, calc@)),
            Err(e) => step_amounts_spec(
                exact_input,
                remaining@,
                calculated@,
                step.amount_in@,
                step.amount_out@,
                step.fee_amount@,
            ) == Err::<(int, int), SwapError>(e),
        },
{
    if exact_input {
        match step.amount_in.checked_add(&step.fee_amount) {
            None => Err(SwapError::InvalidStep),
            Some(consumed) => {
                if remaining.magnitude.lt(&consumed) {
                    Err(SwapError::InvalidStep)
                } else {
                    let rem = I256 { negative: false, magnitude: remaining.magnitude.sub(&consumed) };
                    match calculated.checked_sub_unsigned(&step.amount_out) {
                        None => Err(SwapError::Overflow),
                        Some(calc) => Ok((rem, calc)),
                    }
                }
            },
        }
    } else {
        if remaining.magnitude.lt(&step.amount_out) {
            Err(SwapError::InvalidStep)
        } else {
            let rest = remaining.magnitude.sub(&step.amount_out);
            let rem = if rest.is_zero() {
                I256::zero()
            } else {
                I256 { negative: true, magnitude: rest }
            };
            match step.amount_in.checked_add(&step.fee_amount) {
                None => {
                    assert(two_pow_255() + two_pow_255() == crate::int256::two_pow_256());
                    Err(SwapError::Overflow)
                },
                Some(consumed) => match calculated.checked_add_unsigned(&consumed) {
                    None => Err(SwapError::Overflow),
                    Some(calc) => Ok((rem, calc)),
                },
            }
        }
    }
}


/// The two asset deltas: the asset the amount was specified in moved by what
/// was used of it, the other by the calculated amount.
pub open spec fn final_deltas_spec(
    zero_for_one: bool,
    exact_input: bool,
    amount_specified: int,
    remaining: int,
    calculated: int,
) -> (int, int) {
    if zero_for_one == exact_input {
        (amount_specified - remaining, calculated)
    } else {
        (calculated, amount_specified - remaining)
    }
}

/// The delta of the asset in which the amount was specified.
pub open spec fn specified_delta(res: SwapResult, zero_for_one: bool, exact_input: bool) -> int {
    if zero_for_one == exact_input {
        res.amount0_delta@
    } else {
        res.amount1_delta@
    }
}

/// The delta of the other asset, the one the swap calculates.
pub open spec fn calculated_delta(res: SwapResult, zero_for_one: bool, exact_input: bool) -> int {
    if zero_for_one == exact_input {
        res.amount1_delta@
    } else {
        res.amount0_delta@
    }
}

/// The running state of a swap, in numbers.
pub struct SwapStateModel {
    pub remaining: int,
    pub calculated: int,
    pub sqrt_price: U256,
    pub tick: i32,
    pub liquidity: u128,
}

/// The running state of a swap: what is left of the specified amount, the
/// amount calculated so far, and the pool's price, tick and liquidity.
#[derive(Clone, Copy, Debug, PartialEq, Eq, Structural)]
pub struct SwapState {
    pub remaining: I256,
    pub calculated: I256,
    pub sqrt_price: U256,
    pub tick: i32,
    pub liquidity: u128,
}

impl View for SwapState {
    type V = SwapStateModel;

    open spec fn view(&self) -> SwapStateModel {
        SwapStateModel {
            remaining: self.remaining@,
            calculated: self.calculated@,
            sqrt_price: self.sqrt_price,
            tick: self.tick,
            liquidity: self.liquidity,
        }
    }
}

impl SwapState {
    pub open spec fn wf(&self) -> bool {
        self.remaining.wf() && self.calculated.wf()
    }
}

/// The state a swap starts from.
pub open spec fn initial_state(slot0: Slot0, amount_specified: int) -> SwapStateModel {
    SwapStateModel {
        remaining: amount_specified,
        calculated: 0,
        sqrt_price: slot0.sqrt_price,
        tick: slot0.tick,
        liquidity: slot0.liquidity,
    }
}

/// Whether the swap stops here: the amount is used up or the price is at the limit.
pub open spec fn finished(s: SwapStateModel, limit: U256) -> bool {
    s.remaining == 0 || s.sqrt_price@ == limit@
}

/// The tick after a step that ends on `tick_next`'s price: one below it when
/// the price falls.
pub open spec fn crossed_tick(zero_for_one: bool, tick_next: i32) -> i32 {
    if zero_for_one {
        (tick_next - 1) as i32
    } else {
        tick_next
    }
}

/// Whether the tick moved in the swap's direction.
pub open spec fn advanced(zero_for_one: bool, tick: i32, before: i32) -> bool {
    if zero_for_one {
        tick < before
    } else {
        tick > before
    }
}

/// The tick and liquidity after a step that ended at `price`. Reaching the
/// next tick's price crosses it, applying its net liquidity if it is
/// initialized; a partial move converts the new price to a tick; no move
/// keeps the tick.
pub open spec fn tick_update_spec<M: PoolMath>(
    math: M,
    ticks: Map<i32, Tick>,
    zero_for_one: bool,
    s: SwapStateModel,
    tick_next: i32,
    initialized: bool,
    sqrt_price_next: U256,
    price: U256,
) -> Result<(i32, u128), SwapError> {
    if price@ == sqrt_price_next@ {
        if initialized {
            if !ticks.contains_key(tick_next) {
                Err(SwapError::MissingTick)
            } else {
                match add_delta_spec(
                    s.liquidity,
                    crossing_delta(ticks[tick_next].liquidity_net, zero_for_one),
                ) {
                    Ok(l) => Ok((crossed_tick(zero_for_one, tick_next), l)),
                    Err(e) => Err(e),
                }
            }
        } else {
            Ok((crossed_tick(zero_for_one, tick_next), s.liquidity))
        }
    } else if price@ != s.sqrt_price@ {
        match math.tick_at_sqrt_ratio_model(price) {
            Ok(t) => Ok((t, s.liquidity)),
            Err(e) => Err(SwapError::Math(e)),
        }
    } else {
        Ok((s.tick, s.liquidity))
    }
}

/// One iteration of the swap from state `s`: find the next tick, clamp it,
/// aim for its price or the limit, take a step, update the amounts, then
/// cross the tick or convert the new price.
#[verifier::opaque]
pub open spec fn step_spec<M: PoolMath>(
    math: M,
    ticks: Map<i32, Tick>,
    tick_bitmap: Map<i16, U256>,
    tick_spacing: i32,
    zero_for_one: bool,
    exact_input: bool,
    limit: U256,
    fee: u32,
    s: SwapStateModel,
) -> Result<SwapStateModel, SwapError> {
    match math.next_initialized_tick_model(tick_bitmap, s.tick, tick_spacing, zero_for_one) {
        Err(e) => Err(SwapError::Math(e)),
        Ok((found, initialized)) => {
            let tick_next = clamp_tick_spec(found);
            match math.sqrt_ratio_at_tick_model(tick_next) {
                Err(e) => Err(SwapError::Math(e)),
                Ok(sqrt_price_next) => {
                    let target = target_spec(zero_for_one, sqrt_price_next, limit, s.sqrt_price);
                    match math.compute_swap_step_model(
                        s.sqrt_price,
                        target,
                        s.liquidity,
                        s.remaining,
                        fee,
                    ) {
                        Err(e) => Err(SwapError::Math(e)),
                        Ok(step) => if !within_step(
                            zero_for_one,
                            s.sqrt_price@,
                            target@,
                            step.sqrt_price_next@,
                        ) {
                            Err(SwapError::InvalidStep)
                        } else {
                            match step_amounts_spec(
                                exact_input,
                                s.remaining,
                                s.calculated,
                                step.amount_in@,
                                step.amount_out@,
                                step.fee_amount@,
                            ) {
                                Err(e) => Err(e),
                                Ok((remaining, calculated)) => match tick_update_spec(
                                    math,
                                    ticks,
                                    zero_for_one,
                                    s,
                                    tick_next,
                                    initialized,
                                    sqrt_price_next,
                                    step.sqrt_price_next,
                                ) {
                                    Err(e) => Err(e),
                                    Ok((tick, liquidity)) => if step.sqrt_price_next@
                                        == s.sqrt_price@ && remaining == s.remaining
                                        && !advanced(zero_for_one, tick, s.tick) {
                                        Err(SwapError::NoProgress)
                                    } else {
                                        Ok(
                                            SwapStateModel {
                                                remaining,
                                                calculated,
                                                sqrt_price: step.sqrt_price_next,
                                                tick,
                                                liquidity,
                                            },
                                        )
                                    },
                                },
                            }
                        },
                    }
                },
            }
        },
    }
}

/// What one successful step keeps: the price moves only towards the limit and
/// not past it, the remaining amount only towards zero, the calculated amount
/// only away from it, and a step that moves neither moves the tick.
pub open spec fn step_advances(
    zero_for_one: bool,
    exact_input: bool,
    limit: nat,
    s: SwapStateModel,
    n: SwapStateModel,
) -> bool {
    &&& (zero_for_one ==> limit <= n.sqrt_price@ <= s.sqrt_price@)
    &&& (!zero_for_one ==> s.sqrt_price@ <= n.sqrt_price@ <= limit)
    &&& (exact_input ==> 0 <= n.remaining <= s.remaining && n.calculated <= s.calculated)
    &&& (!exact_input ==> s.remaining <= n.remaining <= 0 && s.calculated <= n.calculated)
    &&& (n.sqrt_price@ == s.sqrt_price@ && n.remaining == s.remaining ==> advanced(
        zero_for_one,
        n.tick,
        s.tick,
    ))
}

/// Performs one iteration of the swap from `state`.
#[verifier::rlimit(60)]
pub fn swap_step<M: PoolMath>(
    math: &M,
    ticks: &HashMap<i32, Tick>,
    tick_bitmap: &HashMap<i16, U256>,
    tick_spacing: i32,
    zero_for_one: bool,
    exact_input: bool,
    sqrt_price_limit: &U256,
    fee: u32,
    state: &SwapState,
) -> (r: Result<SwapState, SwapError>)
    requires
        state.wf(),
        exact_input ==> state.remaining@ >= 0,
        !exact_input ==> state.remaining@ <= 0,
    ensures
        match r {
            Ok(n) => n.wf() && step_spec(
                *math,
                ticks@,
                tick_bitmap@,
                tick_spacing,
                zero_for_one,
                exact_input,
                *sqrt_price_limit,
                fee,
                state@,
            ) == Ok::<SwapStateModel, SwapError>(n@),
            Err(e) => !e.is_limit_error() && step_spec(
                *math,
                ticks@,
                tick_bitmap@,
                tick_spacing,
                zero_for_one,
                exact_input,
                *sqrt_price_limit,
                fee,
                state@,
            ) == Err::<SwapStateModel, SwapError>(e),
        },
        r matches Ok(n) ==> step_advances(
            zero_for_one,
            exact_input,
            sqrt_price_limit@,
            state@,
            n@,
        ),
{
    reveal(step_spec);
    let (found, initialized) = match math.next_initialized_tick_within_one_word(
        tick_bitmap,
        state.tick,
        tick_spacing,
        zero_for_one,
    ) {
        Ok(found) => found,
        Err(e) => {
            return Err(SwapError::Math(e));
        },
    };
    let tick_next = clamp_tick(found);
    let sqrt_price_next = match math.sqrt_ratio_at_tick(tick_next) {
        Ok(p) => p,
        Err(e) => {
            return Err(SwapError::Math(e));
        },
    };
    let target = step_target_price(zero_for_one, &sqrt_price_next, sqrt_price_limit, &state.sqrt_price);
    let step = match math.compute_swap_step(
        &state.sqrt_price,
        &target,
        state.liquidity,
        &state.remaining,
        fee,
    ) {
        Ok(step) => step,
        Err(e) => {
            return Err(SwapError::Math(e));
        },
    };
    if !step_price_in_range(zero_for_one, &state.sqrt_price, &target, &step.sqrt_price_next) {
        return Err(SwapError::InvalidStep);
    }
    let (remaining, calculated) = match apply_step_amounts(
        exact_input,
        &state.remaining,
        &state.calculated,
        &step,
    ) {
        Ok(amounts) => amounts,
        Err(e) => {
            return Err(e);
        },
    };
    let price = step.sqrt_price_next;
    let (tick, liquidity) = if price.eq(&sqrt_price_next) {
        let tick: i32 = if zero_for_one {
            tick_next - 1
        } else {
            tick_next
        };
        if initialized {
            let liquidity_net = match ticks.get(&tick_next) {
                Some(t) => t.liquidity_net,
                None => {
                    return Err(SwapError::MissingTick);
                },
            };
            match cross_liquidity(state.liquidity, liquidity_net, zero_for_one) {
                Ok(l) => (tick, l),
                Err(e) => {
                    return Err(e);
                },
            }
        } else {
            (tick, state.liquidity)
        }
    } else if !price.eq(&state.sqrt_price) {
        match math.tick_at_sqrt_ratio(&price) {
            Ok(t) => (t, state.liquidity),
            Err(e) => {
                return Err(SwapError::Math(e));
            },
        }
    } else {
        (state.tick, state.liquidity)
    };
    let moved_tick = if zero_for_one {
        tick < state.tick
    } else {
        tick > state.tick
    };
    if price.eq(&state.sqrt_price) && remaining.same_value(&state.remaining) && !moved_tick {
        return Err(SwapError::NoProgress);
    }
    Ok(SwapState { remaining, calculated, sqrt_price: price, tick, liquidity })
}

/// Whether `trace` is a run of the swap: each state is unfinished and steps
/// to the next.
pub open spec fn is_run<M: PoolMath>(
    math: M,
    ticks: Map<i32, Tick>,
    tick_bitmap: Map<i16, U256>,
    tick_spacing: i32,
    zero_for_one: bool,
    exact_input: bool,
    limit: U256,
    fee: u32,
    trace: Seq<SwapStateModel>,
) -> bool {
    &&& trace.len() > 0
    &&& forall|i: int|
        0 <= i < trace.len() - 1 ==> !finished(#[trigger] trace[i], limit) && step_spec(
            math,
            ticks,
            tick_bitmap,
            tick_spacing,
            zero_for_one,
            exact_input,
            limit,
            fee,
            trace[i],
        ) == Ok::<SwapStateModel, SwapError>(trace[i + 1])
}

/// The result of a run that stops at its last state: the deltas and the pool's
/// state where it finished, else the error of the step from it.
pub open spec fn run_result_agrees<M: PoolMath>(
    r: Result<SwapResult, SwapError>,
    math: M,
    ticks: Map<i32, Tick>,
    tick_bitmap: Map<i16, U256>,
    tick_spacing: i32,
    zero_for_one: bool,
    amount_specified: int,
    limit: U256,
    fee: u32,
    trace: Seq<SwapStateModel>,
) -> bool {
    let exact_input = amount_specified > 0;
    let last = trace.last();
    let deltas = final_deltas_spec(
        zero_for_one,
        exact_input,
        amount_specified,
        last.remaining,
        last.calculated,
    );
    if finished(last, limit) {
        (r matches Ok(res) && res.amount0_delta@ == deltas.0 && res.amount1_delta@ == deltas.1
            && res.sqrt_price_after == last.sqrt_price && res.liquidity_after == last.liquidity
            && res.tick_after == last.tick)
    } else {
        match step_spec(
            math,
            ticks,
            tick_bitmap,
            tick_spacing,
            zero_for_one,
            exact_input,
            limit,
            fee,
            last,
        ) {
            Err(e) => r == Err::<SwapResult, SwapError>(e),
            Ok(_) => false,
        }
    }
}

/// Whether `trace` is the run of the swap from `slot0`, and `r` its result.
/// The steps are functions of their state, so there is one such run.
pub open spec fn run_explains<M: PoolMath>(
    r: Result<SwapResult, SwapError>,
    math: M,
    ticks: Map<i32, Tick>,
    tick_bitmap: Map<i16, U256>,
    tick_spacing: i32,
    zero_for_one: bool,
    amount_specified: int,
    limit: U256,
    fee: u32,
    slot0: Slot0,
    trace: Seq<SwapStateModel>,
) -> bool {
    &&& is_run(
        math,
        ticks,
        tick_bitmap,
        tick_spacing,
        zero_for_one,
        amount_specified > 0,
        limit,
        fee,
        trace,
    )
    &&& trace[0] == initial_state(slot0, amount_specified)
    &&& run_result_agrees(
        r,
        math,
        ticks,
        tick_bitmap,
        tick_spacing,
        zero_for_one,
        amount_specified,
        limit,
        fee,
        trace,
    )
}

/// What every successful swap satisfies.
pub open spec fn swap_outcome(
    zero_for_one: bool,
    amount_specified: int,
    sqrt_price_limit: nat,
    slot0: Slot0,
    res: SwapResult,
) -> bool {
    let exact_input = amount_specified > 0;
    let spent = specified_delta(res, zero_for_one, exact_input);
    let calc = calculated_delta(res, zero_for_one, exact_input);
    &&& res.amount0_delta.wf()
    &&& res.amount1_delta.wf()
    // the swap stops only once the amount is used up or the limit is reached
    &&& (spent == amount_specified || res.sqrt_price_after@ == sqrt_price_limit)
    // the price moves only in the swap's direction, and not past the limit
    &&& (zero_for_one ==> sqrt_price_limit <= res.sqrt_price_after@ <= slot0.sqrt_price@)
    &&& (!zero_for_one ==> slot0.sqrt_price@ <= res.sqrt_price_after@ <= sqrt_price_limit)
    // an exact input is used at most in full and buys no more than is given;
    // an exact output is received at most in full and is paid for
    &&& (exact_input ==> 0 <= spent <= amount_specified && calc <= 0)
    &&& (!exact_input ==> amount_specified <= spent <= 0 && calc >= 0)
}

/// Evaluates one swap of `amount_specified` (an exact input where positive, an
/// exact output otherwise) in the direction `zero_for_one`, stopping at
/// `sqrt_price_limit`. `ticks` and `tick_bitmap` are only read.
///
/// The price limit is checked before anything else. Then `swap_step` runs
/// until the amount is used up or the price is at the limit, and the first
/// error of a step ends the swap: a collaborator's failure, an initialized
/// tick missing from `ticks` (`MissingTick`), a step outside its bounds
/// (`InvalidStep`), or a step that changes nothing (`NoProgress`).
#[verifier::rlimit(60)]
pub fn swap<M: PoolMath>(
    math: &M,
    ticks: &HashMap<i32, Tick>,
    tick_bitmap: &HashMap<i16, U256>,
    tick_spacing: i32,
    zero_for_one: bool,
    amount_specified: I256,
    sqrt_price_limit: U256,
    slot0: &Slot0,
    fee: u32,
) -> (r: Result<SwapResult, SwapError>)
    requires
        amount_specified.wf(),
    ensures
        price_limit_check(zero_for_one, sqrt_price_limit@, slot0.sqrt_price@) matches Err(e) ==> r
            == Err::<SwapResult, SwapError>(e),
        r matches Err(e) ==> (e.is_limit_error() ==> price_limit_check(
            zero_for_one,
            sqrt_price_limit@,
            slot0.sqrt_price@,
        ) == Err::<(), SwapError>(e)),
        price_limit_check(zero_for_one, sqrt_price_limit@, slot0.sqrt_price@) is Ok ==> exists|
            trace: Seq<SwapStateModel>,
        |
            #[trigger] run_explains(
                r,
                *math,
                ticks@,
                tick_bitmap@,
                tick_spacing,
                zero_for_one,
                amount_specified@,
                sqrt_price_limit,
                fee,
                *slot0,
                trace,
            ),
        r matches Ok(res) ==> swap_outcome(
            zero_for_one,
            amount_specified@,
            sqrt_price_limit@,
            *slot0,
            res,
        ),
        amount_specified@ == 0 && price_limit_check(
            zero_for_one,
            sqrt_price_limit@,
            slot0.sqrt_price@,
        ) is Ok ==> (r matches Ok(res) && res.amount0_delta@ == 0 && res.amount1_delta@ == 0
            && res.sqrt_price_after == slot0.sqrt_price && res.liquidity_after == slot0.liquidity
            && res.tick_after == slot0.tick),
{
    match validate_price_limit(zero_for_one, &sqrt_price_limit, &slot0.sqrt_price) {
        Err(e) => {
            return Err(e);
        },
        Ok(()) => {},
    }
    let exact_input = amount_specified.is_positive();
    let mut state = SwapState {
        remaining: amount_specified,
        calculated: I256::zero(),
        sqrt_price: slot0.sqrt_price,
        tick: slot0.tick,
        liquidity: slot0.liquidity,
    };
    let ghost mut trace: Seq<SwapStateModel> = seq![state@];
    while !state.remaining.is_zero() && !state.sqrt_price.eq(&sqrt_price_limit)
        invariant
            amount_specified.wf(),
            price_limit_check(zero_for_one, sqrt_price_limit@, slot0.sqrt_price@) is Ok,
            exact_input == (amount_specified@ > 0),
            state.wf(),
            exact_input ==> 0 <= state.remaining@ <= amount_specified@ && state.calculated@ <= 0,
            !exact_input ==> amount_specified@ <= state.remaining@ <= 0 && state.calculated@ >= 0,
            zero_for_one ==> sqrt_price_limit@ <= state.sqrt_price@ <= slot0.sqrt_price@,
            !zero_for_one ==> slot0.sqrt_price@ <= state.sqrt_price@ <= sqrt_price_limit@,
            amount_specified@ == 0 ==> state@ == initial_state(*slot0, amount_specified@),
            is_run(
                *math,
                ticks@,
                tick_bitmap@,
                tick_spacing,
                zero_for_one,
                exact_input,
                sqrt_price_limit,
                fee,
                trace,
            ),
            trace[0] == initial_state(*slot0, amount_specified@),
            trace.last() == state@,
        decreases
            if zero_for_one {
                state.sqrt_price@ - sqrt_price_limit@
            } else {
                sqrt_price_limit@ - state.sqrt_price@
            },
            if state.remaining@ >= 0 {
                state.remaining@
            } else {
                -state.remaining@
            },
            if zero_for_one {
                state.tick - i32::MIN
            } else {
                i32::MAX - state.tick
            },
    {
        let next = match swap_step(
            math,
            ticks,
            tick_bitmap,
            tick_spacing,
            zero_for_one,
            exact_input,
            &sqrt_price_limit,
            fee,
            &state,
        ) {
            Ok(n) => n,
            Err(e) => {
                assert(run_explains(
                    Err(e),
                    *math,
                    ticks@,
                    tick_bitmap@,
                    tick_spacing,
                    zero_for_one,
                    amount_specified@,
                    sqrt_price_limit,
                    fee,
                    *slot0,
                    trace,
                ));
                return Err(e);
            },
        };
        proof {
            let before = trace;
            trace = trace.push(next@);
            assert forall|i: int| 0 <= i < trace.len() - 1 implies !finished(
                #[trigger] trace[i],
                sqrt_price_limit,
            ) && step_spec(
                *math,
                ticks@,
                tick_bitmap@,
                tick_spacing,
                zero_for_one,
                exact_input,
                sqrt_price_limit,
                fee,
                trace[i],
            ) == Ok::<SwapStateModel, SwapError>(trace[i + 1]) by {
                if i < before.len() - 1 {
                    assert(trace[i] == before[i]);
                    assert(trace[i + 1] == before[i + 1]);
                } else {
                    assert(trace[i] == state@);
                }
            }
        }
        state = next;
    }
    let spent = match amount_specified.checked_sub(&state.remaining) {
        Some(v) => v,
        None => {
            return Err(SwapError::Overflow);
        },
    };
    let (amount0_delta, amount1_delta) = if zero_for_one == exact_input {
        (spent, state.calculated)
    } else {
        (state.calculated, spent)
    };
    let res = SwapResult {
        amount0_delta,
        amount1_delta,
        sqrt_price_after: state.sqrt_price,
        liquidity_after: state.liquidity,
        tick_after: state.tick,
    };
    assert(run_explains(
        Ok(res),
        *math,
        ticks@,
        tick_bitmap@,
        tick_spacing,
        zero_for_one,
        amount_specified@,
        sqrt_price_limit,
        fee,
        *slot0,
        trace,
    ));
    Ok(res)
}

/// Selling asset 0 for an exact input, the swapper pays asset 0 to the pool,
/// no more than specified, and receives asset 1; the amount paid is positive
/// unless the price stopped at the limit.
pub proof fn lemma_exact_input_sell_signs(
    amount_specified: int,
    sqrt_price_limit: nat,
    slot0: Slot0,
    res: SwapResult,
)
    requires
        amount_specified > 0,
        swap_outcome(true, amount_specified, sqrt_price_limit, slot0, res),
    ensures
        0 <= res.amount0_delta@ <= amount_specified,
        res.amount1_delta@ <= 0,
        res.amount0_delta@ > 0 || res.sqrt_price_after@ == sqrt_price_limit,
{
}

} // verus!
