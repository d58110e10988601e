//! A verified engine for one swap on a concentrated-liquidity pool: it walks
//! the price curve tick by tick and reports the amounts exchanged and the
//! pool's price, tick and liquidity afterwards.
use vstd::prelude::*;

pub mod error;
pub mod int256;
pub mod liquidity;
pub mod swap;
pub mod tick;

verus! {

} // verus!
