use vstd::prelude::*;

pub mod asset;
pub mod dec;
pub mod error;
pub mod factory;
pub mod pair;
pub mod strutil;

verus! {

/// The smallest amount of liquidity a pool may be seeded with.
pub const MINIMUM_LIQUIDITY_AMOUNT: u128 = 1_000;

} // verus!
