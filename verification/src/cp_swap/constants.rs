//! Fixed numbers of the pool program.
use vstd::prelude::*;

verus! {

/// Liquidity that pool creation locks: the creator receives the initial
/// liquidity less this amount.
pub const MINIMUM_LIQUIDITY: u64 = 100;

/// Highest swap fee rate that an update may set, in basis points.
pub const MAX_SWAP_FEES_BASIS_POINTS: u16 = 10000;

} // verus!
