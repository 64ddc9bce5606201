//! Fixed numbers of the pool program.
use vstd::prelude::*;

verus! {

/// Scale of the swap fee rate: the rate is in parts per million.
pub const SWAP_FEES_DENOMINATION: u32 = 1000000;

/// LP tokens that pool creation keeps back; deposits count them in the
/// LP supply.
pub const LOCKED_LP: u64 = 100;

} // verus!
