//! Pool state and its swap fee.
use crate::cp_swapp::constants::SWAP_FEES_DENOMINATION;
use crate::math::{ceil_div, lemma_ceil_div};
use crate::token_mint::Key;
use vstd::prelude::*;

verus! {

/// A pool of two mints with a fee rate.
#[derive(Clone, Copy, Debug, PartialEq, Eq)]
pub struct Pool {
    /// Mint A.
    pub mint_a: Key,
    /// Mint B.
    pub mint_b: Key,
    /// Swap fee rate, in parts per million.
    pub fees_in_ppm: u32,
    /// Bump of the pool's address.
    pub bump: u8,
}

impl Pool {
    /// Swap fee on `net_input_amount`: `ceil(amount * rate / 1_000_000)`.
    pub open spec fn spec_swap_fees(self, net_input_amount: int) -> int {
        ceil_div(net_input_amount * self.fees_in_ppm, SWAP_FEES_DENOMINATION as int)
    }

    /// Swap fee charged on `net_input_amount`, rounded up.
    pub fn swap_fees(&self, net_input_amount: u64) -> (fee: u64)
        requires
            self.spec_swap_fees(net_input_amount as int) <= u64::MAX,
        ensures
            fee == self.spec_swap_fees(net_input_amount as int),
    {
        let product: u128 = (net_input_amount as u128) * (self.fees_in_ppm as u128);
        let dividend = product / (SWAP_FEES_DENOMINATION as u128);
        let remainder = product % (SWAP_FEES_DENOMINATION as u128);
        proof {
            lemma_ceil_div(net_input_amount * self.fees_in_ppm, SWAP_FEES_DENOMINATION as int);
        }
        let mut swap_fees = dividend;
        if remainder > 0 {
            swap_fees = swap_fees + 1;
        }
        swap_fees as u64
    }
}

/// With a rate of at most 100%, the swap fee never exceeds the amount.
pub proof fn lemma_swap_fees_within_amount(pool: Pool, amount: int)
    requires
        pool.fees_in_ppm <= SWAP_FEES_DENOMINATION,
        amount >= 0,
    ensures
        0 <= pool.spec_swap_fees(amount) <= amount,
{
    let n = amount * pool.fees_in_ppm;
    assert(0 <= n <= amount * 1000000) by (nonlinear_arith)
        requires
            0 <= pool.fees_in_ppm <= 1000000,
            amount >= 0,
            n == amount * pool.fees_in_ppm,
    ;
    lemma_ceil_div(n, 1000000);
    let c = ceil_div(n, 1000000);
    assert(c <= amount) by (nonlinear_arith)
        requires
            c * 1000000 < n + 1000000,
            n <= amount * 1000000,
    ;
}

} // verus!
