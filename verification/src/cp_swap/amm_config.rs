//! Pool configuration and the swap fee that it charges.
use crate::math::{ceil_div, lemma_ceil_div};
use crate::token_mint::Key;
use crate::transfer_fee::MAX_FEE_BASIS_POINTS;
use vstd::prelude::*;

verus! {

/// Settings shared by the pools created under one config.
#[derive(Clone, Copy, Debug, PartialEq, Eq)]
pub struct AmmConfig {
    /// New pools may not be created under this config.
    pub disable_create_pool: bool,
    /// Swap fee rate, in basis points.
    pub swap_fee_rate_in_bps: u16,
    /// Who may change the config; nobody when `None`.
    pub update_authority: Option<Key>,
    /// The swap fee is taken from the input side (else from the output side).
    pub fee_side_input: bool,
}

impl AmmConfig {
    /// The swap fee is taken from what the pool pays out.
    pub open spec fn spec_fee_side_receive(self) -> bool {
        !self.fee_side_input
    }

    /// The swap fee is taken from what the pool pays out.
    pub fn is_fee_side_receive(&self) -> (r: bool)
        ensures
            r == self.spec_fee_side_receive(),
    {
        !self.fee_side_input
    }

    /// Swap fee on `pre_fee_amount`: `ceil(amount * rate / 10000)`.
    pub open spec fn spec_fee(self, pre_fee_amount: int) -> int {
        ceil_div(pre_fee_amount * self.swap_fee_rate_in_bps, MAX_FEE_BASIS_POINTS as int)
    }

    /// The fee of `pre_fee_amount` can be computed in 64 bits.
    pub open spec fn fee_computable(self, pre_fee_amount: int) -> bool {
        pre_fee_amount * self.swap_fee_rate_in_bps + MAX_FEE_BASIS_POINTS <= u64::MAX
    }

    /// The amount after the fee is defined: the fee is computable and does
    /// not exceed the amount.
    pub open spec fn post_fee_computable(self, pre_fee_amount: int) -> bool {
        self.fee_computable(pre_fee_amount) && self.spec_fee(pre_fee_amount) <= pre_fee_amount
    }

    /// Least amount whose post-fee amount is at least `post_fee_amount`:
    /// `ceil(amount * 10000 / (10000 - rate))`.
    pub open spec fn spec_pre_fee_amount(self, post_fee_amount: int) -> int {
        ceil_div(
            post_fee_amount * MAX_FEE_BASIS_POINTS,
            MAX_FEE_BASIS_POINTS - self.swap_fee_rate_in_bps,
        )
    }

    /// `pre_fee_amount` is the least amount whose value after the swap fee
    /// reaches `post_fee_amount`, and that value is exactly `post_fee_amount`.
    pub open spec fn is_least_pre_fee(self, post_fee_amount: int, pre_fee_amount: int) -> bool {
        &&& pre_fee_amount >= 0
        &&& pre_fee_amount - self.spec_fee(pre_fee_amount) == post_fee_amount
        &&& forall|q: int|
            0 <= q < pre_fee_amount ==> q - #[trigger] self.spec_fee(q) < post_fee_amount
    }

    /// The pre-fee amount of `post_fee_amount` can be computed in 64 bits
    /// (which needs a rate below 100%).
    pub open spec fn pre_fee_computable(self, post_fee_amount: int) -> bool {
        &&& self.swap_fee_rate_in_bps < MAX_FEE_BASIS_POINTS
        &&& post_fee_amount * MAX_FEE_BASIS_POINTS + (MAX_FEE_BASIS_POINTS
            - self.swap_fee_rate_in_bps) <= u64::MAX
    }

    fn ceil_div(numerator: u64, denominator: u64) -> (q: u64)
        requires
            denominator > 0,
            numerator + denominator <= u64::MAX,
        ensures
            q == ceil_div(numerator as int, denominator as int),
    {
        (numerator + denominator - 1) / denominator
    }

    /// Swap fee charged on `pre_fee_amount`, rounded up.
    pub fn calculate_fee(&self, pre_fee_amount: u64) -> (fee: u64)
        requires
            self.fee_computable(pre_fee_amount as int),
        ensures
            fee == self.spec_fee(pre_fee_amount as int),
    {
        let numerator = pre_fee_amount * (self.swap_fee_rate_in_bps as u64);
        Self::ceil_div(numerator, MAX_FEE_BASIS_POINTS as u64)
    }

    /// What remains of `pre_fee_amount` after the swap fee.
    pub fn calculate_post_fee_amount(&self, pre_fee_amount: u64) -> (amount: u64)
        requires
            self.post_fee_computable(pre_fee_amount as int),
        ensures
            amount == pre_fee_amount - self.spec_fee(pre_fee_amount as int),
    {
        pre_fee_amount - self.calculate_fee(pre_fee_amount)
    }

    /// Amount that, less the swap fee, leaves at least `post_fee_amount`.
    pub fn calculate_pre_fee_amount(&self, post_fee_amount: u64) -> (amount: u64)
        requires
            self.pre_fee_computable(post_fee_amount as int),
        ensures
            amount == self.spec_pre_fee_amount(post_fee_amount as int),
    {
        let numerator = post_fee_amount * (MAX_FEE_BASIS_POINTS as u64);
        let denominator = (MAX_FEE_BASIS_POINTS as u64) - (self.swap_fee_rate_in_bps as u64);
        Self::ceil_div(numerator, denominator)
    }

    /// Swap fee included in the pre-fee amount of `post_fee_amount`.
    pub fn calculate_inverse_fee(&self, post_fee_amount: u64) -> (fee: u64)
        requires
            self.pre_fee_computable(post_fee_amount as int),
        ensures
            fee == self.spec_pre_fee_amount(post_fee_amount as int) - post_fee_amount,
    {
        let pre_fee_amount = self.calculate_pre_fee_amount(post_fee_amount);
        proof {
            lemma_pre_fee_amount_covers(*self, post_fee_amount as int);
        }
        pre_fee_amount - post_fee_amount
    }
}

/// With a rate of at most 100%, the swap fee never exceeds the amount, so
/// the post-fee amount is defined whenever the fee fits in 64 bits.
pub proof fn lemma_fee_within_amount(config: AmmConfig, amount: int)
    requires
        config.swap_fee_rate_in_bps <= MAX_FEE_BASIS_POINTS,
        amount >= 0,
    ensures
        0 <= config.spec_fee(amount) <= amount,
{
    let rate = config.swap_fee_rate_in_bps as int;
    let n = amount * rate;
    assert(0 <= n <= amount * 10000) by (nonlinear_arith)
        requires
            0 <= rate <= 10000,
            amount >= 0,
            n == amount * rate,
    ;
    lemma_ceil_div(n, 10000);
    let c = ceil_div(n, 10000);
    assert(c <= amount) by (nonlinear_arith)
        requires
            c * 10000 < n + 10000,
            n <= amount * 10000,
    ;
}

/// The pre-fee amount is at least the post-fee amount it was asked for.
pub proof fn lemma_pre_fee_amount_covers(config: AmmConfig, post_fee_amount: int)
    requires
        config.swap_fee_rate_in_bps < MAX_FEE_BASIS_POINTS,
        post_fee_amount >= 0,
    ensures
        config.spec_pre_fee_amount(post_fee_amount) >= post_fee_amount,
        config.spec_pre_fee_amount(post_fee_amount) * (MAX_FEE_BASIS_POINTS
            - config.swap_fee_rate_in_bps) >= post_fee_amount * MAX_FEE_BASIS_POINTS,
{
    let d = 10000 - config.swap_fee_rate_in_bps;
    let n = post_fee_amount * 10000;
    lemma_ceil_div(n, d);
    let c = ceil_div(n, d);
    assert(c >= post_fee_amount) by (nonlinear_arith)
        requires
            c * d >= n,
            n == post_fee_amount * 10000,
            0 < d <= 10000,
            post_fee_amount >= 0,
    ;
}

/// Charging the swap fee on the pre-fee amount of `x` leaves exactly `x`:
/// the pre-fee amount is the post-fee amount plus its own fee.
pub proof fn lemma_pre_fee_round_trip(config: AmmConfig, x: int)
    requires
        config.swap_fee_rate_in_bps < MAX_FEE_BASIS_POINTS,
        x >= 0,
    ensures
        config.spec_pre_fee_amount(x) - config.spec_fee(config.spec_pre_fee_amount(x)) == x,
{
    let rate = config.swap_fee_rate_in_bps as int;
    let d = 10000 - rate;
    let pre = config.spec_pre_fee_amount(x);
    lemma_ceil_div(x * 10000, d);
    lemma_pre_fee_amount_covers(config, x);
    let n = pre * rate;
    assert(n >= 0) by (nonlinear_arith)
        requires pre >= 0, rate >= 0, n == pre * rate;
    lemma_ceil_div(n, 10000);
    let fee = ceil_div(n, 10000);
    let k = pre - x;
    assert(n <= k * 10000 < n + 10000) by (nonlinear_arith)
        requires
            pre * d >= x * 10000,
            pre * d < x * 10000 + d,
            d == 10000 - rate,
            0 < d <= 10000,
            n == pre * rate,
            k == pre - x,
    ;
    assert(fee == k) by (nonlinear_arith)
        requires
            n <= k * 10000 < n + 10000,
            n <= fee * 10000 < n + 10000,
    ;
}

/// The pre-fee amount of `x` is the least amount that leaves `x` once the
/// swap fee is taken from it, and it leaves exactly `x`.
pub proof fn lemma_pre_fee_amount_is_least(config: AmmConfig, x: int)
    requires
        config.swap_fee_rate_in_bps < MAX_FEE_BASIS_POINTS,
        x >= 0,
    ensures
        config.is_least_pre_fee(x, config.spec_pre_fee_amount(x)),
{
    let rate = config.swap_fee_rate_in_bps as int;
    let d = 10000 - rate;
    let p = config.spec_pre_fee_amount(x);
    lemma_pre_fee_round_trip(config, x);
    lemma_ceil_div(x * 10000, d);
    assert forall|q: int| 0 <= q < p implies q - #[trigger] config.spec_fee(q) < x by {
        let n = q * rate;
        assert(n >= 0) by (nonlinear_arith)
            requires q >= 0, rate >= 0, n == q * rate;
        lemma_ceil_div(n, 10000);
        let fee = ceil_div(n, 10000);
        assert(q - fee < x) by (nonlinear_arith)
            requires
                fee * 10000 >= n,
                n == q * rate,
                d == 10000 - rate,
                p * d < x * 10000 + d,
                0 <= q < p,
                0 < d <= 10000,
        ;
    }
}

} // verus!
