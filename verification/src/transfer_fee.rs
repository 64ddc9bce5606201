//! Token-2022 transfer fees: the fee terms of a mint and the amounts that
//! they turn a transfer into. The arithmetic itself is the token-2022
//! interface's; the contracts below state what its source computes.
use crate::math::{ceil_div, lemma_ceil_div};
use anchor_spl::token_2022::spl_token_2022::extension::transfer_fee::TransferFee;
use vstd::prelude::*;

verus! {

/// 100% expressed in basis points, the scale of every transfer-fee rate.
pub const MAX_FEE_BASIS_POINTS: u16 = 10000;

/// Fee terms of a mint for one range of epochs.
#[derive(Clone, Copy, Debug, PartialEq, Eq, Structural)]
pub struct TransferFeeInfo {
    /// First epoch where these terms take effect.
    pub epoch: u64,
    /// Upper bound of the fee on a single transfer, in tokens.
    pub maximum_fee: u64,
    /// Fee rate, in basis points of the transferred amount.
    pub transfer_fee_basis_points: u16,
}

/// The two fee terms that a token-2022 mint keeps.
#[derive(Clone, Copy, Debug, PartialEq, Eq, Structural)]
pub struct TransferFeeSchedule {
    /// Terms used before `newer_transfer_fee.epoch`.
    pub older_transfer_fee: TransferFeeInfo,
    /// Terms used from `newer_transfer_fee.epoch` on.
    pub newer_transfer_fee: TransferFeeInfo,
}

impl TransferFeeInfo {
    /// Fee charged on a transfer of `pre_fee_amount`:
    /// `min(ceil(amount * rate / 10000), maximum_fee)`, zero for a zero rate
    /// or amount, `None` when the uncapped fee does not fit in a `u64`.
    pub open spec fn spec_fee(self, pre_fee_amount: u64) -> Option<u64> {
        let rate = self.transfer_fee_basis_points as int;
        if rate == 0 || pre_fee_amount == 0 {
            Some(0u64)
        } else {
            let raw = ceil_div(pre_fee_amount * rate, MAX_FEE_BASIS_POINTS as int);
            if raw > u64::MAX {
                None
            } else if raw <= self.maximum_fee {
                Some(raw as u64)
            } else {
                Some(self.maximum_fee)
            }
        }
    }

    /// Amount that arrives of a transfer of `pre_fee_amount`.
    pub open spec fn spec_post_fee_amount(self, pre_fee_amount: u64) -> Option<u64> {
        match self.spec_fee(pre_fee_amount) {
            Some(fee) => if fee <= pre_fee_amount {
                Some((pre_fee_amount - fee) as u64)
            } else {
                None
            },
            None => None,
        }
    }

    /// Smallest transfer whose arriving amount is `post_fee_amount`
    /// (a rate of 100% sends the maximum fee on top), `None` on overflow or
    /// a rate above 100%.
    pub open spec fn spec_pre_fee_amount(self, post_fee_amount: u64) -> Option<u64> {
        let rate = self.transfer_fee_basis_points as int;
        let max_fee = self.maximum_fee as int;
        if rate == 0 {
            Some(post_fee_amount)
        } else if post_fee_amount == 0 {
            Some(0u64)
        } else if rate == MAX_FEE_BASIS_POINTS as int {
            if post_fee_amount + max_fee <= u64::MAX {
                Some((post_fee_amount + max_fee) as u64)
            } else {
                None
            }
        } else if rate > MAX_FEE_BASIS_POINTS as int {
            None
        } else {
            let raw = ceil_div(
                post_fee_amount * MAX_FEE_BASIS_POINTS as int,
                MAX_FEE_BASIS_POINTS as int - rate,
            );
            if raw - post_fee_amount >= max_fee {
                if post_fee_amount + max_fee <= u64::MAX {
                    Some((post_fee_amount + max_fee) as u64)
                } else {
                    None
                }
            } else if raw <= u64::MAX {
                Some(raw as u64)
            } else {
                None
            }
        }
    }

    /// Fee charged on the smallest transfer that delivers `post_fee_amount`.
    pub open spec fn spec_inverse_fee(self, post_fee_amount: u64) -> Option<u64> {
        match self.spec_pre_fee_amount(post_fee_amount) {
            Some(pre) => self.spec_fee(pre),
            None => None,
        }
    }

}

impl TransferFeeSchedule {
    /// Terms in force during `epoch`.
    pub open spec fn spec_epoch_fee(self, epoch: u64) -> TransferFeeInfo {
        if epoch >= self.newer_transfer_fee.epoch {
            self.newer_transfer_fee
        } else {
            self.older_transfer_fee
        }
    }

    /// The terms in force during `epoch`: the newer ones from their first
    /// epoch on, the older ones before.
    pub fn get_epoch_fee(&self, epoch: u64) -> (fee: TransferFeeInfo)
        ensures
            fee == self.spec_epoch_fee(epoch),
    {
        if epoch >= self.newer_transfer_fee.epoch {
            self.newer_transfer_fee
        } else {
            self.older_transfer_fee
        }
    }
}

/// Sending the pre-fee amount of `post_fee_amount` delivers at least
/// `post_fee_amount`: whenever `calculate_pre_fee_amount` succeeds,
/// `calculate_post_fee_amount` of its result succeeds and is no smaller.
pub proof fn lemma_pre_fee_amount_delivers(info: TransferFeeInfo, post_fee_amount: u64)
    requires
        info.spec_pre_fee_amount(post_fee_amount) is Some,
    ensures
        info.spec_post_fee_amount(info.spec_pre_fee_amount(post_fee_amount)->Some_0) is Some,
        info.spec_post_fee_amount(info.spec_pre_fee_amount(post_fee_amount)->Some_0)->Some_0
            >= post_fee_amount,
        info.spec_pre_fee_amount(post_fee_amount)->Some_0 >= post_fee_amount,
{
    let rate = info.transfer_fee_basis_points as int;
    let max_fee = info.maximum_fee as int;
    let post = post_fee_amount as int;
    let pre = info.spec_pre_fee_amount(post_fee_amount)->Some_0;
    if rate == 0 || post == 0 {
    } else {
        let n = pre * rate;
        assert(n >= 0) by (nonlinear_arith)
            requires
                pre >= 0,
                rate >= 0,
                n == pre * rate,
        ;
        lemma_ceil_div(n, 10000);
        let raw_fee = ceil_div(n, 10000);
        if rate == 10000 {
            assert(raw_fee == pre) by (nonlinear_arith)
                requires
                    raw_fee * 10000 >= n,
                    raw_fee * 10000 < n + 10000,
                    n == pre * rate,
                    rate == 10000,
            ;
        } else {
            let d = 10000 - rate;
            let raw = ceil_div(post * 10000, d);
            lemma_ceil_div(post * 10000, d);
            assert(raw >= post) by (nonlinear_arith)
                requires
                    raw * d >= post * 10000,
                    0 < d <= 10000,
                    post >= 0,
            ;
            assert(raw_fee <= pre) by (nonlinear_arith)
                requires
                    raw_fee * 10000 < n + 10000,
                    n == pre * rate,
                    0 < rate < 10000,
                    pre >= 0,
            ;
            if raw - post >= max_fee {
            } else {
                assert(pre - raw_fee >= post) by (nonlinear_arith)
                    requires
                        pre == raw,
                        raw * d >= post * 10000,
                        d == 10000 - rate,
                        raw_fee * 10000 < n + 10000,
                        n == pre * rate,
                ;
            }
        }
    }
}

/// The fee never decreases as the transferred amount grows.
pub proof fn lemma_fee_monotonic(info: TransferFeeInfo, a: u64, b: u64)
    requires
        a <= b,
        info.spec_fee(a) is Some,
        info.spec_fee(b) is Some,
    ensures
        info.spec_fee(a)->Some_0 <= info.spec_fee(b)->Some_0,
{
    let rate = info.transfer_fee_basis_points as int;
    if rate == 0 || a == 0 {
    } else {
        let na = a * rate;
        let nb = b * rate;
        assert(0 <= na <= nb) by (nonlinear_arith)
            requires
                0 <= a <= b,
                rate >= 0,
                na == a * rate,
                nb == b * rate,
        ;
        lemma_ceil_div(na, 10000);
        lemma_ceil_div(nb, 10000);
        let ca = ceil_div(na, 10000);
        let cb = ceil_div(nb, 10000);
        assert(ca <= cb) by (nonlinear_arith)
            requires
                ca * 10000 < na + 10000,
                cb * 10000 >= nb,
                na <= nb,
        ;
    }
}

/// The fee charged on the smallest transfer that delivers what a transfer
/// of `pre_fee_amount` delivers is at most the fee of that transfer:
/// `calculate_fee(x) >= calculate_inverse_fee(x - calculate_fee(x))`
/// whenever both sides are defined.
pub proof fn lemma_inverse_fee_at_most_fee(info: TransferFeeInfo, pre_fee_amount: u64)
    requires
        info.spec_post_fee_amount(pre_fee_amount) is Some,
        info.spec_inverse_fee(info.spec_post_fee_amount(pre_fee_amount)->Some_0) is Some,
    ensures
        info.spec_inverse_fee(info.spec_post_fee_amount(pre_fee_amount)->Some_0)->Some_0
            <= info.spec_fee(pre_fee_amount)->Some_0,
{
    let x = pre_fee_amount as int;
    let rate = info.transfer_fee_basis_points as int;
    let max_fee = info.maximum_fee as int;
    let f = info.spec_fee(pre_fee_amount)->Some_0 as int;
    let post = info.spec_post_fee_amount(pre_fee_amount)->Some_0;
    let p = info.spec_pre_fee_amount(post)->Some_0;
    // the smallest pre-fee amount of `post` is at most `x`
    assert(p <= x) by {
        if rate == 0 || post == 0 {
        } else if rate == 10000 {
            let n = x * rate;
            lemma_ceil_div(n, 10000);
            assert(ceil_div(n, 10000) == x) by (nonlinear_arith)
                requires
                    ceil_div(n, 10000) * 10000 >= n,
                    ceil_div(n, 10000) * 10000 < n + 10000,
                    n == x * rate,
                    rate == 10000,
            ;
        } else {
            let d = 10000 - rate;
            let n = x * rate;
            assert(n >= 0) by (nonlinear_arith)
                requires
                    x >= 0,
                    rate >= 0,
                    n == x * rate,
            ;
            lemma_ceil_div(n, 10000);
            let raw_fee = ceil_div(n, 10000);
            let raw = ceil_div(post * 10000, d);
            lemma_ceil_div(post * 10000, d);
            if f < max_fee {
                assert(f == raw_fee);
                assert(raw <= x) by (nonlinear_arith)
                    requires
                        post == x - raw_fee,
                        raw_fee * 10000 >= n,
                        n == x * rate,
                        d == 10000 - rate,
                        0 < d,
                        raw * d < post * 10000 + d,
                ;
            }
        }
    }
    lemma_fee_monotonic(info, p, pre_fee_amount);
}

/// `TransferFee::calculate_fee` of the token-2022 interface, on the terms
/// given: the capped, rounded-up fee, as `TransferFeeInfo::spec_fee` states.
#[verifier::external_body]
pub(crate) fn spl_calculate_fee(info: &TransferFeeInfo, pre_fee_amount: u64) -> (fee: Option<u64>)
    ensures
        fee == info.spec_fee(pre_fee_amount),
{
    let terms = TransferFee {
        epoch: info.epoch.into(),
        maximum_fee: info.maximum_fee.into(),
        transfer_fee_basis_points: info.transfer_fee_basis_points.into(),
    };
    terms.calculate_fee(pre_fee_amount)
}

/// `TransferFee::calculate_post_fee_amount`: the amount minus
/// `calculate_fee`, as `TransferFeeInfo::spec_post_fee_amount` states.
#[verifier::external_body]
pub(crate) fn spl_calculate_post_fee_amount(info: &TransferFeeInfo, pre_fee_amount: u64) -> (amount: Option<
    u64,
>)
    ensures
        amount == info.spec_post_fee_amount(pre_fee_amount),
{
    let terms = TransferFee {
        epoch: info.epoch.into(),
        maximum_fee: info.maximum_fee.into(),
        transfer_fee_basis_points: info.transfer_fee_basis_points.into(),
    };
    terms.calculate_post_fee_amount(pre_fee_amount)
}

/// `TransferFee::calculate_pre_fee_amount`: the case analysis on the rate
/// and the amount that `TransferFeeInfo::spec_pre_fee_amount` states.
#[verifier::external_body]
pub(crate) fn spl_calculate_pre_fee_amount(info: &TransferFeeInfo, post_fee_amount: u64) -> (amount: Option<
    u64,
>)
    ensures
        amount == info.spec_pre_fee_amount(post_fee_amount),
{
    let terms = TransferFee {
        epoch: info.epoch.into(),
        maximum_fee: info.maximum_fee.into(),
        transfer_fee_basis_points: info.transfer_fee_basis_points.into(),
    };
    terms.calculate_pre_fee_amount(post_fee_amount)
}

/// `TransferFee::calculate_inverse_fee`: `calculate_fee` of
/// `calculate_pre_fee_amount`, as `TransferFeeInfo::spec_inverse_fee` states.
#[verifier::external_body]
pub(crate) fn spl_calculate_inverse_fee(info: &TransferFeeInfo, post_fee_amount: u64) -> (fee: Option<u64>)
    ensures
        fee == info.spec_inverse_fee(post_fee_amount),
{
    let terms = TransferFee {
        epoch: info.epoch.into(),
        maximum_fee: info.maximum_fee.into(),
        transfer_fee_basis_points: info.transfer_fee_basis_points.into(),
    };
    terms.calculate_inverse_fee(post_fee_amount)
}

} // verus!
