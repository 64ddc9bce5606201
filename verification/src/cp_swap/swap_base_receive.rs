//! Swap in which the trader receives an exact amount.
use crate::cp_swap::amm_config::{
    lemma_pre_fee_amount_covers, lemma_pre_fee_amount_is_least, AmmConfig,
};
use crate::cp_swap::curve_math::{lemma_input_keeps_product, CurveMath};
use crate::cp_swap::error::ErrorCode;
use crate::cp_swap::swap_base_input::{pre_fee_amount_checked, SwapTransfers};
use crate::cp_swap::utils::{
    amount_before_transfer_fee, check_mints_match_pool, mints_match_pool,
    spec_amount_after_transfer_fee, spec_amount_before_transfer_fee,
};
use crate::token_mint::{Key, MintTransferFee};
use crate::transfer_fee::lemma_pre_fee_amount_delivers;
use crate::math::lemma_ceil_div;
use vstd::prelude::*;

verus! {

/// What `swap_base_receive` reads of its accounts.
#[derive(Clone, Copy, Debug)]
pub struct SwapBaseReceive {
    /// The config account given.
    pub amm_config: AmmConfig,
    /// Address of the config account given.
    pub amm_config_key: Key,
    /// The config that the pool names.
    pub pool_amm_config: Key,
    /// The pool's first mint.
    pub pool_mint_0: Key,
    /// The pool's second mint.
    pub pool_mint_1: Key,
    /// Mint that the trader sends.
    pub send_mint: Key,
    /// Mint that the trader receives.
    pub receive_mint: Key,
    /// Reserve of the sent mint that the curve uses (the instruction reads
    /// the mint's supply).
    pub send_reserve: u64,
    /// Reserve of the received mint that the curve uses (the instruction
    /// reads the mint's supply).
    pub receive_reserve: u64,
    /// Transfer fee of the sent mint in the current epoch.
    pub send_mint_fee: MintTransferFee,
    /// Transfer fee of the received mint in the current epoch.
    pub receive_mint_fee: MintTransferFee,
}

/// Amount that the curve must release so that `pool_sends` leaves the
/// pool: plus the swap fee when the fee is on the receive side.
pub open spec fn spec_curve_receive(config: AmmConfig, pool_sends: int) -> int {
    if config.spec_fee_side_receive() {
        config.spec_pre_fee_amount(pool_sends)
    } else {
        pool_sends
    }
}

/// Amount that the pool must receive for a curve input: plus the swap fee
/// when the fee is on the send side.
pub open spec fn spec_pool_receive(config: AmmConfig, curve_input: int) -> int {
    if config.spec_fee_side_receive() {
        curve_input
    } else {
        config.spec_pre_fee_amount(curve_input)
    }
}

/// Outcome of `handle_swap_base_receive`: `None` where a checked operation
/// of the instruction fails, else the error or the transfers.
pub open spec fn spec_swap_base_receive(
    accounts: SwapBaseReceive,
    exact_amount_trader_receive: u64,
    max_amount_trader_send: u64,
) -> Option<Result<SwapTransfers, ErrorCode>> {
    let config = accounts.amm_config;
    let x = accounts.send_reserve as int;
    let y = accounts.receive_reserve as int;
    if accounts.pool_amm_config.spec_bytes() != accounts.amm_config_key.spec_bytes() {
        Some(Err(ErrorCode::ConstraintHasOne))
    } else if !mints_match_pool(
        accounts.pool_mint_0,
        accounts.pool_mint_1,
        accounts.send_mint,
        accounts.receive_mint,
    ) {
        Some(Err(ErrorCode::MismatchAccounts))
    } else if accounts.receive_mint_fee is Unreadable {
        Some(Err(ErrorCode::ProgramError(accounts.receive_mint_fee->error)))
    } else {
        match spec_amount_before_transfer_fee(accounts.receive_mint_fee, exact_amount_trader_receive) {
            None => None,
            Some(pool_sends) => {
                if config.spec_fee_side_receive() && !config.pre_fee_computable(pool_sends as int) {
                    None
                } else {
                    let curve_receive = spec_curve_receive(config, pool_sends as int);
                    if x * y > u64::MAX || curve_receive > y || curve_receive == y {
                        None
                    } else {
                        let curve_input = CurveMath::spec_input_amount(x, y, y - curve_receive);
                        if !config.spec_fee_side_receive() && !config.pre_fee_computable(
                            curve_input,
                        ) {
                            None
                        } else {
                            let pool_receive = spec_pool_receive(config, curve_input);
                            if accounts.send_mint_fee is Unreadable {
                                Some(Err(ErrorCode::ProgramError(accounts.send_mint_fee->error)))
                            } else {
                                match spec_amount_before_transfer_fee(
                                    accounts.send_mint_fee,
                                    pool_receive as u64,
                                ) {
                                    None => None,
                                    Some(trader_sends) => if trader_sends > max_amount_trader_send {
                                        Some(Err(ErrorCode::ExceedsMaximumLimit))
                                    } else {
                                        Some(
                                            Ok(
                                                SwapTransfers {
                                                    trader_sends: trader_sends,
                                                    pool_sends: pool_sends,
                                                    k_before: (x * y) as u64,
                                                },
                                            ),
                                        )
                                    },
                                }
                            }
                        }
                    }
                }
            },
        }
    }
}

fn quote_swap_base_receive(
    accounts: &SwapBaseReceive,
    exact_amount_trader_receive: u64,
    max_amount_trader_send: u64,
) -> (outcome: Option<Result<SwapTransfers, ErrorCode>>)
    ensures
        outcome == spec_swap_base_receive(
            *accounts,
            exact_amount_trader_receive,
            max_amount_trader_send,
        ),
{
    if !accounts.pool_amm_config.same(&accounts.amm_config_key) {
        return Some(Err(ErrorCode::ConstraintHasOne));
    }
    if !check_mints_match_pool(
        &accounts.pool_mint_0,
        &accounts.pool_mint_1,
        &accounts.send_mint,
        &accounts.receive_mint,
    ) {
        return Some(Err(ErrorCode::MismatchAccounts));
    }
    let config = &accounts.amm_config;
    let exact_amount_pool_send = match amount_before_transfer_fee(
        &accounts.receive_mint_fee,
        exact_amount_trader_receive,
    ) {
        None => return None,
        Some(Err(e)) => return Some(Err(e)),
        Some(Ok(v)) => v,
    };
    let curve_receive_amount = if config.is_fee_side_receive() {
        match pre_fee_amount_checked(config, exact_amount_pool_send) {
            None => return None,
            Some(v) => v,
        }
    } else {
        exact_amount_pool_send
    };
    let send_reserve = accounts.send_reserve;
    let receive_reserve = accounts.receive_reserve;
    if send_reserve.checked_mul(receive_reserve).is_none() {
        return None;
    }
    let k = CurveMath::calculate_k(send_reserve, receive_reserve);
    if curve_receive_amount >= receive_reserve {
        return None;
    }
    let new_receive_reserve = receive_reserve - curve_receive_amount;
    proof {
        assert(send_reserve * new_receive_reserve <= send_reserve * receive_reserve)
            by (nonlinear_arith)
            requires
                new_receive_reserve <= receive_reserve,
        ;
    }
    let curve_input_amount = CurveMath::calculate_curve_input_amount(
        send_reserve,
        receive_reserve,
        new_receive_reserve,
    );
    let exact_amount_pool_receive = if !config.is_fee_side_receive() {
        match pre_fee_amount_checked(config, curve_input_amount) {
            None => return None,
            Some(v) => v,
        }
    } else {
        curve_input_amount
    };
    let exact_amount_trader_send = match amount_before_transfer_fee(
        &accounts.send_mint_fee,
        exact_amount_pool_receive,
    ) {
        None => return None,
        Some(Err(e)) => return Some(Err(e)),
        Some(Ok(v)) => v,
    };
    if exact_amount_trader_send > max_amount_trader_send {
        return Some(Err(ErrorCode::ExceedsMaximumLimit));
    }
    Some(
        Ok(
            SwapTransfers {
                trader_sends: exact_amount_trader_send,
                pool_sends: exact_amount_pool_send,
                k_before: k,
            },
        ),
    )
}

/// Whether `handle_swap_base_receive` would abort on these inputs (a
/// checked operation of the instruction fails), which its `requires` rules
/// out.
pub fn swap_base_receive_aborts(
    accounts: &SwapBaseReceive,
    exact_amount_trader_receive: u64,
    max_amount_trader_send: u64,
) -> (r: bool)
    ensures
        r == (spec_swap_base_receive(
            *accounts,
            exact_amount_trader_receive,
            max_amount_trader_send,
        ) is None),
{
    quote_swap_base_receive(accounts, exact_amount_trader_receive, max_amount_trader_send).is_none()
}

/// Decides a swap in which the trader receives
/// `exact_amount_trader_receive`: checks the pool's config and mints, adds
/// the received mint's transfer fee, the swap fee on the configured side
/// and the sent mint's transfer fee to find what the trader must send, and
/// refuses more than `max_amount_trader_send`. The reserves that the curve
/// runs on are the two mints' supplies as the instruction reads them, not
/// the pool's vault balances.
pub fn handle_swap_base_receive(
    accounts: &SwapBaseReceive,
    exact_amount_trader_receive: u64,
    max_amount_trader_send: u64,
) -> (r: Result<SwapTransfers, ErrorCode>)
    requires
        spec_swap_base_receive(
            *accounts,
            exact_amount_trader_receive,
            max_amount_trader_send,
        ) is Some,
    ensures
        Some(r) == spec_swap_base_receive(
            *accounts,
            exact_amount_trader_receive,
            max_amount_trader_send,
        ),
{
    match quote_swap_base_receive(accounts, exact_amount_trader_receive, max_amount_trader_send) {
        Some(r) => r,
        None => unreached(),
    }
}

/// An accepted receive-side swap costs the trader at most the maximum
/// chosen, delivers at least the amount asked for, and keeps the product of
/// the reserves once the send reserve holds what arrives of the trader's
/// transfer and the receive reserve has paid what the pool sends.
pub proof fn lemma_swap_base_receive_accepted(
    accounts: SwapBaseReceive,
    exact_amount_trader_receive: u64,
    max_amount_trader_send: u64,
)
    requires
        spec_swap_base_receive(
            accounts,
            exact_amount_trader_receive,
            max_amount_trader_send,
        ) is Some,
        spec_swap_base_receive(
            accounts,
            exact_amount_trader_receive,
            max_amount_trader_send,
        )->Some_0 is Ok,
    ensures
        ({
            let t = spec_swap_base_receive(
                accounts,
                exact_amount_trader_receive,
                max_amount_trader_send,
            )->Some_0->Ok_0;
            &&& t.trader_sends <= max_amount_trader_send
            &&& spec_amount_after_transfer_fee(accounts.receive_mint_fee, t.pool_sends) is Some
            &&& spec_amount_after_transfer_fee(accounts.receive_mint_fee, t.pool_sends)->Some_0
                >= exact_amount_trader_receive
            &&& spec_amount_after_transfer_fee(accounts.send_mint_fee, t.trader_sends) is Some
            &&& t.k_before == accounts.send_reserve * accounts.receive_reserve
            &&& t.pool_sends < accounts.receive_reserve
            &&& (accounts.send_reserve + spec_amount_after_transfer_fee(
                accounts.send_mint_fee,
                t.trader_sends,
            )->Some_0) * (accounts.receive_reserve - t.pool_sends) >= t.k_before
        }),
{
    let config = accounts.amm_config;
    let x = accounts.send_reserve as int;
    let y = accounts.receive_reserve as int;
    let pool_sends = spec_amount_before_transfer_fee(
        accounts.receive_mint_fee,
        exact_amount_trader_receive,
    )->Some_0;
    if let MintTransferFee::Token2022 { epoch_fee: Some(terms) } = accounts.receive_mint_fee {
        lemma_pre_fee_amount_delivers(terms, exact_amount_trader_receive);
    }
    if config.spec_fee_side_receive() {
        lemma_pre_fee_amount_covers(config, pool_sends as int);
    }
    let curve_receive = spec_curve_receive(config, pool_sends as int);
    let new_y = y - curve_receive;
    assert(x * new_y <= x * y) by (nonlinear_arith)
        requires
            x >= 0,
            0 < new_y <= y,
    ;
    lemma_input_keeps_product(x, y, new_y);
    let curve_input = CurveMath::spec_input_amount(x, y, new_y);
    assert(curve_input <= x * y) by (nonlinear_arith)
        requires
            (x + curve_input - 1) * new_y < x * y,
            new_y >= 1,
            x >= 0,
            curve_input >= 0,
    ;
    if !config.spec_fee_side_receive() {
        lemma_pre_fee_amount_covers(config, curve_input);
        let d = 10000 - config.swap_fee_rate_in_bps;
        lemma_ceil_div(curve_input * 10000, d);
    }
    let pool_receive = spec_pool_receive(config, curve_input);
    assert(pool_receive <= u64::MAX);
    if let MintTransferFee::Token2022 { epoch_fee: Some(terms) } = accounts.send_mint_fee {
        lemma_pre_fee_amount_delivers(terms, pool_receive as u64);
    }
    let arrived = spec_amount_after_transfer_fee(
        accounts.send_mint_fee,
        spec_amount_before_transfer_fee(accounts.send_mint_fee, pool_receive as u64)->Some_0,
    )->Some_0;
    assert((x + arrived) * (y - pool_sends) >= (x + curve_input) * new_y) by (nonlinear_arith)
        requires
            arrived >= pool_receive,
            pool_receive >= curve_input,
            curve_input >= 0,
            x >= 0,
            curve_receive >= pool_sends,
            new_y == y - curve_receive,
            new_y > 0,
    ;
}

/// How an accepted receive-side swap sets its amounts. The pool sends
/// `pool_sends`, what the receive mint's transfer fee makes of the amount
/// asked for. The curve releases `c`: with the swap fee on the receive side,
/// the least amount that leaves exactly `pool_sends` once the fee is taken
/// from it, else `pool_sends` itself. The curve input `i` is the least input
/// that keeps the product of the reserves when the receive reserve drops by
/// `c`. The pool must receive `p`: with the swap fee on the send side, the
/// least amount that leaves exactly `i` once the fee is taken from it, else
/// `i` itself. The trader sends what the send mint's transfer fee makes of `p`.
pub proof fn lemma_swap_base_receive_amounts(
    accounts: SwapBaseReceive,
    exact_amount_trader_receive: u64,
    max_amount_trader_send: u64,
)
    requires
        spec_swap_base_receive(
            accounts,
            exact_amount_trader_receive,
            max_amount_trader_send,
        ) matches Some(Ok(_)),
    ensures
        ({
            let t = spec_swap_base_receive(
                accounts,
                exact_amount_trader_receive,
                max_amount_trader_send,
            )->Some_0->Ok_0;
            let config = accounts.amm_config;
            let x = accounts.send_reserve as int;
            let y = accounts.receive_reserve as int;
            let receive_side = !config.fee_side_input;
            let c = if receive_side {
                config.spec_pre_fee_amount(t.pool_sends as int)
            } else {
                t.pool_sends as int
            };
            let i = CurveMath::spec_input_amount(x, y, y - c);
            let p = if receive_side {
                i
            } else {
                config.spec_pre_fee_amount(i)
            };
            &&& spec_amount_before_transfer_fee(
                accounts.receive_mint_fee,
                exact_amount_trader_receive,
            ) == Some(t.pool_sends)
            &&& receive_side ==> config.is_least_pre_fee(t.pool_sends as int, c)
            &&& 0 <= c < y
            &&& i >= 0
            &&& (x + i) * (y - c) >= x * y
            &&& (x + i - 1) * (y - c) < x * y
            &&& !receive_side ==> config.is_least_pre_fee(i, p)
            &&& 0 <= p <= u64::MAX
            &&& spec_amount_before_transfer_fee(accounts.send_mint_fee, p as u64) == Some(
                t.trader_sends,
            )
        }),
{
    let config = accounts.amm_config;
    let x = accounts.send_reserve as int;
    let y = accounts.receive_reserve as int;
    let pool_sends = spec_amount_before_transfer_fee(
        accounts.receive_mint_fee,
        exact_amount_trader_receive,
    )->Some_0;
    if config.spec_fee_side_receive() {
        lemma_pre_fee_amount_is_least(config, pool_sends as int);
    }
    let c = spec_curve_receive(config, pool_sends as int);
    let new_y = y - c;
    assert(x * new_y <= x * y) by (nonlinear_arith)
        requires
            x >= 0,
            0 < new_y <= y,
    ;
    lemma_input_keeps_product(x, y, new_y);
    let i = CurveMath::spec_input_amount(x, y, new_y);
    assert(i <= x * y) by (nonlinear_arith)
        requires
            (x + i - 1) * new_y < x * y,
            new_y >= 1,
            x >= 0,
            i >= 0,
    ;
    if !config.spec_fee_side_receive() {
        assert(config.pre_fee_computable(i));
        lemma_pre_fee_amount_is_least(config, i);
        let d = 10000 - config.swap_fee_rate_in_bps;
        lemma_ceil_div(i * 10000, d);
        let p = config.spec_pre_fee_amount(i);
        assert(p <= i * 10000) by (nonlinear_arith)
            requires
                p * d < i * 10000 + d,
                d >= 1,
                i >= 0,
        ;
    }
}

} // verus!
