//! Swap of an exact input amount, fee side chosen by the config.
use crate::cp_swap::amm_config::AmmConfig;
use crate::cp_swap::curve_math::{lemma_output_keeps_product, CurveMath};
use crate::math::{lemma_ceil_div, lemma_div_mod_facts};
use crate::cp_swap::error::ErrorCode;
use crate::cp_swap::utils::{
    amount_after_transfer_fee, check_mints_match_pool, mints_match_pool,
    spec_amount_after_transfer_fee,
};
use crate::token_mint::{Key, MintTransferFee};
use vstd::prelude::*;

verus! {

/// What a swap reads of its accounts.
#[derive(Clone, Copy, Debug)]
pub struct SwapBaseInput {
    /// The pool's config.
    pub amm_config: AmmConfig,
    /// The pool's first mint.
    pub pool_mint_0: Key,
    /// The pool's second mint.
    pub pool_mint_1: Key,
    /// Mint that the trader sends.
    pub input_mint: Key,
    /// Mint that the trader receives.
    pub output_mint: Key,
    /// Balance of the trader's input token account.
    pub trader_input_balance: u64,
    /// Pool vault balance of the input mint (`x`).
    pub input_vault_amount: u64,
    /// Pool vault balance of the output mint (`y`).
    pub output_vault_amount: u64,
    /// Transfer fee of the input mint in the current epoch.
    pub input_mint_fee: MintTransferFee,
    /// Transfer fee of the output mint in the current epoch.
    pub output_mint_fee: MintTransferFee,
}

/// The transfers that an accepted swap makes, and the product of the
/// reserves before them.
#[derive(Clone, Copy, Debug, PartialEq, Eq, Structural)]
pub struct SwapTransfers {
    /// Amount taken from the trader into the pool's vault.
    pub trader_sends: u64,
    /// Amount sent from the pool's vault to the trader.
    pub pool_sends: u64,
    /// Product of the two vault balances before the swap.
    pub k_before: u64,
}

/// Amount that enters the curve of a net input: less the swap fee when the
/// fee is on the input side.
pub open spec fn spec_fee_adjusted_input(config: AmmConfig, net_input: int) -> int {
    if config.fee_side_input {
        net_input - config.spec_fee(net_input)
    } else {
        net_input
    }
}

/// Amount that leaves the pool of a curve output: less the swap fee when
/// the fee is on the output side.
pub open spec fn spec_fee_adjusted_output(config: AmmConfig, curve_output: int) -> int {
    if config.fee_side_input {
        curve_output
    } else {
        curve_output - config.spec_fee(curve_output)
    }
}

/// What an exact-input swap against reserves `x` (input) and `y` (output)
/// yields: `None` where a checked operation fails, the token interface's error when a
/// mint's data does not unpack, else `(pool_sends, trader_receives, k)`: the amount
/// that leaves the pool, the part of it that reaches the trader, and `x * y`.
pub open spec fn spec_exact_input_swap(
    config: AmmConfig,
    x: u64,
    y: u64,
    input_mint_fee: MintTransferFee,
    output_mint_fee: MintTransferFee,
    exact_input_amount: u64,
) -> Option<Result<(u64, u64, u64), ErrorCode>> {
    if input_mint_fee is Unreadable {
        Some(Err(ErrorCode::ProgramError(input_mint_fee->error)))
    } else {
        match spec_amount_after_transfer_fee(input_mint_fee, exact_input_amount) {
            None => None,
            Some(net_input) => {
                if config.fee_side_input && !config.post_fee_computable(net_input as int) {
                    None
                } else {
                    let curve_input = spec_fee_adjusted_input(config, net_input as int);
                    let new_x = x + curve_input;
                    if x * y > u64::MAX || new_x > u64::MAX || y * new_x > u64::MAX || new_x == 0 {
                        None
                    } else {
                        let curve_output = CurveMath::spec_output_amount(
                            x as int,
                            y as int,
                            new_x,
                        );
                        if !config.fee_side_input && !config.post_fee_computable(curve_output) {
                            None
                        } else {
                            let pool_sends = spec_fee_adjusted_output(config, curve_output);
                            if output_mint_fee is Unreadable {
                                Some(Err(ErrorCode::ProgramError(output_mint_fee->error)))
                            } else {
                                match spec_amount_after_transfer_fee(
                                    output_mint_fee,
                                    pool_sends as u64,
                                ) {
                                    None => None,
                                    Some(received) => Some(
                                        Ok((pool_sends as u64, received, (x * y) as u64)),
                                    ),
                                }
                            }
                        }
                    }
                }
            },
        }
    }
}

/// Outcome of `handle_swap_base_input`: `None` where a checked operation of
/// the instruction fails, else the error or the transfers.
pub open spec fn spec_swap_base_input(
    accounts: SwapBaseInput,
    exact_input_amount: u64,
    minimum_output_amount: u64,
) -> Option<Result<SwapTransfers, ErrorCode>> {
    if !mints_match_pool(
        accounts.pool_mint_0,
        accounts.pool_mint_1,
        accounts.input_mint,
        accounts.output_mint,
    ) {
        Some(Err(ErrorCode::MismatchAccounts))
    } else if exact_input_amount > accounts.trader_input_balance {
        Some(Err(ErrorCode::InsufficientFunds))
    } else {
        match spec_exact_input_swap(
            accounts.amm_config,
            accounts.input_vault_amount,
            accounts.output_vault_amount,
            accounts.input_mint_fee,
            accounts.output_mint_fee,
            exact_input_amount,
        ) {
            None => None,
            Some(Err(e)) => Some(Err(e)),
            Some(Ok((pool_sends, received, k))) => if received < minimum_output_amount {
                Some(Err(ErrorCode::NotMinimumOutputAmount))
            } else {
                Some(
                    Ok(
                        SwapTransfers {
                            trader_sends: exact_input_amount,
                            pool_sends: pool_sends,
                            k_before: k,
                        },
                    ),
                )
            },
        }
    }
}

pub(crate) fn exact_input_swap(
    config: &AmmConfig,
    x: u64,
    y: u64,
    input_mint_fee: &MintTransferFee,
    output_mint_fee: &MintTransferFee,
    exact_input_amount: u64,
) -> (outcome: Option<Result<(u64, u64, u64), ErrorCode>>)
    ensures
        outcome == spec_exact_input_swap(
            *config,
            x,
            y,
            *input_mint_fee,
            *output_mint_fee,
            exact_input_amount,
        ),
{
    let net_input_amount = match amount_after_transfer_fee(input_mint_fee, exact_input_amount) {
        None => return None,
        Some(Err(e)) => return Some(Err(e)),
        Some(Ok(v)) => v,
    };
    let curve_input_amount = if config.fee_side_input {
        match post_fee_amount_checked(config, net_input_amount) {
            None => return None,
            Some(v) => v,
        }
    } else {
        net_input_amount
    };
    let k = match x.checked_mul(y) {
        None => return None,
        Some(k) => k,
    };
    let new_x = match x.checked_add(curve_input_amount) {
        None => return None,
        Some(v) => v,
    };
    if y.checked_mul(new_x).is_none() || new_x == 0 {
        return None;
    }
    proof {
        assert(x * y <= y * new_x) by (nonlinear_arith)
            requires
                x <= new_x,
        ;
    }
    let curve_output_amount = CurveMath::calculate_curve_output_amount(x, y, new_x);
    let pool_sends = if !config.fee_side_input {
        match post_fee_amount_checked(config, curve_output_amount) {
            None => return None,
            Some(v) => v,
        }
    } else {
        curve_output_amount
    };
    let received = match amount_after_transfer_fee(output_mint_fee, pool_sends) {
        None => return None,
        Some(Err(e)) => return Some(Err(e)),
        Some(Ok(v)) => v,
    };
    Some(Ok((pool_sends, received, k)))
}

fn quote_swap_base_input(
    accounts: &SwapBaseInput,
    exact_input_amount: u64,
    minimum_output_amount: u64,
) -> (outcome: Option<Result<SwapTransfers, ErrorCode>>)
    ensures
        outcome == spec_swap_base_input(*accounts, exact_input_amount, minimum_output_amount),
{
    if !check_mints_match_pool(
        &accounts.pool_mint_0,
        &accounts.pool_mint_1,
        &accounts.input_mint,
        &accounts.output_mint,
    ) {
        return Some(Err(ErrorCode::MismatchAccounts));
    }
    if exact_input_amount > accounts.trader_input_balance {
        return Some(Err(ErrorCode::InsufficientFunds));
    }
    match exact_input_swap(
        &accounts.amm_config,
        accounts.input_vault_amount,
        accounts.output_vault_amount,
        &accounts.input_mint_fee,
        &accounts.output_mint_fee,
        exact_input_amount,
    ) {
        None => None,
        Some(Err(e)) => Some(Err(e)),
        Some(Ok((pool_sends, received, k))) => if received < minimum_output_amount {
            Some(Err(ErrorCode::NotMinimumOutputAmount))
        } else {
            Some(Ok(SwapTransfers { trader_sends: exact_input_amount, pool_sends, k_before: k }))
        },
    }
}

/// The swap fee taken off `amount`, or `None` where the fee computation
/// does not fit in 64 bits or exceeds the amount.
pub(crate) fn post_fee_amount_checked(config: &AmmConfig, amount: u64) -> (r: Option<u64>)
    ensures
        r is Some <==> config.post_fee_computable(amount as int),
        r matches Some(v) ==> v == amount - config.spec_fee(amount as int),
{
    let numerator = match amount.checked_mul(config.swap_fee_rate_in_bps as u64) {
        None => return None,
        Some(n) => n,
    };
    if numerator.checked_add(10000).is_none() {
        return None;
    }
    let fee = config.calculate_fee(amount);
    if fee > amount {
        return None;
    }
    Some(config.calculate_post_fee_amount(amount))
}

/// The amount whose post-fee amount covers `amount`, or `None` where that
/// computation does not fit in 64 bits or the rate is 100% or more.
pub(crate) fn pre_fee_amount_checked(config: &AmmConfig, amount: u64) -> (r: Option<u64>)
    ensures
        r is Some <==> config.pre_fee_computable(amount as int),
        r matches Some(v) ==> v == config.spec_pre_fee_amount(amount as int),
{
    if config.swap_fee_rate_in_bps >= 10000 {
        return None;
    }
    let numerator = match amount.checked_mul(10000) {
        None => return None,
        Some(n) => n,
    };
    if numerator.checked_add(10000 - config.swap_fee_rate_in_bps as u64).is_none() {
        return None;
    }
    Some(config.calculate_pre_fee_amount(amount))
}

/// Whether `handle_swap_base_input` would abort on these inputs (a checked
/// operation of the instruction fails), which its `requires` rules out.
pub fn swap_base_input_aborts(
    accounts: &SwapBaseInput,
    exact_input_amount: u64,
    minimum_output_amount: u64,
) -> (r: bool)
    ensures
        r == (spec_swap_base_input(*accounts, exact_input_amount, minimum_output_amount) is None),
{
    quote_swap_base_input(accounts, exact_input_amount, minimum_output_amount).is_none()
}

/// Decides a swap of `exact_input_amount`: checks the mints and the
/// trader's balance, takes the input's transfer fee, the swap fee on the
/// configured side and the output's transfer fee, and refuses an output
/// below `minimum_output_amount`. On success it returns the two transfers
/// to make and the product of the reserves to compare after them.
pub fn handle_swap_base_input(
    accounts: &SwapBaseInput,
    exact_input_amount: u64,
    minimum_output_amount: u64,
) -> (r: Result<SwapTransfers, ErrorCode>)
    requires
        spec_swap_base_input(*accounts, exact_input_amount, minimum_output_amount) is Some,
    ensures
        Some(r) == spec_swap_base_input(*accounts, exact_input_amount, minimum_output_amount),
{
    match quote_swap_base_input(accounts, exact_input_amount, minimum_output_amount) {
        Some(r) => r,
        None => unreached(),
    }
}

/// The swap fee is never negative.
pub proof fn lemma_fee_nonnegative(config: AmmConfig, amount: int)
    requires
        amount >= 0,
    ensures
        config.spec_fee(amount) >= 0,
{
    let n = amount * config.swap_fee_rate_in_bps;
    assert(n >= 0) by (nonlinear_arith)
        requires
            amount >= 0,
            n == amount * config.swap_fee_rate_in_bps,
            config.swap_fee_rate_in_bps >= 0,
    ;
    lemma_ceil_div(n, 10000);
}

/// What arrives of a transfer is never more than what was sent.
pub proof fn lemma_arrives_at_most_sent(fee: MintTransferFee, amount: u64)
    requires
        spec_amount_after_transfer_fee(fee, amount) is Some,
    ensures
        spec_amount_after_transfer_fee(fee, amount)->Some_0 <= amount,
{
}

/// An exact-input swap keeps the product of the reserves: with the input
/// vault grown by what arrives of the trader's transfer and the output vault
/// less what the pool sends, the product is at least `x * y`; the pool never
/// sends more than its output reserve, and the trader gets at most that.
pub proof fn lemma_exact_input_swap_keeps_product(
    config: AmmConfig,
    x: u64,
    y: u64,
    input_mint_fee: MintTransferFee,
    output_mint_fee: MintTransferFee,
    exact_input_amount: u64,
)
    requires
        spec_exact_input_swap(
            config,
            x,
            y,
            input_mint_fee,
            output_mint_fee,
            exact_input_amount,
        ) is Some,
        spec_exact_input_swap(
            config,
            x,
            y,
            input_mint_fee,
            output_mint_fee,
            exact_input_amount,
        )->Some_0 is Ok,
    ensures
        ({
            let (pool_sends, received, k) = spec_exact_input_swap(
                config,
                x,
                y,
                input_mint_fee,
                output_mint_fee,
                exact_input_amount,
            )->Some_0->Ok_0;
            let arrived = spec_amount_after_transfer_fee(input_mint_fee, exact_input_amount)->Some_0;
            &&& k == x * y
            &&& received <= pool_sends <= y
            &&& (x + arrived) * (y - pool_sends) >= k
        }),
{
    let net_input = spec_amount_after_transfer_fee(input_mint_fee, exact_input_amount)->Some_0;
    lemma_fee_nonnegative(config, net_input as int);
    let curve_input = spec_fee_adjusted_input(config, net_input as int);
    let new_x = x + curve_input;
    assert(curve_input >= 0 && x * y <= y * new_x) by (nonlinear_arith)
        requires
            curve_input == spec_fee_adjusted_input(config, net_input as int),
            config.fee_side_input ==> config.spec_fee(net_input as int) <= net_input,
            config.spec_fee(net_input as int) >= 0,
            !config.fee_side_input ==> curve_input == net_input,
            config.fee_side_input ==> curve_input == net_input - config.spec_fee(net_input as int),
            net_input >= 0,
            new_x == x + curve_input,
            y >= 0,
    ;
    lemma_output_keeps_product(x as int, y as int, new_x);
    let curve_output = CurveMath::spec_output_amount(x as int, y as int, new_x);
    lemma_fee_nonnegative(config, curve_output);
    let pool_sends = spec_fee_adjusted_output(config, curve_output);
    lemma_arrives_at_most_sent(output_mint_fee, pool_sends as u64);
    assert((x + net_input) * (y - pool_sends) >= new_x * (y - curve_output)) by (nonlinear_arith)
        requires
            x + net_input >= new_x,
            new_x >= 0,
            y - pool_sends >= y - curve_output,
            y - curve_output >= 0,
    ;
}

/// `pool_sends` is what an exact-input swap against reserves `x` (input) and
/// `y` (output) pays for `net` arriving in the pool: the curve takes `net`
/// less the swap fee on `net` when the fee is on the input side, else `net`,
/// and pays the largest output `o` that keeps the product of the reserves;
/// the pool sends `o` when the fee is on the input side, else `o` less the
/// swap fee charged on `o` itself.
pub open spec fn exact_input_pays(config: AmmConfig, x: int, y: int, net: int, pool_sends: int) -> bool {
    let ci = if config.fee_side_input {
        net - config.spec_fee(net)
    } else {
        net
    };
    let o = CurveMath::spec_output_amount(x, y, x + ci);
    &&& 0 <= ci <= net
    &&& 0 <= o <= y
    &&& (x + ci) * (y - o) >= x * y
    &&& (x + ci) * (y - o - 1) < x * y
    &&& config.fee_side_input ==> pool_sends == o
    &&& !config.fee_side_input ==> pool_sends + config.spec_fee(o) == o
}

/// How an accepted exact-input swap sets its amounts. `net` is what the
/// input mint's transfer fee leaves of the trader's amount. The curve takes
/// `net` less the swap fee on `net` when the fee is on the input side, else
/// `net`, and pays `o`, the largest output that keeps the product of the
/// reserves. The pool sends `o` when the fee is on the input side, else `o`
/// less the swap fee charged on `o` itself; the trader receives what the
/// output mint's transfer fee leaves of that, and `k` is `x * y`.
pub proof fn lemma_exact_input_swap_amounts(
    config: AmmConfig,
    x: u64,
    y: u64,
    input_mint_fee: MintTransferFee,
    output_mint_fee: MintTransferFee,
    exact_input_amount: u64,
)
    requires
        spec_exact_input_swap(
            config,
            x,
            y,
            input_mint_fee,
            output_mint_fee,
            exact_input_amount,
        ) matches Some(Ok(_)),
    ensures
        spec_amount_after_transfer_fee(input_mint_fee, exact_input_amount) is Some,
        ({
            let (pool_sends, received, k) = spec_exact_input_swap(
                config,
                x,
                y,
                input_mint_fee,
                output_mint_fee,
                exact_input_amount,
            )->Some_0->Ok_0;
            let net = spec_amount_after_transfer_fee(input_mint_fee, exact_input_amount)->Some_0 as int;
            &&& exact_input_pays(config, x as int, y as int, net, pool_sends as int)
            &&& spec_amount_after_transfer_fee(output_mint_fee, pool_sends) == Some(received)
            &&& k == x * y
        }),
{
    let net_input = spec_amount_after_transfer_fee(input_mint_fee, exact_input_amount)->Some_0;
    lemma_fee_nonnegative(config, net_input as int);
    let curve_input = spec_fee_adjusted_input(config, net_input as int);
    let new_x = x + curve_input;
    assert(curve_input >= 0 && x * y <= y * new_x) by (nonlinear_arith)
        requires
            config.fee_side_input ==> config.spec_fee(net_input as int) <= net_input,
            config.spec_fee(net_input as int) >= 0,
            !config.fee_side_input ==> curve_input == net_input,
            config.fee_side_input ==> curve_input == net_input - config.spec_fee(net_input as int),
            net_input >= 0,
            new_x == x + curve_input,
            y >= 0,
    ;
    lemma_output_keeps_product(x as int, y as int, new_x);
    let n = y * new_x - x * y;
    lemma_div_mod_facts(n, new_x);
    let o = CurveMath::spec_output_amount(x as int, y as int, new_x);
    assert(new_x * (y - o - 1) < x * y) by (nonlinear_arith)
        requires
            n < (o + 1) * new_x,
            n == y * new_x - x * y,
    ;
}

/// An accepted exact-input swap takes exactly the amount the trader chose,
/// delivers at least the trader's minimum, and keeps the product of the
/// reserves once the input vault holds what arrives of the trader's
/// transfer and the output vault has paid what the pool sends.
pub proof fn lemma_swap_base_input_accepted(
    accounts: SwapBaseInput,
    exact_input_amount: u64,
    minimum_output_amount: u64,
)
    requires
        spec_swap_base_input(accounts, exact_input_amount, minimum_output_amount) is Some,
        spec_swap_base_input(accounts, exact_input_amount, minimum_output_amount)->Some_0 is Ok,
    ensures
        ({
            let t = spec_swap_base_input(
                accounts,
                exact_input_amount,
                minimum_output_amount,
            )->Some_0->Ok_0;
            let arrived = spec_amount_after_transfer_fee(
                accounts.input_mint_fee,
                exact_input_amount,
            )->Some_0;
            let received = spec_amount_after_transfer_fee(
                accounts.output_mint_fee,
                t.pool_sends,
            )->Some_0;
            &&& t.trader_sends == exact_input_amount
            &&& exact_input_amount <= accounts.trader_input_balance
            &&& minimum_output_amount <= received <= t.pool_sends
            &&& t.k_before == accounts.input_vault_amount * accounts.output_vault_amount
            &&& t.pool_sends <= accounts.output_vault_amount
            &&& (accounts.input_vault_amount + arrived) * (accounts.output_vault_amount
                - t.pool_sends) >= t.k_before
            &&& exact_input_pays(
                accounts.amm_config,
                accounts.input_vault_amount as int,
                accounts.output_vault_amount as int,
                arrived as int,
                t.pool_sends as int,
            )
        }),
{
    lemma_exact_input_swap_amounts(
        accounts.amm_config,
        accounts.input_vault_amount,
        accounts.output_vault_amount,
        accounts.input_mint_fee,
        accounts.output_mint_fee,
        exact_input_amount,
    );
    lemma_exact_input_swap_keeps_product(
        accounts.amm_config,
        accounts.input_vault_amount,
        accounts.output_vault_amount,
        accounts.input_mint_fee,
        accounts.output_mint_fee,
        exact_input_amount,
    );
}

} // verus!
