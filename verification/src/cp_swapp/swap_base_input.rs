//! Exact-input swap: transfer fees on both sides, the pool's fee on the
//! input, and the curve output rounded in the pool's favour.
use crate::cp_swap::curve_math::CurveMath;
use crate::cp_swapp::error::ErrorCode;
use crate::cp_swapp::pool::Pool;
use crate::cp_swapp::utils::{
    charges_transfer_fee, lemma_transfer_fees_charged, spec_get_transfer_fees,
    transfer_fees_checked,
};
use crate::math::{ceil_div, lemma_ceil_div, lemma_div_mod_facts};
use crate::token_mint::{Key, MintTransferFee};
use vstd::prelude::*;

pub use crate::cp_swapp::utils::get_transfer_fees;

verus! {

/// What `swap_base_input` reads of its accounts.
#[derive(Clone, Copy, Debug)]
pub struct SwapBaseInput {
    /// The pool's state.
    pub pool_state: Pool,
    /// Mint that the trader sends.
    pub input_mint: Key,
    /// Mint that the trader receives.
    pub output_mint: Key,
    /// Pool vault balance of the input mint (`x`).
    pub input_vault_amount: u64,
    /// Pool vault balance of the output mint (`y`).
    pub output_vault_amount: u64,
    /// Transfer fee of the input mint in the current epoch.
    pub input_mint_fee: MintTransferFee,
    /// Transfer fee of the output mint in the current epoch.
    pub output_mint_fee: MintTransferFee,
}

/// The transfers that an accepted swap makes.
#[derive(Clone, Copy, Debug, PartialEq, Eq, Structural)]
pub struct SwapPlan {
    /// Amount that the trader sends, transfer fee included.
    pub exact_input_amount: u64,
    /// Transfer fee on the trader's transfer.
    pub input_transfer_fee: u64,
    /// Amount that the pool sends, transfer fee included.
    pub curve_output_amount: u64,
    /// Transfer fee on the pool's transfer.
    pub output_transfer_fee: u64,
    /// Product of the two vault balances before the swap.
    pub k_before: u128,
}

/// The accounts match the pool: its two mints in the pool's order, or in
/// the reverse order with the pool's fee rate.
pub open spec fn pool_matches(accounts: SwapBaseInput, fees_in_ppm: u32) -> bool {
    let pool = accounts.pool_state;
    (pool.mint_a.spec_bytes() == accounts.input_mint.spec_bytes() && pool.mint_b.spec_bytes()
        == accounts.output_mint.spec_bytes()) || (pool.mint_b.spec_bytes()
        == accounts.input_mint.spec_bytes() && pool.mint_a.spec_bytes()
        == accounts.output_mint.spec_bytes() && pool.fees_in_ppm == fees_in_ppm)
}

/// Output reserve left after the input reserve grows from `x` to `new_x`:
/// `ceil(x * y / new_x)`.
pub open spec fn spec_new_output_reserve(x: int, y: int, new_x: int) -> int {
    ceil_div(x * y, new_x)
}

/// Outcome of `swap_base_input_handler`: `None` where a checked operation
/// of the instruction fails, else the error or the transfers.
pub open spec fn spec_swap_base_input(
    accounts: SwapBaseInput,
    fees_in_ppm: u32,
    exact_input_amount: u64,
    min_output_amount: u64,
) -> Option<Result<SwapPlan, ErrorCode>> {
    let x = accounts.input_vault_amount as int;
    let y = accounts.output_vault_amount as int;
    if !pool_matches(accounts, fees_in_ppm) {
        Some(Err(ErrorCode::InvalidPool))
    } else if exact_input_amount == 0 {
        Some(Err(ErrorCode::InvalidInputAmount))
    } else {
        match spec_get_transfer_fees(accounts.input_mint_fee, exact_input_amount) {
            None => None,
            Some(Err(e)) => Some(Err(e)),
            Some(Ok(input_fee)) => {
                let net_input = exact_input_amount - input_fee;
                let swap_fee = accounts.pool_state.spec_swap_fees(net_input);
                if input_fee > exact_input_amount || swap_fee > u64::MAX || swap_fee > net_input {
                    None
                } else if net_input - swap_fee == 0 {
                    Some(Err(ErrorCode::InvalidInputAmount))
                } else {
                    let curve_output = y - spec_new_output_reserve(
                        x,
                        y,
                        x + net_input - swap_fee,
                    );
                    match spec_get_transfer_fees(accounts.output_mint_fee, curve_output as u64) {
                        None => None,
                        Some(Err(e)) => Some(Err(e)),
                        Some(Ok(output_fee)) => if output_fee > curve_output {
                            None
                        } else if curve_output - output_fee < min_output_amount {
                            Some(Err(ErrorCode::FailedToExceedMinimum))
                        } else {
                            Some(
                                Ok(
                                    SwapPlan {
                                        exact_input_amount: exact_input_amount,
                                        input_transfer_fee: input_fee,
                                        curve_output_amount: curve_output as u64,
                                        output_transfer_fee: output_fee,
                                        k_before: (x * y) as u128,
                                    },
                                ),
                            )
                        },
                    }
                }
            },
        }
    }
}

/// The output reserve that the curve leaves never exceeds `y` and keeps
/// the product: `new_x` times it is at least `x * y`.
pub proof fn lemma_new_output_reserve(x: int, y: int, new_x: int)
    requires
        0 <= x < new_x,
        y >= 0,
    ensures
        0 <= spec_new_output_reserve(x, y, new_x) <= y,
        new_x * spec_new_output_reserve(x, y, new_x) >= x * y,
{
    assert(0 <= x * y <= y * new_x) by (nonlinear_arith)
        requires
            0 <= x < new_x,
            y >= 0,
    ;
    lemma_ceil_div(x * y, new_x);
    let c = ceil_div(x * y, new_x);
    assert(new_x * c >= x * y) by (nonlinear_arith)
        requires
            c * new_x >= x * y,
    ;
    assert(c <= y) by (nonlinear_arith)
        requires
            c * new_x < x * y + new_x,
            x * y <= y * new_x,
            new_x > 0,
    ;
}

/// This pool's output, `y` less the output reserve that the curve leaves,
/// is the constant-product output that the other pool program quotes for
/// the same reserves and new input reserve.
pub proof fn lemma_output_matches_curve_output(x: int, y: int, new_x: int)
    requires
        0 <= x < new_x,
        y >= 0,
    ensures
        y - spec_new_output_reserve(x, y, new_x) == CurveMath::spec_output_amount(x, y, new_x),
{
    lemma_new_output_reserve(x, y, new_x);
    let c = ceil_div(x * y, new_x);
    lemma_ceil_div(x * y, new_x);
    let n = y * new_x - x * y;
    assert(n >= 0) by (nonlinear_arith)
        requires
            0 <= x < new_x,
            y >= 0,
            n == y * new_x - x * y,
    ;
    lemma_div_mod_facts(n, new_x);
    let q = n / new_x;
    let o = y - c;
    assert(o * new_x <= n < (o + 1) * new_x) by (nonlinear_arith)
        requires
            c * new_x >= x * y,
            c * new_x < x * y + new_x,
            n == y * new_x - x * y,
            o == y - c,
    ;
    assert(o == q) by (nonlinear_arith)
        requires
            o * new_x <= n < (o + 1) * new_x,
            q * new_x <= n < (q + 1) * new_x,
            new_x > 0,
    ;
}

/// How an accepted swap sets its amounts. The trader sends exactly the
/// amount chosen, and its transfer fee is what the input mint charges on it.
/// The curve takes what arrives less the pool's swap fee on it, a positive
/// amount, and pays the largest output that keeps the product of the
/// reserves. The pool's transfer fee is what the output mint charges on that
/// output, and what arrives of it meets the trader's minimum.
pub proof fn lemma_swap_base_input_amounts(
    accounts: SwapBaseInput,
    fees_in_ppm: u32,
    exact_input_amount: u64,
    min_output_amount: u64,
)
    requires
        spec_swap_base_input(accounts, fees_in_ppm, exact_input_amount, min_output_amount) matches Some(
            Ok(_),
        ),
    ensures
        ({
            let p = spec_swap_base_input(
                accounts,
                fees_in_ppm,
                exact_input_amount,
                min_output_amount,
            )->Some_0->Ok_0;
            let x = accounts.input_vault_amount as int;
            let y = accounts.output_vault_amount as int;
            let net = exact_input_amount - p.input_transfer_fee;
            let ci = net - accounts.pool_state.spec_swap_fees(net);
            let o = p.curve_output_amount as int;
            &&& p.exact_input_amount == exact_input_amount
            &&& charges_transfer_fee(
                accounts.input_mint_fee,
                exact_input_amount,
                p.input_transfer_fee,
            )
            &&& p.input_transfer_fee <= exact_input_amount
            &&& 0 < ci <= net
            &&& 0 <= o <= y
            &&& (x + ci) * (y - o) >= x * y
            &&& (x + ci) * (y - o - 1) < x * y
            &&& charges_transfer_fee(
                accounts.output_mint_fee,
                p.curve_output_amount,
                p.output_transfer_fee,
            )
            &&& p.output_transfer_fee <= p.curve_output_amount
            &&& p.curve_output_amount - p.output_transfer_fee >= min_output_amount
            &&& p.k_before == x * y
        }),
{
    let x = accounts.input_vault_amount as int;
    let y = accounts.output_vault_amount as int;
    lemma_transfer_fees_charged(accounts.input_mint_fee, exact_input_amount);
    let input_fee = spec_get_transfer_fees(accounts.input_mint_fee, exact_input_amount)->Some_0->Ok_0;
    let net = exact_input_amount - input_fee;
    let pool = accounts.pool_state;
    assert(net * pool.fees_in_ppm >= 0) by (nonlinear_arith)
        requires net >= 0;
    lemma_ceil_div(net * pool.fees_in_ppm, 1_000_000);
    let new_x = x + net - pool.spec_swap_fees(net);
    lemma_new_output_reserve(x, y, new_x);
    lemma_ceil_div(x * y, new_x);
    let c = spec_new_output_reserve(x, y, new_x);
    let o = y - c;
    assert(new_x * (y - o) >= x * y && new_x * (y - o - 1) < x * y) by (nonlinear_arith)
        requires
            c * new_x >= x * y,
            c * new_x < x * y + new_x,
            o == y - c,
    ;
    lemma_transfer_fees_charged(accounts.output_mint_fee, o as u64);
    assert(0 <= x * y <= u128::MAX) by (nonlinear_arith)
        requires
            0 <= x <= u64::MAX,
            0 <= y <= u64::MAX,
    ;
}

fn quote_swap_base_input(
    accounts: &SwapBaseInput,
    fees_in_ppm: u32,
    exact_input_amount: u64,
    min_output_amount: u64,
) -> (outcome: Option<Result<SwapPlan, ErrorCode>>)
    ensures
        outcome == spec_swap_base_input(
            *accounts,
            fees_in_ppm,
            exact_input_amount,
            min_output_amount,
        ),
{
    let pool = &accounts.pool_state;
    if !((pool.mint_a.same(&accounts.input_mint) && pool.mint_b.same(&accounts.output_mint)) || (
    pool.mint_b.same(&accounts.input_mint) && pool.mint_a.same(&accounts.output_mint)
        && pool.fees_in_ppm == fees_in_ppm)) {
        return Some(Err(ErrorCode::InvalidPool));
    }
    if !(exact_input_amount > 0) {
        return Some(Err(ErrorCode::InvalidInputAmount));
    }
    let input_transfer_fee = match transfer_fees_checked(
        &accounts.input_mint_fee,
        exact_input_amount,
    ) {
        None => return None,
        Some(Err(e)) => return Some(Err(e)),
        Some(Ok(f)) => f,
    };
    if input_transfer_fee > exact_input_amount {
        return None;
    }
    let net_input_amount = exact_input_amount - input_transfer_fee;
    proof {
        assert(net_input_amount * pool.fees_in_ppm <= 0xffff_ffff_ffff_ffff_ffff_ffff_ffff_ffff)
            by (nonlinear_arith)
            requires
                net_input_amount <= 0xffff_ffff_ffff_ffff,
                pool.fees_in_ppm <= 0xffff_ffff,
        ;
    }
    let product: u128 = (net_input_amount as u128) * (pool.fees_in_ppm as u128);
    let rounded_up: u128 = product / 1000000 + if product % 1000000 > 0 {
        1
    } else {
        0
    };
    proof {
        lemma_ceil_div(net_input_amount * pool.fees_in_ppm, 1000000);
    }
    if rounded_up > u64::MAX as u128 {
        return None;
    }
    let swap_fee = pool.swap_fees(net_input_amount);
    if swap_fee > net_input_amount {
        return None;
    }
    let curve_input_amount = net_input_amount - swap_fee;
    if !(curve_input_amount > 0) {
        return Some(Err(ErrorCode::InvalidInputAmount));
    }
    let x = accounts.input_vault_amount;
    let y = accounts.output_vault_amount;
    proof {
        assert(x * y <= 0xffff_ffff_ffff_ffff_ffff_ffff_ffff_ffff) by (nonlinear_arith)
            requires
                x <= 0xffff_ffff_ffff_ffff,
                y <= 0xffff_ffff_ffff_ffff,
        ;
    }
    let k_before: u128 = (x as u128) * (y as u128);
    let new_x: u128 = (x as u128) + (curve_input_amount as u128);
    let dividend = k_before / new_x;
    let remainder = k_before % new_x;
    proof {
        lemma_div_mod_facts(k_before as int, new_x as int);
        assert(dividend <= k_before) by (nonlinear_arith)
            requires
                dividend * new_x <= k_before,
                new_x >= 1,
                dividend >= 0,
        ;
        assert(k_before < 0xffff_ffff_ffff_ffff_ffff_ffff_ffff_ffff) by (nonlinear_arith)
            requires
                k_before == x * y,
                x <= 0xffff_ffff_ffff_ffff,
                y <= 0xffff_ffff_ffff_ffff,
        ;
    }
    let mut new_y = dividend;
    if remainder > 0 {
        new_y = new_y + 1;
    }
    proof {
        lemma_ceil_div(x * y, new_x as int);
        lemma_new_output_reserve(x as int, y as int, new_x as int);
    }
    let curve_output_amount = y - (new_y as u64);
    let output_transfer_fee = match transfer_fees_checked(
        &accounts.output_mint_fee,
        curve_output_amount,
    ) {
        None => return None,
        Some(Err(e)) => return Some(Err(e)),
        Some(Ok(f)) => f,
    };
    if output_transfer_fee > curve_output_amount {
        return None;
    }
    let net_output_amount = curve_output_amount - output_transfer_fee;
    if !(net_output_amount >= min_output_amount) {
        return Some(Err(ErrorCode::FailedToExceedMinimum));
    }
    Some(
        Ok(
            SwapPlan {
                exact_input_amount,
                input_transfer_fee,
                curve_output_amount,
                output_transfer_fee,
                k_before,
            },
        ),
    )
}

/// Whether `swap_base_input_handler` would abort on these inputs (a checked
/// operation of the instruction fails), which its `requires` rules out.
pub fn swap_base_input_aborts(
    accounts: &SwapBaseInput,
    fees_in_ppm: u32,
    exact_input_amount: u64,
    min_output_amount: u64,
) -> (r: bool)
    ensures
        r == (spec_swap_base_input(
            *accounts,
            fees_in_ppm,
            exact_input_amount,
            min_output_amount,
        ) is None),
{
    quote_swap_base_input(accounts, fees_in_ppm, exact_input_amount, min_output_amount).is_none()
}

/// Decides a swap of `exact_input_amount`: checks the pool, takes the
/// input mint's transfer fee and the pool's swap fee, lets the curve keep
/// `ceil(x * y / (x + input))` of the output reserve, takes the output
/// mint's transfer fee, and refuses less than `min_output_amount`.
pub fn swap_base_input_handler(
    accounts: &SwapBaseInput,
    fees_in_ppm: u32,
    exact_input_amount: u64,
    min_output_amount: u64,
) -> (r: Result<SwapPlan, ErrorCode>)
    requires
        spec_swap_base_input(*accounts, fees_in_ppm, exact_input_amount, min_output_amount) is Some,
    ensures
        Some(r) == spec_swap_base_input(
            *accounts,
            fees_in_ppm,
            exact_input_amount,
            min_output_amount,
        ),
{
    match quote_swap_base_input(accounts, fees_in_ppm, exact_input_amount, min_output_amount) {
        Some(r) => r,
        None => unreached(),
    }
}

/// After the swap's transfers: the product of the new vault balances may
/// not be below the product before.
pub fn check_swap_invariant(k_before: u128, input_vault_amount: u64, output_vault_amount: u64) -> (r:
    Result<(), ErrorCode>)
    ensures
        r == if input_vault_amount * output_vault_amount >= k_before {
            Ok::<(), ErrorCode>(())
        } else {
            Err(ErrorCode::RequireGteViolated)
        },
{
    proof {
        assert(input_vault_amount * output_vault_amount <= 0xffff_ffff_ffff_ffff_ffff_ffff_ffff_ffff)
            by (nonlinear_arith)
            requires
                input_vault_amount <= 0xffff_ffff_ffff_ffff,
                output_vault_amount <= 0xffff_ffff_ffff_ffff,
        ;
    }
    let k_after: u128 = (input_vault_amount as u128) * (output_vault_amount as u128);
    if k_after >= k_before {
        Ok(())
    } else {
        Err(ErrorCode::RequireGteViolated)
    }
}

/// An accepted swap delivers at least the trader's minimum after the output
/// transfer fee and keeps the product of the reserves once the input vault
/// holds what arrives of the trader's transfer and the output vault has
/// paid the curve output.
pub proof fn lemma_swap_base_input_accepted(
    accounts: SwapBaseInput,
    fees_in_ppm: u32,
    exact_input_amount: u64,
    min_output_amount: u64,
)
    requires
        spec_swap_base_input(accounts, fees_in_ppm, exact_input_amount, min_output_amount) is Some,
        spec_swap_base_input(
            accounts,
            fees_in_ppm,
            exact_input_amount,
            min_output_amount,
        )->Some_0 is Ok,
    ensures
        ({
            let p = spec_swap_base_input(
                accounts,
                fees_in_ppm,
                exact_input_amount,
                min_output_amount,
            )->Some_0->Ok_0;
            let x = accounts.input_vault_amount;
            let y = accounts.output_vault_amount;
            &&& p.exact_input_amount == exact_input_amount
            &&& p.input_transfer_fee <= exact_input_amount
            &&& p.output_transfer_fee <= p.curve_output_amount <= y
            &&& p.curve_output_amount - p.output_transfer_fee >= min_output_amount
            &&& p.k_before == x * y
            &&& (x + exact_input_amount - p.input_transfer_fee) * (y - p.curve_output_amount)
                >= p.k_before
        }),
{
    let x = accounts.input_vault_amount as int;
    let y = accounts.output_vault_amount as int;
    let input_fee = spec_get_transfer_fees(accounts.input_mint_fee, exact_input_amount)->Some_0->Ok_0;
    let net_input = exact_input_amount - input_fee;
    let swap_fee = accounts.pool_state.spec_swap_fees(net_input);
    lemma_ceil_div(net_input * accounts.pool_state.fees_in_ppm, 1000000);
    assert(net_input * accounts.pool_state.fees_in_ppm >= 0) by (nonlinear_arith)
        requires
            net_input >= 0,
            accounts.pool_state.fees_in_ppm >= 0,
    ;
    let new_x = x + net_input - swap_fee;
    lemma_new_output_reserve(x, y, new_x);
    let new_y = spec_new_output_reserve(x, y, new_x);
    assert((x + net_input) * new_y >= new_x * new_y) by (nonlinear_arith)
        requires
            x + net_input >= new_x,
            new_y >= 0,
    ;
    assert(x * y <= 0xffff_ffff_ffff_ffff_ffff_ffff_ffff_ffff) by (nonlinear_arith)
        requires
            0 <= x <= 0xffff_ffff_ffff_ffff,
            0 <= y <= 0xffff_ffff_ffff_ffff,
    ;
}

} // verus!
