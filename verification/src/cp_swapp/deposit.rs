//! Deposit: the LP asks for an exact number of LP tokens and pays the
//! matching share of each reserve, rounded up, plus transfer fees.
use crate::cp_swapp::constants::LOCKED_LP;
use crate::cp_swapp::error::ErrorCode;
use crate::cp_swapp::utils::{
    charges_transfer_fee, inverse_transfer_fee_checked, lemma_inverse_transfer_fee_charged,
    spec_get_inverse_transfer_fee,
};
use crate::math::{ceil_div, lemma_ceil_div, lemma_div_mod_facts};
use crate::token_mint::MintTransferFee;
use vstd::prelude::*;

verus! {

/// What `deposit` reads of its accounts.
#[derive(Clone, Copy, Debug)]
pub struct Deposit {
    /// Supply of the LP mint.
    pub lp_mint_supply: u64,
    /// Pool vault balance of mint A.
    pub token_a_vault_amount: u64,
    /// Pool vault balance of mint B.
    pub token_b_vault_amount: u64,
    /// Transfer fee of mint A in the current epoch.
    pub mint_a_fee: MintTransferFee,
    /// Transfer fee of mint B in the current epoch.
    pub mint_b_fee: MintTransferFee,
}

/// What an accepted deposit does.
#[derive(Clone, Copy, Debug, PartialEq, Eq, Structural)]
pub struct DepositPlan {
    /// LP tokens minted to the LP.
    pub lp_tokens_to_mint: u64,
    /// Amount of mint A that the LP sends, transfer fee included.
    pub gross_deposit_a: u64,
    /// Transfer fee on that transfer.
    pub transfer_fee_a: u64,
    /// Amount of mint B that the LP sends, transfer fee included.
    pub gross_deposit_b: u64,
    /// Transfer fee on that transfer.
    pub transfer_fee_b: u64,
}

/// Deposit owed for `lp_tokens_required` of `lp_supply` against `reserve`:
/// `ceil(lp_tokens * reserve / lp_supply)`.
pub open spec fn spec_deposit(lp_tokens_required: int, lp_supply: int, reserve: int) -> int {
    ceil_div(lp_tokens_required * reserve, lp_supply)
}

/// Amount of one reserve that `lp_tokens_required` LP tokens cost, rounded
/// up so that the pool never gives away value.
pub fn calculate_deposit(lp_tokens_required: u64, lp_supply: u64, reserve: u64) -> (r: Result<
    u64,
    ErrorCode,
>)
    requires
        lp_supply > 0,
        spec_deposit(lp_tokens_required as int, lp_supply as int, reserve as int) <= u64::MAX,
    ensures
        r == Ok::<u64, ErrorCode>(
            spec_deposit(lp_tokens_required as int, lp_supply as int, reserve as int) as u64,
        ),
{
    proof {
        assert(lp_tokens_required * reserve <= 0xffff_ffff_ffff_ffff_ffff_ffff_ffff_ffff)
            by (nonlinear_arith)
            requires
                lp_tokens_required <= 0xffff_ffff_ffff_ffff,
                reserve <= 0xffff_ffff_ffff_ffff,
        ;
        lemma_ceil_div(lp_tokens_required * reserve, lp_supply as int);
    }
    let product: u128 = (lp_tokens_required as u128) * (reserve as u128);
    let dividend = product / (lp_supply as u128);
    let remainder = product % (lp_supply as u128);
    let mut deposit = dividend;
    if remainder > 0 {
        deposit = deposit + 1;
    }
    Ok(deposit as u64)
}

/// Outcome of `deposit_handler`: `None` where a checked operation of the
/// instruction fails, else the error or the plan.
pub open spec fn spec_deposit_handler(
    accounts: Deposit,
    lp_tokens_required: u64,
    max_deposit_a: u64,
    max_deposit_b: u64,
) -> Option<Result<DepositPlan, ErrorCode>> {
    let supply = accounts.lp_mint_supply + LOCKED_LP;
    let net_a = spec_deposit(lp_tokens_required as int, supply, accounts.token_a_vault_amount as int);
    let net_b = spec_deposit(lp_tokens_required as int, supply, accounts.token_b_vault_amount as int);
    if supply > u64::MAX || net_a > u64::MAX || net_b > u64::MAX {
        None
    } else {
        match spec_get_inverse_transfer_fee(accounts.mint_a_fee, net_a as u64) {
            None => None,
            Some(Err(e)) => Some(Err(e)),
            Some(Ok(fee_a)) => match spec_get_inverse_transfer_fee(accounts.mint_b_fee, net_b as u64) {
                None => None,
                Some(Err(e)) => Some(Err(e)),
                Some(Ok(fee_b)) => if net_a + fee_a > u64::MAX || net_b + fee_b > u64::MAX {
                    None
                } else if max_deposit_a < net_a + fee_a || max_deposit_b < net_b + fee_b {
                    Some(Err(ErrorCode::InsufficientFunds))
                } else {
                    Some(
                        Ok(
                            DepositPlan {
                                lp_tokens_to_mint: lp_tokens_required,
                                gross_deposit_a: (net_a + fee_a) as u64,
                                transfer_fee_a: fee_a,
                                gross_deposit_b: (net_b + fee_b) as u64,
                                transfer_fee_b: fee_b,
                            },
                        ),
                    )
                },
            },
        }
    }
}

/// `calculate_deposit` where its bound holds, `None` elsewhere.
fn deposit_checked(lp_tokens_required: u64, lp_supply: u64, reserve: u64) -> (r: Option<u64>)
    requires
        lp_supply > 0,
    ensures
        r is Some <==> spec_deposit(lp_tokens_required as int, lp_supply as int, reserve as int)
            <= u64::MAX,
        r matches Some(v) ==> v == spec_deposit(
            lp_tokens_required as int,
            lp_supply as int,
            reserve as int,
        ),
{
    proof {
        assert(lp_tokens_required * reserve <= 0xffff_ffff_ffff_ffff_ffff_ffff_ffff_ffff)
            by (nonlinear_arith)
            requires
                lp_tokens_required <= 0xffff_ffff_ffff_ffff,
                reserve <= 0xffff_ffff_ffff_ffff,
        ;
        lemma_ceil_div(lp_tokens_required * reserve, lp_supply as int);
    }
    let product: u128 = (lp_tokens_required as u128) * (reserve as u128);
    proof {
        lemma_div_mod_facts(product as int, lp_supply as int);
        let q = (product as int) / (lp_supply as int);
        assert(q <= product) by (nonlinear_arith)
            requires
                q * lp_supply <= product,
                lp_supply >= 1,
                q >= 0,
        ;
        assert(product < 0xffff_ffff_ffff_ffff_ffff_ffff_ffff_ffff) by (nonlinear_arith)
            requires
                product == lp_tokens_required * reserve,
                lp_tokens_required <= 0xffff_ffff_ffff_ffff,
                reserve <= 0xffff_ffff_ffff_ffff,
        ;
    }
    let rounded_up: u128 = product / (lp_supply as u128) + if product % (lp_supply as u128) > 0 {
        1
    } else {
        0
    };
    if rounded_up > u64::MAX as u128 {
        return None;
    }
    match calculate_deposit(lp_tokens_required, lp_supply, reserve) {
        Ok(v) => Some(v),
        Err(_) => None,
    }
}

fn quote_deposit(
    accounts: &Deposit,
    lp_tokens_required: u64,
    max_deposit_a: u64,
    max_deposit_b: u64,
) -> (outcome: Option<Result<DepositPlan, ErrorCode>>)
    ensures
        outcome == spec_deposit_handler(*accounts, lp_tokens_required, max_deposit_a, max_deposit_b),
{
    let lp_supply = match accounts.lp_mint_supply.checked_add(LOCKED_LP) {
        None => return None,
        Some(s) => s,
    };
    let net_deposit_a = match deposit_checked(
        lp_tokens_required,
        lp_supply,
        accounts.token_a_vault_amount,
    ) {
        None => return None,
        Some(v) => v,
    };
    let net_deposit_b = match deposit_checked(
        lp_tokens_required,
        lp_supply,
        accounts.token_b_vault_amount,
    ) {
        None => return None,
        Some(v) => v,
    };
    let transfer_fee_a = match inverse_transfer_fee_checked(&accounts.mint_a_fee, net_deposit_a) {
        None => return None,
        Some(Err(e)) => return Some(Err(e)),
        Some(Ok(f)) => f,
    };
    let transfer_fee_b = match inverse_transfer_fee_checked(&accounts.mint_b_fee, net_deposit_b) {
        None => return None,
        Some(Err(e)) => return Some(Err(e)),
        Some(Ok(f)) => f,
    };
    let gross_deposit_a = match net_deposit_a.checked_add(transfer_fee_a) {
        None => return None,
        Some(g) => g,
    };
    let gross_deposit_b = match net_deposit_b.checked_add(transfer_fee_b) {
        None => return None,
        Some(g) => g,
    };
    if max_deposit_a < gross_deposit_a {
        return Some(Err(ErrorCode::InsufficientFunds));
    }
    if max_deposit_b < gross_deposit_b {
        return Some(Err(ErrorCode::InsufficientFunds));
    }
    Some(
        Ok(
            DepositPlan {
                lp_tokens_to_mint: lp_tokens_required,
                gross_deposit_a,
                transfer_fee_a,
                gross_deposit_b,
                transfer_fee_b,
            },
        ),
    )
}

/// Whether `deposit_handler` would abort on these inputs (a checked
/// operation of the instruction fails), which its `requires` rules out.
pub fn deposit_aborts(
    accounts: &Deposit,
    lp_tokens_required: u64,
    max_deposit_a: u64,
    max_deposit_b: u64,
) -> (r: bool)
    ensures
        r == (spec_deposit_handler(
            *accounts,
            lp_tokens_required,
            max_deposit_a,
            max_deposit_b,
        ) is None),
{
    quote_deposit(accounts, lp_tokens_required, max_deposit_a, max_deposit_b).is_none()
}

/// Decides a deposit for `lp_tokens_required` LP tokens: each reserve's
/// share against the LP supply (locked tokens counted), rounded up, plus
/// the transfer fee that makes it arrive, refused above the LP's maximum.
pub fn deposit_handler(
    accounts: &Deposit,
    lp_tokens_required: u64,
    max_deposit_a: u64,
    max_deposit_b: u64,
) -> (r: Result<DepositPlan, ErrorCode>)
    requires
        spec_deposit_handler(*accounts, lp_tokens_required, max_deposit_a, max_deposit_b) is Some,
    ensures
        Some(r) == spec_deposit_handler(*accounts, lp_tokens_required, max_deposit_a, max_deposit_b),
{
    match quote_deposit(accounts, lp_tokens_required, max_deposit_a, max_deposit_b) {
        Some(r) => r,
        None => unreached(),
    }
}

/// The rounded-up deposit is the least that covers the LP's share: it
/// times the LP supply is at least the LP tokens times the reserve, and one
/// token less would not be.
pub proof fn lemma_deposit_covers_share(lp_tokens_required: int, lp_supply: int, reserve: int)
    requires
        lp_tokens_required >= 0,
        lp_supply > 0,
        reserve >= 0,
    ensures
        spec_deposit(lp_tokens_required, lp_supply, reserve) * lp_supply >= lp_tokens_required
            * reserve,
        (spec_deposit(lp_tokens_required, lp_supply, reserve) - 1) * lp_supply
            < lp_tokens_required * reserve,
{
    assert(lp_tokens_required * reserve >= 0) by (nonlinear_arith)
        requires
            lp_tokens_required >= 0,
            reserve >= 0,
    ;
    lemma_ceil_div(lp_tokens_required * reserve, lp_supply);
    let c = spec_deposit(lp_tokens_required, lp_supply, reserve);
    assert((c - 1) * lp_supply < lp_tokens_required * reserve) by (nonlinear_arith)
        requires
            c * lp_supply < lp_tokens_required * reserve + lp_supply,
    ;
}

/// An accepted deposit charges at most the LP's maxima, and what arrives of
/// each transfer (the gross amount less its fee) covers the LP's share of
/// that reserve against the LP supply with the locked tokens.
pub proof fn lemma_deposit_accepted(
    accounts: Deposit,
    lp_tokens_required: u64,
    max_deposit_a: u64,
    max_deposit_b: u64,
)
    requires
        spec_deposit_handler(accounts, lp_tokens_required, max_deposit_a, max_deposit_b) is Some,
        spec_deposit_handler(
            accounts,
            lp_tokens_required,
            max_deposit_a,
            max_deposit_b,
        )->Some_0 is Ok,
    ensures
        ({
            let p = spec_deposit_handler(
                accounts,
                lp_tokens_required,
                max_deposit_a,
                max_deposit_b,
            )->Some_0->Ok_0;
            let supply = accounts.lp_mint_supply + LOCKED_LP;
            &&& p.lp_tokens_to_mint == lp_tokens_required
            &&& p.gross_deposit_a <= max_deposit_a
            &&& p.gross_deposit_b <= max_deposit_b
            &&& (p.gross_deposit_a - p.transfer_fee_a) * supply >= lp_tokens_required
                * accounts.token_a_vault_amount
            &&& (p.gross_deposit_b - p.transfer_fee_b) * supply >= lp_tokens_required
                * accounts.token_b_vault_amount
        }),
{
    let supply = accounts.lp_mint_supply + LOCKED_LP;
    lemma_deposit_covers_share(lp_tokens_required as int, supply, accounts.token_a_vault_amount as int);
    lemma_deposit_covers_share(lp_tokens_required as int, supply, accounts.token_b_vault_amount as int);
}

/// How an accepted deposit sets its amounts. For each mint, what arrives of
/// the LP's transfer (the gross amount less its fee) is the least amount
/// that covers the LP's share of that reserve, `lp_tokens_required / supply`
/// of it, and the fee is the one the mint charges on the gross transfer. The
/// LP receives exactly the LP tokens asked for.
pub proof fn lemma_deposit_amounts(
    accounts: Deposit,
    lp_tokens_required: u64,
    max_deposit_a: u64,
    max_deposit_b: u64,
)
    requires
        spec_deposit_handler(accounts, lp_tokens_required, max_deposit_a, max_deposit_b) matches Some(
            Ok(_),
        ),
    ensures
        ({
            let p = spec_deposit_handler(
                accounts,
                lp_tokens_required,
                max_deposit_a,
                max_deposit_b,
            )->Some_0->Ok_0;
            let supply = accounts.lp_mint_supply + LOCKED_LP;
            let net_a = p.gross_deposit_a - p.transfer_fee_a;
            let net_b = p.gross_deposit_b - p.transfer_fee_b;
            &&& p.lp_tokens_to_mint == lp_tokens_required
            &&& p.transfer_fee_a <= p.gross_deposit_a
            &&& p.transfer_fee_b <= p.gross_deposit_b
            &&& net_a * supply >= lp_tokens_required * accounts.token_a_vault_amount
            &&& (net_a - 1) * supply < lp_tokens_required * accounts.token_a_vault_amount
            &&& net_b * supply >= lp_tokens_required * accounts.token_b_vault_amount
            &&& (net_b - 1) * supply < lp_tokens_required * accounts.token_b_vault_amount
            &&& charges_transfer_fee(accounts.mint_a_fee, p.gross_deposit_a, p.transfer_fee_a)
            &&& charges_transfer_fee(accounts.mint_b_fee, p.gross_deposit_b, p.transfer_fee_b)
            &&& p.gross_deposit_a <= max_deposit_a
            &&& p.gross_deposit_b <= max_deposit_b
        }),
{
    let supply = accounts.lp_mint_supply + LOCKED_LP;
    lemma_deposit_covers_share(lp_tokens_required as int, supply, accounts.token_a_vault_amount as int);
    lemma_deposit_covers_share(lp_tokens_required as int, supply, accounts.token_b_vault_amount as int);
    let net_a = spec_deposit(lp_tokens_required as int, supply, accounts.token_a_vault_amount as int);
    let net_b = spec_deposit(lp_tokens_required as int, supply, accounts.token_b_vault_amount as int);
    lemma_inverse_transfer_fee_charged(accounts.mint_a_fee, net_a as u64);
    lemma_inverse_transfer_fee_charged(accounts.mint_b_fee, net_b as u64);
}

} // verus!
