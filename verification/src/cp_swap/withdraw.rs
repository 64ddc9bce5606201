//! Withdrawal of liquidity: the LP burns pool tokens for a pro-rata share
//! of both vaults.
use crate::cp_swap::error::ErrorCode;
use crate::cp_swap::utils::{amount_after_transfer_fee, spec_amount_after_transfer_fee};
use crate::math::lemma_div_mod_facts;
use crate::token_mint::{bytes_precede, Key, MintTransferFee};
use vstd::prelude::*;

verus! {

/// What `withdraw` reads of its accounts.
#[derive(Clone, Copy, Debug)]
pub struct Withdraw {
    /// Address of the config account given.
    pub amm_config_key: Key,
    /// Address of the first mint given.
    pub mint_0: Key,
    /// Address of the second mint given.
    pub mint_1: Key,
    /// The config that the pool names.
    pub pool_amm_config: Key,
    /// The pool's first mint.
    pub pool_mint_0: Key,
    /// The pool's second mint.
    pub pool_mint_1: Key,
    /// LP supply recorded by the pool.
    pub pool_lp_supply: u64,
    /// LP tokens held by the withdrawing LP.
    pub lp_token_balance: u64,
    /// Pool vault balance of the first mint.
    pub token_0_vault_amount: u64,
    /// Pool vault balance of the second mint.
    pub token_1_vault_amount: u64,
    /// Transfer fee of the first mint in the current epoch.
    pub mint_0_fee: MintTransferFee,
    /// Transfer fee of the second mint in the current epoch.
    pub mint_1_fee: MintTransferFee,
}

/// What an accepted withdrawal does.
#[derive(Clone, Copy, Debug, PartialEq, Eq, Structural)]
pub struct WithdrawPlan {
    /// Amount of the first mint that the pool sends.
    pub amount_0: u64,
    /// Amount of the second mint that the pool sends.
    pub amount_1: u64,
    /// LP tokens burnt from the LP.
    pub burn: u64,
    /// LP supply that the pool records afterwards.
    pub new_lp_supply: u64,
}

/// Share of a vault that `lp_tokens` of `lp_supply` are worth, rounded
/// down.
pub open spec fn spec_pro_rata(lp_tokens: int, vault: int, lp_supply: int) -> int {
    (lp_tokens * vault) / lp_supply
}

/// Outcome of `handle_withdraw`: `None` where a checked operation of the
/// instruction fails, else the error or the plan.
pub open spec fn spec_withdraw(
    accounts: Withdraw,
    min_amount_0_lp_receive: u64,
    min_amount_1_lp_receive: u64,
    dilute_lp_tokens: u64,
) -> Option<Result<WithdrawPlan, ErrorCode>> {
    let supply = accounts.pool_lp_supply as int;
    if !bytes_precede(accounts.mint_0.spec_bytes(), accounts.mint_1.spec_bytes()) {
        Some(Err(ErrorCode::Mint1LexicographicallyGreaterThanOrEqualToMint0))
    } else if accounts.pool_amm_config.spec_bytes() != accounts.amm_config_key.spec_bytes()
        || accounts.pool_mint_0.spec_bytes() != accounts.mint_0.spec_bytes()
        || accounts.pool_mint_1.spec_bytes() != accounts.mint_1.spec_bytes() {
        Some(Err(ErrorCode::ConstraintHasOne))
    } else if !(dilute_lp_tokens > 0 && dilute_lp_tokens <= accounts.lp_token_balance) {
        Some(Err(ErrorCode::InvalidAmount))
    } else if dilute_lp_tokens * accounts.token_0_vault_amount > u64::MAX || supply == 0 {
        None
    } else {
        let amount_0 = spec_pro_rata(
            dilute_lp_tokens as int,
            accounts.token_0_vault_amount as int,
            supply,
        );
        if accounts.mint_0_fee is Unreadable {
            Some(Err(ErrorCode::ProgramError(accounts.mint_0_fee->error)))
        } else {
            match spec_amount_after_transfer_fee(accounts.mint_0_fee, amount_0 as u64) {
                None => None,
                Some(receive_0) => if min_amount_0_lp_receive > receive_0 {
                    Some(Err(ErrorCode::NotMinimumReceiveAmount))
                } else if dilute_lp_tokens * accounts.token_1_vault_amount > u64::MAX {
                    None
                } else {
                    let amount_1 = spec_pro_rata(
                        dilute_lp_tokens as int,
                        accounts.token_1_vault_amount as int,
                        supply,
                    );
                    if accounts.mint_1_fee is Unreadable {
                        Some(Err(ErrorCode::ProgramError(accounts.mint_1_fee->error)))
                    } else {
                        match spec_amount_after_transfer_fee(accounts.mint_1_fee, amount_1 as u64) {
                            None => None,
                            Some(receive_1) => if min_amount_1_lp_receive > receive_1 {
                                Some(Err(ErrorCode::NotMinimumReceiveAmount))
                            } else if dilute_lp_tokens > supply {
                                None
                            } else {
                                Some(
                                    Ok(
                                        WithdrawPlan {
                                            amount_0: amount_0 as u64,
                                            amount_1: amount_1 as u64,
                                            burn: dilute_lp_tokens,
                                            new_lp_supply: (supply - dilute_lp_tokens) as u64,
                                        },
                                    ),
                                )
                            },
                        }
                    }
                }
            }
        }
    }
}

fn quote_withdraw(
    accounts: &Withdraw,
    min_amount_0_lp_receive: u64,
    min_amount_1_lp_receive: u64,
    dilute_lp_tokens: u64,
) -> (outcome: Option<Result<WithdrawPlan, ErrorCode>>)
    ensures
        outcome == spec_withdraw(
            *accounts,
            min_amount_0_lp_receive,
            min_amount_1_lp_receive,
            dilute_lp_tokens,
        ),
{
    if !accounts.mint_0.precedes(&accounts.mint_1) {
        return Some(Err(ErrorCode::Mint1LexicographicallyGreaterThanOrEqualToMint0));
    }
    if !accounts.pool_amm_config.same(&accounts.amm_config_key) || !accounts.pool_mint_0.same(
        &accounts.mint_0,
    ) || !accounts.pool_mint_1.same(&accounts.mint_1) {
        return Some(Err(ErrorCode::ConstraintHasOne));
    }
    if !(dilute_lp_tokens > 0 && dilute_lp_tokens <= accounts.lp_token_balance) {
        return Some(Err(ErrorCode::InvalidAmount));
    }
    let lp_supply = accounts.pool_lp_supply;
    let share_0 = match dilute_lp_tokens.checked_mul(accounts.token_0_vault_amount) {
        None => return None,
        Some(v) => v,
    };
    if lp_supply == 0 {
        return None;
    }
    let exact_amount_0_pool_must_send = share_0 / lp_supply;
    let exact_amount_0_lp_receive = match amount_after_transfer_fee(
        &accounts.mint_0_fee,
        exact_amount_0_pool_must_send,
    ) {
        None => return None,
        Some(Err(e)) => return Some(Err(e)),
        Some(Ok(v)) => v,
    };
    if min_amount_0_lp_receive > exact_amount_0_lp_receive {
        return Some(Err(ErrorCode::NotMinimumReceiveAmount));
    }
    let share_1 = match dilute_lp_tokens.checked_mul(accounts.token_1_vault_amount) {
        None => return None,
        Some(v) => v,
    };
    let exact_amount_1_pool_must_send = share_1 / lp_supply;
    let exact_amount_1_lp_receive = match amount_after_transfer_fee(
        &accounts.mint_1_fee,
        exact_amount_1_pool_must_send,
    ) {
        None => return None,
        Some(Err(e)) => return Some(Err(e)),
        Some(Ok(v)) => v,
    };
    if min_amount_1_lp_receive > exact_amount_1_lp_receive {
        return Some(Err(ErrorCode::NotMinimumReceiveAmount));
    }
    if dilute_lp_tokens > lp_supply {
        return None;
    }
    Some(
        Ok(
            WithdrawPlan {
                amount_0: exact_amount_0_pool_must_send,
                amount_1: exact_amount_1_pool_must_send,
                burn: dilute_lp_tokens,
                new_lp_supply: lp_supply - dilute_lp_tokens,
            },
        ),
    )
}

/// Whether `handle_withdraw` would abort on these inputs (a checked
/// operation of the instruction fails), which its `requires` rules out.
pub fn withdraw_aborts(
    accounts: &Withdraw,
    min_amount_0_lp_receive: u64,
    min_amount_1_lp_receive: u64,
    dilute_lp_tokens: u64,
) -> (r: bool)
    ensures
        r == (spec_withdraw(
            *accounts,
            min_amount_0_lp_receive,
            min_amount_1_lp_receive,
            dilute_lp_tokens,
        ) is None),
{
    quote_withdraw(accounts, min_amount_0_lp_receive, min_amount_1_lp_receive, dilute_lp_tokens).is_none()
}

/// Decides a withdrawal of `dilute_lp_tokens`: checks the mints and the
/// pool's accounts and the LP's balance, computes the pro-rata share of
/// each vault (rounded down), refuses a share that arrives below the LP's
/// minimum after the mint's transfer fee, and lowers the pool's LP supply.
pub fn handle_withdraw(
    accounts: &Withdraw,
    min_amount_0_lp_receive: u64,
    min_amount_1_lp_receive: u64,
    dilute_lp_tokens: u64,
) -> (r: Result<WithdrawPlan, ErrorCode>)
    requires
        spec_withdraw(
            *accounts,
            min_amount_0_lp_receive,
            min_amount_1_lp_receive,
            dilute_lp_tokens,
        ) is Some,
    ensures
        Some(r) == spec_withdraw(
            *accounts,
            min_amount_0_lp_receive,
            min_amount_1_lp_receive,
            dilute_lp_tokens,
        ),
{
    match quote_withdraw(accounts, min_amount_0_lp_receive, min_amount_1_lp_receive, dilute_lp_tokens) {
        Some(r) => r,
        None => unreached(),
    }
}

/// An accepted withdrawal never pays more than the LP's share: each amount
/// times the LP supply is at most the burnt tokens times the vault, what
/// arrives meets the LP's minimum, and the supply drops by the burnt tokens;
/// so the reserve per LP token of each vault never decreases for the LPs
/// who remain.
pub proof fn lemma_withdraw_accepted(
    accounts: Withdraw,
    min_amount_0_lp_receive: u64,
    min_amount_1_lp_receive: u64,
    dilute_lp_tokens: u64,
)
    requires
        spec_withdraw(
            accounts,
            min_amount_0_lp_receive,
            min_amount_1_lp_receive,
            dilute_lp_tokens,
        ) is Some,
        spec_withdraw(
            accounts,
            min_amount_0_lp_receive,
            min_amount_1_lp_receive,
            dilute_lp_tokens,
        )->Some_0 is Ok,
    ensures
        ({
            let p = spec_withdraw(
                accounts,
                min_amount_0_lp_receive,
                min_amount_1_lp_receive,
                dilute_lp_tokens,
            )->Some_0->Ok_0;
            &&& p.amount_0 * accounts.pool_lp_supply <= dilute_lp_tokens
                * accounts.token_0_vault_amount
            &&& p.amount_1 * accounts.pool_lp_supply <= dilute_lp_tokens
                * accounts.token_1_vault_amount
            &&& (p.amount_0 + 1) * accounts.pool_lp_supply > dilute_lp_tokens
                * accounts.token_0_vault_amount
            &&& (p.amount_1 + 1) * accounts.pool_lp_supply > dilute_lp_tokens
                * accounts.token_1_vault_amount
            &&& p.amount_0 <= accounts.token_0_vault_amount
            &&& p.amount_1 <= accounts.token_1_vault_amount
            &&& spec_amount_after_transfer_fee(accounts.mint_0_fee, p.amount_0)->Some_0
                >= min_amount_0_lp_receive
            &&& spec_amount_after_transfer_fee(accounts.mint_1_fee, p.amount_1)->Some_0
                >= min_amount_1_lp_receive
            &&& p.burn == dilute_lp_tokens
            &&& p.new_lp_supply + dilute_lp_tokens == accounts.pool_lp_supply
            &&& (accounts.token_0_vault_amount - p.amount_0) * accounts.pool_lp_supply
                >= accounts.token_0_vault_amount * p.new_lp_supply
            &&& (accounts.token_1_vault_amount - p.amount_1) * accounts.pool_lp_supply
                >= accounts.token_1_vault_amount * p.new_lp_supply
        }),
{
    let supply = accounts.pool_lp_supply as int;
    let d = dilute_lp_tokens as int;
    let v0 = accounts.token_0_vault_amount as int;
    let v1 = accounts.token_1_vault_amount as int;
    lemma_div_mod_facts(d * v0, supply);
    lemma_div_mod_facts(d * v1, supply);
    let a0 = (d * v0) / supply;
    let a1 = (d * v1) / supply;
    assert(a0 <= v0 && a1 <= v1) by (nonlinear_arith)
        requires
            a0 * supply <= d * v0,
            a1 * supply <= d * v1,
            0 < d <= supply,
            v0 >= 0,
            v1 >= 0,
            a0 >= 0,
            a1 >= 0,
    ;
    assert((v0 - a0) * supply >= v0 * (supply - d) && (v1 - a1) * supply >= v1 * (supply - d))
        by (nonlinear_arith)
        requires
            a0 * supply <= d * v0,
            a1 * supply <= d * v1,
    ;
}

} // verus!
