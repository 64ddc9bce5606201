//! Swap in which the trader sends an exact amount.
use crate::cp_swap::amm_config::AmmConfig;
use crate::cp_swap::error::ErrorCode;
use crate::cp_swap::swap_base_input::{
    exact_input_pays, exact_input_swap, lemma_exact_input_swap_amounts,
    lemma_exact_input_swap_keeps_product, spec_exact_input_swap, SwapTransfers,
};
use crate::cp_swap::utils::{check_mints_match_pool, mints_match_pool, spec_amount_after_transfer_fee};
use crate::token_mint::{Key, MintTransferFee};
use vstd::prelude::*;

verus! {

/// What `swap_base_send` reads of its accounts.
#[derive(Clone, Copy, Debug)]
pub struct SwapBaseSend {
    /// The config account given.
    pub amm_config: AmmConfig,
    /// Address of the config account given.
    pub amm_config_key: Key,
    /// The config that the pool names.
    pub pool_amm_config: Key,
    /// The pool's first mint.
    pub pool_mint_0: Key,
    /// The pool's second mint.
    pub pool_mint_1: Key,
    /// Mint that the trader sends.
    pub send_mint: Key,
    /// Mint that the trader receives.
    pub receive_mint: Key,
    /// Balance of the trader's account of the sent mint.
    pub trader_send_balance: u64,
    /// Pool vault balance of the sent mint.
    pub send_vault_amount: u64,
    /// Pool vault balance of the received mint.
    pub receive_vault_amount: u64,
    /// Transfer fee of the sent mint in the current epoch.
    pub send_mint_fee: MintTransferFee,
    /// Transfer fee of the received mint in the current epoch.
    pub receive_mint_fee: MintTransferFee,
}

/// Outcome of `handle_swap_base_send`: `None` where a checked operation of
/// the instruction fails, else the error or the transfers.
pub open spec fn spec_swap_base_send(
    accounts: SwapBaseSend,
    exact_amount_user_send: u64,
    min_amount_user_receive: u64,
) -> Option<Result<SwapTransfers, ErrorCode>> {
    if accounts.pool_amm_config.spec_bytes() != accounts.amm_config_key.spec_bytes() {
        Some(Err(ErrorCode::ConstraintHasOne))
    } else if !mints_match_pool(
        accounts.pool_mint_0,
        accounts.pool_mint_1,
        accounts.send_mint,
        accounts.receive_mint,
    ) {
        Some(Err(ErrorCode::MismatchAccounts))
    } else if exact_amount_user_send > accounts.trader_send_balance {
        Some(Err(ErrorCode::InsufficientFunds))
    } else {
        match spec_exact_input_swap(
            accounts.amm_config,
            accounts.send_vault_amount,
            accounts.receive_vault_amount,
            accounts.send_mint_fee,
            accounts.receive_mint_fee,
            exact_amount_user_send,
        ) {
            None => None,
            Some(Err(e)) => Some(Err(e)),
            Some(Ok((pool_sends, received, k))) => if received < min_amount_user_receive {
                Some(Err(ErrorCode::NotMinimumReceiveAmount))
            } else {
                Some(
                    Ok(
                        SwapTransfers {
                            trader_sends: exact_amount_user_send,
                            pool_sends: pool_sends,
                            k_before: k,
                        },
                    ),
                )
            },
        }
    }
}

fn quote_swap_base_send(
    accounts: &SwapBaseSend,
    exact_amount_user_send: u64,
    min_amount_user_receive: u64,
) -> (outcome: Option<Result<SwapTransfers, ErrorCode>>)
    ensures
        outcome == spec_swap_base_send(*accounts, exact_amount_user_send, min_amount_user_receive),
{
    if !accounts.pool_amm_config.same(&accounts.amm_config_key) {
        return Some(Err(ErrorCode::ConstraintHasOne));
    }
    if !check_mints_match_pool(
        &accounts.pool_mint_0,
        &accounts.pool_mint_1,
        &accounts.send_mint,
        &accounts.receive_mint,
    ) {
        return Some(Err(ErrorCode::MismatchAccounts));
    }
    if exact_amount_user_send > accounts.trader_send_balance {
        return Some(Err(ErrorCode::InsufficientFunds));
    }
    match exact_input_swap(
        &accounts.amm_config,
        accounts.send_vault_amount,
        accounts.receive_vault_amount,
        &accounts.send_mint_fee,
        &accounts.receive_mint_fee,
        exact_amount_user_send,
    ) {
        None => None,
        Some(Err(e)) => Some(Err(e)),
        Some(Ok((pool_sends, received, k))) => if received < min_amount_user_receive {
            Some(Err(ErrorCode::NotMinimumReceiveAmount))
        } else {
            Some(Ok(SwapTransfers { trader_sends: exact_amount_user_send, pool_sends, k_before: k }))
        },
    }
}

/// Whether `handle_swap_base_send` would abort on these inputs (a checked
/// operation of the instruction fails), which its `requires` rules out.
pub fn swap_base_send_aborts(
    accounts: &SwapBaseSend,
    exact_amount_user_send: u64,
    min_amount_user_receive: u64,
) -> (r: bool)
    ensures
        r == (spec_swap_base_send(*accounts, exact_amount_user_send, min_amount_user_receive) is None),
{
    quote_swap_base_send(accounts, exact_amount_user_send, min_amount_user_receive).is_none()
}

/// Decides a swap in which the trader sends `exact_amount_user_send`:
/// checks the pool's config and mints and the trader's balance, takes the
/// transfer fee of the sent mint, the swap fee on the configured side and
/// the transfer fee of the received mint, and refuses a receipt below
/// `min_amount_user_receive`.
pub fn handle_swap_base_send(
    accounts: &SwapBaseSend,
    exact_amount_user_send: u64,
    min_amount_user_receive: u64,
) -> (r: Result<SwapTransfers, ErrorCode>)
    requires
        spec_swap_base_send(*accounts, exact_amount_user_send, min_amount_user_receive) is Some,
    ensures
        Some(r) == spec_swap_base_send(*accounts, exact_amount_user_send, min_amount_user_receive),
{
    match quote_swap_base_send(accounts, exact_amount_user_send, min_amount_user_receive) {
        Some(r) => r,
        None => unreached(),
    }
}

/// An accepted send-side swap takes exactly the amount the trader chose,
/// delivers at least the trader's minimum, and keeps the product of the
/// reserves once the input vault holds what arrives of the trader's
/// transfer and the output vault has paid what the pool sends.
pub proof fn lemma_swap_base_send_accepted(
    accounts: SwapBaseSend,
    exact_amount_user_send: u64,
    min_amount_user_receive: u64,
)
    requires
        spec_swap_base_send(accounts, exact_amount_user_send, min_amount_user_receive) is Some,
        spec_swap_base_send(accounts, exact_amount_user_send, min_amount_user_receive)->Some_0 is Ok,
    ensures
        ({
            let t = spec_swap_base_send(
                accounts,
                exact_amount_user_send,
                min_amount_user_receive,
            )->Some_0->Ok_0;
            let arrived = spec_amount_after_transfer_fee(
                accounts.send_mint_fee,
                exact_amount_user_send,
            )->Some_0;
            let received = spec_amount_after_transfer_fee(
                accounts.receive_mint_fee,
                t.pool_sends,
            )->Some_0;
            &&& t.trader_sends == exact_amount_user_send
            &&& exact_amount_user_send <= accounts.trader_send_balance
            &&& min_amount_user_receive <= received <= t.pool_sends
            &&& t.k_before == accounts.send_vault_amount * accounts.receive_vault_amount
            &&& t.pool_sends <= accounts.receive_vault_amount
            &&& (accounts.send_vault_amount + arrived) * (accounts.receive_vault_amount
                - t.pool_sends) >= t.k_before
            &&& exact_input_pays(
                accounts.amm_config,
                accounts.send_vault_amount as int,
                accounts.receive_vault_amount as int,
                arrived as int,
                t.pool_sends as int,
            )
        }),
{
    lemma_exact_input_swap_amounts(
        accounts.amm_config,
        accounts.send_vault_amount,
        accounts.receive_vault_amount,
        accounts.send_mint_fee,
        accounts.receive_mint_fee,
        exact_amount_user_send,
    );
    lemma_exact_input_swap_keeps_product(
        accounts.amm_config,
        accounts.send_vault_amount,
        accounts.receive_vault_amount,
        accounts.send_mint_fee,
        accounts.receive_mint_fee,
        exact_amount_user_send,
    );
}

} // verus!
