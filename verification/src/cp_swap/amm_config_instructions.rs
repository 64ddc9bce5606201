//! Creating and updating a config.
use crate::cp_swap::amm_config::AmmConfig;
use crate::cp_swap::constants::MAX_SWAP_FEES_BASIS_POINTS;
use crate::cp_swap::error::ErrorCode;
use crate::token_mint::Key;
use crate::transfer_fee::MAX_FEE_BASIS_POINTS;
use vstd::prelude::*;

verus! {

/// Accounts of `create_amm_config`.
#[derive(Clone, Copy, Debug)]
pub struct CreateAmmConfig {
    /// Who pays for the new config account.
    pub creator: Key,
    /// The new config account.
    pub amm_config: AmmConfig,
}

/// Stores `config` in the new config account when its fee rate is below
/// 100%; otherwise refuses it and leaves the account as it was.
pub fn handle_create_amm_config(accounts: &mut CreateAmmConfig, config: AmmConfig) -> (r: Result<
    (),
    ErrorCode,
>)
    ensures
        config.swap_fee_rate_in_bps < MAX_FEE_BASIS_POINTS ==> r == Ok::<(), ErrorCode>(())
            && final(accounts).amm_config == config,
        config.swap_fee_rate_in_bps >= MAX_FEE_BASIS_POINTS ==> r == Err::<(), ErrorCode>(
            ErrorCode::InvalidFees,
        ) && final(accounts).amm_config == old(accounts).amm_config,
        final(accounts).creator == old(accounts).creator,
{
    if !(config.swap_fee_rate_in_bps < MAX_FEE_BASIS_POINTS) {
        return Err(ErrorCode::InvalidFees);
    }
    accounts.amm_config = config;
    Ok(())
}

/// Accounts of `update_amm_config`.
#[derive(Clone, Copy, Debug)]
pub struct UpdateAmmConfig {
    /// The signer asking for the update.
    pub update_authority: Key,
    /// The config to update.
    pub amm_config: AmmConfig,
}

/// The config names `signer` as its update authority.
pub open spec fn authorized(amm_config: AmmConfig, signer: Key) -> bool {
    amm_config.update_authority matches Some(authority) && authority.spec_bytes()
        == signer.spec_bytes()
}

/// Replaces the config with `config` when the signer is the config's
/// update authority and the new fee rate is at most 100%; otherwise refuses
/// and leaves the config as it was.
pub fn handle_update_amm_config(accounts: &mut UpdateAmmConfig, config: AmmConfig) -> (r: Result<
    (),
    ErrorCode,
>)
    ensures
        !authorized(old(accounts).amm_config, old(accounts).update_authority) ==> r == Err::<
            (),
            ErrorCode,
        >(ErrorCode::MismatchUpdateAuthority),
        authorized(old(accounts).amm_config, old(accounts).update_authority)
            && config.swap_fee_rate_in_bps > MAX_SWAP_FEES_BASIS_POINTS ==> r == Err::<
            (),
            ErrorCode,
        >(ErrorCode::InvalidFees),
        authorized(old(accounts).amm_config, old(accounts).update_authority)
            && config.swap_fee_rate_in_bps <= MAX_SWAP_FEES_BASIS_POINTS ==> r == Ok::<
            (),
            ErrorCode,
        >(()),
        r is Ok ==> final(accounts).amm_config == config,
        r is Err ==> final(accounts).amm_config == old(accounts).amm_config,
        final(accounts).update_authority == old(accounts).update_authority,
{
    let allowed = match &accounts.amm_config.update_authority {
        Some(authority) => authority.same(&accounts.update_authority),
        None => false,
    };
    if !allowed {
        return Err(ErrorCode::MismatchUpdateAuthority);
    }
    if !(config.swap_fee_rate_in_bps <= MAX_SWAP_FEES_BASIS_POINTS) {
        return Err(ErrorCode::InvalidFees);
    }
    accounts.amm_config = config;
    Ok(())
}

} // verus!
