//! Pool creation: the creator deposits both mints and receives the
//! initial liquidity less a locked minimum.
use crate::cp_swap::amm_config::AmmConfig;
use crate::cp_swap::constants::MINIMUM_LIQUIDITY;
use crate::cp_swap::error::ErrorCode;
use crate::cp_swap::pool::Pool;
use crate::cp_swap::utils::{
    is_mint_supported, lemma_is_mint_supported_accepts_exactly, spec_is_mint_supported,
};
use crate::token_mint::{bytes_precede, mint_accepted, Key, MintInfo};
use vstd::prelude::*;

verus! {

/// What `initialize` reads of its accounts.
#[derive(Clone, Copy, Debug)]
pub struct Initialize {
    /// The config that the pool is created under.
    pub amm_config: AmmConfig,
    /// Address of the config.
    pub amm_config_key: Key,
    /// The creator.
    pub creator: Key,
    /// First mint.
    pub mint_0: Key,
    /// Second mint.
    pub mint_1: Key,
    /// Result of `is_mint_supported` on the first mint.
    pub mint_0_supported: Result<(), ErrorCode>,
    /// Result of `is_mint_supported` on the second mint.
    pub mint_1_supported: Result<(), ErrorCode>,
    /// Creator's balance of the first mint.
    pub creator_0_balance: u64,
    /// Creator's balance of the second mint.
    pub creator_1_balance: u64,
    /// Bump of the pool's address.
    pub pool_bump: u8,
    /// Bump of the LP mint's address.
    pub lp_mint_bump: u8,
}

/// What an accepted pool creation does.
#[derive(Clone, Copy, Debug)]
pub struct InitializePlan {
    /// Amount of the first mint that the creator sends (transfer fee included).
    pub gross_amount_0: u64,
    /// Amount of the second mint that the creator sends (transfer fee included).
    pub gross_amount_1: u64,
    /// LP tokens minted to the creator; no mint happens when it is zero.
    pub mint_lp_amount: u64,
    /// The new pool's state.
    pub pool: Pool,
}

/// `r` is the integer square root of `n`.
pub open spec fn is_isqrt(n: int, r: int) -> bool {
    r >= 0 && r * r <= n < (r + 1) * (r + 1)
}

/// Integer square root: the `r >= 0` with `r * r <= n < (r + 1) * (r + 1)`.
pub open spec fn spec_isqrt(n: int) -> int {
    choose|r: int| #[trigger] is_isqrt(n, r)
}

/// At most one `r >= 0` has `r * r <= n < (r + 1) * (r + 1)`.
pub proof fn lemma_isqrt_unique(n: int, r: int)
    requires
        r >= 0,
        r * r <= n < (r + 1) * (r + 1),
    ensures
        spec_isqrt(n) == r,
{
    assert(is_isqrt(n, r));
    let s = spec_isqrt(n);
    assert(is_isqrt(n, s));
    if s < r {
        assert((s + 1) * (s + 1) <= r * r) by (nonlinear_arith)
            requires
                0 <= s < r,
        ;
    } else if s > r {
        assert((r + 1) * (r + 1) <= s * s) by (nonlinear_arith)
            requires
                0 <= r < s,
        ;
    }
}

/// Outcome of `handle_initialize`: `None` where a checked operation of the
/// instruction fails, else the error or the plan.
pub open spec fn spec_initialize(
    accounts: Initialize,
    init_amount_0: u64,
    init_amount_1: u64,
    transfer_checked_fee_0: u64,
    transfer_checked_fee_1: u64,
) -> Option<Result<InitializePlan, ErrorCode>> {
    let gross_0 = init_amount_0 + transfer_checked_fee_0;
    let gross_1 = init_amount_1 + transfer_checked_fee_1;
    let liquidity = spec_isqrt(init_amount_0 * init_amount_1);
    if accounts.amm_config.disable_create_pool {
        Some(Err(ErrorCode::AmmConfigDisabledForPoolCreation))
    } else if !bytes_precede(accounts.mint_0.spec_bytes(), accounts.mint_1.spec_bytes()) {
        Some(Err(ErrorCode::Mint1LexicographicallyGreaterThanOrEqualToMint0))
    } else if accounts.mint_0_supported is Err {
        Some(Err(accounts.mint_0_supported->Err_0))
    } else if accounts.mint_1_supported is Err {
        Some(Err(accounts.mint_1_supported->Err_0))
    } else if gross_0 > u64::MAX || gross_1 > u64::MAX {
        None
    } else if gross_0 > accounts.creator_0_balance || gross_1 > accounts.creator_1_balance {
        Some(Err(ErrorCode::InsufficientFunds))
    } else if liquidity < MINIMUM_LIQUIDITY {
        Some(Err(ErrorCode::InsufficientLiquidity))
    } else {
        Some(
            Ok(
                InitializePlan {
                    gross_amount_0: gross_0 as u64,
                    gross_amount_1: gross_1 as u64,
                    mint_lp_amount: (liquidity - MINIMUM_LIQUIDITY) as u64,
                    pool: Pool {
                        creator: accounts.creator,
                        mint_0: accounts.mint_0,
                        mint_1: accounts.mint_1,
                        amm_config: accounts.amm_config_key,
                        lp_supply: liquidity as u64,
                        bump: accounts.pool_bump,
                        lp_mint_bump: accounts.lp_mint_bump,
                    },
                },
            ),
        )
    }
}

/// Integer square root of the product of the two initial amounts.
pub(crate) fn initial_liquidity(init_amount_0: u64, init_amount_1: u64) -> (liquidity: u64)
    ensures
        liquidity == spec_isqrt(init_amount_0 * init_amount_1),
{
    assert(init_amount_0 * init_amount_1 <= 0xffff_ffff_ffff_ffff_ffff_ffff_ffff_ffff)
        by (nonlinear_arith)
        requires
            init_amount_0 <= 0xffff_ffff_ffff_ffff,
            init_amount_1 <= 0xffff_ffff_ffff_ffff,
    ;
    let product: u128 = (init_amount_0 as u128) * (init_amount_1 as u128);
    let root: u128 = product.isqrt();
    assert(root < 0x1_0000_0000_0000_0000) by (nonlinear_arith)
        requires
            root * root <= product,
            product < 0x1_0000_0000_0000_0000_0000_0000_0000_0000,
            root >= 0,
    ;
    proof {
        lemma_isqrt_unique(init_amount_0 * init_amount_1, root as int);
    }
    root as u64
}

fn quote_initialize(
    accounts: &Initialize,
    init_amount_0: u64,
    init_amount_1: u64,
    transfer_checked_fee_0: u64,
    transfer_checked_fee_1: u64,
) -> (outcome: Option<Result<InitializePlan, ErrorCode>>)
    ensures
        outcome == spec_initialize(
            *accounts,
            init_amount_0,
            init_amount_1,
            transfer_checked_fee_0,
            transfer_checked_fee_1,
        ),
{
    if accounts.amm_config.disable_create_pool {
        return Some(Err(ErrorCode::AmmConfigDisabledForPoolCreation));
    }
    if !accounts.mint_0.precedes(&accounts.mint_1) {
        return Some(Err(ErrorCode::Mint1LexicographicallyGreaterThanOrEqualToMint0));
    }
    if let Err(e) = accounts.mint_0_supported {
        return Some(Err(e));
    }
    if let Err(e) = accounts.mint_1_supported {
        return Some(Err(e));
    }
    let gross_amount_0 = match init_amount_0.checked_add(transfer_checked_fee_0) {
        None => return None,
        Some(v) => v,
    };
    let gross_amount_1 = match init_amount_1.checked_add(transfer_checked_fee_1) {
        None => return None,
        Some(v) => v,
    };
    if gross_amount_0 > accounts.creator_0_balance {
        return Some(Err(ErrorCode::InsufficientFunds));
    }
    if gross_amount_1 > accounts.creator_1_balance {
        return Some(Err(ErrorCode::InsufficientFunds));
    }
    let liquidity = initial_liquidity(init_amount_0, init_amount_1);
    if liquidity < MINIMUM_LIQUIDITY {
        return Some(Err(ErrorCode::InsufficientLiquidity));
    }
    let mint_lp_amount = liquidity - MINIMUM_LIQUIDITY;
    Some(
        Ok(
            InitializePlan {
                gross_amount_0,
                gross_amount_1,
                mint_lp_amount,
                pool: Pool {
                    creator: accounts.creator,
                    mint_0: accounts.mint_0,
                    mint_1: accounts.mint_1,
                    amm_config: accounts.amm_config_key,
                    lp_supply: liquidity,
                    bump: accounts.pool_bump,
                    lp_mint_bump: accounts.lp_mint_bump,
                },
            },
        ),
    )
}

/// Whether `handle_initialize` would abort on these inputs (an amount plus
/// its transfer fee overflows), which its `requires` rules out.
pub fn initialize_aborts(
    accounts: &Initialize,
    init_amount_0: u64,
    init_amount_1: u64,
    transfer_checked_fee_0: u64,
    transfer_checked_fee_1: u64,
) -> (r: bool)
    ensures
        r == (spec_initialize(
            *accounts,
            init_amount_0,
            init_amount_1,
            transfer_checked_fee_0,
            transfer_checked_fee_1,
        ) is None),
{
    quote_initialize(
        accounts,
        init_amount_0,
        init_amount_1,
        transfer_checked_fee_0,
        transfer_checked_fee_1,
    ).is_none()
}

/// Decides a pool creation: checks the config, the mints' order and
/// support, and the creator's balances for the amounts plus their transfer
/// fees; the initial liquidity is the integer square root of the product of
/// the amounts, of which `MINIMUM_LIQUIDITY` stays locked.
pub fn handle_initialize(
    accounts: &Initialize,
    init_amount_0: u64,
    init_amount_1: u64,
    transfer_checked_fee_0: u64,
    transfer_checked_fee_1: u64,
) -> (r: Result<InitializePlan, ErrorCode>)
    requires
        spec_initialize(
            *accounts,
            init_amount_0,
            init_amount_1,
            transfer_checked_fee_0,
            transfer_checked_fee_1,
        ) is Some,
    ensures
        Some(r) == spec_initialize(
            *accounts,
            init_amount_0,
            init_amount_1,
            transfer_checked_fee_0,
            transfer_checked_fee_1,
        ),
{
    match quote_initialize(
        accounts,
        init_amount_0,
        init_amount_1,
        transfer_checked_fee_0,
        transfer_checked_fee_1,
    ) {
        Some(r) => r,
        None => unreached(),
    }
}

/// `accounts` with the support checks of the two mints taken from the
/// mints' accounts.
pub open spec fn accounts_with_mints(
    accounts: Initialize,
    mint_0: MintInfo,
    mint_1: MintInfo,
) -> Initialize {
    Initialize {
        mint_0_supported: spec_is_mint_supported(mint_0),
        mint_1_supported: spec_is_mint_supported(mint_1),
        ..accounts
    }
}

/// Decides a pool creation from the two mints' accounts: runs
/// `is_mint_supported` on each mint in place of the support results that
/// `accounts` holds, then `handle_initialize`; `None` where the instruction
/// would abort.
pub fn handle_initialize_for_mints(
    accounts: &Initialize,
    mint_0: &MintInfo,
    mint_1: &MintInfo,
    init_amount_0: u64,
    init_amount_1: u64,
    transfer_checked_fee_0: u64,
    transfer_checked_fee_1: u64,
) -> (r: Option<Result<InitializePlan, ErrorCode>>)
    ensures
        r == spec_initialize(
            accounts_with_mints(*accounts, *mint_0, *mint_1),
            init_amount_0,
            init_amount_1,
            transfer_checked_fee_0,
            transfer_checked_fee_1,
        ),
{
    let checked = Initialize {
        mint_0_supported: is_mint_supported(mint_0),
        mint_1_supported: is_mint_supported(mint_1),
        ..*accounts
    };
    if initialize_aborts(
        &checked,
        init_amount_0,
        init_amount_1,
        transfer_checked_fee_0,
        transfer_checked_fee_1,
    ) {
        None
    } else {
        Some(
            handle_initialize(
                &checked,
                init_amount_0,
                init_amount_1,
                transfer_checked_fee_0,
                transfer_checked_fee_1,
            ),
        )
    }
}

/// A pool is created only over two mints that the pool accepts.
pub proof fn lemma_initialize_for_mints_accepts_only_supported_mints(
    accounts: Initialize,
    mint_0: MintInfo,
    mint_1: MintInfo,
    init_amount_0: u64,
    init_amount_1: u64,
    transfer_checked_fee_0: u64,
    transfer_checked_fee_1: u64,
)
    requires
        spec_initialize(
            accounts_with_mints(accounts, mint_0, mint_1),
            init_amount_0,
            init_amount_1,
            transfer_checked_fee_0,
            transfer_checked_fee_1,
        ) matches Some(Ok(_)),
    ensures
        mint_accepted(mint_0),
        mint_accepted(mint_1),
{
}

/// Over two mints that the pool accepts, a pool creation from the mints'
/// accounts decides exactly as one whose support checks both passed.
pub proof fn lemma_initialize_for_mints_with_supported_mints(
    accounts: Initialize,
    mint_0: MintInfo,
    mint_1: MintInfo,
    init_amount_0: u64,
    init_amount_1: u64,
    transfer_checked_fee_0: u64,
    transfer_checked_fee_1: u64,
)
    requires
        mint_accepted(mint_0),
        mint_accepted(mint_1),
    ensures
        spec_initialize(
            accounts_with_mints(accounts, mint_0, mint_1),
            init_amount_0,
            init_amount_1,
            transfer_checked_fee_0,
            transfer_checked_fee_1,
        ) == spec_initialize(
            Initialize { mint_0_supported: Ok(()), mint_1_supported: Ok(()), ..accounts },
            init_amount_0,
            init_amount_1,
            transfer_checked_fee_0,
            transfer_checked_fee_1,
        ),
{
    lemma_is_mint_supported_accepts_exactly(mint_0);
    lemma_is_mint_supported_accepts_exactly(mint_1);
}

/// An accepted pool creation records as LP supply the integer square root
/// of the product of the initial amounts, of which the creator receives all
/// but the locked minimum, and charges the creator each amount plus its fee.
pub proof fn lemma_initialize_accepted(
    accounts: Initialize,
    init_amount_0: u64,
    init_amount_1: u64,
    transfer_checked_fee_0: u64,
    transfer_checked_fee_1: u64,
)
    requires
        spec_initialize(
            accounts,
            init_amount_0,
            init_amount_1,
            transfer_checked_fee_0,
            transfer_checked_fee_1,
        ) is Some,
        spec_initialize(
            accounts,
            init_amount_0,
            init_amount_1,
            transfer_checked_fee_0,
            transfer_checked_fee_1,
        )->Some_0 is Ok,
    ensures
        ({
            let p = spec_initialize(
                accounts,
                init_amount_0,
                init_amount_1,
                transfer_checked_fee_0,
                transfer_checked_fee_1,
            )->Some_0->Ok_0;
            let l = p.pool.lp_supply;
            &&& l * l <= init_amount_0 * init_amount_1 < (l + 1) * (l + 1)
            &&& p.mint_lp_amount + MINIMUM_LIQUIDITY == l
            &&& p.gross_amount_0 == init_amount_0 + transfer_checked_fee_0
            &&& p.gross_amount_1 == init_amount_1 + transfer_checked_fee_1
            &&& p.gross_amount_0 <= accounts.creator_0_balance
            &&& p.gross_amount_1 <= accounts.creator_1_balance
        }),
{
    let n = init_amount_0 * init_amount_1;
    assert(n >= 0) by (nonlinear_arith)
        requires
            n == init_amount_0 * init_amount_1,
            init_amount_0 >= 0,
            init_amount_1 >= 0,
    ;
    let r = lemma_isqrt_exists(n);
    lemma_isqrt_unique(n, r);
    assert(r < 0x1_0000_0000_0000_0000) by (nonlinear_arith)
        requires
            r * r <= n,
            n == init_amount_0 * init_amount_1,
            init_amount_0 <= 0xffff_ffff_ffff_ffff,
            init_amount_1 <= 0xffff_ffff_ffff_ffff,
            r >= 0,
    ;
}

/// Every `n >= 0` has an integer square root.
pub proof fn lemma_isqrt_exists(n: int) -> (r: int)
    requires
        n >= 0,
    ensures
        r >= 0,
        r * r <= n < (r + 1) * (r + 1),
    decreases n,
{
    if n == 0 {
        0
    } else {
        let s = lemma_isqrt_exists(n - 1);
        if (s + 1) * (s + 1) <= n {
            assert(n < (s + 2) * (s + 2)) by (nonlinear_arith)
                requires
                    n - 1 < (s + 1) * (s + 1),
                    s >= 0,
            ;
            s + 1
        } else {
            s
        }
    }
}

} // verus!
