//! Pool creation: the creator deposits both mints and receives the
//! initial liquidity less the locked LP tokens.
use crate::cp_swap::initialize::{initial_liquidity, lemma_isqrt_exists, lemma_isqrt_unique, spec_isqrt};
use crate::cp_swapp::constants::{LOCKED_LP, SWAP_FEES_DENOMINATION};
use crate::cp_swapp::error::ErrorCode;
use crate::cp_swapp::utils::{inverse_transfer_fee_checked, spec_get_inverse_transfer_fee};
use crate::token_mint::{
    all_extensions_supported, bytes_precede, extensions_supported, mint_accepted, mint_transfer_fee,
    spec_mint_extension_types, spec_mint_transfer_fee, unpack_mint_extension_types, Key, MintInfo,
    MintTransferFee,
};
use vstd::prelude::*;

pub use crate::cp_swapp::utils::get_inverse_transfer_fee;

verus! {

/// Outcome of `is_supported_mint`: `true` for a legacy token mint; for a
/// token-2022 mint, whether every extension in its data is accepted, or the
/// token interface's error when the data does not unpack.
pub open spec fn spec_is_supported_mint(mint: MintInfo) -> Result<bool, ErrorCode> {
    if mint.owned_by_token_program {
        Ok(true)
    } else {
        match spec_mint_extension_types(mint.data@) {
            Err(code) => Err(ErrorCode::ProgramError(code)),
            Ok(codes) => Ok(extensions_supported(codes)),
        }
    }
}

/// Whether the pool accepts a mint: always for a legacy token mint; for a
/// token-2022 mint, whether every extension in its data is accepted (an
/// error when the data does not unpack).
pub fn is_supported_mint(mint: &MintInfo) -> (r: Result<bool, ErrorCode>)
    ensures
        r == spec_is_supported_mint(*mint),
        r == Ok::<bool, ErrorCode>(true) <==> mint_accepted(*mint),
{
    if mint.owned_by_token_program {
        return Ok(true);
    }
    match unpack_mint_extension_types(mint.data.as_slice()) {
        Ok(codes) => Ok(all_extensions_supported(&codes)),
        Err(code) => Err(ErrorCode::ProgramError(code)),
    }
}

/// The pool accepts exactly the mints that `mint_accepted` describes: the
/// check answers `true` for them, `false` for a token-2022 mint whose data
/// unpacks but lists another extension, and the token interface's error for
/// one whose data does not unpack.
pub proof fn lemma_is_supported_mint_accepts_exactly(mint: MintInfo)
    ensures
        spec_is_supported_mint(mint) == Ok::<bool, ErrorCode>(true) <==> mint_accepted(mint),
        !mint.owned_by_token_program && spec_mint_extension_types(mint.data@) is Ok ==> spec_is_supported_mint(mint)
            is Ok,
        !mint.owned_by_token_program && spec_mint_extension_types(mint.data@) is Err
            ==> spec_is_supported_mint(mint) == Err::<bool, ErrorCode>(
            ErrorCode::ProgramError(spec_mint_extension_types(mint.data@)->Err_0),
        ),
{
}

/// What `initialize` reads of its accounts.
#[derive(Clone, Copy, Debug)]
pub struct Initialize {
    /// Mint A.
    pub mint_a: Key,
    /// Mint B.
    pub mint_b: Key,
    /// Result of `is_supported_mint` on mint A.
    pub mint_a_supported: Result<bool, ErrorCode>,
    /// Result of `is_supported_mint` on mint B.
    pub mint_b_supported: Result<bool, ErrorCode>,
    /// Transfer fee of mint A in the current epoch.
    pub mint_a_fee: MintTransferFee,
    /// Transfer fee of mint B in the current epoch.
    pub mint_b_fee: MintTransferFee,
    /// Balance of the creator's account of mint A.
    pub creator_token_a_balance: u64,
    /// Balance of the creator's account of mint B.
    pub creator_token_b_balance: u64,
}

/// What an accepted pool creation does.
#[derive(Clone, Copy, Debug, PartialEq, Eq, Structural)]
pub struct InitializePlan {
    /// LP tokens minted to the creator.
    pub mint_lp_amount: u64,
    /// Amount of mint A moved into the pool's vault.
    pub transfer_amount_a: u64,
    /// Amount of mint B moved into the pool's vault.
    pub transfer_amount_b: u64,
}

/// Outcome of `initialize_handler`: `None` where a checked operation of the
/// instruction fails, else the error or the plan.
pub open spec fn spec_initialize_handler(
    accounts: Initialize,
    fees_in_ppm: u32,
    net_init_amount_a: u64,
    net_init_amount_b: u64,
) -> Option<Result<InitializePlan, ErrorCode>> {
    let liquidity = spec_isqrt(net_init_amount_a * net_init_amount_b);
    if !bytes_precede(accounts.mint_a.spec_bytes(), accounts.mint_b.spec_bytes()) {
        Some(Err(ErrorCode::MintAGreaterThanOrEqualMintB))
    } else if !(SWAP_FEES_DENOMINATION > fees_in_ppm) {
        Some(Err(ErrorCode::InvalidFees))
    } else if accounts.mint_a_supported is Err {
        Some(Err(accounts.mint_a_supported->Err_0))
    } else if !accounts.mint_a_supported->Ok_0 {
        Some(Err(ErrorCode::AtleastOneOfTheMintsNotSupported))
    } else if accounts.mint_b_supported is Err {
        Some(Err(accounts.mint_b_supported->Err_0))
    } else if !accounts.mint_b_supported->Ok_0 {
        Some(Err(ErrorCode::AtleastOneOfTheMintsNotSupported))
    } else {
        match spec_get_inverse_transfer_fee(accounts.mint_a_fee, net_init_amount_a) {
            None => None,
            Some(Err(e)) => Some(Err(e)),
            Some(Ok(fee_a)) => match spec_get_inverse_transfer_fee(
                accounts.mint_b_fee,
                net_init_amount_b,
            ) {
                None => None,
                Some(Err(e)) => Some(Err(e)),
                Some(Ok(fee_b)) => if net_init_amount_a + fee_a > u64::MAX || net_init_amount_b
                    + fee_b > u64::MAX {
                    None
                } else if net_init_amount_a + fee_a < accounts.creator_token_a_balance
                    || net_init_amount_b + fee_b < accounts.creator_token_b_balance {
                    Some(Err(ErrorCode::InsufficientFunds))
                } else if liquidity <= LOCKED_LP {
                    Some(Err(ErrorCode::NotEnoughLiquidity))
                } else {
                    Some(
                        Ok(
                            InitializePlan {
                                mint_lp_amount: (liquidity - LOCKED_LP) as u64,
                                transfer_amount_a: net_init_amount_a,
                                transfer_amount_b: net_init_amount_b,
                            },
                        ),
                    )
                },
            },
        }
    }
}

fn quote_initialize(
    accounts: &Initialize,
    fees_in_ppm: u32,
    net_init_amount_a: u64,
    net_init_amount_b: u64,
) -> (outcome: Option<Result<InitializePlan, ErrorCode>>)
    ensures
        outcome == spec_initialize_handler(
            *accounts,
            fees_in_ppm,
            net_init_amount_a,
            net_init_amount_b,
        ),
{
    if !accounts.mint_a.precedes(&accounts.mint_b) {
        return Some(Err(ErrorCode::MintAGreaterThanOrEqualMintB));
    }
    if !(SWAP_FEES_DENOMINATION > fees_in_ppm) {
        return Some(Err(ErrorCode::InvalidFees));
    }
    match accounts.mint_a_supported {
        Err(e) => return Some(Err(e)),
        Ok(false) => return Some(Err(ErrorCode::AtleastOneOfTheMintsNotSupported)),
        Ok(true) => {},
    }
    match accounts.mint_b_supported {
        Err(e) => return Some(Err(e)),
        Ok(false) => return Some(Err(ErrorCode::AtleastOneOfTheMintsNotSupported)),
        Ok(true) => {},
    }
    let transfer_fee_a = match inverse_transfer_fee_checked(&accounts.mint_a_fee, net_init_amount_a) {
        None => return None,
        Some(Err(e)) => return Some(Err(e)),
        Some(Ok(f)) => f,
    };
    let transfer_fee_b = match inverse_transfer_fee_checked(&accounts.mint_b_fee, net_init_amount_b) {
        None => return None,
        Some(Err(e)) => return Some(Err(e)),
        Some(Ok(f)) => f,
    };
    let gross_transfer_a = match net_init_amount_a.checked_add(transfer_fee_a) {
        None => return None,
        Some(g) => g,
    };
    let gross_transfer_b = match net_init_amount_b.checked_add(transfer_fee_b) {
        None => return None,
        Some(g) => g,
    };
    if gross_transfer_a < accounts.creator_token_a_balance {
        return Some(Err(ErrorCode::InsufficientFunds));
    }
    if gross_transfer_b < accounts.creator_token_b_balance {
        return Some(Err(ErrorCode::InsufficientFunds));
    }
    let liquidity = initial_liquidity(net_init_amount_a, net_init_amount_b);
    if !(liquidity > LOCKED_LP) {
        return Some(Err(ErrorCode::NotEnoughLiquidity));
    }
    Some(
        Ok(
            InitializePlan {
                mint_lp_amount: liquidity - LOCKED_LP,
                transfer_amount_a: net_init_amount_a,
                transfer_amount_b: net_init_amount_b,
            },
        ),
    )
}

/// Whether `initialize_handler` would abort on these inputs (a checked
/// operation of the instruction fails), which its `requires` rules out.
pub fn initialize_aborts(
    accounts: &Initialize,
    fees_in_ppm: u32,
    net_init_amount_a: u64,
    net_init_amount_b: u64,
) -> (r: bool)
    ensures
        r == (spec_initialize_handler(
            *accounts,
            fees_in_ppm,
            net_init_amount_a,
            net_init_amount_b,
        ) is None),
{
    quote_initialize(accounts, fees_in_ppm, net_init_amount_a, net_init_amount_b).is_none()
}

/// Decides a pool creation: checks the mints' order, the fee rate and the
/// mints' support, computes the transfer fees that make the initial amounts
/// arrive, compares the creator's balances with the gross amounts, and
/// mints the integer square root of the product of the amounts less the
/// locked LP tokens. The balance comparison refuses with `InsufficientFunds`
/// when a gross amount is below the creator's balance of that mint, and
/// lets a gross amount above the balance through.
pub fn initialize_handler(
    accounts: &Initialize,
    fees_in_ppm: u32,
    net_init_amount_a: u64,
    net_init_amount_b: u64,
) -> (r: Result<InitializePlan, ErrorCode>)
    requires
        spec_initialize_handler(*accounts, fees_in_ppm, net_init_amount_a, net_init_amount_b) is Some,
    ensures
        Some(r) == spec_initialize_handler(
            *accounts,
            fees_in_ppm,
            net_init_amount_a,
            net_init_amount_b,
        ),
{
    match quote_initialize(accounts, fees_in_ppm, net_init_amount_a, net_init_amount_b) {
        Some(r) => r,
        None => unreached(),
    }
}

/// `accounts` with the support checks and the transfer-fee terms of the
/// two mints taken from the mints' accounts, for `epoch`.
pub open spec fn accounts_with_mints(
    accounts: Initialize,
    mint_a: MintInfo,
    mint_b: MintInfo,
    epoch: u64,
) -> Initialize {
    Initialize {
        mint_a_supported: spec_is_supported_mint(mint_a),
        mint_b_supported: spec_is_supported_mint(mint_b),
        mint_a_fee: spec_mint_transfer_fee(mint_a, epoch),
        mint_b_fee: spec_mint_transfer_fee(mint_b, epoch),
        ..accounts
    }
}

/// Decides a pool creation from the two mints' accounts in `epoch`: runs
/// `is_supported_mint` and reads the transfer-fee terms of each mint in
/// place of those that `accounts` holds, then `initialize_handler`; `None`
/// where the instruction would abort.
pub fn initialize_handler_for_mints(
    accounts: &Initialize,
    mint_a: &MintInfo,
    mint_b: &MintInfo,
    epoch: u64,
    fees_in_ppm: u32,
    net_init_amount_a: u64,
    net_init_amount_b: u64,
) -> (r: Option<Result<InitializePlan, ErrorCode>>)
    ensures
        r == spec_initialize_handler(
            accounts_with_mints(*accounts, *mint_a, *mint_b, epoch),
            fees_in_ppm,
            net_init_amount_a,
            net_init_amount_b,
        ),
{
    let checked = Initialize {
        mint_a_supported: is_supported_mint(mint_a),
        mint_b_supported: is_supported_mint(mint_b),
        mint_a_fee: mint_transfer_fee(mint_a, epoch),
        mint_b_fee: mint_transfer_fee(mint_b, epoch),
        ..*accounts
    };
    if initialize_aborts(&checked, fees_in_ppm, net_init_amount_a, net_init_amount_b) {
        None
    } else {
        Some(initialize_handler(&checked, fees_in_ppm, net_init_amount_a, net_init_amount_b))
    }
}

/// A pool is created only over two mints that the pool accepts.
pub proof fn lemma_initialize_for_mints_accepts_only_supported_mints(
    accounts: Initialize,
    mint_a: MintInfo,
    mint_b: MintInfo,
    epoch: u64,
    fees_in_ppm: u32,
    net_init_amount_a: u64,
    net_init_amount_b: u64,
)
    requires
        spec_initialize_handler(
            accounts_with_mints(accounts, mint_a, mint_b, epoch),
            fees_in_ppm,
            net_init_amount_a,
            net_init_amount_b,
        ) matches Some(Ok(_)),
    ensures
        mint_accepted(mint_a),
        mint_accepted(mint_b),
{
}

/// Over two mints that the pool accepts, a pool creation from the mints'
/// accounts decides exactly as one whose support checks both passed, with
/// the mints' transfer-fee terms for `epoch`.
pub proof fn lemma_initialize_for_mints_with_supported_mints(
    accounts: Initialize,
    mint_a: MintInfo,
    mint_b: MintInfo,
    epoch: u64,
    fees_in_ppm: u32,
    net_init_amount_a: u64,
    net_init_amount_b: u64,
)
    requires
        mint_accepted(mint_a),
        mint_accepted(mint_b),
    ensures
        spec_initialize_handler(
            accounts_with_mints(accounts, mint_a, mint_b, epoch),
            fees_in_ppm,
            net_init_amount_a,
            net_init_amount_b,
        ) == spec_initialize_handler(
            Initialize {
                mint_a_supported: Ok(true),
                mint_b_supported: Ok(true),
                mint_a_fee: spec_mint_transfer_fee(mint_a, epoch),
                mint_b_fee: spec_mint_transfer_fee(mint_b, epoch),
                ..accounts
            },
            fees_in_ppm,
            net_init_amount_a,
            net_init_amount_b,
        ),
{
    lemma_is_supported_mint_accepts_exactly(mint_a);
    lemma_is_supported_mint_accepts_exactly(mint_b);
}

/// An accepted pool creation mints to the creator the integer square root
/// of the product of the initial amounts less the locked LP tokens, and
/// moves exactly the initial amounts into the vaults.
pub proof fn lemma_initialize_handler_accepted(
    accounts: Initialize,
    fees_in_ppm: u32,
    net_init_amount_a: u64,
    net_init_amount_b: u64,
)
    requires
        spec_initialize_handler(accounts, fees_in_ppm, net_init_amount_a, net_init_amount_b) is Some,
        spec_initialize_handler(
            accounts,
            fees_in_ppm,
            net_init_amount_a,
            net_init_amount_b,
        )->Some_0 is Ok,
    ensures
        ({
            let p = spec_initialize_handler(
                accounts,
                fees_in_ppm,
                net_init_amount_a,
                net_init_amount_b,
            )->Some_0->Ok_0;
            let l = p.mint_lp_amount + LOCKED_LP;
            &&& l * l <= net_init_amount_a * net_init_amount_b < (l + 1) * (l + 1)
            &&& p.transfer_amount_a == net_init_amount_a
            &&& p.transfer_amount_b == net_init_amount_b
            &&& fees_in_ppm < SWAP_FEES_DENOMINATION
        }),
{
    let n = net_init_amount_a * net_init_amount_b;
    assert(n >= 0) by (nonlinear_arith)
        requires
            n == net_init_amount_a * net_init_amount_b,
            net_init_amount_a >= 0,
            net_init_amount_b >= 0,
    ;
    let r = lemma_isqrt_exists(n);
    lemma_isqrt_unique(n, r);
    assert(r < 0x1_0000_0000_0000_0000) by (nonlinear_arith)
        requires
            r * r <= n,
            n == net_init_amount_a * net_init_amount_b,
            net_init_amount_a <= 0xffff_ffff_ffff_ffff,
            net_init_amount_b <= 0xffff_ffff_ffff_ffff,
            r >= 0,
    ;
}

} // verus!
