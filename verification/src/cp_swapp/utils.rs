//! Transfer fees of the pool's mints, computed both ways and cross-checked.
use crate::cp_swapp::error::ErrorCode;
use crate::token_mint::MintTransferFee;
use crate::transfer_fee::{
    spl_calculate_fee, spl_calculate_inverse_fee, TransferFeeInfo, MAX_FEE_BASIS_POINTS,
};
use vstd::prelude::*;

verus! {

/// Fee that makes `post_fees_amount` arrive, checked against the direct
/// fee of the resulting transfer; `None` where a fee computation fails.
pub open spec fn spec_inverse_fee_checked(terms: TransferFeeInfo, post_fees_amount: u64) -> Option<
    Result<u64, ErrorCode>,
> {
    if terms.transfer_fee_basis_points == MAX_FEE_BASIS_POINTS {
        Some(Ok(terms.maximum_fee))
    } else {
        match terms.spec_inverse_fee(post_fees_amount) {
            None => None,
            Some(fee) => if post_fees_amount + fee > u64::MAX {
                None
            } else {
                match terms.spec_fee((post_fees_amount + fee) as u64) {
                    None => None,
                    Some(check) => if fee != check {
                        Some(Err(ErrorCode::MismatchInTransferFeeCalculation))
                    } else {
                        Some(Ok(fee))
                    },
                }
            },
        }
    }
}

/// Outcome of `get_inverse_transfer_fee`: `None` where a fee computation
/// fails, else the error or the fee.
pub open spec fn spec_get_inverse_transfer_fee(mint: MintTransferFee, post_fees_amount: u64) -> Option<
    Result<u64, ErrorCode>,
> {
    if mint is LegacyToken {
        Some(Ok(0u64))
    } else if post_fees_amount == 0 {
        Some(Err(ErrorCode::ZeroTradingTokens))
    } else {
        match mint {
            MintTransferFee::Token2022 { epoch_fee: Some(terms) } => spec_inverse_fee_checked(
                terms,
                post_fees_amount,
            ),
            MintTransferFee::Token2022 { epoch_fee: None } => Some(Ok(0u64)),
            MintTransferFee::LegacyToken => Some(Ok(0u64)),
            MintTransferFee::Unreadable { error } => Some(Err(ErrorCode::ProgramError(error))),
        }
    }
}

pub(crate) fn inverse_transfer_fee_checked(mint: &MintTransferFee, post_fees_amount: u64) -> (r: Option<
    Result<u64, ErrorCode>,
>)
    ensures
        r == spec_get_inverse_transfer_fee(*mint, post_fees_amount),
{
    if let MintTransferFee::LegacyToken = mint {
        return Some(Ok(0));
    }
    if !(post_fees_amount > 0) {
        return Some(Err(ErrorCode::ZeroTradingTokens));
    }
    match mint {
        MintTransferFee::Token2022 { epoch_fee: Some(terms) } => {
            if terms.transfer_fee_basis_points == MAX_FEE_BASIS_POINTS {
                return Some(Ok(terms.maximum_fee));
            }
            let fee = match spl_calculate_inverse_fee(terms, post_fees_amount) {
                None => return None,
                Some(f) => f,
            };
            let gross = match post_fees_amount.checked_add(fee) {
                None => return None,
                Some(g) => g,
            };
            let check = match spl_calculate_fee(terms, gross) {
                None => return None,
                Some(c) => c,
            };
            if fee != check {
                return Some(Err(ErrorCode::MismatchInTransferFeeCalculation));
            }
            Some(Ok(fee))
        },
        MintTransferFee::Token2022 { epoch_fee: None } => Some(Ok(0)),
        MintTransferFee::LegacyToken => Some(Ok(0)),
        MintTransferFee::Unreadable { error } => Some(Err(ErrorCode::ProgramError(*error))),
    }
}

/// Transfer fee that must be added so that `post_fees_amount` arrives: zero
/// for a legacy mint or a token-2022 mint without fee terms, the maximum
/// fee at a 100% rate, else the inverse fee after checking that the direct
/// fee of the resulting transfer equals it. At a 100% rate the whole
/// `maximum_fee` is returned whatever the amount, without comparing the two.
pub fn get_inverse_transfer_fee(mint: &MintTransferFee, post_fees_amount: u64) -> (r: Result<
    u64,
    ErrorCode,
>)
    requires
        spec_get_inverse_transfer_fee(*mint, post_fees_amount) is Some,
    ensures
        Some(r) == spec_get_inverse_transfer_fee(*mint, post_fees_amount),
{
    match inverse_transfer_fee_checked(mint, post_fees_amount) {
        Some(r) => r,
        None => unreached(),
    }
}

/// Fee of a transfer of `pre_fee_amount`, checked against the inverse fee
/// of what arrives; `None` where a fee computation fails.
pub open spec fn spec_fee_checked(terms: TransferFeeInfo, pre_fee_amount: u64) -> Option<
    Result<u64, ErrorCode>,
> {
    if terms.transfer_fee_basis_points == MAX_FEE_BASIS_POINTS {
        Some(Ok(terms.maximum_fee))
    } else {
        match terms.spec_fee(pre_fee_amount) {
            None => None,
            Some(fee) => if fee > pre_fee_amount {
                None
            } else {
                match terms.spec_inverse_fee((pre_fee_amount - fee) as u64) {
                    None => None,
                    Some(check) => if fee != check {
                        Some(Err(ErrorCode::MismatchInTransferFeeCalculation))
                    } else {
                        Some(Ok(fee))
                    },
                }
            },
        }
    }
}

/// Outcome of `get_transfer_fees`: `None` where a fee computation fails,
/// else the error or the fee.
pub open spec fn spec_get_transfer_fees(mint: MintTransferFee, pre_fee_amount: u64) -> Option<
    Result<u64, ErrorCode>,
> {
    match mint {
        MintTransferFee::LegacyToken => Some(Ok(0u64)),
        MintTransferFee::Unreadable { error } => Some(Err(ErrorCode::ProgramError(error))),
        MintTransferFee::Token2022 { epoch_fee: None } => Some(Ok(0u64)),
        MintTransferFee::Token2022 { epoch_fee: Some(terms) } => spec_fee_checked(
            terms,
            pre_fee_amount,
        ),
    }
}

pub(crate) fn transfer_fees_checked(mint: &MintTransferFee, pre_fee_amount: u64) -> (r: Option<
    Result<u64, ErrorCode>,
>)
    ensures
        r == spec_get_transfer_fees(*mint, pre_fee_amount),
{
    match mint {
        MintTransferFee::LegacyToken => Some(Ok(0)),
        MintTransferFee::Unreadable { error } => Some(Err(ErrorCode::ProgramError(*error))),
        MintTransferFee::Token2022 { epoch_fee: None } => Some(Ok(0)),
        MintTransferFee::Token2022 { epoch_fee: Some(terms) } => {
            if terms.transfer_fee_basis_points == MAX_FEE_BASIS_POINTS {
                return Some(Ok(terms.maximum_fee));
            }
            let fee = match spl_calculate_fee(terms, pre_fee_amount) {
                None => return None,
                Some(f) => f,
            };
            let post = match pre_fee_amount.checked_sub(fee) {
                None => return None,
                Some(p) => p,
            };
            let check = match spl_calculate_inverse_fee(terms, post) {
                None => return None,
                Some(c) => c,
            };
            if fee != check {
                return Some(Err(ErrorCode::MismatchInTransferFeeCalculation));
            }
            Some(Ok(fee))
        },
    }
}

/// Transfer fee charged on a transfer of `pre_fee_amount`: zero for a
/// legacy mint or a token-2022 mint without fee terms, the maximum fee at a
/// 100% rate, else the direct fee after checking that the inverse fee of
/// what arrives equals it. At a 100% rate the whole `maximum_fee` is
/// returned whatever the amount, even one below it.
pub fn get_transfer_fees(mint: &MintTransferFee, pre_fee_amount: u64) -> (r: Result<u64, ErrorCode>)
    requires
        spec_get_transfer_fees(*mint, pre_fee_amount) is Some,
    ensures
        Some(r) == spec_get_transfer_fees(*mint, pre_fee_amount),
{
    match transfer_fees_checked(mint, pre_fee_amount) {
        Some(r) => r,
        None => unreached(),
    }
}

/// `fee` is the transfer fee that the mint charges on a transfer of
/// `amount`: nothing for a legacy mint or a token-2022 mint without fee
/// terms, the token-2022 fee of the terms on `amount` otherwise, except at a
/// 100% rate, where it is the terms' whole `maximum_fee`.
pub open spec fn charges_transfer_fee(mint: MintTransferFee, amount: u64, fee: u64) -> bool {
    match mint {
        MintTransferFee::Token2022 { epoch_fee: Some(terms) } => if terms.transfer_fee_basis_points
            == MAX_FEE_BASIS_POINTS {
            fee == terms.maximum_fee
        } else {
            terms.spec_fee(amount) == Some(fee)
        },
        MintTransferFee::Unreadable { .. } => false,
        _ => fee == 0,
    }
}

/// The fee that `get_transfer_fees` accepts is the fee the mint charges on
/// the amount given, and it never exceeds that amount below a 100% rate.
pub proof fn lemma_transfer_fees_charged(mint: MintTransferFee, pre_fee_amount: u64)
    requires
        spec_get_transfer_fees(mint, pre_fee_amount) matches Some(Ok(_)),
    ensures
        charges_transfer_fee(mint, pre_fee_amount, spec_get_transfer_fees(mint, pre_fee_amount)->Some_0->Ok_0),
        (mint matches MintTransferFee::Token2022 { epoch_fee: Some(terms) }
            && terms.transfer_fee_basis_points == MAX_FEE_BASIS_POINTS) || spec_get_transfer_fees(
            mint,
            pre_fee_amount,
        )->Some_0->Ok_0 <= pre_fee_amount,
{
}

/// The fee that `get_inverse_transfer_fee` accepts for `post_fees_amount` is
/// the fee the mint charges on the gross transfer, `post_fees_amount` plus
/// that fee, so exactly `post_fees_amount` arrives below a 100% rate.
pub proof fn lemma_inverse_transfer_fee_charged(mint: MintTransferFee, post_fees_amount: u64)
    requires
        spec_get_inverse_transfer_fee(mint, post_fees_amount) matches Some(Ok(_)),
        post_fees_amount + spec_get_inverse_transfer_fee(mint, post_fees_amount)->Some_0->Ok_0
            <= u64::MAX,
    ensures
        charges_transfer_fee(
            mint,
            (post_fees_amount + spec_get_inverse_transfer_fee(mint, post_fees_amount)->Some_0->Ok_0) as u64,
            spec_get_inverse_transfer_fee(mint, post_fees_amount)->Some_0->Ok_0,
        ),
{
}

} // verus!
