//! Mint checks and transfer-fee adjustments shared by the instructions.
use crate::cp_swap::error::ErrorCode;
use crate::token_mint::{
    all_extensions_supported, extensions_supported, mint_accepted, spec_mint_extension_types,
    unpack_mint_extension_types, Key, MintInfo, MintTransferFee,
};
use vstd::prelude::*;

verus! {

/// Outcome of `is_mint_supported`: a legacy token mint is accepted; a
/// token-2022 mint is accepted when its data unpacks and carries only
/// accepted extensions, refused with `MintNotSupported` when it carries
/// another, and refused with the token interface's error when its data
/// does not unpack.
pub open spec fn spec_is_mint_supported(mint: MintInfo) -> Result<(), ErrorCode> {
    if mint.owned_by_token_program {
        Ok(())
    } else {
        match spec_mint_extension_types(mint.data@) {
            Err(code) => Err(ErrorCode::ProgramError(code)),
            Ok(codes) => if extensions_supported(codes) {
                Ok(())
            } else {
                Err(ErrorCode::MintNotSupported)
            },
        }
    }
}

/// Whether the pool accepts a mint: a legacy token mint, or a token-2022
/// mint whose data unpacks and carries only accepted extensions.
pub fn is_mint_supported(mint: &MintInfo) -> (r: Result<(), ErrorCode>)
    ensures
        r == spec_is_mint_supported(*mint),
        r is Ok <==> mint_accepted(*mint),
        r matches Err(e) ==> e == ErrorCode::MintNotSupported || (!mint.owned_by_token_program
            && spec_mint_extension_types(mint.data@) == Err::<Seq<u16>, u64>(
            e->ProgramError_0,
        ) && e is ProgramError),
{
    if mint.owned_by_token_program {
        return Ok(());
    }
    match unpack_mint_extension_types(mint.data.as_slice()) {
        Ok(codes) => {
            if all_extensions_supported(&codes) {
                Ok(())
            } else {
                Err(ErrorCode::MintNotSupported)
            }
        },
        Err(code) => Err(ErrorCode::ProgramError(code)),
    }
}

/// The pool accepts exactly the mints that `mint_accepted` describes: a
/// legacy token mint, or a token-2022 mint whose data unpacks and lists only
/// the transfer-fee, metadata-pointer, token-metadata, scaled-UI-amount and
/// interest-bearing extensions. A token-2022 mint that lists another is
/// refused with `MintNotSupported`, one whose data does not unpack with the
/// token interface's error.
pub proof fn lemma_is_mint_supported_accepts_exactly(mint: MintInfo)
    ensures
        spec_is_mint_supported(mint) is Ok <==> mint_accepted(mint),
        !mint.owned_by_token_program && spec_mint_extension_types(mint.data@) is Ok
            && !extensions_supported(spec_mint_extension_types(mint.data@)->Ok_0) ==> spec_is_mint_supported(mint)
            == Err::<(), ErrorCode>(ErrorCode::MintNotSupported),
        !mint.owned_by_token_program && spec_mint_extension_types(mint.data@) is Err
            ==> spec_is_mint_supported(mint) == Err::<(), ErrorCode>(
            ErrorCode::ProgramError(spec_mint_extension_types(mint.data@)->Err_0),
        ),
{
}

/// The two mints given are the pool's two mints, in either order.
pub open spec fn mints_match_pool(pool_mint_0: Key, pool_mint_1: Key, a: Key, b: Key) -> bool {
    (a.spec_bytes() == pool_mint_0.spec_bytes() && b.spec_bytes() == pool_mint_1.spec_bytes()) || (
    a.spec_bytes() == pool_mint_1.spec_bytes() && b.spec_bytes() == pool_mint_0.spec_bytes())
}

/// Whether the two mints given are the pool's two mints, in either order.
pub fn check_mints_match_pool(pool_mint_0: &Key, pool_mint_1: &Key, a: &Key, b: &Key) -> (r: bool)
    ensures
        r == mints_match_pool(*pool_mint_0, *pool_mint_1, *a, *b),
{
    (a.same(pool_mint_0) && b.same(pool_mint_1)) || (a.same(pool_mint_1) && b.same(pool_mint_0))
}

/// Amount that arrives when `amount` of a mint is transferred: less the
/// transfer fee of a token-2022 mint with fee terms, unchanged otherwise;
/// `None` when the fee computation fails.
pub open spec fn spec_amount_after_transfer_fee(fee: MintTransferFee, amount: u64) -> Option<u64> {
    match fee {
        MintTransferFee::Token2022 { epoch_fee: Some(terms) } => terms.spec_post_fee_amount(amount),
        _ => Some(amount),
    }
}

/// Amount to transfer so that `amount` arrives: plus the transfer fee of a
/// token-2022 mint with fee terms, unchanged otherwise; `None` when the fee
/// computation fails.
pub open spec fn spec_amount_before_transfer_fee(fee: MintTransferFee, amount: u64) -> Option<
    u64,
> {
    match fee {
        MintTransferFee::Token2022 { epoch_fee: Some(terms) } => terms.spec_pre_fee_amount(amount),
        _ => Some(amount),
    }
}

/// Amount that arrives when `amount` is transferred; `None` when the fee
/// computation fails, the token interface's error when the mint's data
/// does not unpack.
pub fn amount_after_transfer_fee(fee: &MintTransferFee, amount: u64) -> (r: Option<
    Result<u64, ErrorCode>,
>)
    ensures
        fee is Unreadable ==> r == Some(Err::<u64, ErrorCode>(ErrorCode::ProgramError(fee->error))),
        !(fee is Unreadable) ==> r == match spec_amount_after_transfer_fee(*fee, amount) {
            Some(v) => Some(Ok::<u64, ErrorCode>(v)),
            None => None,
        },
{
    match fee {
        MintTransferFee::LegacyToken => Some(Ok(amount)),
        MintTransferFee::Unreadable { error } => Some(Err(ErrorCode::ProgramError(*error))),
        MintTransferFee::Token2022 { epoch_fee } => match epoch_fee {
            None => Some(Ok(amount)),
            Some(terms) => match crate::transfer_fee::spl_calculate_post_fee_amount(
                terms,
                amount,
            ) {
                Some(v) => Some(Ok(v)),
                None => None,
            },
        },
    }
}

/// Amount to transfer so that `amount` arrives; `None` when the fee
/// computation fails, the token interface's error when the mint's data
/// does not unpack.
pub fn amount_before_transfer_fee(fee: &MintTransferFee, amount: u64) -> (r: Option<
    Result<u64, ErrorCode>,
>)
    ensures
        fee is Unreadable ==> r == Some(Err::<u64, ErrorCode>(ErrorCode::ProgramError(fee->error))),
        !(fee is Unreadable) ==> r == match spec_amount_before_transfer_fee(*fee, amount) {
            Some(v) => Some(Ok::<u64, ErrorCode>(v)),
            None => None,
        },
{
    match fee {
        MintTransferFee::LegacyToken => Some(Ok(amount)),
        MintTransferFee::Unreadable { error } => Some(Err(ErrorCode::ProgramError(*error))),
        MintTransferFee::Token2022 { epoch_fee } => match epoch_fee {
            None => Some(Ok(amount)),
            Some(terms) => match crate::transfer_fee::spl_calculate_pre_fee_amount(
                terms,
                amount,
            ) {
                Some(v) => Some(Ok(v)),
                None => None,
            },
        },
    }
}

/// After a swap's transfers: the product of the new vault balances may not
/// be below the product before the swap.
pub fn check_constant_product(k_before: u64, new_x: u64, new_y: u64) -> (r: Result<(), ErrorCode>)
    requires
        new_x * new_y <= u64::MAX,
    ensures
        r == if new_x * new_y >= k_before {
            Ok::<(), ErrorCode>(())
        } else {
            Err(ErrorCode::ConstantProductInvariantFailed)
        },
{
    let new_k = new_x * new_y;
    if new_k >= k_before {
        Ok(())
    } else {
        Err(ErrorCode::ConstantProductInvariantFailed)
    }
}

} // verus!
