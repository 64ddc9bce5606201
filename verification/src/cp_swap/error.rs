//! Errors that the pool program's instructions return.
use vstd::prelude::*;

verus! {

/// Why an instruction of the pool program was refused.
#[derive(Clone, Copy, Debug, PartialEq, Eq, Structural)]
pub enum ErrorCode {
    /// The swap fee rate is out of range.
    InvalidFees,
    /// The signer is not the config's update authority.
    MismatchUpdateAuthority,
    /// The config does not allow creating pools.
    AmmConfigDisabledForPoolCreation,
    /// The first mint's address does not order strictly before the second's.
    Mint1LexicographicallyGreaterThanOrEqualToMint0,
    /// A mint carries an extension that the pool does not accept.
    MintNotSupported,
    /// The token interface refused a token-2022 mint's data; the value is
    /// the code of its `ProgramError`.
    ProgramError(u64),
    /// The account does not hold the amount asked for.
    InsufficientFunds,
    /// The initial liquidity is below the locked minimum.
    InsufficientLiquidity,
    /// The mints given are not the pool's two mints.
    MismatchAccounts,
    /// An account named by the pool is not the one given.
    ConstraintHasOne,
    /// A swap would pay out less than the trader's minimum.
    NotMinimumOutputAmount,
    /// The trader would receive less than the minimum asked for.
    NotMinimumReceiveAmount,
    /// The trader would have to send more than the maximum allowed.
    ExceedsMaximumLimit,
    /// The product of the reserves decreased.
    ConstantProductInvariantFailed,
    /// The LP amount is zero or more than the LP holds.
    InvalidAmount,
}

} // verus!
