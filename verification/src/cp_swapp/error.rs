//! Errors that the pool program's instructions return.
use vstd::prelude::*;

verus! {

/// Why an instruction of the pool program was refused.
#[derive(Clone, Copy, Debug, PartialEq, Eq, Structural)]
pub enum ErrorCode {
    /// Mint A's address does not order strictly before mint B's.
    MintAGreaterThanOrEqualMintB,
    /// A mint carries an extension that the pool does not accept.
    AtleastOneOfTheMintsNotSupported,
    /// A fee was asked for a zero amount.
    ZeroTradingTokens,
    /// The direct and the inverse transfer-fee computations disagree.
    MismatchInTransferFeeCalculation,
    /// The account does not hold the amount asked for.
    InsufficientFunds,
    /// The initial liquidity does not exceed the locked amount.
    NotEnoughLiquidity,
    /// The mints and fee rate given are not the pool's.
    InvalidPool,
    /// The input amount, or what is left of it after fees, is zero.
    InvalidInputAmount,
    /// The fee rate is out of range.
    InvalidFees,
    /// An arithmetic operation overflowed.
    MathOverflow,
    /// The swap would pay out less than the trader's minimum.
    FailedToExceedMinimum,
    /// The token interface refused a token-2022 mint's data; the value is
    /// the code of its `ProgramError`.
    ProgramError(u64),
    /// The product of the reserves decreased.
    RequireGteViolated,
}

} // verus!
