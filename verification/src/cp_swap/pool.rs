//! State that the pool program keeps for each pool.
use crate::token_mint::Key;
use vstd::prelude::*;

verus! {

/// A pool of two mints.
#[derive(Clone, Copy, Debug, PartialEq, Eq)]
pub struct Pool {
    /// Who created the pool.
    pub creator: Key,
    /// First mint; its address orders before the second's.
    pub mint_0: Key,
    /// Second mint.
    pub mint_1: Key,
    /// The config that the pool was created under.
    pub amm_config: Key,
    /// LP tokens in existence, the locked minimum included.
    pub lp_supply: u64,
    /// Bump of the pool's address.
    pub bump: u8,
    /// Bump of the LP mint's address.
    pub lp_mint_bump: u8,
}

} // verus!
