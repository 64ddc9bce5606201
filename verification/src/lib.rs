//! Constant-product AMM logic: curve math, swap fees, transfer-fee handling
//! and the decisions that the pool instructions make.

pub mod math;
pub mod token_mint;
pub mod transfer_fee;

pub mod cp_swap;
pub mod cp_swapp;
