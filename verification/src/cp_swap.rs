//! The constant-product pool program: configs, pool creation, swaps in both
//! directions and withdrawals.

pub mod amm_config;
pub mod constants;
pub mod curve_math;
pub mod error;
pub mod pool;
pub mod utils;

pub mod amm_config_instructions;
pub mod initialize;
pub mod swap_base_input;
pub mod swap_base_receive;
pub mod swap_base_send;
pub mod withdraw;
