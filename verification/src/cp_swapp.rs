//! The second pool program: pools keyed by their two mints and a fee rate
//! in parts per million, with deposits, pool creation and exact-input swaps.

pub mod constants;
pub mod error;
pub mod pool;
pub mod utils;

pub mod deposit;
pub mod initialize;
pub mod swap_base_input;
