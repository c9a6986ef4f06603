//! A constant-product liquidity pool for one pair of token mints.

pub mod error;
pub mod instruction;
pub mod laws;
pub mod math;
pub mod processor;
pub mod state;
