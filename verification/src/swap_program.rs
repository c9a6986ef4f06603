//! A pool that holds any number of funded assets at one derived address.

pub mod error;
pub mod instruction;
pub mod processor;
pub mod state;
