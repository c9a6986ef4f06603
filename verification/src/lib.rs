//! Instruction processors of small ledger programs: a constant-product
//! liquidity pool, a pool of funded assets and a movie-review board.
//!
//! A processor validates the accounts and the payload of one instruction and
//! answers with the ordered list of effects that carry the instruction out,
//! or with the error that rejects it. Performing the effects on the ledger is
//! left to the caller; a rejected instruction has no effects.

pub mod account;
pub mod address;
pub mod amm;
pub mod associated_token;
pub mod codec;
pub mod effect;
pub mod movie_review;
pub mod program_error;
pub mod swap_program;
pub mod system;
pub mod token;
