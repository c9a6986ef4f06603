//! A board of movie reviews and comments, which rewards both with tokens.

pub mod error;
pub mod instruction;
pub mod processor;
pub mod state;
