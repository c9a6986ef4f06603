//! The review board's own reasons to reject an instruction.

use crate::program_error::ProgramError;
use vstd::prelude::*;

verus! {

/// A rejection that is specific to the review board, with a stable numeric
/// code.
#[derive(Clone, Copy, Debug, PartialEq, Eq, Structural)]
pub enum ReviewError {
    /// The review does not fit into its account.
    InvalidDataLength,
    /// A rating below 1 or above 5.
    InvalidRating,
    /// An account at an address other than the expected one.
    IncorrectAccountError,
}

impl ReviewError {
    /// The numeric code of the error: its position in the enumeration.
    pub open spec fn spec_code(self) -> u32 {
        match self {
            ReviewError::InvalidDataLength => 0,
            ReviewError::InvalidRating => 1,
            ReviewError::IncorrectAccountError => 2,
        }
    }

    /// The error as a program error: the custom error with its code.
    pub open spec fn to_program_error(self) -> ProgramError {
        ProgramError::Custom(self.spec_code())
    }

    /// The numeric code of the error.
    pub fn code(&self) -> (code: u32)
        ensures
            code == self.spec_code(),
    {
        match self {
            ReviewError::InvalidDataLength => 0,
            ReviewError::InvalidRating => 1,
            ReviewError::IncorrectAccountError => 2,
        }
    }

    /// The words of each error.
    pub open spec fn spec_message(self) -> &'static str {
        match self {
            ReviewError::InvalidDataLength => "Input data exceeds max length",
            ReviewError::InvalidRating => "Rating less than 1 or greater than 5",
            ReviewError::IncorrectAccountError => "Accounts do not match",
        }
    }

    /// The error in words.
    pub fn message(&self) -> (text: String)
        ensures
            text@ == self.spec_message()@,
    {
        match self {
            ReviewError::InvalidDataLength => "Input data exceeds max length".to_owned(),
            ReviewError::InvalidRating => "Rating less than 1 or greater than 5".to_owned(),
            ReviewError::IncorrectAccountError => "Accounts do not match".to_owned(),
        }
    }
}

impl From<ReviewError> for ProgramError {
    fn from(e: ReviewError) -> (error: ProgramError) {
        ProgramError::Custom(e.code())
    }
}

impl vstd::std_specs::convert::FromSpecImpl<ReviewError> for ProgramError {
    open spec fn obeys_from_spec() -> bool {
        true
    }

    open spec fn from_spec(e: ReviewError) -> ProgramError {
        e.to_program_error()
    }
}

} // verus!
