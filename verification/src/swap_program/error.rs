//! The swap pool's own reasons to reject an instruction.

use crate::program_error::ProgramError;
use vstd::prelude::*;

verus! {

/// A rejection that is specific to the swap pool, with a stable numeric
/// code.
#[derive(Clone, Copy, Debug, PartialEq, Eq, Structural)]
pub enum SwapProgramError {
    /// A swap of nothing.
    InvalidSwapZeroAmount,
    /// A swap of an asset for itself.
    InvalidSwapMatchingAssets,
}

impl SwapProgramError {
    /// The numeric code of the error: its position in the enumeration.
    pub open spec fn spec_code(self) -> u32 {
        match self {
            SwapProgramError::InvalidSwapZeroAmount => 0,
            SwapProgramError::InvalidSwapMatchingAssets => 1,
        }
    }

    /// The error as a program error: the custom error with its code.
    pub open spec fn to_program_error(self) -> ProgramError {
        ProgramError::Custom(self.spec_code())
    }

    /// The numeric code of the error.
    pub fn code(&self) -> (code: u32)
        ensures
            code == self.spec_code(),
    {
        match self {
            SwapProgramError::InvalidSwapZeroAmount => 0,
            SwapProgramError::InvalidSwapMatchingAssets => 1,
        }
    }
}

impl From<SwapProgramError> for ProgramError {
    fn from(e: SwapProgramError) -> (error: ProgramError) {
        ProgramError::Custom(e.code())
    }
}

impl vstd::std_specs::convert::FromSpecImpl<SwapProgramError> for ProgramError {
    open spec fn obeys_from_spec() -> bool {
        true
    }

    open spec fn from_spec(e: SwapProgramError) -> ProgramError {
        e.to_program_error()
    }
}

} // verus!
