//! Reasons for which a program rejects an instruction.

use vstd::prelude::*;

verus! {

/// Why an instruction was rejected. Every rejection is terminal: the
/// instruction has no effect at all.
#[derive(Clone, Copy, Debug, PartialEq, Eq, Structural)]
pub enum ProgramError {
    /// A failure that the program itself defines, by its numeric code.
    Custom(u32),
    InvalidInstructionData,
    InvalidAccountData,
    IncorrectProgramId,
    MissingRequiredSignature,
    UninitializedAccount,
    NotEnoughAccountKeys,
    MaxSeedLengthExceeded,
    InvalidSeeds,
    BorshIoError,
    InvalidRealloc,
    InvalidAccountOwner,
    ArithmeticOverflow,
}

} // verus!
