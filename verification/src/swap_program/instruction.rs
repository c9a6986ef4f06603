//! The instructions of the swap pool and their binary encoding: one opcode
//! byte, then the amount as a 64-bit little-endian number where the
//! instruction has one.

use crate::codec::read_u64;
use crate::program_error::ProgramError;
use vstd::bytes::spec_u64_from_le_bytes;
use vstd::prelude::*;

verus! {

/// One instruction to the swap pool.
#[derive(Clone, Copy, Debug, PartialEq, Eq, Structural)]
pub enum SwapInstruction {
    CreatePool,
    FundPool { amount: u64 },
    Swap { amount_to_swap: u64 },
}

impl SwapInstruction {
    /// The instruction that `input` encodes, or `InvalidInstructionData`: for
    /// an empty input, an unknown opcode, or an amount that is not exactly
    /// eight bytes. What follows the opcode of `CreatePool` is not read.
    pub open spec fn spec_unpack(input: Seq<u8>) -> Result<SwapInstruction, ProgramError> {
        if input.len() == 0 {
            Err(ProgramError::InvalidInstructionData)
        } else if input[0] == 0 {
            Ok(SwapInstruction::CreatePool)
        } else if input[0] == 1 && input.len() == 9 {
            Ok(SwapInstruction::FundPool { amount: spec_u64_from_le_bytes(input.subrange(1, 9)) })
        } else if input[0] == 2 && input.len() == 9 {
            Ok(SwapInstruction::Swap { amount_to_swap: spec_u64_from_le_bytes(input.subrange(1, 9)) })
        } else {
            Err(ProgramError::InvalidInstructionData)
        }
    }

    /// Decodes an instruction.
    pub fn unpack(input: &[u8]) -> (r: Result<SwapInstruction, ProgramError>)
        ensures
            r == SwapInstruction::spec_unpack(input@),
    {
        let len = input.len();
        if len == 0 {
            return Err(ProgramError::InvalidInstructionData);
        }
        let opcode = input[0];
        if opcode == 0 {
            Ok(SwapInstruction::CreatePool)
        } else if opcode == 1 && len == 9 {
            Ok(SwapInstruction::FundPool { amount: read_u64(input, 1) })
        } else if opcode == 2 && len == 9 {
            Ok(SwapInstruction::Swap { amount_to_swap: read_u64(input, 1) })
        } else {
            Err(ProgramError::InvalidInstructionData)
        }
    }
}

} // verus!
