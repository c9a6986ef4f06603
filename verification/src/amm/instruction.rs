//! The instructions of the pool and their binary encoding.
//!
//! An instruction is one opcode byte followed by the payload of that opcode:
//! its fields in order, each a little-endian integer of fixed width, with
//! nothing before, between or after them.

use crate::codec::{read_u16, read_u64};
use crate::program_error::ProgramError;
use vstd::bytes::{spec_u16_from_le_bytes, spec_u64_from_le_bytes};
use vstd::prelude::*;

verus! {

/// One instruction to the pool.
#[derive(Clone, Copy, Debug, PartialEq, Eq, Structural)]
pub enum AmmInstruction {
    CreatePool { amount_a: u64, amount_b: u64, fee_bps: u16 },
    ProvideLiquidity { amount_a_desired: u64, amount_b_desired: u64, amount_a_min: u64, amount_b_min: u64 },
    WithdrawLiquidity { amount_lp_in: u64, amount_a_min: u64, amount_b_min: u64 },
    Swap { amount_in: u64, min_out: u64 },
}

/// The 64-bit field of `payload` that starts at byte `at`.
pub open spec fn u64_at(payload: Seq<u8>, at: int) -> u64 {
    spec_u64_from_le_bytes(payload.subrange(at, at + 8))
}

/// The 16-bit field of `payload` that starts at byte `at`.
pub open spec fn u16_at(payload: Seq<u8>, at: int) -> u16 {
    spec_u16_from_le_bytes(payload.subrange(at, at + 2))
}

impl AmmInstruction {
    /// The instruction that `input` encodes, or `InvalidInstructionData`:
    /// for an empty input, an unknown opcode, or a payload that is not
    /// exactly as long as the fields of its opcode.
    pub open spec fn spec_unpack(input: Seq<u8>) -> Result<AmmInstruction, ProgramError> {
        if input.len() == 0 {
            Err(ProgramError::InvalidInstructionData)
        } else {
            let payload = input.subrange(1, input.len() as int);
            if input[0] == 0 && payload.len() == 18 {
                Ok(
                    AmmInstruction::CreatePool {
                        amount_a: u64_at(payload, 0),
                        amount_b: u64_at(payload, 8),
                        fee_bps: u16_at(payload, 16),
                    },
                )
            } else if input[0] == 1 && payload.len() == 32 {
                Ok(
                    AmmInstruction::ProvideLiquidity {
                        amount_a_desired: u64_at(payload, 0),
                        amount_b_desired: u64_at(payload, 8),
                        amount_a_min: u64_at(payload, 16),
                        amount_b_min: u64_at(payload, 24),
                    },
                )
            } else if input[0] == 2 && payload.len() == 24 {
                Ok(
                    AmmInstruction::WithdrawLiquidity {
                        amount_lp_in: u64_at(payload, 0),
                        amount_a_min: u64_at(payload, 8),
                        amount_b_min: u64_at(payload, 16),
                    },
                )
            } else if input[0] == 3 && payload.len() == 16 {
                Ok(AmmInstruction::Swap { amount_in: u64_at(payload, 0), min_out: u64_at(payload, 8) })
            } else {
                Err(ProgramError::InvalidInstructionData)
            }
        }
    }

    /// Decodes an instruction.
    pub fn unpack(input: &[u8]) -> (r: Result<AmmInstruction, ProgramError>)
        ensures
            r == AmmInstruction::spec_unpack(input@),
    {
        let len = input.len();
        if len == 0 {
            return Err(ProgramError::InvalidInstructionData);
        }
        let opcode = input[0];
        let payload = vstd::slice::slice_subrange(input, 1, len);
        let size = payload.len();
        if opcode == 0 && size == 18 {
            Ok(
                AmmInstruction::CreatePool {
                    amount_a: read_u64(payload, 0),
                    amount_b: read_u64(payload, 8),
                    fee_bps: read_u16(payload, 16),
                },
            )
        } else if opcode == 1 && size == 32 {
            Ok(
                AmmInstruction::ProvideLiquidity {
                    amount_a_desired: read_u64(payload, 0),
                    amount_b_desired: read_u64(payload, 8),
                    amount_a_min: read_u64(payload, 16),
                    amount_b_min: read_u64(payload, 24),
                },
            )
        } else if opcode == 2 && size == 24 {
            Ok(
                AmmInstruction::WithdrawLiquidity {
                    amount_lp_in: read_u64(payload, 0),
                    amount_a_min: read_u64(payload, 8),
                    amount_b_min: read_u64(payload, 16),
                },
            )
        } else if opcode == 3 && size == 16 {
            Ok(AmmInstruction::Swap { amount_in: read_u64(payload, 0), min_out: read_u64(payload, 8) })
        } else {
            Err(ProgramError::InvalidInstructionData)
        }
    }
}

} // verus!
