//! The pool's own reasons to reject an instruction.

use crate::program_error::ProgramError;
use vstd::prelude::*;

verus! {

/// A rejection that is specific to the pool. Each has a stable numeric code,
/// under which it reaches the caller.
#[derive(Clone, Copy, Debug, PartialEq, Eq, Structural)]
pub enum AmmError {
    IdenticalMints,
    PoolAddressMismatch,
    VaultAddressMismatch,
    MintAddressMismatch,
    LpMintAddressMismatch,
    ZeroLiquidityAmount,
    FeeTooHigh,
    ZeroSwapAmount,
    SlippageExceed,
}

impl AmmError {
    /// The numeric code of the error: its position in the enumeration.
    pub open spec fn spec_code(self) -> u32 {
        match self {
            AmmError::IdenticalMints => 0,
            AmmError::PoolAddressMismatch => 1,
            AmmError::VaultAddressMismatch => 2,
            AmmError::MintAddressMismatch => 3,
            AmmError::LpMintAddressMismatch => 4,
            AmmError::ZeroLiquidityAmount => 5,
            AmmError::FeeTooHigh => 6,
            AmmError::ZeroSwapAmount => 7,
            AmmError::SlippageExceed => 8,
        }
    }

    /// The error as a program error: the custom error with its code.
    pub open spec fn to_program_error(self) -> ProgramError {
        ProgramError::Custom(self.spec_code())
    }

    /// The numeric code of the error.
    pub fn code(&self) -> (code: u32)
        ensures
            code == self.spec_code(),
    {
        match self {
            AmmError::IdenticalMints => 0,
            AmmError::PoolAddressMismatch => 1,
            AmmError::VaultAddressMismatch => 2,
            AmmError::MintAddressMismatch => 3,
            AmmError::LpMintAddressMismatch => 4,
            AmmError::ZeroLiquidityAmount => 5,
            AmmError::FeeTooHigh => 6,
            AmmError::ZeroSwapAmount => 7,
            AmmError::SlippageExceed => 8,
        }
    }

    /// The error in words.
    pub fn message(&self) -> (text: String)
        ensures
            text@ == self.spec_message()@,
    {
        match self {
            AmmError::IdenticalMints => "Token mints must be different".to_owned(),
            AmmError::PoolAddressMismatch => "Pool address does not match PDA derived from token mints".to_owned(),
            AmmError::VaultAddressMismatch => "Vault address does not match ATA derived from mint and pool address".to_owned(),
            AmmError::MintAddressMismatch => "Mint address does not match pool data".to_owned(),
            AmmError::LpMintAddressMismatch => "LP mint address does not match PDA derived from the pool".to_owned(),
            AmmError::ZeroLiquidityAmount => "Funding amount must be greater than zero".to_owned(),
            AmmError::FeeTooHigh => "Fee must not exceed 10000 basis points (100%)".to_owned(),
            AmmError::ZeroSwapAmount => "Swap amount must be greater than zero".to_owned(),
            AmmError::SlippageExceed => "Slippage tolerance exceeded: output amount is below the minimum specified".to_owned(),
        }
    }

    /// The words of each error.
    pub open spec fn spec_message(self) -> &'static str {
        match self {
            AmmError::IdenticalMints => "Token mints must be different",
            AmmError::PoolAddressMismatch => "Pool address does not match PDA derived from token mints",
            AmmError::VaultAddressMismatch => "Vault address does not match ATA derived from mint and pool address",
            AmmError::MintAddressMismatch => "Mint address does not match pool data",
            AmmError::LpMintAddressMismatch => "LP mint address does not match PDA derived from the pool",
            AmmError::ZeroLiquidityAmount => "Funding amount must be greater than zero",
            AmmError::FeeTooHigh => "Fee must not exceed 10000 basis points (100%)",
            AmmError::ZeroSwapAmount => "Swap amount must be greater than zero",
            AmmError::SlippageExceed => "Slippage tolerance exceeded: output amount is below the minimum specified",
        }
    }
}

impl From<AmmError> for ProgramError {
    fn from(error: AmmError) -> (e: ProgramError) {
        ProgramError::Custom(error.code())
    }
}

impl vstd::std_specs::convert::FromSpecImpl<AmmError> for ProgramError {
    open spec fn obeys_from_spec() -> bool {
        true
    }

    open spec fn from_spec(error: AmmError) -> ProgramError {
        error.to_program_error()
    }
}

} // verus!
