//! The system program: its address and the instructions that the processors
//! send it.

use crate::address::Address;
use crate::effect::{AccountMeta, Instruction, InstructionView};
use vstd::bytes::{spec_u32_to_le_bytes, spec_u64_to_le_bytes};
use vstd::prelude::*;

verus! {

/// The address of the system program: 32 zero bytes.
pub const SYSTEM_PROGRAM_ID: [u8; 32] = [
    0, 0, 0, 0, 0, 0, 0, 0, 0, 0, 0, 0, 0, 0, 0, 0,
    0, 0, 0, 0, 0, 0, 0, 0, 0, 0, 0, 0, 0, 0, 0, 0,
];

/// The address of the system program.
pub fn system_program_id() -> (id: Address)
    ensures
        id == system_program(),
{
    Address { bytes: SYSTEM_PROGRAM_ID }
}

/// The address of the system program.
pub open spec fn system_program() -> Address {
    Address { bytes: SYSTEM_PROGRAM_ID }
}

/// The instruction that creates the account `to` with `space` bytes of
/// data, owned by `owner` and funded with `lamports` by `from`: opcode 0 as
/// a 32-bit number, then the lamports, the space and the owner.
pub open spec fn spec_create_account(
    from: Address,
    to: Address,
    lamports: u64,
    space: u64,
    owner: Address,
) -> InstructionView {
    InstructionView {
        program_id: system_program(),
        accounts: seq![AccountMeta::writable(from, true), AccountMeta::writable(to, true)],
        data: spec_u32_to_le_bytes(0) + spec_u64_to_le_bytes(lamports) + spec_u64_to_le_bytes(
            space,
        ) + owner@,
    }
}

/// The instruction that moves `lamports` from `from` to `to`: opcode 2 as a
/// 32-bit number, then the lamports.
pub open spec fn spec_transfer(from: Address, to: Address, lamports: u64) -> InstructionView {
    InstructionView {
        program_id: system_program(),
        accounts: seq![AccountMeta::writable(from, true), AccountMeta::writable(to, false)],
        data: spec_u32_to_le_bytes(2) + spec_u64_to_le_bytes(lamports),
    }
}

/// `instruction::create_account` of solana_system_interface: the system
/// program's `CreateAccount` instruction, with both accounts writable
/// signers and the fields serialized in order, integers little-endian.
#[verifier::external_body]
pub(crate) fn create_account(
    from: &Address,
    to: &Address,
    lamports: u64,
    space: u64,
    owner: &Address,
) -> (ix: Instruction)
    ensures
        ix@ == spec_create_account(*from, *to, lamports, space, *owner),
{
    let ix = solana_system_interface::instruction::create_account(&from.bytes.into(), &to.bytes.into(), lamports, space, &owner.bytes.into());
    let accounts = ix.accounts.iter().map(|m| AccountMeta { pubkey: Address { bytes: m.pubkey.to_bytes() }, is_signer: m.is_signer, is_writable: m.is_writable }).collect();
    Instruction { program_id: Address { bytes: ix.program_id.to_bytes() }, accounts, data: ix.data }
}

/// `instruction::transfer` of solana_system_interface: the system program's
/// `Transfer` instruction, from a writable signer to a writable account.
#[verifier::external_body]
pub(crate) fn transfer(from: &Address, to: &Address, lamports: u64) -> (ix: Instruction)
    ensures
        ix@ == spec_transfer(*from, *to, lamports),
{
    let ix = solana_system_interface::instruction::transfer(&from.bytes.into(), &to.bytes.into(), lamports);
    let accounts = ix.accounts.iter().map(|m| AccountMeta { pubkey: Address { bytes: m.pubkey.to_bytes() }, is_signer: m.is_signer, is_writable: m.is_writable }).collect();
    Instruction { program_id: Address { bytes: ix.program_id.to_bytes() }, accounts, data: ix.data }
}

} // verus!
