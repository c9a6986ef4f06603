//! The token program: its address, the mint record that it keeps, and the
//! instructions that the processors send it.

use crate::address::Address;
use crate::effect::{AccountMeta, Instruction, InstructionView};
use crate::program_error::ProgramError;
use solana_program::program_pack::Pack;
use vstd::bytes::{spec_u64_from_le_bytes, spec_u64_to_le_bytes};
use vstd::prelude::*;

verus! {

/// The address of the token program.
pub const TOKEN_PROGRAM_ID: [u8; 32] = [
    6, 221, 246, 225, 215, 101, 161, 147, 217, 203, 225, 70, 206, 235, 121, 172,
    28, 180, 133, 237, 95, 91, 55, 145, 58, 140, 245, 133, 126, 255, 0, 169,
];

/// Bytes of a stored mint.
pub const MINT_LEN: usize = 82;

/// The address of the token program.
pub fn token_program_id() -> (id: Address)
    ensures
        id == token_program(),
{
    Address { bytes: TOKEN_PROGRAM_ID }
}

/// The address of the token program.
pub open spec fn token_program() -> Address {
    Address { bytes: TOKEN_PROGRAM_ID }
}

/// What the processors read of a mint: how many tokens exist and how many
/// decimal places an amount has.
#[derive(Clone, Copy, Debug, PartialEq, Eq, Structural)]
pub struct Mint {
    pub supply: u64,
    pub decimals: u8,
}

/// Whether four bytes are the tag of an optional field: 0 for an absent
/// value, 1 for a present one, as a 32-bit little-endian number.
pub open spec fn is_option_tag(tag: Seq<u8>) -> bool {
    tag == seq![0u8, 0u8, 0u8, 0u8] || tag == seq![1u8, 0u8, 0u8, 0u8]
}

/// Whether `data` has the layout of a stored mint: 82 bytes, with an optional
/// mint authority in bytes 0 to 36, the supply in 36 to 44, the decimals in
/// 44, the initialized flag in 45 and an optional freeze authority behind it.
pub open spec fn is_mint_layout(data: Seq<u8>) -> bool {
    &&& data.len() == MINT_LEN
    &&& is_option_tag(data.subrange(0, 4))
    &&& data[45] <= 1
    &&& is_option_tag(data.subrange(46, 50))
}

/// The mint that `data` stores: `InvalidAccountData` for data that has not
/// the layout of a mint, `UninitializedAccount` for a mint whose flag is not
/// set.
pub open spec fn spec_unpack_mint(data: Seq<u8>) -> Result<Mint, ProgramError> {
    if !is_mint_layout(data) {
        Err(ProgramError::InvalidAccountData)
    } else if data[45] == 0 {
        Err(ProgramError::UninitializedAccount)
    } else {
        Ok(Mint { supply: spec_u64_from_le_bytes(data.subrange(36, 44)), decimals: data[44] })
    }
}

/// `Mint::unpack` of spl_token (`Pack::unpack`): checks the length and the
/// tags of the stored mint, then that it is initialized, and returns its
/// fields, of which the supply and the decimals are kept.
#[verifier::external_body]
pub(crate) fn unpack_mint(data: &[u8]) -> (r: Result<Mint, ProgramError>)
    ensures
        r == spec_unpack_mint(data@),
{
    match spl_token::state::Mint::unpack(data) {
        Ok(mint) => Ok(Mint { supply: mint.supply, decimals: mint.decimals }),
        Err(solana_program::program_error::ProgramError::UninitializedAccount) => Err(
            ProgramError::UninitializedAccount,
        ),
        Err(_) => Err(ProgramError::InvalidAccountData),
    }
}

/// The instruction that moves `amount` tokens of `mint` from `source` to
/// `destination`, signed by `authority`.
pub open spec fn spec_transfer_checked(
    token_program_id: Address,
    source: Address,
    mint: Address,
    destination: Address,
    authority: Address,
    amount: u64,
    decimals: u8,
) -> InstructionView {
    InstructionView {
        program_id: token_program_id,
        accounts: seq![
            AccountMeta::writable(source, false),
            AccountMeta::readonly(mint, false),
            AccountMeta::writable(destination, false),
            AccountMeta::readonly(authority, true),
        ],
        data: seq![12u8] + spec_u64_to_le_bytes(amount) + seq![decimals],
    }
}

/// The instruction that mints `amount` tokens of `mint` to `account`, signed
/// by the mint authority `owner`.
pub open spec fn spec_mint_to(
    token_program_id: Address,
    mint: Address,
    account: Address,
    owner: Address,
    amount: u64,
) -> InstructionView {
    InstructionView {
        program_id: token_program_id,
        accounts: seq![
            AccountMeta::writable(mint, false),
            AccountMeta::writable(account, false),
            AccountMeta::readonly(owner, true),
        ],
        data: seq![7u8] + spec_u64_to_le_bytes(amount),
    }
}

/// The instruction that burns `amount` tokens of `mint` out of `account`,
/// signed by `authority`.
pub open spec fn spec_burn(
    token_program_id: Address,
    account: Address,
    mint: Address,
    authority: Address,
    amount: u64,
) -> InstructionView {
    InstructionView {
        program_id: token_program_id,
        accounts: seq![
            AccountMeta::writable(account, false),
            AccountMeta::writable(mint, false),
            AccountMeta::readonly(authority, true),
        ],
        data: seq![8u8] + spec_u64_to_le_bytes(amount),
    }
}

/// The instruction that initializes `mint` with `decimals` decimal places,
/// the mint authority `mint_authority` and no freeze authority.
pub open spec fn spec_initialize_mint2(
    token_program_id: Address,
    mint: Address,
    mint_authority: Address,
    decimals: u8,
) -> InstructionView {
    InstructionView {
        program_id: token_program_id,
        accounts: seq![AccountMeta::writable(mint, false)],
        data: seq![20u8, decimals] + mint_authority@ + seq![0u8],
    }
}

/// `instruction::transfer_checked` of spl_token, without multisig signers:
/// `IncorrectProgramId` unless `token_program_id` is the token program, and
/// otherwise the instruction with opcode 12, the amount and the decimals.
#[verifier::external_body]
pub(crate) fn transfer_checked(
    token_program_id: &Address,
    source: &Address,
    mint: &Address,
    destination: &Address,
    authority: &Address,
    amount: u64,
    decimals: u8,
) -> (r: Result<Instruction, ProgramError>)
    ensures
        r is Ok <==> *token_program_id == token_program(),
        r matches Ok(ix) ==> ix@ == spec_transfer_checked(
            *token_program_id,
            *source,
            *mint,
            *destination,
            *authority,
            amount,
            decimals,
        ),
        r matches Err(e) ==> e == ProgramError::IncorrectProgramId,
{
    let ix = spl_token::instruction::transfer_checked(&token_program_id.bytes.into(), &source.bytes.into(), &mint.bytes.into(), &destination.bytes.into(), &authority.bytes.into(), &[], amount, decimals)
        .map_err(|_| ProgramError::IncorrectProgramId)?;
    let accounts = ix.accounts.iter().map(|m| AccountMeta { pubkey: Address { bytes: m.pubkey.to_bytes() }, is_signer: m.is_signer, is_writable: m.is_writable }).collect();
    Ok(Instruction { program_id: Address { bytes: ix.program_id.to_bytes() }, accounts, data: ix.data })
}

/// `instruction::mint_to` of spl_token, without multisig signers:
/// `IncorrectProgramId` unless `token_program_id` is the token program, and
/// otherwise the instruction with opcode 7 and the amount.
#[verifier::external_body]
pub(crate) fn mint_to(
    token_program_id: &Address,
    mint: &Address,
    account: &Address,
    owner: &Address,
    amount: u64,
) -> (r: Result<Instruction, ProgramError>)
    ensures
        r is Ok <==> *token_program_id == token_program(),
        r matches Ok(ix) ==> ix@ == spec_mint_to(*token_program_id, *mint, *account, *owner, amount),
        r matches Err(e) ==> e == ProgramError::IncorrectProgramId,
{
    let ix = spl_token::instruction::mint_to(&token_program_id.bytes.into(), &mint.bytes.into(), &account.bytes.into(), &owner.bytes.into(), &[], amount)
        .map_err(|_| ProgramError::IncorrectProgramId)?;
    let accounts = ix.accounts.iter().map(|m| AccountMeta { pubkey: Address { bytes: m.pubkey.to_bytes() }, is_signer: m.is_signer, is_writable: m.is_writable }).collect();
    Ok(Instruction { program_id: Address { bytes: ix.program_id.to_bytes() }, accounts, data: ix.data })
}

/// `instruction::burn` of spl_token, without multisig signers:
/// `IncorrectProgramId` unless `token_program_id` is the token program, and
/// otherwise the instruction with opcode 8 and the amount.
#[verifier::external_body]
pub(crate) fn burn(
    token_program_id: &Address,
    account: &Address,
    mint: &Address,
    authority: &Address,
    amount: u64,
) -> (r: Result<Instruction, ProgramError>)
    ensures
        r is Ok <==> *token_program_id == token_program(),
        r matches Ok(ix) ==> ix@ == spec_burn(*token_program_id, *account, *mint, *authority, amount),
        r matches Err(e) ==> e == ProgramError::IncorrectProgramId,
{
    let ix = spl_token::instruction::burn(&token_program_id.bytes.into(), &account.bytes.into(), &mint.bytes.into(), &authority.bytes.into(), &[], amount)
        .map_err(|_| ProgramError::IncorrectProgramId)?;
    let accounts = ix.accounts.iter().map(|m| AccountMeta { pubkey: Address { bytes: m.pubkey.to_bytes() }, is_signer: m.is_signer, is_writable: m.is_writable }).collect();
    Ok(Instruction { program_id: Address { bytes: ix.program_id.to_bytes() }, accounts, data: ix.data })
}

/// `instruction::initialize_mint2` of spl_token, without a freeze authority:
/// `IncorrectProgramId` unless `token_program_id` is the token program, and
/// otherwise the instruction with opcode 20, the decimals, the mint
/// authority and the tag of an absent freeze authority.
#[verifier::external_body]
pub(crate) fn initialize_mint2(
    token_program_id: &Address,
    mint: &Address,
    mint_authority: &Address,
    decimals: u8,
) -> (r: Result<Instruction, ProgramError>)
    ensures
        r is Ok <==> *token_program_id == token_program(),
        r matches Ok(ix) ==> ix@ == spec_initialize_mint2(
            *token_program_id,
            *mint,
            *mint_authority,
            decimals,
        ),
        r matches Err(e) ==> e == ProgramError::IncorrectProgramId,
{
    let ix = spl_token::instruction::initialize_mint2(&token_program_id.bytes.into(), &mint.bytes.into(), &mint_authority.bytes.into(), None, decimals)
        .map_err(|_| ProgramError::IncorrectProgramId)?;
    let accounts = ix.accounts.iter().map(|m| AccountMeta { pubkey: Address { bytes: m.pubkey.to_bytes() }, is_signer: m.is_signer, is_writable: m.is_writable }).collect();
    Ok(Instruction { program_id: Address { bytes: ix.program_id.to_bytes() }, accounts, data: ix.data })
}

} // verus!
