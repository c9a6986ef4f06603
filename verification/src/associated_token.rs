//! Associated token accounts: the one token account that a wallet has for a
//! mint by convention, at an address derived from both.

use crate::address::{address_of_found, find_address, seed_views, spec_find_address, Address};
use crate::effect::{AccountMeta, Instruction, InstructionView};
use crate::system::system_program;
use crate::token::{token_program, token_program_id};
use vstd::prelude::*;

verus! {

/// The address of the associated-token-account program.
pub const ASSOCIATED_TOKEN_PROGRAM_ID: [u8; 32] = [
    140, 151, 37, 143, 78, 36, 137, 241, 187, 61, 16, 41, 20, 142, 13, 131,
    11, 90, 19, 153, 218, 255, 16, 132, 4, 142, 123, 216, 219, 233, 248, 89,
];

/// The address of the associated-token-account program.
pub fn associated_token_program_id() -> (id: Address)
    ensures
        id == associated_token_program(),
{
    Address { bytes: ASSOCIATED_TOKEN_PROGRAM_ID }
}

/// The address of the associated-token-account program.
pub open spec fn associated_token_program() -> Address {
    Address { bytes: ASSOCIATED_TOKEN_PROGRAM_ID }
}

/// The seeds of the associated token account of `wallet` for `mint` under
/// the token program `token_program_id`.
pub open spec fn associated_seeds(wallet: Address, token_program_id: Address, mint: Address) -> Seq<
    Seq<u8>,
> {
    seq![wallet@, token_program_id@, mint@]
}

/// The address of the associated token account of `wallet` for `mint` under
/// the token program `token_program_id`: what the associated-token-account
/// program finds for the three. `None` when no address can be derived.
pub open spec fn spec_associated_token_address_with_program_id(
    wallet: Address,
    mint: Address,
    token_program_id: Address,
) -> Option<Address> {
    address_of_found(
        spec_find_address(
            associated_seeds(wallet, token_program_id, mint),
            associated_token_program(),
        ),
    )
}

/// The address of the associated token account of `wallet` for `mint` under
/// the token program.
pub open spec fn spec_associated_token_address(wallet: Address, mint: Address) -> Option<Address> {
    spec_associated_token_address_with_program_id(wallet, mint, token_program())
}

/// The address of the associated token account of `wallet` for `mint` under
/// the token program `token_program_id`.
pub fn get_associated_token_address_with_program_id(
    wallet: &Address,
    mint: &Address,
    token_program_id: &Address,
) -> (r: Option<Address>)
    ensures
        r == spec_associated_token_address_with_program_id(*wallet, *mint, *token_program_id),
{
    let mut seeds: Vec<Vec<u8>> = Vec::new();
    seeds.push(wallet.to_vec());
    seeds.push(token_program_id.to_vec());
    seeds.push(mint.to_vec());
    assert(seed_views(seeds@) =~= associated_seeds(*wallet, *token_program_id, *mint));
    match find_address(&seeds, &associated_token_program_id()) {
        Some((address, _)) => Some(address),
        None => None,
    }
}

/// The address of the associated token account of `wallet` for `mint`.
pub fn get_associated_token_address(wallet: &Address, mint: &Address) -> (r: Option<Address>)
    ensures
        r == spec_associated_token_address(*wallet, *mint),
{
    get_associated_token_address_with_program_id(wallet, mint, &token_program_id())
}

/// The instruction that creates the associated token account `associated`
/// of `wallet` for `mint`, funded by `funding`. `opcode` is 0 to fail on an
/// existing account and 1 to accept it.
pub open spec fn spec_create_associated(
    funding: Address,
    associated: Address,
    wallet: Address,
    mint: Address,
    token_program_id: Address,
    opcode: u8,
) -> InstructionView {
    InstructionView {
        program_id: associated_token_program(),
        accounts: seq![
            AccountMeta::writable(funding, true),
            AccountMeta::writable(associated, false),
            AccountMeta::readonly(wallet, false),
            AccountMeta::readonly(mint, false),
            AccountMeta::readonly(system_program(), false),
            AccountMeta::readonly(token_program_id, false),
        ],
        data: seq![opcode],
    }
}

/// The instruction that creates the associated token account `associated`
/// of `wallet` for `mint`, funded by `funding`; where `idempotent` holds, an
/// existing account is accepted.
pub fn create_associated_token_account(
    funding: &Address,
    associated: &Address,
    wallet: &Address,
    mint: &Address,
    token_program_id: &Address,
    idempotent: bool,
) -> (ix: Instruction)
    ensures
        ix@ == spec_create_associated(
            *funding,
            *associated,
            *wallet,
            *mint,
            *token_program_id,
            if idempotent {
                1u8
            } else {
                0u8
            },
        ),
{
    let mut accounts: Vec<AccountMeta> = Vec::new();
    accounts.push(AccountMeta { pubkey: *funding, is_signer: true, is_writable: true });
    accounts.push(AccountMeta { pubkey: *associated, is_signer: false, is_writable: true });
    accounts.push(AccountMeta { pubkey: *wallet, is_signer: false, is_writable: false });
    accounts.push(AccountMeta { pubkey: *mint, is_signer: false, is_writable: false });
    accounts.push(
        AccountMeta { pubkey: crate::system::system_program_id(), is_signer: false, is_writable: false },
    );
    accounts.push(AccountMeta { pubkey: *token_program_id, is_signer: false, is_writable: false });
    let mut data: Vec<u8> = Vec::new();
    data.push(if idempotent { 1 } else { 0 });
    let ix = Instruction { program_id: associated_token_program_id(), accounts, data };
    assert(ix@.accounts =~= spec_create_associated(
        *funding,
        *associated,
        *wallet,
        *mint,
        *token_program_id,
        0,
    ).accounts);
    assert(ix@.data =~= seq![if idempotent {
        1u8
    } else {
        0u8
    }]);
    ix
}

} // verus!
