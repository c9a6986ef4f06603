//! The processors of the swap pool's three instructions.
//!
//! A processor derives the addresses that the accounts of its instruction
//! must lie at. What the instruction does once the addresses are derived is
//! a function of plain values: the accounts and the derived addresses.

use crate::account::{AccountInfo, Rent};
use crate::address::{
    address_of_found, bump_at, bump_of, find_address, is_address, seed_views, spec_find_address,
    Address,
};
use crate::associated_token::{
    create_associated_token_account, get_associated_token_address,
    get_associated_token_address_with_program_id, spec_associated_token_address,
    spec_associated_token_address_with_program_id, spec_create_associated,
};
use crate::effect::{answers, invoke, invoke_signed, views, Effect, EffectView};
use crate::program_error::ProgramError;
use crate::swap_program::error::SwapProgramError;
use crate::swap_program::instruction::SwapInstruction;
use crate::swap_program::state::{LiquidityPool, LiquidityPoolView};
use crate::system::{spec_create_account, spec_transfer};
use crate::token::{spec_transfer_checked, spec_unpack_mint, transfer_checked, unpack_mint};
use vstd::prelude::*;
use vstd::slice::slice_to_vec;
use vstd::utf8::encode_utf8;

verus! {

/// The seeds of the pool's address: the bytes of the seed prefix.
pub open spec fn pool_seeds() -> Seq<Seq<u8>> {
    seq![encode_utf8(LiquidityPool::SEED_PREFIX@)]
}

/// The addresses that the program derives for a funding: the pool's own, the
/// associated token accounts of the pool and of the payer for the asset, and
/// the pool's token account as the creation of it derives it, under the
/// token program that came with the instruction.
#[derive(Clone, Copy, Debug)]
pub struct FundAddresses {
    pub pool: Option<Address>,
    pub pool_ata: Option<Address>,
    pub payer_ata: Option<Address>,
    pub created_ata: Option<Address>,
}

/// The addresses that the program derives for a swap: the associated token
/// accounts of the pool and of the payer, for the asset to receive and for
/// the asset to pay.
#[derive(Clone, Copy, Debug)]
pub struct SwapAddresses {
    pub pool_receive: Option<Address>,
    pub payer_receive: Option<Address>,
    pub pool_pay: Option<Address>,
    pub payer_pay: Option<Address>,
}

/// The seeds of the pool, with its bump seed where one is given.
fn pool_seed_list(bump: Option<u8>) -> (seeds: Vec<Vec<u8>>)
    ensures
        bump is None ==> seed_views(seeds@) == pool_seeds(),
        bump matches Some(b) ==> seed_views(seeds@) == pool_seeds().push(seq![b]),
{
    let mut seeds: Vec<Vec<u8>> = Vec::new();
    seeds.push(slice_to_vec(LiquidityPool::SEED_PREFIX.as_bytes()));
    assert(seed_views(seeds@) =~= pool_seeds());
    match bump {
        Some(b) => {
            let mut last: Vec<u8> = Vec::new();
            last.push(b);
            seeds.push(last);
            assert(seed_views(seeds@) =~= pool_seeds().push(seq![b]));
        },
        None => {},
    }
    seeds
}

/// What the creation of the pool answers, where `found` is the address
/// found for the pool with its bump seed: the creation of the pool's account
/// at that address, funded by the payer, and the empty pool stored in it;
/// `InvalidSeeds` where the account is not at that address.
///
/// The accounts are, in order: the pool, the payer and the system program.
pub open spec fn spec_create_pool_at(
    program_id: Address,
    accounts: Seq<AccountInfo>,
    rent: Rent,
    found: Option<(Address, u8)>,
) -> Result<Seq<EffectView>, ProgramError> {
    if accounts.len() < 3 {
        Err(ProgramError::NotEnoughAccountKeys)
    } else {
        match bump_at(found, accounts[0].key) {
            None => Err(ProgramError::InvalidSeeds),
            Some(bump) => Ok(
                seq![
                    invoke_signed(
                        spec_create_account(
                            accounts[1].key,
                            accounts[0].key,
                            rent.spec_minimum_balance(LiquidityPool::SPACE)->0,
                            LiquidityPool::SPACE as u64,
                            program_id,
                        ),
                        seq![1usize, 0usize, 2usize],
                        pool_seeds().push(seq![bump]),
                    ),
                    EffectView::Write {
                        account: 0,
                        data: (LiquidityPoolView { assets: Seq::empty(), bump }).spec_pack(),
                    },
                ],
            ),
        }
    }
}

/// What `process_create_pool` answers: what the creation answers, given the
/// address that the program finds for the pool.
pub open spec fn spec_process_create_pool(program_id: Address, accounts: Seq<AccountInfo>, rent: Rent) -> Result<
    Seq<EffectView>,
    ProgramError,
> {
    spec_create_pool_at(program_id, accounts, rent, spec_find_address(pool_seeds(), program_id))
}

/// Creates the pool, without assets, where its account lies at the address
/// `found` for it.
pub fn create_pool_at(
    program_id: &Address,
    accounts: &[AccountInfo],
    rent: &Rent,
    found: Option<(Address, u8)>,
) -> (r: Result<Vec<Effect>, ProgramError>)
    ensures
        answers(r, spec_create_pool_at(*program_id, accounts@, *rent, found)),
{
    if accounts.len() < 3 {
        return Err(ProgramError::NotEnoughAccountKeys);
    }
    let pool_key = &accounts[0].key;
    let bump = match bump_of(found, pool_key) {
        Some(bump) => bump,
        None => {
            return Err(ProgramError::InvalidSeeds);
        },
    };
    let pool_rent = match rent.minimum_balance(LiquidityPool::SPACE) {
        Some(lamports) => lamports,
        None => {
            return Err(ProgramError::ArithmeticOverflow);
        },
    };
    let create = crate::system::create_account(
        &accounts[1].key,
        pool_key,
        pool_rent,
        LiquidityPool::SPACE as u64,
        program_id,
    );
    let pool = LiquidityPool { assets: Vec::new(), bump };
    let mut effects: Vec<Effect> = Vec::new();
    effects.push(Effect::invoke_signed(create, vec![1, 0, 2], pool_seed_list(Some(bump))));
    effects.push(Effect::Write { account: 0, data: pool.pack() });
    proof {
        let expected = spec_create_pool_at(*program_id, accounts@, *rent, found);
        assert(pool@ == LiquidityPoolView { assets: Seq::empty(), bump });
        assert(views(effects@) =~= expected->Ok_0);
    }
    Ok(effects)
}

/// Creates the pool: finds its address and creates it there.
pub fn process_create_pool(program_id: &Address, accounts: &[AccountInfo], rent: &Rent) -> (r: Result<
    Vec<Effect>,
    ProgramError,
>)
    ensures
        answers(r, spec_process_create_pool(*program_id, accounts@, *rent)),
{
    let found = find_address(&pool_seed_list(None), program_id);
    create_pool_at(program_id, accounts, rent, found)
}

/// The effects that grow the pool's account by one asset: the payer pays
/// what the longer account must hold beyond what it holds, and the account
/// grows by the 32 bytes of a mint.
pub open spec fn growth_effects(accounts: Seq<AccountInfo>, rent: Rent) -> Seq<EffectView> {
    let new_len = (accounts[0].data@.len() + 32) as usize;
    seq![
        invoke(
            spec_transfer(
                accounts[4].key,
                accounts[0].key,
                (rent.spec_minimum_balance(new_len)->0 - accounts[0].lamports) as u64,
            ),
            seq![4usize, 0usize],
        ),
        EffectView::Resize { account: 0, len: new_len },
    ]
}

/// Why the pool's account cannot grow by one asset, if it cannot: the longer
/// account would exceed what an account may hold (`InvalidRealloc`), or the
/// account already holds more than the longer account must
/// (`ArithmeticOverflow`).
pub open spec fn growth_rejection(accounts: Seq<AccountInfo>, rent: Rent) -> Option<ProgramError> {
    let new_len = accounts[0].data@.len() + 32;
    if new_len > usize::MAX || rent.spec_minimum_balance(new_len as usize) is None {
        Some(ProgramError::InvalidRealloc)
    } else if rent.spec_minimum_balance(new_len as usize)->0 < accounts[0].lamports {
        Some(ProgramError::ArithmeticOverflow)
    } else {
        None
    }
}

/// What a funding answers, given the addresses `derived` for it.
///
/// The accounts are, in order: the pool, the mint of the asset, the pool's
/// and the payer's token account for it, the payer, the system program, the
/// token program and the associated-token-account program.
pub open spec fn spec_fund_pool_at(
    accounts: Seq<AccountInfo>,
    amount: u64,
    rent: Rent,
    derived: FundAddresses,
) -> Result<Seq<EffectView>, ProgramError> {
    if accounts.len() < 8 {
        Err(ProgramError::NotEnoughAccountKeys)
    } else if derived.pool != Some(accounts[0].key) {
        Err(ProgramError::InvalidSeeds)
    } else if derived.pool_ata != Some(accounts[2].key) {
        Err(ProgramError::InvalidSeeds)
    } else if derived.payer_ata != Some(accounts[3].key) {
        Err(ProgramError::InvalidSeeds)
    } else if derived.created_ata is None {
        Err(ProgramError::InvalidSeeds)
    } else {
        match LiquidityPool::spec_unpack(accounts[0].data@) {
            Err(e) => Err(e),
            Ok(pool) => {
                let known = pool.assets.contains(accounts[1].key);
                if !known && growth_rejection(accounts, rent) is Some {
                    Err(growth_rejection(accounts, rent)->0)
                } else {
                    match spec_unpack_mint(accounts[1].data@) {
                        Err(e) => Err(e),
                        Ok(mint) => if accounts[6].key != crate::token::token_program() {
                            Err(ProgramError::IncorrectProgramId)
                        } else {
                            Ok(
                                seq![
                                    invoke(
                                        spec_create_associated(
                                            accounts[4].key,
                                            derived.created_ata->0,
                                            accounts[0].key,
                                            accounts[1].key,
                                            accounts[6].key,
                                            1,
                                        ),
                                        seq![4usize, 0usize, 1usize, 6usize],
                                    ),
                                ] + (if known {
                                    Seq::empty()
                                } else {
                                    growth_effects(accounts, rent)
                                }) + seq![
                                    invoke(
                                        spec_transfer_checked(
                                            accounts[6].key,
                                            accounts[3].key,
                                            accounts[1].key,
                                            accounts[2].key,
                                            accounts[4].key,
                                            amount,
                                            mint.decimals,
                                        ),
                                        seq![6usize, 3usize, 1usize, 2usize, 4usize],
                                    ),
                                ],
                            )
                        },
                    }
                }
            },
        }
    }
}

/// What the program `program_id` derives for the accounts of a funding.
pub open spec fn spec_fund_addresses(program_id: Address, accounts: Seq<AccountInfo>) -> FundAddresses {
    FundAddresses {
        pool: address_of_found(spec_find_address(pool_seeds(), program_id)),
        pool_ata: spec_associated_token_address(accounts[0].key, accounts[1].key),
        payer_ata: spec_associated_token_address(accounts[4].key, accounts[1].key),
        created_ata: spec_associated_token_address_with_program_id(
            accounts[0].key,
            accounts[1].key,
            accounts[6].key,
        ),
    }
}

/// What `process_fund_pool` answers: what the funding answers, given the
/// addresses that the program derives.
pub open spec fn spec_process_fund_pool(
    program_id: Address,
    accounts: Seq<AccountInfo>,
    amount: u64,
    rent: Rent,
) -> Result<Seq<EffectView>, ProgramError> {
    if accounts.len() < 8 {
        Err(ProgramError::NotEnoughAccountKeys)
    } else {
        spec_fund_pool_at(accounts, amount, rent, spec_fund_addresses(program_id, accounts))
    }
}

/// Funds the pool with `amount` of an asset, where the accounts lie at the
/// addresses `derived`: creates the pool's token account for the asset where
/// it is missing, grows the pool's account by the asset where it is new to
/// the pool, and moves the amount from the payer's token account to the
/// pool's.
pub fn fund_pool_at(accounts: &[AccountInfo], amount: u64, rent: &Rent, derived: &FundAddresses) -> (r:
    Result<Vec<Effect>, ProgramError>)
    ensures
        answers(r, spec_fund_pool_at(accounts@, amount, *rent, *derived)),
{
    if accounts.len() < 8 {
        return Err(ProgramError::NotEnoughAccountKeys);
    }
    let pool_key = &accounts[0].key;
    let mint = &accounts[1].key;
    let pool_ata = &accounts[2].key;
    let payer_ata = &accounts[3].key;
    let payer = &accounts[4].key;
    let token_program = &accounts[6].key;
    if !is_address(derived.pool, pool_key) {
        return Err(ProgramError::InvalidSeeds);
    }
    if !is_address(derived.pool_ata, pool_ata) {
        return Err(ProgramError::InvalidSeeds);
    }
    if !is_address(derived.payer_ata, payer_ata) {
        return Err(ProgramError::InvalidSeeds);
    }
    let created_ata = match derived.created_ata {
        Some(address) => address,
        None => {
            return Err(ProgramError::InvalidSeeds);
        },
    };
    let create_ata = create_associated_token_account(
        payer,
        &created_ata,
        pool_key,
        mint,
        token_program,
        true,
    );
    let mut effects: Vec<Effect> = Vec::new();
    effects.push(Effect::invoke(create_ata, vec![4, 0, 1, 6]));
    let pool = match LiquidityPool::unpack(accounts[0].data.as_slice()) {
        Ok(pool) => pool,
        Err(e) => {
            return Err(e);
        },
    };
    let known = pool.contains(mint);
    if !known {
        let len = accounts[0].data.len();
        if len > usize::MAX - 32 {
            return Err(ProgramError::InvalidRealloc);
        }
        let new_len = len + 32;
        let required = match rent.minimum_balance(new_len) {
            Some(lamports) => lamports,
            None => {
                return Err(ProgramError::InvalidRealloc);
            },
        };
        if required < accounts[0].lamports {
            return Err(ProgramError::ArithmeticOverflow);
        }
        let pay = crate::system::transfer(payer, pool_key, required - accounts[0].lamports);
        effects.push(Effect::invoke(pay, vec![4, 0]));
        effects.push(Effect::Resize { account: 0, len: new_len });
    }
    let mint_data = match unpack_mint(accounts[1].data.as_slice()) {
        Ok(mint) => mint,
        Err(e) => {
            return Err(e);
        },
    };
    let fund = match transfer_checked(
        token_program,
        payer_ata,
        mint,
        pool_ata,
        payer,
        amount,
        mint_data.decimals,
    ) {
        Ok(instruction) => instruction,
        Err(e) => {
            return Err(e);
        },
    };
    effects.push(Effect::invoke(fund, vec![6, 3, 1, 2, 4]));
    proof {
        let expected = spec_fund_pool_at(accounts@, amount, *rent, *derived);
        assert(expected is Ok);
        assert(views(effects@) =~= expected->Ok_0);
    }
    Ok(effects)
}

/// Funds the pool: derives the addresses of the accounts and funds the pool
/// at them.
pub fn process_fund_pool(program_id: &Address, accounts: &[AccountInfo], amount: u64, rent: &Rent) -> (r:
    Result<Vec<Effect>, ProgramError>)
    ensures
        answers(r, spec_process_fund_pool(*program_id, accounts@, amount, *rent)),
{
    if accounts.len() < 8 {
        return Err(ProgramError::NotEnoughAccountKeys);
    }
    let pool = match find_address(&pool_seed_list(None), program_id) {
        Some((address, _)) => Some(address),
        None => None,
    };
    let derived = FundAddresses {
        pool,
        pool_ata: get_associated_token_address(&accounts[0].key, &accounts[1].key),
        payer_ata: get_associated_token_address(&accounts[4].key, &accounts[1].key),
        created_ata: get_associated_token_address_with_program_id(
            &accounts[0].key,
            &accounts[1].key,
            &accounts[6].key,
        ),
    };
    fund_pool_at(accounts, amount, rent, &derived)
}

/// What a swap answers, given the addresses `derived` for it: nothing to do
/// for a swap of a positive amount between two different assets whose four
/// token accounts lie at the derived addresses.
///
/// The accounts are, in order: the pool, the mint to receive, the pool's
/// and the payer's token account for it, the mint to pay, the pool's and the
/// payer's token account for it, the payer, the token program and the
/// associated-token-account program.
pub open spec fn spec_swap_at(accounts: Seq<AccountInfo>, amount_to_swap: u64, derived: SwapAddresses) -> Result<
    Seq<EffectView>,
    ProgramError,
> {
    if accounts.len() < 10 {
        Err(ProgramError::NotEnoughAccountKeys)
    } else if derived.pool_receive != Some(accounts[2].key) {
        Err(ProgramError::InvalidSeeds)
    } else if derived.payer_receive != Some(accounts[3].key) {
        Err(ProgramError::InvalidSeeds)
    } else if derived.pool_pay != Some(accounts[5].key) {
        Err(ProgramError::InvalidSeeds)
    } else if derived.payer_pay != Some(accounts[6].key) {
        Err(ProgramError::InvalidSeeds)
    } else if amount_to_swap == 0 {
        Err(SwapProgramError::InvalidSwapZeroAmount.to_program_error())
    } else if accounts[1].key == accounts[4].key {
        Err(SwapProgramError::InvalidSwapMatchingAssets.to_program_error())
    } else {
        Ok(Seq::empty())
    }
}

/// What the program derives for the accounts of a swap.
pub open spec fn spec_swap_addresses(accounts: Seq<AccountInfo>) -> SwapAddresses {
    SwapAddresses {
        pool_receive: spec_associated_token_address(accounts[0].key, accounts[1].key),
        payer_receive: spec_associated_token_address(accounts[7].key, accounts[1].key),
        pool_pay: spec_associated_token_address(accounts[0].key, accounts[4].key),
        payer_pay: spec_associated_token_address(accounts[7].key, accounts[4].key),
    }
}

/// What `process_swap` answers: what the swap answers, given the addresses
/// that the program derives.
pub open spec fn spec_process_swap(accounts: Seq<AccountInfo>, amount_to_swap: u64) -> Result<
    Seq<EffectView>,
    ProgramError,
> {
    if accounts.len() < 10 {
        Err(ProgramError::NotEnoughAccountKeys)
    } else {
        spec_swap_at(accounts, amount_to_swap, spec_swap_addresses(accounts))
    }
}

/// Validates a swap whose token accounts lie at the addresses `derived`. A
/// valid swap moves nothing yet.
pub fn swap_at(accounts: &[AccountInfo], amount_to_swap: u64, derived: &SwapAddresses) -> (r: Result<
    Vec<Effect>,
    ProgramError,
>)
    ensures
        answers(r, spec_swap_at(accounts@, amount_to_swap, *derived)),
{
    if accounts.len() < 10 {
        return Err(ProgramError::NotEnoughAccountKeys);
    }
    if !is_address(derived.pool_receive, &accounts[2].key) {
        return Err(ProgramError::InvalidSeeds);
    }
    if !is_address(derived.payer_receive, &accounts[3].key) {
        return Err(ProgramError::InvalidSeeds);
    }
    if !is_address(derived.pool_pay, &accounts[5].key) {
        return Err(ProgramError::InvalidSeeds);
    }
    if !is_address(derived.payer_pay, &accounts[6].key) {
        return Err(ProgramError::InvalidSeeds);
    }
    if amount_to_swap == 0 {
        return Err(ProgramError::from(SwapProgramError::InvalidSwapZeroAmount));
    }
    if accounts[1].key == accounts[4].key {
        return Err(ProgramError::from(SwapProgramError::InvalidSwapMatchingAssets));
    }
    let effects: Vec<Effect> = Vec::new();
    assert(views(effects@) =~= Seq::<EffectView>::empty());
    Ok(effects)
}

/// Validates a swap: derives the addresses of the token accounts and holds
/// the accounts against them.
pub fn process_swap(program_id: &Address, accounts: &[AccountInfo], amount_to_swap: u64) -> (r: Result<
    Vec<Effect>,
    ProgramError,
>)
    ensures
        answers(r, spec_process_swap(accounts@, amount_to_swap)),
{
    if accounts.len() < 10 {
        return Err(ProgramError::NotEnoughAccountKeys);
    }
    let pool_key = &accounts[0].key;
    let payer = &accounts[7].key;
    let derived = SwapAddresses {
        pool_receive: get_associated_token_address(pool_key, &accounts[1].key),
        payer_receive: get_associated_token_address(payer, &accounts[1].key),
        pool_pay: get_associated_token_address(pool_key, &accounts[4].key),
        payer_pay: get_associated_token_address(payer, &accounts[4].key),
    };
    swap_at(accounts, amount_to_swap, &derived)
}

/// What `process_instruction` answers: what the processor of the encoded
/// instruction answers, or `InvalidInstructionData` where `data` encodes
/// none.
pub open spec fn spec_process_instruction(
    program_id: Address,
    accounts: Seq<AccountInfo>,
    data: Seq<u8>,
    rent: Rent,
) -> Result<Seq<EffectView>, ProgramError> {
    match SwapInstruction::spec_unpack(data) {
        Err(e) => Err(e),
        Ok(SwapInstruction::CreatePool) => spec_process_create_pool(program_id, accounts, rent),
        Ok(SwapInstruction::FundPool { amount }) => spec_process_fund_pool(
            program_id,
            accounts,
            amount,
            rent,
        ),
        Ok(SwapInstruction::Swap { amount_to_swap }) => spec_process_swap(accounts, amount_to_swap),
    }
}

/// Decodes an instruction and hands it to its processor.
pub fn process_instruction(
    program_id: &Address,
    accounts: &[AccountInfo],
    instruction_data: &[u8],
    rent: &Rent,
) -> (r: Result<Vec<Effect>, ProgramError>)
    ensures
        answers(r, spec_process_instruction(*program_id, accounts@, instruction_data@, *rent)),
{
    let instruction = match SwapInstruction::unpack(instruction_data) {
        Ok(instruction) => instruction,
        Err(e) => {
            return Err(e);
        },
    };
    match instruction {
        SwapInstruction::CreatePool => process_create_pool(program_id, accounts, rent),
        SwapInstruction::FundPool { amount } => process_fund_pool(program_id, accounts, amount, rent),
        SwapInstruction::Swap { amount_to_swap } => process_swap(program_id, accounts, amount_to_swap),
    }
}

} // verus!
