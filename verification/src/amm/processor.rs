//! The processors of the pool's four instructions.
//!
//! Each processor recomputes the addresses of the pool, of its vaults and of
//! its liquidity mint from their seeds and compares them with the accounts
//! that came with the instruction; it never trusts a supplied address. What
//! an instruction does once the addresses are derived is a function of plain
//! values: the accounts, the stored pool and the derived addresses.

use crate::account::{AccountInfo, Rent};
use crate::address::{
    address_of_found, bump_at, bump_of, derive_address, find_address, is_address, lex_less,
    seed_views, seeds_within_limits, spec_derive_address, spec_find_address, Address,
};
use crate::amm::error::AmmError;
use crate::amm::instruction::AmmInstruction;
use crate::amm::math::{
    deposit_liquidity, deposit_liquidity_defined, deposit_take, initial_liquidity,
    initial_lp_amount, liquidity_minted, liquidity_take, swap_amount_out, swap_defined, swap_output,
    withdraw_amount, withdraw_share,
};
use crate::amm::state::LiquidityPool;
use crate::associated_token::{
    create_associated_token_account, get_associated_token_address, spec_associated_token_address,
    spec_create_associated,
};
use crate::codec::put_bytes;
use crate::effect::{answers, invoke, invoke_signed, views, Effect, EffectView};
use crate::program_error::ProgramError;
use crate::token::{spec_transfer_checked, spec_unpack_mint, transfer_checked, unpack_mint};
use vstd::bytes::{spec_u16_to_le_bytes, u16_to_le_bytes};
use vstd::prelude::*;

verus! {

/// The first seed of a pool's address: the word "pool".
pub const POOL_SEED: [u8; 4] = [112, 111, 111, 108];

/// The first seed of the address of a pool's liquidity mint: the word
/// "lp_mint".
pub const LP_MINT_SEED: [u8; 7] = [108, 112, 95, 109, 105, 110, 116];

/// The seeds of the pool for two mints and a fee: the word "pool", the two
/// mints in ascending order, and the fee as two little-endian bytes.
pub open spec fn pool_seeds(mint_a: Address, mint_b: Address, fee_bps: u16) -> Seq<Seq<u8>> {
    if lex_less(mint_a@, mint_b@) {
        seq![POOL_SEED@, mint_a@, mint_b@, spec_u16_to_le_bytes(fee_bps)]
    } else {
        seq![POOL_SEED@, mint_b@, mint_a@, spec_u16_to_le_bytes(fee_bps)]
    }
}

/// The seeds with which the program signs for a pool: its seeds and its bump
/// seed.
pub open spec fn pool_signer_seeds(mint_a: Address, mint_b: Address, fee_bps: u16, bump: u8) -> Seq<
    Seq<u8>,
> {
    pool_seeds(mint_a, mint_b, fee_bps).push(seq![bump])
}

/// The seeds of the liquidity mint of the pool at `pool`.
pub open spec fn lp_mint_seeds(pool: Address) -> Seq<Seq<u8>> {
    seq![LP_MINT_SEED@, pool@]
}

/// The seeds of a pool, with its bump seed where one is given.
fn pool_seed_list(mint_a: &Address, mint_b: &Address, fee_bps: u16, bump: Option<u8>) -> (seeds: Vec<
    Vec<u8>,
>)
    ensures
        bump is None ==> seed_views(seeds@) == pool_seeds(*mint_a, *mint_b, fee_bps),
        bump matches Some(b) ==> seed_views(seeds@) == pool_signer_seeds(*mint_a, *mint_b, fee_bps, b),
        seeds_within_limits(seed_views(seeds@)),
{
    let mut word: Vec<u8> = Vec::new();
    put_bytes(&mut word, POOL_SEED.as_slice());
    let mut seeds: Vec<Vec<u8>> = Vec::new();
    seeds.push(word);
    if mint_a.precedes(mint_b) {
        seeds.push(mint_a.to_vec());
        seeds.push(mint_b.to_vec());
    } else {
        seeds.push(mint_b.to_vec());
        seeds.push(mint_a.to_vec());
    }
    seeds.push(u16_to_le_bytes(fee_bps));
    proof {
        vstd::bytes::lemma_auto_spec_u16_to_from_le_bytes();
        assert(seed_views(seeds@) =~= pool_seeds(*mint_a, *mint_b, fee_bps));
    }
    match bump {
        Some(b) => {
            let mut last: Vec<u8> = Vec::new();
            last.push(b);
            seeds.push(last);
            assert(seed_views(seeds@) =~= pool_signer_seeds(*mint_a, *mint_b, fee_bps, b));
        },
        None => {},
    }
    seeds
}

/// The seeds of a pool's liquidity mint, with its bump seed where one is
/// given.
fn lp_mint_seed_list(pool: &Address, bump: Option<u8>) -> (seeds: Vec<Vec<u8>>)
    ensures
        bump is None ==> seed_views(seeds@) == lp_mint_seeds(*pool),
        bump matches Some(b) ==> seed_views(seeds@) == lp_mint_seeds(*pool).push(seq![b]),
{
    let mut word: Vec<u8> = Vec::new();
    put_bytes(&mut word, LP_MINT_SEED.as_slice());
    let mut seeds: Vec<Vec<u8>> = Vec::new();
    seeds.push(word);
    seeds.push(pool.to_vec());
    assert(seed_views(seeds@) =~= lp_mint_seeds(*pool));
    match bump {
        Some(b) => {
            let mut last: Vec<u8> = Vec::new();
            last.push(b);
            seeds.push(last);
            assert(seed_views(seeds@) =~= lp_mint_seeds(*pool).push(seq![b]));
        },
        None => {},
    }
    seeds
}

/// The addresses that the program derives for an instruction on a stored
/// pool: the pool's own, from the stored mints, fee and bump seed; its
/// vaults, as the associated token accounts of the pool's account for the
/// two mint accounts; and its liquidity mint. `None` where no address can be
/// derived.
#[derive(Clone, Copy, Debug)]
pub struct PoolAddresses {
    pub pool: Option<Address>,
    pub vault_a: Option<Address>,
    pub vault_b: Option<Address>,
    pub lp_mint: Option<Address>,
}

/// The addresses that the program derives for a swap: the pool's own, from
/// the two mint accounts, the stored fee and the stored bump seed; and its
/// vaults for the mint paid in and the mint paid out.
#[derive(Clone, Copy, Debug)]
pub struct SwapAddresses {
    pub pool: Option<Address>,
    pub vault_in: Option<Address>,
    pub vault_out: Option<Address>,
}

/// The addresses that the program derives for the creation of a pool: the
/// pool's and its liquidity mint's, each with the bump seed found for it;
/// the pool's vaults; and the user's token account for liquidity.
#[derive(Clone, Copy, Debug)]
pub struct NewPoolAddresses {
    pub pool: Option<(Address, u8)>,
    pub vault_a: Option<Address>,
    pub vault_b: Option<Address>,
    pub lp_mint: Option<(Address, u8)>,
    pub user_lp: Option<Address>,
}

/// The address, where the derivation gave one.
pub open spec fn derived(r: Result<Address, ProgramError>) -> Option<Address> {
    match r {
        Ok(address) => Some(address),
        Err(_) => None,
    }
}

/// What the program `program_id` derives for the accounts of an instruction
/// on the stored pool `pool`.
pub open spec fn spec_pool_addresses(program_id: Address, accounts: Seq<AccountInfo>, pool: LiquidityPool) -> PoolAddresses {
    PoolAddresses {
        pool: derived(
            spec_derive_address(
                pool_signer_seeds(pool.mint_a, pool.mint_b, pool.fee_bps, pool.bump),
                program_id,
            ),
        ),
        vault_a: spec_associated_token_address(accounts[1].key, accounts[2].key),
        vault_b: spec_associated_token_address(accounts[1].key, accounts[3].key),
        lp_mint: address_of_found(spec_find_address(lp_mint_seeds(accounts[1].key), program_id)),
    }
}

/// What the program `program_id` derives for the accounts of a swap in the
/// stored pool `pool`.
pub open spec fn spec_swap_addresses(program_id: Address, accounts: Seq<AccountInfo>, pool: LiquidityPool) -> SwapAddresses {
    SwapAddresses {
        pool: derived(
            spec_derive_address(
                pool_signer_seeds(accounts[2].key, accounts[3].key, pool.fee_bps, pool.bump),
                program_id,
            ),
        ),
        vault_in: spec_associated_token_address(accounts[1].key, accounts[2].key),
        vault_out: spec_associated_token_address(accounts[1].key, accounts[3].key),
    }
}

/// What the program `program_id` derives for the accounts of the creation
/// of a pool with the fee `fee_bps`.
pub open spec fn spec_new_pool_addresses(program_id: Address, accounts: Seq<AccountInfo>, fee_bps: u16) -> NewPoolAddresses {
    NewPoolAddresses {
        pool: spec_find_address(pool_seeds(accounts[2].key, accounts[3].key, fee_bps), program_id),
        vault_a: spec_associated_token_address(accounts[1].key, accounts[2].key),
        vault_b: spec_associated_token_address(accounts[1].key, accounts[3].key),
        lp_mint: spec_find_address(lp_mint_seeds(accounts[1].key), program_id),
        user_lp: spec_associated_token_address(accounts[0].key, accounts[6].key),
    }
}

/// Derives the addresses for an instruction on a stored pool.
pub fn derive_pool_addresses(program_id: &Address, accounts: &[AccountInfo], pool: &LiquidityPool) -> (r:
    PoolAddresses)
    requires
        accounts@.len() >= 4,
    ensures
        r == spec_pool_addresses(*program_id, accounts@, *pool),
{
    let pool_key = &accounts[1].key;
    let own = match derive_address(
        &pool_seed_list(&pool.mint_a, &pool.mint_b, pool.fee_bps, Some(pool.bump)),
        program_id,
    ) {
        Ok(address) => Some(address),
        Err(_) => None,
    };
    let lp_mint = match find_address(&lp_mint_seed_list(pool_key, None), program_id) {
        Some((address, _)) => Some(address),
        None => None,
    };
    PoolAddresses {
        pool: own,
        vault_a: get_associated_token_address(pool_key, &accounts[2].key),
        vault_b: get_associated_token_address(pool_key, &accounts[3].key),
        lp_mint,
    }
}

/// Derives the addresses for a swap.
pub fn derive_swap_addresses(program_id: &Address, accounts: &[AccountInfo], pool: &LiquidityPool) -> (r:
    SwapAddresses)
    requires
        accounts@.len() >= 4,
    ensures
        r == spec_swap_addresses(*program_id, accounts@, *pool),
{
    let pool_key = &accounts[1].key;
    let own = match derive_address(
        &pool_seed_list(&accounts[2].key, &accounts[3].key, pool.fee_bps, Some(pool.bump)),
        program_id,
    ) {
        Ok(address) => Some(address),
        Err(_) => None,
    };
    SwapAddresses {
        pool: own,
        vault_in: get_associated_token_address(pool_key, &accounts[2].key),
        vault_out: get_associated_token_address(pool_key, &accounts[3].key),
    }
}

/// Derives the addresses for the creation of a pool. The pool's seeds with
/// the bump seed found derive the pool's address found.
pub fn derive_new_pool_addresses(program_id: &Address, accounts: &[AccountInfo], fee_bps: u16) -> (r:
    NewPoolAddresses)
    requires
        accounts@.len() >= 7,
    ensures
        r == spec_new_pool_addresses(*program_id, accounts@, fee_bps),
        r.pool matches Some((address, bump)) ==> spec_derive_address(
            pool_signer_seeds(accounts@[2].key, accounts@[3].key, fee_bps, bump),
            *program_id,
        ) == Ok::<Address, ProgramError>(address),
{
    let pool_key = &accounts[1].key;
    NewPoolAddresses {
        pool: find_address(&pool_seed_list(&accounts[2].key, &accounts[3].key, fee_bps, None), program_id),
        vault_a: get_associated_token_address(pool_key, &accounts[2].key),
        vault_b: get_associated_token_address(pool_key, &accounts[3].key),
        lp_mint: find_address(&lp_mint_seed_list(pool_key, None), program_id),
        user_lp: get_associated_token_address(&accounts[0].key, &accounts[6].key),
    }
}

/// The pool after a swap of `amount_in` for `amount_out`, from the first
/// mint to the second (`a_to_b`) or the other way.
pub open spec fn pool_after_swap(pool: LiquidityPool, a_to_b: bool, amount_in: u64, amount_out: u64) -> LiquidityPool {
    if a_to_b {
        LiquidityPool {
            reserve_a: (pool.reserve_a + amount_in) as u64,
            reserve_b: (pool.reserve_b - amount_out) as u64,
            ..pool
        }
    } else {
        LiquidityPool {
            reserve_a: (pool.reserve_a - amount_out) as u64,
            reserve_b: (pool.reserve_b + amount_in) as u64,
            ..pool
        }
    }
}

/// The pool after a withdrawal of `a_out` and `b_out`.
pub open spec fn pool_after_withdrawal(pool: LiquidityPool, a_out: u64, b_out: u64) -> LiquidityPool {
    LiquidityPool {
        reserve_a: (pool.reserve_a - a_out) as u64,
        reserve_b: (pool.reserve_b - b_out) as u64,
        ..pool
    }
}

/// The pool after a deposit of `take_a` and `take_b`.
pub open spec fn pool_after_deposit(pool: LiquidityPool, take_a: u64, take_b: u64) -> LiquidityPool {
    LiquidityPool {
        reserve_a: (pool.reserve_a + take_a) as u64,
        reserve_b: (pool.reserve_b + take_b) as u64,
        ..pool
    }
}

/// The effect that stores `pool` in the account at position 1, where every
/// instruction has the pool's account.
pub open spec fn store_pool(pool: LiquidityPool) -> EffectView {
    EffectView::Write { account: 1, data: pool.spec_pack() }
}

/// What a swap pays out of the pool `pool` for `amount_in` of the mint
/// `mint_in`.
pub open spec fn swap_quote(pool: LiquidityPool, mint_in: Address, amount_in: u64) -> int {
    if mint_in == pool.mint_a {
        swap_output(pool.reserve_a as nat, pool.reserve_b as nat, pool.fee_bps as nat, amount_in as nat)
    } else {
        swap_output(pool.reserve_b as nat, pool.reserve_a as nat, pool.fee_bps as nat, amount_in as nat)
    }
}

/// Whether the output of a swap into `pool` can be computed.
pub open spec fn swap_computable(pool: LiquidityPool, mint_in: Address, amount_in: u64) -> bool {
    if mint_in == pool.mint_a {
        swap_defined(pool.reserve_a as nat, pool.reserve_b as nat, pool.fee_bps as nat, amount_in as nat)
    } else {
        swap_defined(pool.reserve_b as nat, pool.reserve_a as nat, pool.fee_bps as nat, amount_in as nat)
    }
}

/// The reserve that a swap of the mint `mint_in` pays into.
pub open spec fn reserve_in(pool: LiquidityPool, mint_in: Address) -> u64 {
    if mint_in == pool.mint_a {
        pool.reserve_a
    } else {
        pool.reserve_b
    }
}

/// What a swap in the stored pool `pool` answers, given the addresses
/// `derived` for it.
///
/// The accounts are, in order: the user, the pool, the mint paid in, the
/// mint paid out, the pool's vault of each, the user's token account of
/// each, the token program and the associated-token-account program.
pub open spec fn spec_swap_in_pool(
    accounts: Seq<AccountInfo>,
    pool: LiquidityPool,
    amount_in: u64,
    min_out: u64,
    derived: SwapAddresses,
) -> Result<Seq<EffectView>, ProgramError> {
    let mint_in = accounts[2].key;
    let mint_out = accounts[3].key;
    if accounts.len() < 10 {
        Err(ProgramError::NotEnoughAccountKeys)
    } else if !accounts[0].is_signer {
        Err(ProgramError::MissingRequiredSignature)
    } else if amount_in == 0 {
        Err(AmmError::ZeroSwapAmount.to_program_error())
    } else if derived.pool is None {
        Err(ProgramError::InvalidSeeds)
    } else if derived.pool != Some(accounts[1].key) {
        Err(AmmError::PoolAddressMismatch.to_program_error())
    } else if derived.vault_in != Some(accounts[4].key) {
        Err(AmmError::VaultAddressMismatch.to_program_error())
    } else if derived.vault_out != Some(accounts[5].key) {
        Err(AmmError::VaultAddressMismatch.to_program_error())
    } else if !swap_computable(pool, mint_in, amount_in) {
        Err(ProgramError::ArithmeticOverflow)
    } else if swap_quote(pool, mint_in, amount_in) < min_out {
        Err(AmmError::SlippageExceed.to_program_error())
    } else {
        let amount_out = swap_quote(pool, mint_in, amount_in) as u64;
        match spec_unpack_mint(accounts[2].data@) {
            Err(e) => Err(e),
            Ok(paid_in) => if accounts[8].key != crate::token::token_program() {
                Err(ProgramError::IncorrectProgramId)
            } else {
                match spec_unpack_mint(accounts[3].data@) {
                    Err(e) => Err(e),
                    Ok(paid_out) => if reserve_in(pool, mint_in) + amount_in > u64::MAX {
                        Err(ProgramError::ArithmeticOverflow)
                    } else {
                        Ok(
                            seq![
                                invoke(
                                    spec_transfer_checked(
                                        accounts[8].key,
                                        accounts[6].key,
                                        mint_in,
                                        accounts[4].key,
                                        accounts[0].key,
                                        amount_in,
                                        paid_in.decimals,
                                    ),
                                    seq![6usize, 2usize, 4usize, 0usize],
                                ),
                                invoke_signed(
                                    spec_transfer_checked(
                                        accounts[8].key,
                                        accounts[5].key,
                                        mint_out,
                                        accounts[7].key,
                                        accounts[1].key,
                                        amount_out,
                                        paid_out.decimals,
                                    ),
                                    seq![5usize, 3usize, 7usize, 1usize],
                                    pool_signer_seeds(mint_in, mint_out, pool.fee_bps, pool.bump),
                                ),
                                store_pool(
                                    pool_after_swap(pool, mint_in == pool.mint_a, amount_in, amount_out),
                                ),
                            ],
                        )
                    },
                }
            },
        }
    }
}

/// What `process_swap` answers: what the swap answers in the pool that the
/// pool's account stores, given the addresses that the program derives.
pub open spec fn spec_process_swap(
    program_id: Address,
    accounts: Seq<AccountInfo>,
    amount_in: u64,
    min_out: u64,
) -> Result<Seq<EffectView>, ProgramError> {
    if accounts.len() < 10 {
        Err(ProgramError::NotEnoughAccountKeys)
    } else if !accounts[0].is_signer {
        Err(ProgramError::MissingRequiredSignature)
    } else if amount_in == 0 {
        Err(AmmError::ZeroSwapAmount.to_program_error())
    } else {
        match LiquidityPool::spec_unpack(accounts[1].data@) {
            Err(e) => Err(e),
            Ok(pool) => spec_swap_in_pool(
                accounts,
                pool,
                amount_in,
                min_out,
                spec_swap_addresses(program_id, accounts, pool),
            ),
        }
    }
}

/// Swaps `amount_in` of one mint of the stored pool `pool` for the other
/// mint, at the constant-product price after the fee, provided the swap pays
/// at least `min_out` and the accounts lie at the addresses `derived`.
pub fn swap_in_pool(
    accounts: &[AccountInfo],
    pool: &LiquidityPool,
    amount_in: u64,
    min_out: u64,
    derived: &SwapAddresses,
) -> (r: Result<Vec<Effect>, ProgramError>)
    ensures
        answers(r, spec_swap_in_pool(accounts@, *pool, amount_in, min_out, *derived)),
{
    if accounts.len() < 10 {
        return Err(ProgramError::NotEnoughAccountKeys);
    }
    let user = &accounts[0];
    let pool_account = &accounts[1];
    let mint_in = &accounts[2];
    let mint_out = &accounts[3];
    let vault_in = &accounts[4];
    let vault_out = &accounts[5];
    let user_ata_in = &accounts[6];
    let user_ata_out = &accounts[7];
    let token_program = &accounts[8];
    if !user.is_signer {
        return Err(ProgramError::MissingRequiredSignature);
    }
    if amount_in == 0 {
        return Err(ProgramError::from(AmmError::ZeroSwapAmount));
    }
    if derived.pool.is_none() {
        return Err(ProgramError::InvalidSeeds);
    }
    if !is_address(derived.pool, &pool_account.key) {
        return Err(ProgramError::from(AmmError::PoolAddressMismatch));
    }
    if !is_address(derived.vault_in, &vault_in.key) {
        return Err(ProgramError::from(AmmError::VaultAddressMismatch));
    }
    if !is_address(derived.vault_out, &vault_out.key) {
        return Err(ProgramError::from(AmmError::VaultAddressMismatch));
    }
    let a_to_b = mint_in.key == pool.mint_a;
    let (reserve_in, reserve_out) = if a_to_b {
        (pool.reserve_a, pool.reserve_b)
    } else {
        (pool.reserve_b, pool.reserve_a)
    };
    let amount_out = match swap_amount_out(reserve_in, reserve_out, pool.fee_bps, amount_in) {
        Ok(amount_out) => amount_out,
        Err(e) => {
            return Err(e);
        },
    };
    if amount_out < min_out {
        return Err(ProgramError::from(AmmError::SlippageExceed));
    }
    let paid_in = match unpack_mint(mint_in.data.as_slice()) {
        Ok(mint) => mint,
        Err(e) => {
            return Err(e);
        },
    };
    let transfer_in = match transfer_checked(
        &token_program.key,
        &user_ata_in.key,
        &mint_in.key,
        &vault_in.key,
        &user.key,
        amount_in,
        paid_in.decimals,
    ) {
        Ok(instruction) => instruction,
        Err(e) => {
            return Err(e);
        },
    };
    let paid_out = match unpack_mint(mint_out.data.as_slice()) {
        Ok(mint) => mint,
        Err(e) => {
            return Err(e);
        },
    };
    let transfer_out = match transfer_checked(
        &token_program.key,
        &vault_out.key,
        &mint_out.key,
        &user_ata_out.key,
        &pool_account.key,
        amount_out,
        paid_out.decimals,
    ) {
        Ok(instruction) => instruction,
        Err(e) => {
            return Err(e);
        },
    };
    if amount_in > u64::MAX - reserve_in {
        return Err(ProgramError::ArithmeticOverflow);
    }
    let after = if a_to_b {
        LiquidityPool {
            reserve_a: pool.reserve_a + amount_in,
            reserve_b: pool.reserve_b - amount_out,
            ..*pool
        }
    } else {
        LiquidityPool {
            reserve_a: pool.reserve_a - amount_out,
            reserve_b: pool.reserve_b + amount_in,
            ..*pool
        }
    };
    assert(after == pool_after_swap(*pool, a_to_b, amount_in, amount_out));
    let signer = pool_seed_list(&mint_in.key, &mint_out.key, pool.fee_bps, Some(pool.bump));
    let mut effects: Vec<Effect> = Vec::new();
    effects.push(Effect::invoke(transfer_in, vec![6, 2, 4, 0]));
    effects.push(Effect::invoke_signed(transfer_out, vec![5, 3, 7, 1], signer));
    effects.push(Effect::Write { account: 1, data: after.pack() });
    proof {
        let expected = spec_swap_in_pool(accounts@, *pool, amount_in, min_out, *derived);
        assert(expected is Ok);
        assert(views(effects@) =~= expected->Ok_0);
    }
    Ok(effects)
}

/// Swaps `amount_in` of one mint of a pool for the other mint: reads the
/// pool from its account, derives its addresses and swaps in it.
pub fn process_swap(program_id: &Address, accounts: &[AccountInfo], amount_in: u64, min_out: u64) -> (r:
    Result<Vec<Effect>, ProgramError>)
    ensures
        answers(r, spec_process_swap(*program_id, accounts@, amount_in, min_out)),
{
    if accounts.len() < 10 {
        return Err(ProgramError::NotEnoughAccountKeys);
    }
    if !accounts[0].is_signer {
        return Err(ProgramError::MissingRequiredSignature);
    }
    if amount_in == 0 {
        return Err(ProgramError::from(AmmError::ZeroSwapAmount));
    }
    let pool = match LiquidityPool::unpack(accounts[1].data.as_slice()) {
        Ok(pool) => pool,
        Err(e) => {
            return Err(e);
        },
    };
    let derived = derive_swap_addresses(program_id, accounts, &pool);
    swap_in_pool(accounts, &pool, amount_in, min_out, &derived)
}

/// Why the accounts of an instruction are not those of the stored pool
/// `pool`, if they are not: the pool's account must lie at the address
/// derived for the pool, the two mints must be the stored ones, the vaults
/// at the addresses derived for them, and the liquidity mint at the address
/// derived for it.
///
/// The accounts are, in order: the user, the pool, the two mints, the two
/// vaults, the liquidity mint, the user's token accounts for liquidity and
/// for the two mints, and the token program.
pub open spec fn pool_accounts_rejection(
    accounts: Seq<AccountInfo>,
    pool: LiquidityPool,
    derived: PoolAddresses,
) -> Option<ProgramError> {
    if derived.pool is None {
        Some(ProgramError::InvalidSeeds)
    } else if derived.pool != Some(accounts[1].key) {
        Some(AmmError::PoolAddressMismatch.to_program_error())
    } else if accounts[2].key != pool.mint_a || accounts[3].key != pool.mint_b {
        Some(AmmError::MintAddressMismatch.to_program_error())
    } else if derived.vault_a != Some(accounts[4].key) {
        Some(AmmError::VaultAddressMismatch.to_program_error())
    } else if derived.vault_b != Some(accounts[5].key) {
        Some(AmmError::VaultAddressMismatch.to_program_error())
    } else if derived.lp_mint != Some(accounts[6].key) {
        Some(AmmError::LpMintAddressMismatch.to_program_error())
    } else {
        None
    }
}

/// Holds the accounts of an instruction against the stored pool and the
/// addresses derived for it.
fn check_pool_accounts(accounts: &[AccountInfo], pool: &LiquidityPool, derived: &PoolAddresses) -> (r:
    Result<(), ProgramError>)
    requires
        accounts@.len() >= 11,
    ensures
        r is Ok ==> pool_accounts_rejection(accounts@, *pool, *derived) is None,
        r matches Err(e) ==> pool_accounts_rejection(accounts@, *pool, *derived) == Some(e),
{
    if derived.pool.is_none() {
        return Err(ProgramError::InvalidSeeds);
    }
    if !is_address(derived.pool, &accounts[1].key) {
        return Err(ProgramError::from(AmmError::PoolAddressMismatch));
    }
    if accounts[2].key != pool.mint_a {
        return Err(ProgramError::from(AmmError::MintAddressMismatch));
    }
    if accounts[3].key != pool.mint_b {
        return Err(ProgramError::from(AmmError::MintAddressMismatch));
    }
    if !is_address(derived.vault_a, &accounts[4].key) {
        return Err(ProgramError::from(AmmError::VaultAddressMismatch));
    }
    if !is_address(derived.vault_b, &accounts[5].key) {
        return Err(ProgramError::from(AmmError::VaultAddressMismatch));
    }
    if !is_address(derived.lp_mint, &accounts[6].key) {
        return Err(ProgramError::from(AmmError::LpMintAddressMismatch));
    }
    Ok(())
}

/// What a withdrawal from the stored pool `pool` answers, given the
/// addresses `derived` for it.
pub open spec fn spec_withdraw_liquidity_in_pool(
    accounts: Seq<AccountInfo>,
    pool: LiquidityPool,
    amount_lp_in: u64,
    amount_a_min: u64,
    amount_b_min: u64,
    derived: PoolAddresses,
) -> Result<Seq<EffectView>, ProgramError> {
    if accounts.len() < 11 {
        Err(ProgramError::NotEnoughAccountKeys)
    } else if !accounts[0].is_signer {
        Err(ProgramError::MissingRequiredSignature)
    } else if amount_lp_in == 0 {
        Err(AmmError::ZeroLiquidityAmount.to_program_error())
    } else {
        match pool_accounts_rejection(accounts, pool, derived) {
            Some(e) => Err(e),
            None => match spec_unpack_mint(accounts[6].data@) {
                Err(e) => Err(e),
                Ok(liquidity) => spec_withdraw_from_pool(
                    accounts,
                    pool,
                    liquidity.supply,
                    amount_lp_in,
                    amount_a_min,
                    amount_b_min,
                ),
            },
        }
    }
}

/// What `process_withdraw_liquidity` answers: what the withdrawal answers
/// from the pool that the pool's account stores, given the addresses that
/// the program derives.
pub open spec fn spec_process_withdraw_liquidity(
    program_id: Address,
    accounts: Seq<AccountInfo>,
    amount_lp_in: u64,
    amount_a_min: u64,
    amount_b_min: u64,
) -> Result<Seq<EffectView>, ProgramError> {
    if accounts.len() < 11 {
        Err(ProgramError::NotEnoughAccountKeys)
    } else if !accounts[0].is_signer {
        Err(ProgramError::MissingRequiredSignature)
    } else if amount_lp_in == 0 {
        Err(AmmError::ZeroLiquidityAmount.to_program_error())
    } else {
        match LiquidityPool::spec_unpack(accounts[1].data@) {
            Err(e) => Err(e),
            Ok(pool) => spec_withdraw_liquidity_in_pool(
                accounts,
                pool,
                amount_lp_in,
                amount_a_min,
                amount_b_min,
                spec_pool_addresses(program_id, accounts, pool),
            ),
        }
    }
}

/// What a withdrawal from the stored pool `pool` answers, once the accounts
/// are known to be the pool's and `supply` is the supply of liquidity.
pub open spec fn spec_withdraw_from_pool(
    accounts: Seq<AccountInfo>,
    pool: LiquidityPool,
    supply: u64,
    amount_lp_in: u64,
    amount_a_min: u64,
    amount_b_min: u64,
) -> Result<Seq<EffectView>, ProgramError> {
    let a_out = withdraw_share(amount_lp_in as nat, pool.reserve_a as nat, supply as nat);
    let b_out = withdraw_share(amount_lp_in as nat, pool.reserve_b as nat, supply as nat);
    let signer = pool_signer_seeds(pool.mint_a, pool.mint_b, pool.fee_bps, pool.bump);
    if supply == 0 {
        Err(ProgramError::UninitializedAccount)
    } else if a_out < amount_a_min || b_out < amount_b_min {
        Err(AmmError::SlippageExceed.to_program_error())
    } else if accounts[10].key != crate::token::token_program() {
        Err(ProgramError::IncorrectProgramId)
    } else if a_out > u64::MAX || b_out > u64::MAX {
        Err(ProgramError::ArithmeticOverflow)
    } else {
        match spec_unpack_mint(accounts[2].data@) {
            Err(e) => Err(e),
            Ok(mint_a) => match spec_unpack_mint(accounts[3].data@) {
                Err(e) => Err(e),
                Ok(mint_b) => if a_out > pool.reserve_a || b_out > pool.reserve_b {
                    Err(ProgramError::ArithmeticOverflow)
                } else {
                    Ok(
                        seq![
                            invoke(
                                crate::token::spec_burn(
                                    accounts[10].key,
                                    accounts[7].key,
                                    accounts[6].key,
                                    accounts[0].key,
                                    amount_lp_in,
                                ),
                                seq![7usize, 6usize, 0usize],
                            ),
                            invoke_signed(
                                spec_transfer_checked(
                                    accounts[10].key,
                                    accounts[4].key,
                                    accounts[2].key,
                                    accounts[8].key,
                                    accounts[1].key,
                                    a_out as u64,
                                    mint_a.decimals,
                                ),
                                seq![4usize, 2usize, 8usize, 1usize],
                                signer,
                            ),
                            invoke_signed(
                                spec_transfer_checked(
                                    accounts[10].key,
                                    accounts[5].key,
                                    accounts[3].key,
                                    accounts[9].key,
                                    accounts[1].key,
                                    b_out as u64,
                                    mint_b.decimals,
                                ),
                                seq![5usize, 3usize, 9usize, 1usize],
                                signer,
                            ),
                            store_pool(pool_after_withdrawal(pool, a_out as u64, b_out as u64)),
                        ],
                    )
                },
            },
        }
    }
}

/// Redeems `amount_lp_in` of liquidity for the proportional share of both
/// reserves of the stored pool `pool`, provided each side pays at least its
/// minimum and the accounts lie at the addresses `derived`.
pub fn withdraw_liquidity_in_pool(
    accounts: &[AccountInfo],
    pool: &LiquidityPool,
    amount_lp_in: u64,
    amount_a_min: u64,
    amount_b_min: u64,
    derived: &PoolAddresses,
) -> (r: Result<Vec<Effect>, ProgramError>)
    ensures
        answers(
            r,
            spec_withdraw_liquidity_in_pool(
                accounts@,
                *pool,
                amount_lp_in,
                amount_a_min,
                amount_b_min,
                *derived,
            ),
        ),
{
    if accounts.len() < 11 {
        return Err(ProgramError::NotEnoughAccountKeys);
    }
    if !accounts[0].is_signer {
        return Err(ProgramError::MissingRequiredSignature);
    }
    if amount_lp_in == 0 {
        return Err(ProgramError::from(AmmError::ZeroLiquidityAmount));
    }
    match check_pool_accounts(accounts, pool, derived) {
        Ok(()) => {},
        Err(e) => {
            return Err(e);
        },
    }
    let liquidity = match unpack_mint(accounts[6].data.as_slice()) {
        Ok(mint) => mint,
        Err(e) => {
            return Err(e);
        },
    };
    let a_out = match withdraw_amount(amount_lp_in, pool.reserve_a, liquidity.supply) {
        Ok(amount) => amount,
        Err(e) => {
            return Err(e);
        },
    };
    let b_out = match withdraw_amount(amount_lp_in, pool.reserve_b, liquidity.supply) {
        Ok(amount) => amount,
        Err(e) => {
            return Err(e);
        },
    };
    if a_out < amount_a_min as u128 || b_out < amount_b_min as u128 {
        return Err(ProgramError::from(AmmError::SlippageExceed));
    }
    let token_program = &accounts[10].key;
    let pool_key = &accounts[1].key;
    let burn = match crate::token::burn(
        token_program,
        &accounts[7].key,
        &accounts[6].key,
        &accounts[0].key,
        amount_lp_in,
    ) {
        Ok(instruction) => instruction,
        Err(e) => {
            return Err(e);
        },
    };
    if a_out > u64::MAX as u128 || b_out > u64::MAX as u128 {
        return Err(ProgramError::ArithmeticOverflow);
    }
    let a_out = a_out as u64;
    let b_out = b_out as u64;
    let mint_a = match unpack_mint(accounts[2].data.as_slice()) {
        Ok(mint) => mint,
        Err(e) => {
            return Err(e);
        },
    };
    let mint_b = match unpack_mint(accounts[3].data.as_slice()) {
        Ok(mint) => mint,
        Err(e) => {
            return Err(e);
        },
    };
    let pay_a = match transfer_checked(
        token_program,
        &accounts[4].key,
        &accounts[2].key,
        &accounts[8].key,
        pool_key,
        a_out,
        mint_a.decimals,
    ) {
        Ok(instruction) => instruction,
        Err(e) => {
            return Err(e);
        },
    };
    let pay_b = match transfer_checked(
        token_program,
        &accounts[5].key,
        &accounts[3].key,
        &accounts[9].key,
        pool_key,
        b_out,
        mint_b.decimals,
    ) {
        Ok(instruction) => instruction,
        Err(e) => {
            return Err(e);
        },
    };
    if a_out > pool.reserve_a || b_out > pool.reserve_b {
        return Err(ProgramError::ArithmeticOverflow);
    }
    let after = LiquidityPool {
        reserve_a: pool.reserve_a - a_out,
        reserve_b: pool.reserve_b - b_out,
        ..*pool
    };
    assert(after == pool_after_withdrawal(*pool, a_out, b_out));
    let signer_a = pool_seed_list(&pool.mint_a, &pool.mint_b, pool.fee_bps, Some(pool.bump));
    let signer_b = pool_seed_list(&pool.mint_a, &pool.mint_b, pool.fee_bps, Some(pool.bump));
    let mut effects: Vec<Effect> = Vec::new();
    effects.push(Effect::invoke(burn, vec![7, 6, 0]));
    effects.push(Effect::invoke_signed(pay_a, vec![4, 2, 8, 1], signer_a));
    effects.push(Effect::invoke_signed(pay_b, vec![5, 3, 9, 1], signer_b));
    effects.push(Effect::Write { account: 1, data: after.pack() });
    proof {
        let expected = spec_withdraw_liquidity_in_pool(
            accounts@,
            *pool,
            amount_lp_in,
            amount_a_min,
            amount_b_min,
            *derived,
        );
        assert(expected is Ok);
        assert(views(effects@) =~= expected->Ok_0);
    }
    Ok(effects)
}

/// Redeems liquidity: reads the pool from its account, derives its
/// addresses and withdraws from it.
pub fn process_withdraw_liquidity(
    program_id: &Address,
    accounts: &[AccountInfo],
    amount_lp_in: u64,
    amount_a_min: u64,
    amount_b_min: u64,
) -> (r: Result<Vec<Effect>, ProgramError>)
    ensures
        answers(
            r,
            spec_process_withdraw_liquidity(
                *program_id,
                accounts@,
                amount_lp_in,
                amount_a_min,
                amount_b_min,
            ),
        ),
{
    if accounts.len() < 11 {
        return Err(ProgramError::NotEnoughAccountKeys);
    }
    if !accounts[0].is_signer {
        return Err(ProgramError::MissingRequiredSignature);
    }
    if amount_lp_in == 0 {
        return Err(ProgramError::from(AmmError::ZeroLiquidityAmount));
    }
    let pool = match LiquidityPool::unpack(accounts[1].data.as_slice()) {
        Ok(pool) => pool,
        Err(e) => {
            return Err(e);
        },
    };
    let derived = derive_pool_addresses(program_id, accounts, &pool);
    withdraw_liquidity_in_pool(accounts, &pool, amount_lp_in, amount_a_min, amount_b_min, &derived)
}

/// What a deposit into the stored pool `pool` answers, given the addresses
/// `derived` for it.
pub open spec fn spec_provide_liquidity_in_pool(
    accounts: Seq<AccountInfo>,
    pool: LiquidityPool,
    amount_a_desired: u64,
    amount_b_desired: u64,
    amount_a_min: u64,
    amount_b_min: u64,
    derived: PoolAddresses,
) -> Result<Seq<EffectView>, ProgramError> {
    if accounts.len() < 11 {
        Err(ProgramError::NotEnoughAccountKeys)
    } else if !accounts[0].is_signer {
        Err(ProgramError::MissingRequiredSignature)
    } else {
        match pool_accounts_rejection(accounts, pool, derived) {
            Some(e) => Err(e),
            None => spec_deposit_into_pool(
                accounts,
                pool,
                amount_a_desired,
                amount_b_desired,
                amount_a_min,
                amount_b_min,
            ),
        }
    }
}

/// What `process_provide_liquidity` answers: what the deposit answers in
/// the pool that the pool's account stores, given the addresses that the
/// program derives.
pub open spec fn spec_process_provide_liquidity(
    program_id: Address,
    accounts: Seq<AccountInfo>,
    amount_a_desired: u64,
    amount_b_desired: u64,
    amount_a_min: u64,
    amount_b_min: u64,
) -> Result<Seq<EffectView>, ProgramError> {
    if accounts.len() < 11 {
        Err(ProgramError::NotEnoughAccountKeys)
    } else if !accounts[0].is_signer {
        Err(ProgramError::MissingRequiredSignature)
    } else {
        match LiquidityPool::spec_unpack(accounts[1].data@) {
            Err(e) => Err(e),
            Ok(pool) => spec_provide_liquidity_in_pool(
                accounts,
                pool,
                amount_a_desired,
                amount_b_desired,
                amount_a_min,
                amount_b_min,
                spec_pool_addresses(program_id, accounts, pool),
            ),
        }
    }
}

/// What a deposit into the stored pool `pool` answers, once the accounts are
/// known to be the pool's.
pub open spec fn spec_deposit_into_pool(
    accounts: Seq<AccountInfo>,
    pool: LiquidityPool,
    amount_a_desired: u64,
    amount_b_desired: u64,
    amount_a_min: u64,
    amount_b_min: u64,
) -> Result<Seq<EffectView>, ProgramError> {
    let take = deposit_take(
        pool.reserve_a as nat,
        pool.reserve_b as nat,
        amount_a_desired as nat,
        amount_b_desired as nat,
    );
    if amount_a_desired == 0 || amount_b_desired == 0 {
        Err(AmmError::ZeroLiquidityAmount.to_program_error())
    } else if pool.reserve_a == 0 {
        Err(ProgramError::ArithmeticOverflow)
    } else if take.0 < amount_a_min || take.1 < amount_b_min {
        Err(AmmError::SlippageExceed.to_program_error())
    } else {
        match spec_unpack_mint(accounts[6].data@) {
            Err(e) => Err(e),
            Ok(liquidity) => if !deposit_liquidity_defined(
                take.0,
                take.1,
                pool.reserve_a as nat,
                pool.reserve_b as nat,
                liquidity.supply as nat,
            ) {
                Err(ProgramError::ArithmeticOverflow)
            } else {
                spec_deposit_effects(
                    accounts,
                    pool,
                    take.0 as u64,
                    take.1 as u64,
                    deposit_liquidity(
                        take.0,
                        take.1,
                        pool.reserve_a as nat,
                        pool.reserve_b as nat,
                        liquidity.supply as nat,
                    ) as u64,
                )
            },
        }
    }
}

/// What a deposit of `take_a` and `take_b` for `minted` of liquidity
/// answers, once the amounts are settled.
pub open spec fn spec_deposit_effects(
    accounts: Seq<AccountInfo>,
    pool: LiquidityPool,
    take_a: u64,
    take_b: u64,
    minted: u64,
) -> Result<Seq<EffectView>, ProgramError> {
    match spec_unpack_mint(accounts[2].data@) {
        Err(e) => Err(e),
        Ok(mint_a) => match spec_unpack_mint(accounts[3].data@) {
            Err(e) => Err(e),
            Ok(mint_b) => if accounts[10].key != crate::token::token_program() {
                Err(ProgramError::IncorrectProgramId)
            } else if pool.reserve_a + take_a > u64::MAX || pool.reserve_b + take_b > u64::MAX {
                Err(ProgramError::ArithmeticOverflow)
            } else {
                Ok(
                    seq![
                        invoke(
                            spec_transfer_checked(
                                accounts[10].key,
                                accounts[8].key,
                                accounts[2].key,
                                accounts[4].key,
                                accounts[0].key,
                                take_a,
                                mint_a.decimals,
                            ),
                            seq![8usize, 2usize, 4usize, 0usize],
                        ),
                        invoke(
                            spec_transfer_checked(
                                accounts[10].key,
                                accounts[9].key,
                                accounts[3].key,
                                accounts[5].key,
                                accounts[0].key,
                                take_b,
                                mint_b.decimals,
                            ),
                            seq![9usize, 3usize, 5usize, 0usize],
                        ),
                        invoke_signed(
                            crate::token::spec_mint_to(
                                accounts[10].key,
                                accounts[6].key,
                                accounts[7].key,
                                accounts[1].key,
                                minted,
                            ),
                            seq![6usize, 7usize, 1usize],
                            pool_signer_seeds(pool.mint_a, pool.mint_b, pool.fee_bps, pool.bump),
                        ),
                        store_pool(pool_after_deposit(pool, take_a, take_b)),
                    ],
                )
            },
        },
    }
}

/// Deposits into the stored pool `pool` in the ratio of its reserves: at
/// most the desired amounts, all of one side and the proportional part of
/// the other, provided each side takes at least its minimum and the accounts
/// lie at the addresses `derived`. Mints the liquidity that the deposit is
/// worth.
pub fn provide_liquidity_in_pool(
    accounts: &[AccountInfo],
    pool: &LiquidityPool,
    amount_a_desired: u64,
    amount_b_desired: u64,
    amount_a_min: u64,
    amount_b_min: u64,
    derived: &PoolAddresses,
) -> (r: Result<Vec<Effect>, ProgramError>)
    ensures
        answers(
            r,
            spec_provide_liquidity_in_pool(
                accounts@,
                *pool,
                amount_a_desired,
                amount_b_desired,
                amount_a_min,
                amount_b_min,
                *derived,
            ),
        ),
{
    if accounts.len() < 11 {
        return Err(ProgramError::NotEnoughAccountKeys);
    }
    if !accounts[0].is_signer {
        return Err(ProgramError::MissingRequiredSignature);
    }
    match check_pool_accounts(accounts, pool, derived) {
        Ok(()) => {},
        Err(e) => {
            return Err(e);
        },
    }
    if amount_a_desired == 0 || amount_b_desired == 0 {
        return Err(ProgramError::from(AmmError::ZeroLiquidityAmount));
    }
    let (take_a, take_b) = match liquidity_take(
        pool.reserve_a,
        pool.reserve_b,
        amount_a_desired,
        amount_b_desired,
    ) {
        Ok(take) => take,
        Err(e) => {
            return Err(e);
        },
    };
    if take_a < amount_a_min || take_b < amount_b_min {
        return Err(ProgramError::from(AmmError::SlippageExceed));
    }
    let liquidity = match unpack_mint(accounts[6].data.as_slice()) {
        Ok(mint) => mint,
        Err(e) => {
            return Err(e);
        },
    };
    let minted = match liquidity_minted(take_a, take_b, pool.reserve_a, pool.reserve_b, liquidity.supply) {
        Ok(minted) => minted,
        Err(e) => {
            return Err(e);
        },
    };
    let mint_a = match unpack_mint(accounts[2].data.as_slice()) {
        Ok(mint) => mint,
        Err(e) => {
            return Err(e);
        },
    };
    let mint_b = match unpack_mint(accounts[3].data.as_slice()) {
        Ok(mint) => mint,
        Err(e) => {
            return Err(e);
        },
    };
    let token_program = &accounts[10].key;
    let take_in_a = match transfer_checked(
        token_program,
        &accounts[8].key,
        &accounts[2].key,
        &accounts[4].key,
        &accounts[0].key,
        take_a,
        mint_a.decimals,
    ) {
        Ok(instruction) => instruction,
        Err(e) => {
            return Err(e);
        },
    };
    let take_in_b = match transfer_checked(
        token_program,
        &accounts[9].key,
        &accounts[3].key,
        &accounts[5].key,
        &accounts[0].key,
        take_b,
        mint_b.decimals,
    ) {
        Ok(instruction) => instruction,
        Err(e) => {
            return Err(e);
        },
    };
    let mint_liquidity = match crate::token::mint_to(
        token_program,
        &accounts[6].key,
        &accounts[7].key,
        &accounts[1].key,
        minted,
    ) {
        Ok(instruction) => instruction,
        Err(e) => {
            return Err(e);
        },
    };
    if take_a > u64::MAX - pool.reserve_a || take_b > u64::MAX - pool.reserve_b {
        return Err(ProgramError::ArithmeticOverflow);
    }
    let signer = pool_seed_list(&pool.mint_a, &pool.mint_b, pool.fee_bps, Some(pool.bump));
    let after = LiquidityPool {
        reserve_a: pool.reserve_a + take_a,
        reserve_b: pool.reserve_b + take_b,
        ..*pool
    };
    assert(after == pool_after_deposit(*pool, take_a, take_b));
    let mut effects: Vec<Effect> = Vec::new();
    effects.push(Effect::invoke(take_in_a, vec![8, 2, 4, 0]));
    effects.push(Effect::invoke(take_in_b, vec![9, 3, 5, 0]));
    effects.push(Effect::invoke_signed(mint_liquidity, vec![6, 7, 1], signer));
    effects.push(Effect::Write { account: 1, data: after.pack() });
    proof {
        let expected = spec_provide_liquidity_in_pool(
            accounts@,
            *pool,
            amount_a_desired,
            amount_b_desired,
            amount_a_min,
            amount_b_min,
            *derived,
        );
        assert(expected is Ok);
        assert(views(effects@) =~= expected->Ok_0);
    }
    Ok(effects)
}

/// Deposits into a pool: reads the pool from its account, derives its
/// addresses and deposits into it.
pub fn process_provide_liquidity(
    program_id: &Address,
    accounts: &[AccountInfo],
    amount_a_desired: u64,
    amount_b_desired: u64,
    amount_a_min: u64,
    amount_b_min: u64,
) -> (r: Result<Vec<Effect>, ProgramError>)
    ensures
        answers(
            r,
            spec_process_provide_liquidity(
                *program_id,
                accounts@,
                amount_a_desired,
                amount_b_desired,
                amount_a_min,
                amount_b_min,
            ),
        ),
{
    if accounts.len() < 11 {
        return Err(ProgramError::NotEnoughAccountKeys);
    }
    if !accounts[0].is_signer {
        return Err(ProgramError::MissingRequiredSignature);
    }
    let pool = match LiquidityPool::unpack(accounts[1].data.as_slice()) {
        Ok(pool) => pool,
        Err(e) => {
            return Err(e);
        },
    };
    let derived = derive_pool_addresses(program_id, accounts, &pool);
    provide_liquidity_in_pool(
        accounts,
        &pool,
        amount_a_desired,
        amount_b_desired,
        amount_a_min,
        amount_b_min,
        &derived,
    )
}

/// Decimal places of the liquidity mint of every pool.
pub const LP_MINT_DECIMALS: u8 = 9;

/// Why a pool cannot be created with the accounts and the amounts of an
/// instruction, given the addresses `derived` for it, if it cannot.
///
/// The accounts are, in order: the user, the pool, the two mints, the two
/// vaults, the liquidity mint, the user's token accounts for liquidity and
/// for the two mints, the token program, the associated-token-account
/// program and the system program.
pub open spec fn create_pool_rejection(
    accounts: Seq<AccountInfo>,
    amount_a: u64,
    amount_b: u64,
    fee_bps: u16,
    derived: NewPoolAddresses,
) -> Option<ProgramError> {
    if accounts.len() < 13 {
        Some(ProgramError::NotEnoughAccountKeys)
    } else if !accounts[0].is_signer {
        Some(ProgramError::MissingRequiredSignature)
    } else if accounts[2].key == accounts[3].key {
        Some(AmmError::IdenticalMints.to_program_error())
    } else if bump_at(derived.pool, accounts[1].key) is None {
        Some(AmmError::PoolAddressMismatch.to_program_error())
    } else if derived.vault_a != Some(accounts[4].key) {
        Some(AmmError::VaultAddressMismatch.to_program_error())
    } else if derived.vault_b != Some(accounts[5].key) {
        Some(AmmError::VaultAddressMismatch.to_program_error())
    } else if bump_at(derived.lp_mint, accounts[6].key) is None {
        Some(AmmError::LpMintAddressMismatch.to_program_error())
    } else if accounts[10].key != crate::token::token_program() {
        Some(ProgramError::IncorrectProgramId)
    } else if accounts[11].key != crate::associated_token::associated_token_program() {
        Some(ProgramError::IncorrectProgramId)
    } else if accounts[12].key != crate::system::system_program() {
        Some(ProgramError::IncorrectProgramId)
    } else if amount_a == 0 || amount_b == 0 {
        Some(AmmError::ZeroLiquidityAmount.to_program_error())
    } else if fee_bps > 10_000 {
        Some(AmmError::FeeTooHigh.to_program_error())
    } else if spec_unpack_mint(accounts[2].data@) is Err {
        Some(spec_unpack_mint(accounts[2].data@)->Err_0)
    } else if spec_unpack_mint(accounts[3].data@) is Err {
        Some(spec_unpack_mint(accounts[3].data@)->Err_0)
    } else if derived.user_lp is None {
        Some(ProgramError::InvalidSeeds)
    } else {
        None
    }
}

/// The pool that the creation stores.
pub open spec fn created_pool(
    accounts: Seq<AccountInfo>,
    amount_a: u64,
    amount_b: u64,
    fee_bps: u16,
    derived: NewPoolAddresses,
) -> LiquidityPool {
    LiquidityPool {
        mint_a: accounts[2].key,
        mint_b: accounts[3].key,
        reserve_a: amount_a,
        reserve_b: amount_b,
        fee_bps,
        bump: bump_at(derived.pool, accounts[1].key)->0,
    }
}

/// The effects that create a pool.
pub open spec fn create_pool_effects(
    program_id: Address,
    accounts: Seq<AccountInfo>,
    amount_a: u64,
    amount_b: u64,
    fee_bps: u16,
    rent: Rent,
    derived: NewPoolAddresses,
) -> Seq<EffectView> {
    let (user, pool, mint_a, mint_b) = (
        accounts[0].key,
        accounts[1].key,
        accounts[2].key,
        accounts[3].key,
    );
    let (vault_a, vault_b, mint_lp, token) = (
        accounts[4].key,
        accounts[5].key,
        accounts[6].key,
        accounts[10].key,
    );
    let stored = created_pool(accounts, amount_a, amount_b, fee_bps, derived);
    let signer = pool_signer_seeds(mint_a, mint_b, fee_bps, stored.bump);
    seq![
        invoke_signed(
            crate::system::spec_create_account(
                user,
                pool,
                rent.spec_minimum_balance(LiquidityPool::SPACE)->0,
                LiquidityPool::SPACE as u64,
                program_id,
            ),
            seq![0usize, 1usize],
            signer,
        ),
        invoke(
            spec_create_associated(user, vault_a, pool, mint_a, token, 0),
            seq![0usize, 4usize, 1usize, 2usize],
        ),
        invoke(
            spec_create_associated(user, vault_b, pool, mint_b, token, 0),
            seq![0usize, 5usize, 1usize, 3usize],
        ),
        invoke(
            spec_transfer_checked(
                token,
                accounts[8].key,
                mint_a,
                vault_a,
                user,
                amount_a,
                spec_unpack_mint(accounts[2].data@)->Ok_0.decimals,
            ),
            seq![8usize, 2usize, 4usize, 0usize],
        ),
        invoke(
            spec_transfer_checked(
                token,
                accounts[9].key,
                mint_b,
                vault_b,
                user,
                amount_b,
                spec_unpack_mint(accounts[3].data@)->Ok_0.decimals,
            ),
            seq![9usize, 3usize, 5usize, 0usize],
        ),
        invoke_signed(
            crate::system::spec_create_account(
                user,
                mint_lp,
                rent.spec_minimum_balance(crate::token::MINT_LEN)->0,
                crate::token::MINT_LEN as u64,
                token,
            ),
            seq![0usize, 6usize],
            lp_mint_seeds(pool).push(seq![bump_at(derived.lp_mint, mint_lp)->0]),
        ),
        invoke(
            crate::token::spec_initialize_mint2(token, mint_lp, pool, LP_MINT_DECIMALS),
            seq![6usize, 1usize],
        ),
        invoke(
            spec_create_associated(user, derived.user_lp->0, user, mint_lp, token, 1),
            seq![0usize, 7usize, 6usize],
        ),
        invoke_signed(
            crate::token::spec_mint_to(
                token,
                mint_lp,
                accounts[7].key,
                pool,
                initial_liquidity(amount_a as nat, amount_b as nat) as u64,
            ),
            seq![6usize, 7usize, 1usize],
            signer,
        ),
        store_pool(stored),
    ]
}

/// What the creation of a pool answers, given the addresses `derived` for
/// it.
pub open spec fn spec_create_pool_at(
    program_id: Address,
    accounts: Seq<AccountInfo>,
    amount_a: u64,
    amount_b: u64,
    fee_bps: u16,
    rent: Rent,
    derived: NewPoolAddresses,
) -> Result<Seq<EffectView>, ProgramError> {
    match create_pool_rejection(accounts, amount_a, amount_b, fee_bps, derived) {
        Some(e) => Err(e),
        None => Ok(
            create_pool_effects(program_id, accounts, amount_a, amount_b, fee_bps, rent, derived),
        ),
    }
}

/// What `process_create_pool` answers: what the creation answers, given the
/// addresses that the program derives.
pub open spec fn spec_process_create_pool(
    program_id: Address,
    accounts: Seq<AccountInfo>,
    amount_a: u64,
    amount_b: u64,
    fee_bps: u16,
    rent: Rent,
) -> Result<Seq<EffectView>, ProgramError> {
    if accounts.len() < 13 {
        Err(ProgramError::NotEnoughAccountKeys)
    } else {
        spec_create_pool_at(
            program_id,
            accounts,
            amount_a,
            amount_b,
            fee_bps,
            rent,
            spec_new_pool_addresses(program_id, accounts, fee_bps),
        )
    }
}

/// Creates the pool of two different mints with a fee of at most 10 000
/// basis points, where the accounts lie at the addresses `derived`: its
/// account, its two vaults and its liquidity mint, all funded by the user.
/// Moves `amount_a` and `amount_b` into the vaults and mints the geometric
/// mean of the two, rounded down, as the first liquidity.
pub fn create_pool_at(
    program_id: &Address,
    accounts: &[AccountInfo],
    amount_a: u64,
    amount_b: u64,
    fee_bps: u16,
    rent: &Rent,
    derived: &NewPoolAddresses,
) -> (r: Result<Vec<Effect>, ProgramError>)
    ensures
        answers(
            r,
            spec_create_pool_at(*program_id, accounts@, amount_a, amount_b, fee_bps, *rent, *derived),
        ),
{
    if accounts.len() < 13 {
        return Err(ProgramError::NotEnoughAccountKeys);
    }
    let user = &accounts[0].key;
    let pool_key = &accounts[1].key;
    let mint_a = &accounts[2].key;
    let mint_b = &accounts[3].key;
    let vault_a = &accounts[4].key;
    let vault_b = &accounts[5].key;
    let mint_lp = &accounts[6].key;
    let token_program = &accounts[10].key;
    if !accounts[0].is_signer {
        return Err(ProgramError::MissingRequiredSignature);
    }
    if *mint_a == *mint_b {
        return Err(ProgramError::from(AmmError::IdenticalMints));
    }
    let pool_bump = match bump_of(derived.pool, pool_key) {
        Some(bump) => bump,
        None => {
            return Err(ProgramError::from(AmmError::PoolAddressMismatch));
        },
    };
    if !is_address(derived.vault_a, vault_a) {
        return Err(ProgramError::from(AmmError::VaultAddressMismatch));
    }
    if !is_address(derived.vault_b, vault_b) {
        return Err(ProgramError::from(AmmError::VaultAddressMismatch));
    }
    let lp_mint_bump = match bump_of(derived.lp_mint, mint_lp) {
        Some(bump) => bump,
        None => {
            return Err(ProgramError::from(AmmError::LpMintAddressMismatch));
        },
    };
    if *token_program != crate::token::token_program_id() {
        return Err(ProgramError::IncorrectProgramId);
    }
    if accounts[11].key != crate::associated_token::associated_token_program_id() {
        return Err(ProgramError::IncorrectProgramId);
    }
    if accounts[12].key != crate::system::system_program_id() {
        return Err(ProgramError::IncorrectProgramId);
    }
    if amount_a == 0 || amount_b == 0 {
        return Err(ProgramError::from(AmmError::ZeroLiquidityAmount));
    }
    if fee_bps > 10_000 {
        return Err(ProgramError::from(AmmError::FeeTooHigh));
    }
    let pool_rent = match rent.minimum_balance(LiquidityPool::SPACE) {
        Some(lamports) => lamports,
        None => {
            return Err(ProgramError::ArithmeticOverflow);
        },
    };
    let create_pool = crate::system::create_account(
        user,
        pool_key,
        pool_rent,
        LiquidityPool::SPACE as u64,
        program_id,
    );
    let create_vault_a = create_associated_token_account(
        user,
        vault_a,
        pool_key,
        mint_a,
        token_program,
        false,
    );
    let create_vault_b = create_associated_token_account(
        user,
        vault_b,
        pool_key,
        mint_b,
        token_program,
        false,
    );
    let paid_a = match unpack_mint(accounts[2].data.as_slice()) {
        Ok(mint) => mint,
        Err(e) => {
            return Err(e);
        },
    };
    let fund_a = match transfer_checked(
        token_program,
        &accounts[8].key,
        mint_a,
        vault_a,
        user,
        amount_a,
        paid_a.decimals,
    ) {
        Ok(instruction) => instruction,
        Err(e) => {
            return Err(e);
        },
    };
    let paid_b = match unpack_mint(accounts[3].data.as_slice()) {
        Ok(mint) => mint,
        Err(e) => {
            return Err(e);
        },
    };
    let fund_b = match transfer_checked(
        token_program,
        &accounts[9].key,
        mint_b,
        vault_b,
        user,
        amount_b,
        paid_b.decimals,
    ) {
        Ok(instruction) => instruction,
        Err(e) => {
            return Err(e);
        },
    };
    let mint_rent = match rent.minimum_balance(crate::token::MINT_LEN) {
        Some(lamports) => lamports,
        None => {
            return Err(ProgramError::ArithmeticOverflow);
        },
    };
    let create_mint = crate::system::create_account(
        user,
        mint_lp,
        mint_rent,
        crate::token::MINT_LEN as u64,
        token_program,
    );
    let initialize_mint = match crate::token::initialize_mint2(
        token_program,
        mint_lp,
        pool_key,
        LP_MINT_DECIMALS,
    ) {
        Ok(instruction) => instruction,
        Err(e) => {
            return Err(e);
        },
    };
    let user_lp = match derived.user_lp {
        Some(address) => address,
        None => {
            return Err(ProgramError::InvalidSeeds);
        },
    };
    let create_user_lp = create_associated_token_account(
        user,
        &user_lp,
        user,
        mint_lp,
        token_program,
        true,
    );
    let lp_amount = initial_lp_amount(amount_a, amount_b);
    let mint_liquidity = match crate::token::mint_to(
        token_program,
        mint_lp,
        &accounts[7].key,
        pool_key,
        lp_amount,
    ) {
        Ok(instruction) => instruction,
        Err(e) => {
            return Err(e);
        },
    };
    let pool = LiquidityPool {
        mint_a: *mint_a,
        mint_b: *mint_b,
        reserve_a: amount_a,
        reserve_b: amount_b,
        fee_bps,
        bump: pool_bump,
    };
    assert(pool == created_pool(accounts@, amount_a, amount_b, fee_bps, *derived));
    let mut effects: Vec<Effect> = Vec::new();
    effects.push(
        Effect::invoke_signed(
            create_pool,
            vec![0, 1],
            pool_seed_list(mint_a, mint_b, fee_bps, Some(pool_bump)),
        ),
    );
    effects.push(Effect::invoke(create_vault_a, vec![0, 4, 1, 2]));
    effects.push(Effect::invoke(create_vault_b, vec![0, 5, 1, 3]));
    effects.push(Effect::invoke(fund_a, vec![8, 2, 4, 0]));
    effects.push(Effect::invoke(fund_b, vec![9, 3, 5, 0]));
    effects.push(
        Effect::invoke_signed(create_mint, vec![0, 6], lp_mint_seed_list(pool_key, Some(lp_mint_bump))),
    );
    effects.push(Effect::invoke(initialize_mint, vec![6, 1]));
    effects.push(Effect::invoke(create_user_lp, vec![0, 7, 6]));
    effects.push(
        Effect::invoke_signed(
            mint_liquidity,
            vec![6, 7, 1],
            pool_seed_list(mint_a, mint_b, fee_bps, Some(pool_bump)),
        ),
    );
    effects.push(Effect::Write { account: 1, data: pool.pack() });
    proof {
        assert(create_pool_rejection(accounts@, amount_a, amount_b, fee_bps, *derived) is None);
        assert(views(effects@) =~= create_pool_effects(
            *program_id,
            accounts@,
            amount_a,
            amount_b,
            fee_bps,
            *rent,
            *derived,
        ));
    }
    Ok(effects)
}

/// Creates a pool: derives its addresses and creates it at them.
///
/// The stored bump seed derives the pool's address again, so that later
/// instructions find the pool where it was created.
pub fn process_create_pool(
    program_id: &Address,
    accounts: &[AccountInfo],
    amount_a: u64,
    amount_b: u64,
    fee_bps: u16,
    rent: &Rent,
) -> (r: Result<Vec<Effect>, ProgramError>)
    ensures
        answers(
            r,
            spec_process_create_pool(*program_id, accounts@, amount_a, amount_b, fee_bps, *rent),
        ),
        r is Ok ==> spec_derive_address(
            pool_signer_seeds(
                accounts@[2].key,
                accounts@[3].key,
                fee_bps,
                created_pool(
                    accounts@,
                    amount_a,
                    amount_b,
                    fee_bps,
                    spec_new_pool_addresses(*program_id, accounts@, fee_bps),
                ).bump,
            ),
            *program_id,
        ) == Ok::<Address, ProgramError>(accounts@[1].key),
{
    if accounts.len() < 13 {
        return Err(ProgramError::NotEnoughAccountKeys);
    }
    let derived = derive_new_pool_addresses(program_id, accounts, fee_bps);
    create_pool_at(program_id, accounts, amount_a, amount_b, fee_bps, rent, &derived)
}

/// What `process_instruction` answers: what the processor of the encoded
/// instruction answers, or `InvalidInstructionData` where `data` encodes
/// none.
pub open spec fn spec_process_instruction(
    program_id: Address,
    accounts: Seq<AccountInfo>,
    data: Seq<u8>,
    rent: Rent,
) -> Result<Seq<EffectView>, ProgramError> {
    match AmmInstruction::spec_unpack(data) {
        Err(e) => Err(e),
        Ok(AmmInstruction::CreatePool { amount_a, amount_b, fee_bps }) => spec_process_create_pool(
            program_id,
            accounts,
            amount_a,
            amount_b,
            fee_bps,
            rent,
        ),
        Ok(
            AmmInstruction::ProvideLiquidity {
                amount_a_desired,
                amount_b_desired,
                amount_a_min,
                amount_b_min,
            },
        ) => spec_process_provide_liquidity(
            program_id,
            accounts,
            amount_a_desired,
            amount_b_desired,
            amount_a_min,
            amount_b_min,
        ),
        Ok(
            AmmInstruction::WithdrawLiquidity { amount_lp_in, amount_a_min, amount_b_min },
        ) => spec_process_withdraw_liquidity(
            program_id,
            accounts,
            amount_lp_in,
            amount_a_min,
            amount_b_min,
        ),
        Ok(AmmInstruction::Swap { amount_in, min_out }) => spec_process_swap(
            program_id,
            accounts,
            amount_in,
            min_out,
        ),
    }
}

/// Decodes an instruction and hands it to its processor.
pub fn process_instruction(
    program_id: &Address,
    accounts: &[AccountInfo],
    instruction_data: &[u8],
    rent: &Rent,
) -> (r: Result<Vec<Effect>, ProgramError>)
    ensures
        answers(r, spec_process_instruction(*program_id, accounts@, instruction_data@, *rent)),
{
    let instruction = match AmmInstruction::unpack(instruction_data) {
        Ok(instruction) => instruction,
        Err(e) => {
            return Err(e);
        },
    };
    match instruction {
        AmmInstruction::CreatePool { amount_a, amount_b, fee_bps } => process_create_pool(
            program_id,
            accounts,
            amount_a,
            amount_b,
            fee_bps,
            rent,
        ),
        AmmInstruction::ProvideLiquidity {
            amount_a_desired,
            amount_b_desired,
            amount_a_min,
            amount_b_min,
        } => process_provide_liquidity(
            program_id,
            accounts,
            amount_a_desired,
            amount_b_desired,
            amount_a_min,
            amount_b_min,
        ),
        AmmInstruction::WithdrawLiquidity {
            amount_lp_in,
            amount_a_min,
            amount_b_min,
        } => process_withdraw_liquidity(program_id, accounts, amount_lp_in, amount_a_min, amount_b_min),
        AmmInstruction::Swap { amount_in, min_out } => process_swap(
            program_id,
            accounts,
            amount_in,
            min_out,
        ),
    }
}

} // verus!
