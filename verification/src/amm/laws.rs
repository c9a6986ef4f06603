//! What holds of the processors whatever the instruction: what a created
//! pool holds, that swaps keep the product of the reserves, that minimums
//! are honoured, and that no account at a wrong address is accepted.

use crate::account::{AccountInfo, Rent};
use crate::address::{address_of_found, Address};
use crate::amm::error::AmmError;
use crate::amm::math::{
    deposit_take, initial_liquidity, is_floor_sqrt, law_swap_keeps_product, lemma_floor_sqrt_unique,
    lemma_product_fits, withdraw_share,
};
use crate::amm::processor::{
    created_pool, pool_accounts_rejection, pool_after_deposit, pool_after_swap,
    pool_after_withdrawal, pool_signer_seeds, spec_create_pool_at, spec_provide_liquidity_in_pool,
    spec_swap_in_pool, spec_withdraw_liquidity_in_pool, store_pool, swap_quote, NewPoolAddresses,
    PoolAddresses, SwapAddresses,
};
use crate::amm::state::LiquidityPool;
use crate::effect::{invoke_signed, EffectView};
use crate::program_error::ProgramError;
use crate::token::{spec_mint_to, spec_unpack_mint};
use vstd::prelude::*;

verus! {

/// An accepted creation mints the rounded-down square root of the product of
/// the two amounts as liquidity, to the user's liquidity account, and stores
/// a pool whose reserves are the two amounts. The amounts are positive, the
/// fee is at most 10 000 basis points and the mints differ.
pub proof fn law_create_pool(
    program_id: Address,
    accounts: Seq<AccountInfo>,
    amount_a: u64,
    amount_b: u64,
    fee_bps: u16,
    rent: Rent,
    derived: NewPoolAddresses,
)
    requires
        spec_create_pool_at(program_id, accounts, amount_a, amount_b, fee_bps, rent, derived) is Ok,
    ensures
        ({
            let effects = spec_create_pool_at(
                program_id,
                accounts,
                amount_a,
                amount_b,
                fee_bps,
                rent,
                derived,
            )->Ok_0;
            let stored = created_pool(accounts, amount_a, amount_b, fee_bps, derived);
            let minted = initial_liquidity(amount_a as nat, amount_b as nat);
            &&& amount_a > 0 && amount_b > 0 && fee_bps <= 10_000
            &&& is_floor_sqrt(amount_a as nat * amount_b as nat, minted)
            &&& minted <= u64::MAX
            &&& effects.len() == 10
            &&& effects[8] == invoke_signed(
                spec_mint_to(
                    accounts[10].key,
                    accounts[6].key,
                    accounts[7].key,
                    accounts[1].key,
                    minted as u64,
                ),
                seq![6usize, 7usize, 1usize],
                pool_signer_seeds(accounts[2].key, accounts[3].key, fee_bps, stored.bump),
            )
            &&& effects[9] == store_pool(stored)
            &&& stored.reserve_a == amount_a && stored.reserve_b == amount_b
            &&& stored.well_formed()
        }),
{
    lemma_initial_liquidity(amount_a, amount_b);
}

/// The first liquidity is the rounded-down square root of the product of the
/// two amounts, and fits in 64 bits.
pub proof fn lemma_initial_liquidity(amount_a: u64, amount_b: u64)
    ensures
        is_floor_sqrt(
            amount_a as nat * amount_b as nat,
            initial_liquidity(amount_a as nat, amount_b as nat),
        ),
        initial_liquidity(amount_a as nat, amount_b as nat) <= u64::MAX,
{
    let n = amount_a as nat * amount_b as nat;
    lemma_product_fits(amount_a, amount_b);
    let root = witness_root(n, 0x1_0000_0000_0000_0000);
    assert(is_floor_sqrt(n, root));
    let chosen = initial_liquidity(amount_a as nat, amount_b as nat);
    assert(is_floor_sqrt(n, chosen));
    lemma_floor_sqrt_unique(n, chosen, root);
}

/// A rounded-down square root of `n`, found below `bound`.
proof fn witness_root(n: nat, bound: nat) -> (root: nat)
    requires
        n < bound * bound,
    ensures
        is_floor_sqrt(n, root),
        root < bound,
    decreases bound,
{
    if bound == 0 {
        assert(bound * bound == 0) by (nonlinear_arith)
            requires
                bound == 0,
        ;
        0
    } else {
        let below = (bound - 1) as nat;
        if below * below <= n {
            below
        } else {
            witness_root(n, below)
        }
    }
}

/// An accepted swap never lowers the product of the reserves: the pool that
/// it stores holds the input in one reserve and lacks the output in the
/// other, and the product of the two is at least what it was.
pub proof fn law_swap_product(
    accounts: Seq<AccountInfo>,
    pool: LiquidityPool,
    amount_in: u64,
    min_out: u64,
    derived: SwapAddresses,
)
    requires
        spec_swap_in_pool(accounts, pool, amount_in, min_out, derived) is Ok,
    ensures
        ({
            let effects = spec_swap_in_pool(accounts, pool, amount_in, min_out, derived)->Ok_0;
            let paid = swap_quote(pool, accounts[2].key, amount_in);
            let after = pool_after_swap(pool, accounts[2].key == pool.mint_a, amount_in, paid as u64);
            &&& amount_in > 0
            &&& effects.len() == 3
            &&& effects[2] == store_pool(after)
            &&& after.reserve_a * after.reserve_b >= pool.reserve_a * pool.reserve_b
        }),
{
    if accounts[2].key == pool.mint_a {
        law_swap_keeps_product(
            pool.reserve_a as nat,
            pool.reserve_b as nat,
            pool.fee_bps as nat,
            amount_in as nat,
        );
    } else {
        law_swap_keeps_product(
            pool.reserve_b as nat,
            pool.reserve_a as nat,
            pool.fee_bps as nat,
            amount_in as nat,
        );
        let paid = swap_quote(pool, accounts[2].key, amount_in);
        assert((pool.reserve_a - paid) * (pool.reserve_b + amount_in) == (pool.reserve_b + amount_in)
            * (pool.reserve_a - paid)) by (nonlinear_arith);
        assert(pool.reserve_a * pool.reserve_b == pool.reserve_b * pool.reserve_a)
            by (nonlinear_arith);
    }
}

/// An accepted swap pays at least the minimum that the user named: a swap
/// that would pay less is rejected, and a rejected instruction has no
/// effects.
pub proof fn law_swap_slippage(
    accounts: Seq<AccountInfo>,
    pool: LiquidityPool,
    amount_in: u64,
    min_out: u64,
    derived: SwapAddresses,
)
    requires
        spec_swap_in_pool(accounts, pool, amount_in, min_out, derived) is Ok,
    ensures
        swap_quote(pool, accounts[2].key, amount_in) >= min_out,
{
}

/// An accepted deposit takes at least the minimum of each side.
pub proof fn law_deposit_slippage(
    accounts: Seq<AccountInfo>,
    pool: LiquidityPool,
    amount_a_desired: u64,
    amount_b_desired: u64,
    amount_a_min: u64,
    amount_b_min: u64,
    derived: PoolAddresses,
)
    requires
        spec_provide_liquidity_in_pool(
            accounts,
            pool,
            amount_a_desired,
            amount_b_desired,
            amount_a_min,
            amount_b_min,
            derived,
        ) is Ok,
    ensures
        ({
            let take = deposit_take(
                pool.reserve_a as nat,
                pool.reserve_b as nat,
                amount_a_desired as nat,
                amount_b_desired as nat,
            );
            take.0 >= amount_a_min && take.1 >= amount_b_min
        }),
{
}

/// An accepted withdrawal pays at least the minimum of each side.
pub proof fn law_withdrawal_slippage(
    accounts: Seq<AccountInfo>,
    pool: LiquidityPool,
    amount_lp_in: u64,
    amount_a_min: u64,
    amount_b_min: u64,
    derived: PoolAddresses,
)
    requires
        spec_withdraw_liquidity_in_pool(
            accounts,
            pool,
            amount_lp_in,
            amount_a_min,
            amount_b_min,
            derived,
        ) is Ok,
    ensures
        ({
            let supply = spec_unpack_mint(accounts[6].data@)->Ok_0.supply;
            &&& supply > 0
            &&& withdraw_share(amount_lp_in as nat, pool.reserve_a as nat, supply as nat)
                >= amount_a_min
            &&& withdraw_share(amount_lp_in as nat, pool.reserve_b as nat, supply as nat)
                >= amount_b_min
        }),
{
}

/// No pool is created at an address other than the derived ones: where the
/// creation is accepted, the pool's account lies at the address found for
/// its mints and fee, the vaults at the addresses derived for them, and the
/// liquidity mint at the address found for the pool.
pub proof fn law_create_pool_binds_addresses(
    program_id: Address,
    accounts: Seq<AccountInfo>,
    amount_a: u64,
    amount_b: u64,
    fee_bps: u16,
    rent: Rent,
    derived: NewPoolAddresses,
)
    requires
        spec_create_pool_at(program_id, accounts, amount_a, amount_b, fee_bps, rent, derived) is Ok,
    ensures
        address_of_found(derived.pool) == Some(accounts[1].key),
        derived.vault_a == Some(accounts[4].key),
        derived.vault_b == Some(accounts[5].key),
        address_of_found(derived.lp_mint) == Some(accounts[6].key),
{
}

/// A deposit or a withdrawal is accepted only with the accounts of the
/// stored pool: the pool's account at the address derived from the stored
/// mints, fee and bump seed, the stored mints, the pool's vaults and its
/// liquidity mint.
pub proof fn law_liquidity_binds_addresses(
    accounts: Seq<AccountInfo>,
    pool: LiquidityPool,
    first: u64,
    second: u64,
    amount_a_min: u64,
    amount_b_min: u64,
    derived: PoolAddresses,
)
    requires
        spec_provide_liquidity_in_pool(
            accounts,
            pool,
            first,
            second,
            amount_a_min,
            amount_b_min,
            derived,
        ) is Ok || spec_withdraw_liquidity_in_pool(
            accounts,
            pool,
            first,
            amount_a_min,
            amount_b_min,
            derived,
        ) is Ok,
    ensures
        derived.pool == Some(accounts[1].key),
        accounts[2].key == pool.mint_a && accounts[3].key == pool.mint_b,
        derived.vault_a == Some(accounts[4].key),
        derived.vault_b == Some(accounts[5].key),
        derived.lp_mint == Some(accounts[6].key),
{
}

/// A swap is accepted only with the pool's account at the address derived
/// for it and with the pool's vaults.
pub proof fn law_swap_binds_addresses(
    accounts: Seq<AccountInfo>,
    pool: LiquidityPool,
    amount_in: u64,
    min_out: u64,
    derived: SwapAddresses,
)
    requires
        spec_swap_in_pool(accounts, pool, amount_in, min_out, derived) is Ok,
    ensures
        derived.pool == Some(accounts[1].key),
        derived.vault_in == Some(accounts[4].key),
        derived.vault_out == Some(accounts[5].key),
{
}

/// Which error rejects accounts that are not the stored pool's, once the
/// pool's address can be derived at all: a pool at another address is a
/// `PoolAddressMismatch`; with the pool in place, other mints are a
/// `MintAddressMismatch`; with those in place, a vault that is not the
/// pool's is a `VaultAddressMismatch`; and with the vaults in place, another
/// liquidity mint is an `LpMintAddressMismatch`.
pub proof fn law_mismatch_errors(accounts: Seq<AccountInfo>, pool: LiquidityPool, derived: PoolAddresses)
    requires
        derived.pool is Some,
    ensures
        ({
            let rejection = pool_accounts_rejection(accounts, pool, derived);
            let at_address = derived.pool == Some(accounts[1].key);
            let mints = accounts[2].key == pool.mint_a && accounts[3].key == pool.mint_b;
            let vaults = derived.vault_a == Some(accounts[4].key) && derived.vault_b == Some(
                accounts[5].key,
            );
            let liquidity = derived.lp_mint == Some(accounts[6].key);
            &&& !at_address ==> rejection == Some(AmmError::PoolAddressMismatch.to_program_error())
            &&& at_address && !mints ==> rejection == Some(
                AmmError::MintAddressMismatch.to_program_error(),
            )
            &&& at_address && mints && !vaults ==> rejection == Some(
                AmmError::VaultAddressMismatch.to_program_error(),
            )
            &&& at_address && mints && vaults && !liquidity ==> rejection == Some(
                AmmError::LpMintAddressMismatch.to_program_error(),
            )
            &&& at_address && mints && vaults && liquidity ==> rejection is None
        }),
{
}

/// Which error rejects a creation at an address other than a derived one,
/// for a signed instruction with enough accounts and two different mints: a
/// pool's account that is not at the address found for the mints and the fee
/// is a `PoolAddressMismatch`; with the pool in place, a vault that is not
/// the pool's is a `VaultAddressMismatch`; and with the vaults in place, a
/// liquidity mint that is not at the address found for the pool is an
/// `LpMintAddressMismatch`.
pub proof fn law_create_pool_mismatch_errors(
    program_id: Address,
    accounts: Seq<AccountInfo>,
    amount_a: u64,
    amount_b: u64,
    fee_bps: u16,
    rent: Rent,
    derived: NewPoolAddresses,
)
    requires
        accounts.len() >= 13,
        accounts[0].is_signer,
        accounts[2].key != accounts[3].key,
    ensures
        ({
            let answer = spec_create_pool_at(
                program_id,
                accounts,
                amount_a,
                amount_b,
                fee_bps,
                rent,
                derived,
            );
            let at_address = address_of_found(derived.pool) == Some(accounts[1].key);
            let vaults = derived.vault_a == Some(accounts[4].key) && derived.vault_b == Some(
                accounts[5].key,
            );
            let liquidity = address_of_found(derived.lp_mint) == Some(accounts[6].key);
            &&& !at_address ==> answer == Err::<Seq<EffectView>, ProgramError>(
                AmmError::PoolAddressMismatch.to_program_error(),
            )
            &&& at_address && !vaults ==> answer == Err::<Seq<EffectView>, ProgramError>(
                AmmError::VaultAddressMismatch.to_program_error(),
            )
            &&& at_address && vaults && !liquidity ==> answer == Err::<Seq<EffectView>, ProgramError>(
                AmmError::LpMintAddressMismatch.to_program_error(),
            )
        }),
{
}

/// Which error rejects a swap at an address other than a derived one, for a
/// signed instruction with enough accounts, an amount and a pool whose
/// address can be derived at all: a pool's account that is not at the
/// address derived for it is a `PoolAddressMismatch`; with the pool in
/// place, a vault that is not the pool's is a `VaultAddressMismatch`.
pub proof fn law_swap_mismatch_errors(
    accounts: Seq<AccountInfo>,
    pool: LiquidityPool,
    amount_in: u64,
    min_out: u64,
    derived: SwapAddresses,
)
    requires
        accounts.len() >= 10,
        accounts[0].is_signer,
        amount_in > 0,
        derived.pool is Some,
    ensures
        ({
            let answer = spec_swap_in_pool(accounts, pool, amount_in, min_out, derived);
            let at_address = derived.pool == Some(accounts[1].key);
            let vaults = derived.vault_in == Some(accounts[4].key) && derived.vault_out == Some(
                accounts[5].key,
            );
            &&& !at_address ==> answer == Err::<Seq<EffectView>, ProgramError>(
                AmmError::PoolAddressMismatch.to_program_error(),
            )
            &&& at_address && !vaults ==> answer == Err::<Seq<EffectView>, ProgramError>(
                AmmError::VaultAddressMismatch.to_program_error(),
            )
        }),
{
}

/// A pool that was stored by an accepted creation is the pool of its
/// accounts: where a later instruction comes with the same first seven
/// accounts and the pool's address is derived again from the stored record,
/// the record passes the check of the accounts, and it is read back as it
/// was stored.
pub proof fn law_created_pool_is_found_again(
    program_id: Address,
    accounts: Seq<AccountInfo>,
    amount_a: u64,
    amount_b: u64,
    fee_bps: u16,
    rent: Rent,
    derived: NewPoolAddresses,
)
    requires
        spec_create_pool_at(program_id, accounts, amount_a, amount_b, fee_bps, rent, derived) is Ok,
    ensures
        pool_accounts_rejection(
            accounts,
            created_pool(accounts, amount_a, amount_b, fee_bps, derived),
            (PoolAddresses {
                pool: Some(accounts[1].key),
                vault_a: derived.vault_a,
                vault_b: derived.vault_b,
                lp_mint: address_of_found(derived.lp_mint),
            }),
        ) is None,
        LiquidityPool::spec_unpack(
            created_pool(accounts, amount_a, amount_b, fee_bps, derived).spec_pack(),
        ) == Ok::<LiquidityPool, ProgramError>(
            created_pool(accounts, amount_a, amount_b, fee_bps, derived),
        ),
{
    let stored = created_pool(accounts, amount_a, amount_b, fee_bps, derived);
    stored.law_unpack_pack(Seq::empty());
    assert(stored.spec_pack() + Seq::<u8>::empty() =~= stored.spec_pack());
}

/// Deposits, withdrawals and swaps change the reserves of a pool and
/// nothing else: its mints, its fee and its bump seed stay, and with them
/// what a created pool satisfies.
pub proof fn law_pool_keeps_identity(pool: LiquidityPool, a_to_b: bool, first: u64, second: u64)
    ensures
        ({
            let after = pool_after_swap(pool, a_to_b, first, second);
            &&& after.mint_a == pool.mint_a && after.mint_b == pool.mint_b
            &&& after.fee_bps == pool.fee_bps && after.bump == pool.bump
            &&& pool.well_formed() ==> after.well_formed()
        }),
        ({
            let after = pool_after_deposit(pool, first, second);
            &&& after.mint_a == pool.mint_a && after.mint_b == pool.mint_b
            &&& after.fee_bps == pool.fee_bps && after.bump == pool.bump
            &&& pool.well_formed() ==> after.well_formed()
        }),
        ({
            let after = pool_after_withdrawal(pool, first, second);
            &&& after.mint_a == pool.mint_a && after.mint_b == pool.mint_b
            &&& after.fee_bps == pool.fee_bps && after.bump == pool.bump
            &&& pool.well_formed() ==> after.well_formed()
        }),
{
}

} // verus!
