//! The arithmetic of the pool: initial liquidity, proportional deposits and
//! withdrawals, and the fee-adjusted constant-product swap.
//!
//! Quantities are `u64`; products are formed in 128 bits. A result that does
//! not fit, or a division by an empty reserve, is `ArithmeticOverflow`.

use crate::program_error::ProgramError;
use integer_sqrt::IntegerSquareRoot;
use vstd::prelude::*;

verus! {

/// The fee denominator: a fee is a number of basis points out of 10 000.
pub const BPS_DENOMINATOR: u16 = 10_000;

/// `root` is the integer square root of `n`, rounded down.
pub open spec fn is_floor_sqrt(n: nat, root: nat) -> bool {
    root * root <= n < (root + 1) * (root + 1)
}

/// The integer square root of `n`, rounded down.
pub open spec fn floor_sqrt(n: nat) -> nat {
    choose|root: nat| is_floor_sqrt(n, root)
}

/// Liquidity minted for the first deposit: the geometric mean of the two
/// amounts, rounded down.
pub open spec fn initial_liquidity(amount_a: nat, amount_b: nat) -> nat {
    floor_sqrt(amount_a * amount_b)
}

/// The part of `amount_in` that is traded after the fee, scaled by 10 000.
pub open spec fn amount_after_fee(amount_in: nat, fee_bps: nat) -> int {
    amount_in * (BPS_DENOMINATOR - fee_bps)
}

/// What a swap of `amount_in` pays out of `reserve_out`.
pub open spec fn swap_output(reserve_in: nat, reserve_out: nat, fee_bps: nat, amount_in: nat) -> int {
    reserve_out * amount_after_fee(amount_in, fee_bps) / (reserve_in * BPS_DENOMINATOR
        + amount_after_fee(amount_in, fee_bps))
}

/// The amounts that a deposit takes of each side, so that the ratio of the
/// reserves stays: all of one side and the proportional part of the other.
pub open spec fn deposit_take(reserve_a: nat, reserve_b: nat, desired_a: nat, desired_b: nat) -> (
    nat,
    nat,
) {
    let needed_b = desired_a * reserve_b / reserve_a;
    if needed_b <= desired_b {
        (desired_a, needed_b)
    } else {
        ((desired_b * reserve_a / reserve_b), desired_b)
    }
}

/// Liquidity minted for a deposit of `take_a` and `take_b`: the smaller of
/// the two proportional shares of the supply.
pub open spec fn deposit_liquidity(
    take_a: nat,
    take_b: nat,
    reserve_a: nat,
    reserve_b: nat,
    supply: nat,
) -> nat {
    let from_a = take_a * supply / reserve_a;
    let from_b = take_b * supply / reserve_b;
    if from_a <= from_b {
        from_a
    } else {
        from_b
    }
}

/// What a holder of `liquidity` out of `supply` redeems of `reserve`.
pub open spec fn withdraw_share(liquidity: nat, reserve: nat, supply: nat) -> nat {
    liquidity * reserve / supply
}

/// Only one number is the rounded-down square root of `n`.
pub proof fn lemma_floor_sqrt_unique(n: nat, r1: nat, r2: nat)
    requires
        is_floor_sqrt(n, r1),
        is_floor_sqrt(n, r2),
    ensures
        r1 == r2,
{
    if r1 < r2 {
        assert((r1 + 1) * (r1 + 1) <= r2 * r2) by (nonlinear_arith)
            requires
                r1 + 1 <= r2,
        ;
    } else if r2 < r1 {
        assert((r2 + 1) * (r2 + 1) <= r1 * r1) by (nonlinear_arith)
            requires
                r2 + 1 <= r1,
        ;
    }
}

/// A quotient times its divisor lies within one divisor below the dividend.
pub proof fn lemma_quotient_bounds(x: int, d: int)
    requires
        0 <= x,
        0 < d,
    ensures
        0 <= x / d,
        (x / d) * d <= x,
        x < (x / d + 1) * d,
{
    vstd::arithmetic::div_mod::lemma_fundamental_div_mod(x, d);
    vstd::arithmetic::div_mod::lemma_mod_bound(x, d);
    vstd::arithmetic::div_mod::lemma_div_pos_is_pos(x, d);
    assert((x / d) * d == d * (x / d)) by (nonlinear_arith);
    assert((x / d + 1) * d == d * (x / d) + d) by (nonlinear_arith);
}

/// A number whose product with the divisor stays within the dividend is at
/// most the quotient.
pub proof fn lemma_quotient_is_largest(x: int, d: int, q: int)
    requires
        0 < d,
        0 <= x,
        q * d <= x,
    ensures
        q <= x / d,
{
    lemma_quotient_bounds(x, d);
    if q > x / d {
        assert((x / d + 1) * d <= q * d) by (nonlinear_arith)
            requires
                x / d + 1 <= q,
                0 < d,
        ;
    }
}

/// A quotient is at most `bound` when the dividend is at most `bound` times
/// the divisor.
pub proof fn lemma_quotient_at_most(x: int, d: int, bound: int)
    requires
        0 < d,
        0 <= x,
        x <= bound * d,
    ensures
        x / d <= bound,
{
    lemma_quotient_bounds(x, d);
    if x / d > bound {
        assert((bound + 1) * d <= (x / d) * d) by (nonlinear_arith)
            requires
                bound + 1 <= x / d,
                0 < d,
        ;
        assert((bound + 1) * d == bound * d + d) by (nonlinear_arith);
    }
}

/// `IntegerSquareRoot::integer_sqrt` of integer_sqrt, on `u128`: the integer
/// square root, that is the largest number whose square is at most `n`.
#[verifier::external_body]
fn integer_sqrt(n: u128) -> (root: u128)
    ensures
        is_floor_sqrt(n as nat, root as nat),
{
    n.integer_sqrt()
}

/// The liquidity minted when a pool is created with `amount_a` and
/// `amount_b`.
pub fn initial_lp_amount(amount_a: u64, amount_b: u64) -> (lp: u64)
    ensures
        lp == initial_liquidity(amount_a as nat, amount_b as nat),
        is_floor_sqrt(amount_a as nat * amount_b as nat, lp as nat),
{
    assert(amount_a as nat * amount_b as nat <= 0xffff_ffff_ffff_ffff * 0xffff_ffff_ffff_ffff)
        by (nonlinear_arith)
        requires
            amount_a <= 0xffff_ffff_ffff_ffff,
            amount_b <= 0xffff_ffff_ffff_ffff,
    ;
    let product: u128 = (amount_a as u128) * (amount_b as u128);
    let root: u128 = integer_sqrt(product);
    proof {
        let n = amount_a as nat * amount_b as nat;
        if root > 0xffff_ffff_ffff_ffff {
            assert(root as nat * root as nat >= 0x1_0000_0000_0000_0000 * 0x1_0000_0000_0000_0000)
                by (nonlinear_arith)
                requires
                    root >= 0x1_0000_0000_0000_0000,
            ;
        }
        let chosen = floor_sqrt(n);
        assert(is_floor_sqrt(n, root as nat));
        lemma_floor_sqrt_unique(n, chosen, root as nat);
    }
    root as u64
}

/// What a swap of `amount_in` into a pool pays out, checked.
///
/// Fails with `ArithmeticOverflow` when the fee exceeds 10 000 basis points,
/// when the pool has nothing to price against (an empty input reserve and
/// nothing left of the input after the fee), or when the product of the
/// output reserve and the input after the fee exceeds 128 bits.
pub fn swap_amount_out(reserve_in: u64, reserve_out: u64, fee_bps: u16, amount_in: u64) -> (r: Result<
    u64,
    ProgramError,
>)
    ensures
        r is Ok <==> swap_defined(reserve_in as nat, reserve_out as nat, fee_bps as nat, amount_in as nat),
        r matches Ok(out) ==> out == swap_output(
            reserve_in as nat,
            reserve_out as nat,
            fee_bps as nat,
            amount_in as nat,
        ) && out <= reserve_out,
        r matches Err(e) ==> e == ProgramError::ArithmeticOverflow,
{
    if fee_bps > BPS_DENOMINATOR {
        return Err(ProgramError::ArithmeticOverflow);
    }
    let keep: u128 = (BPS_DENOMINATOR - fee_bps) as u128;
    assert(amount_in as int * keep as int <= 0xffff_ffff_ffff_ffff * 10_000) by (nonlinear_arith)
        requires
            0 <= amount_in <= 0xffff_ffff_ffff_ffff,
            0 <= keep <= 10_000,
    ;
    let after_fee: u128 = (amount_in as u128) * keep;
    assert(after_fee == amount_after_fee(amount_in as nat, fee_bps as nat));
    assert(BPS_DENOMINATOR == 10_000);
    assert(reserve_in as int * 10_000 <= 0xffff_ffff_ffff_ffff * 10_000);
    let denominator: u128 = (reserve_in as u128) * (BPS_DENOMINATOR as u128) + after_fee;
    if denominator == 0 {
        return Err(ProgramError::ArithmeticOverflow);
    }
    match (reserve_out as u128).checked_mul(after_fee) {
        None => Err(ProgramError::ArithmeticOverflow),
        Some(numerator) => {
            let out: u128 = numerator / denominator;
            proof {
                assert(numerator as int <= reserve_out as int * denominator as int)
                    by (nonlinear_arith)
                    requires
                        numerator == reserve_out as int * after_fee as int,
                        after_fee <= denominator,
                        0 <= reserve_out,
                ;
                lemma_quotient_at_most(numerator as int, denominator as int, reserve_out as int);
            }
            Ok(out as u64)
        },
    }
}

/// Whether the output of a swap can be computed within 128 bits.
pub open spec fn swap_defined(reserve_in: nat, reserve_out: nat, fee_bps: nat, amount_in: nat) -> bool {
    &&& fee_bps <= BPS_DENOMINATOR
    &&& reserve_in * BPS_DENOMINATOR + amount_after_fee(amount_in, fee_bps) > 0
    &&& reserve_out * amount_after_fee(amount_in, fee_bps) <= u128::MAX
}

/// The amounts that a deposit of at most `desired_a` and `desired_b` takes.
///
/// Fails with `ArithmeticOverflow` when the pool holds nothing of the first
/// side, so that no proportion exists.
pub fn liquidity_take(reserve_a: u64, reserve_b: u64, desired_a: u64, desired_b: u64) -> (r: Result<
    (u64, u64),
    ProgramError,
>)
    ensures
        r is Ok <==> reserve_a > 0,
        r matches Ok(take) ==> (take.0 as nat, take.1 as nat) == deposit_take(
            reserve_a as nat,
            reserve_b as nat,
            desired_a as nat,
            desired_b as nat,
        ) && take.0 <= desired_a && take.1 <= desired_b,
        r matches Err(e) ==> e == ProgramError::ArithmeticOverflow,
{
    if reserve_a == 0 {
        return Err(ProgramError::ArithmeticOverflow);
    }
    proof {
        lemma_product_fits(desired_a, reserve_b);
        lemma_product_fits(desired_b, reserve_a);
    }
    let needed_b: u128 = (desired_a as u128) * (reserve_b as u128) / (reserve_a as u128);
    if needed_b <= desired_b as u128 {
        Ok((desired_a, needed_b as u64))
    } else {
        proof {
            let (da, db) = (desired_a as int, desired_b as int);
            let (ra, rb) = (reserve_a as int, reserve_b as int);
            lemma_quotient_bounds(da * rb, ra);
            if rb == 0 {
                assert(da * rb == 0) by (nonlinear_arith)
                    requires
                        rb == 0,
                ;
            }
            assert((db + 1) * ra <= needed_b * ra) by (nonlinear_arith)
                requires
                    db + 1 <= needed_b,
                    0 < ra,
            ;
            assert((db + 1) * ra == db * ra + ra) by (nonlinear_arith);
            assert(0 <= db * ra) by (nonlinear_arith)
                requires
                    0 <= db,
                    0 <= ra,
            ;
            lemma_quotient_at_most(db * ra, rb, da);
        }
        let take_a: u128 = (desired_b as u128) * (reserve_a as u128) / (reserve_b as u128);
        Ok((take_a as u64, desired_b))
    }
}

/// The product of two 64-bit quantities fits in 128 bits.
pub proof fn lemma_product_fits(x: u64, y: u64)
    ensures
        0 <= x as int * y as int <= u128::MAX,
{
    assert(0 <= x as int * y as int <= 0xffff_ffff_ffff_ffff * 0xffff_ffff_ffff_ffff)
        by (nonlinear_arith)
        requires
            0 <= x <= 0xffff_ffff_ffff_ffff,
            0 <= y <= 0xffff_ffff_ffff_ffff,
    ;
}

/// Whether the liquidity for a deposit can be computed and fits in 64 bits.
pub open spec fn deposit_liquidity_defined(
    take_a: nat,
    take_b: nat,
    reserve_a: nat,
    reserve_b: nat,
    supply: nat,
) -> bool {
    &&& reserve_a > 0
    &&& reserve_b > 0
    &&& deposit_liquidity(take_a, take_b, reserve_a, reserve_b, supply) <= u64::MAX
}

/// The liquidity minted for a deposit of `take_a` and `take_b` into a pool
/// with the given reserves and liquidity supply.
///
/// Fails with `ArithmeticOverflow` when a reserve is empty or the liquidity
/// exceeds 64 bits.
pub fn liquidity_minted(take_a: u64, take_b: u64, reserve_a: u64, reserve_b: u64, supply: u64) -> (r:
    Result<u64, ProgramError>)
    ensures
        r is Ok <==> deposit_liquidity_defined(
            take_a as nat,
            take_b as nat,
            reserve_a as nat,
            reserve_b as nat,
            supply as nat,
        ),
        r matches Ok(lp) ==> lp == deposit_liquidity(
            take_a as nat,
            take_b as nat,
            reserve_a as nat,
            reserve_b as nat,
            supply as nat,
        ),
        r matches Err(e) ==> e == ProgramError::ArithmeticOverflow,
{
    if reserve_a == 0 || reserve_b == 0 {
        return Err(ProgramError::ArithmeticOverflow);
    }
    proof {
        lemma_product_fits(take_a, supply);
        lemma_product_fits(take_b, supply);
    }
    let from_a: u128 = (take_a as u128) * (supply as u128) / (reserve_a as u128);
    let from_b: u128 = (take_b as u128) * (supply as u128) / (reserve_b as u128);
    let lp: u128 = if from_a <= from_b {
        from_a
    } else {
        from_b
    };
    if lp > u64::MAX as u128 {
        Err(ProgramError::ArithmeticOverflow)
    } else {
        Ok(lp as u64)
    }
}

/// What `liquidity` out of a supply of `supply` redeems of `reserve`, in 128
/// bits. Fails with `UninitializedAccount` when no liquidity exists.
pub fn withdraw_amount(liquidity: u64, reserve: u64, supply: u64) -> (r: Result<u128, ProgramError>)
    ensures
        supply == 0 ==> r == Err::<u128, ProgramError>(ProgramError::UninitializedAccount),
        supply > 0 ==> r == Ok::<u128, ProgramError>(
            withdraw_share(liquidity as nat, reserve as nat, supply as nat) as u128,
        ),
        r matches Ok(out) ==> out == withdraw_share(liquidity as nat, reserve as nat, supply as nat),
{
    if supply == 0 {
        return Err(ProgramError::UninitializedAccount);
    }
    proof {
        lemma_product_fits(liquidity, reserve);
        lemma_quotient_bounds(liquidity as int * reserve as int, supply as int);
        assert((liquidity as int * reserve as int / supply as int) * 1 <= (liquidity as int
            * reserve as int / supply as int) * supply as int) by (nonlinear_arith)
            requires
                1 <= supply,
                0 <= liquidity as int * reserve as int / supply as int,
        ;
    }
    Ok((liquidity as u128) * (reserve as u128) / (supply as u128))
}

/// A swap never lowers the product of the reserves: with the input added to
/// one reserve and the output taken from the other, the product is at least
/// what it was. The output never exceeds the reserve it is paid from.
pub proof fn law_swap_keeps_product(reserve_in: nat, reserve_out: nat, fee_bps: nat, amount_in: nat)
    requires
        amount_in > 0,
        fee_bps <= BPS_DENOMINATOR,
        reserve_in * BPS_DENOMINATOR + amount_after_fee(amount_in, fee_bps) > 0,
    ensures
        0 <= swap_output(reserve_in, reserve_out, fee_bps, amount_in) <= reserve_out,
        (reserve_in + amount_in) * (reserve_out - swap_output(
            reserve_in,
            reserve_out,
            fee_bps,
            amount_in,
        )) >= reserve_in * reserve_out,
{
    let keep: int = BPS_DENOMINATOR - fee_bps;
    let after_fee: int = amount_after_fee(amount_in, fee_bps);
    let denominator: int = reserve_in * BPS_DENOMINATOR + after_fee;
    let numerator: int = reserve_out * after_fee;
    let out: int = swap_output(reserve_in, reserve_out, fee_bps, amount_in);
    let (ri, ro, ain) = (reserve_in as int, reserve_out as int, amount_in as int);
    assert(0 <= after_fee) by (nonlinear_arith)
        requires
            after_fee == ain * keep,
            0 <= ain,
            0 <= keep,
    ;
    assert(0 <= numerator) by (nonlinear_arith)
        requires
            numerator == ro * after_fee,
            0 <= ro,
            0 <= after_fee,
    ;
    assert(numerator <= ro * denominator) by (nonlinear_arith)
        requires
            numerator == ro * after_fee,
            denominator == ri * 10_000 + after_fee,
            0 <= ri,
            0 <= ro,
    ;
    lemma_quotient_bounds(numerator, denominator);
    lemma_quotient_at_most(numerator, denominator, ro);
    assert(out == numerator / denominator);
    // out * (10000 * ri + ain * keep) <= ro * ain * keep
    assert(out * (10_000 * ri + 10_000 * ain) <= 10_000 * ain * ro) by (nonlinear_arith)
        requires
            out * denominator <= numerator,
            numerator == ro * after_fee,
            denominator == ri * 10_000 + after_fee,
            after_fee == ain * keep,
            0 <= keep <= 10_000,
            0 <= out <= ro,
            0 <= ain,
    ;
    assert((ri + ain) * (ro - out) >= ri * ro) by (nonlinear_arith)
        requires
            out * (10_000 * ri + 10_000 * ain) <= 10_000 * ain * ro,
    ;
}

/// A deposit takes no more than was offered of either side.
pub proof fn law_deposit_within_offer(reserve_a: nat, reserve_b: nat, desired_a: nat, desired_b: nat)
    requires
        reserve_a > 0,
    ensures
        deposit_take(reserve_a, reserve_b, desired_a, desired_b).0 <= desired_a,
        deposit_take(reserve_a, reserve_b, desired_a, desired_b).1 <= desired_b,
{
    let (da, db) = (desired_a as int, desired_b as int);
    let (ra, rb) = (reserve_a as int, reserve_b as int);
    let needed_b = da * rb / ra;
    assert(0 <= da * rb) by (nonlinear_arith)
        requires
            0 <= da,
            0 <= rb,
    ;
    lemma_quotient_bounds(da * rb, ra);
    if needed_b > db {
        if rb == 0 {
            assert(da * rb == 0) by (nonlinear_arith)
                requires
                    rb == 0,
            ;
        }
        assert((db + 1) * ra <= needed_b * ra) by (nonlinear_arith)
            requires
                db + 1 <= needed_b,
                0 < ra,
        ;
        assert((db + 1) * ra == db * ra + ra) by (nonlinear_arith);
        assert(0 <= db * ra) by (nonlinear_arith)
            requires
                0 <= db,
                0 <= ra,
        ;
        lemma_quotient_at_most(db * ra, rb, da);
    }
}

/// A deposit that is withdrawn at once gives back no more than it took: with
/// the liquidity minted for the deposit redeemed against the reserves and the
/// supply as the deposit left them, each side pays out at most what the
/// deposit took of it, which is at most what was offered.
pub proof fn law_deposit_then_withdraw(
    reserve_a: nat,
    reserve_b: nat,
    supply: nat,
    desired_a: nat,
    desired_b: nat,
)
    requires
        reserve_a > 0,
        reserve_b > 0,
        supply + deposit_liquidity(
            deposit_take(reserve_a, reserve_b, desired_a, desired_b).0,
            deposit_take(reserve_a, reserve_b, desired_a, desired_b).1,
            reserve_a,
            reserve_b,
            supply,
        ) > 0,
    ensures
        ({
            let take = deposit_take(reserve_a, reserve_b, desired_a, desired_b);
            let minted = deposit_liquidity(take.0, take.1, reserve_a, reserve_b, supply);
            &&& withdraw_share(minted, reserve_a + take.0, supply + minted) <= take.0 <= desired_a
            &&& withdraw_share(minted, reserve_b + take.1, supply + minted) <= take.1 <= desired_b
        }),
{
    let take = deposit_take(reserve_a, reserve_b, desired_a, desired_b);
    let minted = deposit_liquidity(take.0, take.1, reserve_a, reserve_b, supply);
    law_deposit_within_offer(reserve_a, reserve_b, desired_a, desired_b);
    lemma_share_of_deposit(minted, take.0, reserve_a, supply);
    lemma_share_of_deposit(minted, take.1, reserve_b, supply);
}

/// Liquidity that is at most the proportional share of a deposit redeems at
/// most the deposit.
proof fn lemma_share_of_deposit(minted: nat, take: nat, reserve: nat, supply: nat)
    requires
        reserve > 0,
        supply + minted > 0,
        minted <= take * supply / reserve,
    ensures
        withdraw_share(minted, reserve + take, supply + minted) <= take,
{
    let (m, t, r, s) = (minted as int, take as int, reserve as int, supply as int);
    assert(0 <= t * s) by (nonlinear_arith)
        requires
            0 <= t,
            0 <= s,
    ;
    lemma_quotient_bounds(t * s, r);
    assert(m * r <= (t * s / r) * r) by (nonlinear_arith)
        requires
            m <= t * s / r,
            0 < r,
    ;
    assert(m * (r + t) <= t * (s + m)) by (nonlinear_arith)
        requires
            m * r <= t * s,
    ;
    assert(0 <= m * (r + t)) by (nonlinear_arith)
        requires
            0 <= m,
            0 <= r,
            0 <= t,
    ;
    lemma_quotient_at_most(m * (r + t), s + m, t);
}

} // verus!
