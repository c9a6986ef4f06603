//! The record that a pool keeps in its account.

use crate::address::{lemma_address_of, lemma_view_injective, Address};
use crate::codec::{put_address, put_u16, put_u64, read_u16, read_u64};
use crate::program_error::ProgramError;
use vstd::bytes::{
    lemma_auto_spec_u16_to_from_le_bytes, lemma_auto_spec_u64_to_from_le_bytes,
    spec_u16_from_le_bytes, spec_u16_to_le_bytes, spec_u64_from_le_bytes, spec_u64_to_le_bytes,
};
use vstd::prelude::*;

verus! {

/// One pool: the two mints that it trades, what it holds of each, its fee,
/// and the bump seed of its own address.
///
/// A pool that was created has two different mints and a fee of at most
/// 10 000 basis points. A record that is read from account data may hold
/// anything; the processors check what they depend on.
#[derive(Clone, Copy, Debug, PartialEq, Eq)]
pub struct LiquidityPool {
    pub mint_a: Address,
    pub mint_b: Address,
    pub reserve_a: u64,
    pub reserve_b: u64,
    pub fee_bps: u16,
    pub bump: u8,
}

impl LiquidityPool {
    /// Bytes of a stored pool: two addresses, two 64-bit reserves, the
    /// 16-bit fee and the bump seed.
    pub const SPACE: usize = 83;

    /// What a created pool satisfies.
    pub open spec fn well_formed(self) -> bool {
        &&& self.mint_a != self.mint_b
        &&& self.fee_bps <= 10_000
    }

    /// The stored form of the pool: its fields in order, integers
    /// little-endian.
    pub open spec fn spec_pack(self) -> Seq<u8> {
        self.mint_a@ + self.mint_b@ + spec_u64_to_le_bytes(self.reserve_a) + spec_u64_to_le_bytes(
            self.reserve_b,
        ) + spec_u16_to_le_bytes(self.fee_bps) + seq![self.bump]
    }

    /// The pool stored at the front of `data`. Bytes behind the record are
    /// ignored; data shorter than the record is `BorshIoError`.
    pub open spec fn spec_unpack(data: Seq<u8>) -> Result<LiquidityPool, ProgramError> {
        if data.len() < LiquidityPool::SPACE {
            Err(ProgramError::BorshIoError)
        } else {
            Ok(
                LiquidityPool {
                    mint_a: Address::of(data.subrange(0, 32)),
                    mint_b: Address::of(data.subrange(32, 64)),
                    reserve_a: spec_u64_from_le_bytes(data.subrange(64, 72)),
                    reserve_b: spec_u64_from_le_bytes(data.subrange(72, 80)),
                    fee_bps: spec_u16_from_le_bytes(data.subrange(80, 82)),
                    bump: data[82],
                },
            )
        }
    }

    /// The stored form of the pool.
    pub fn pack(&self) -> (data: Vec<u8>)
        ensures
            data@ == self.spec_pack(),
            data@.len() == LiquidityPool::SPACE,
    {
        let mut data: Vec<u8> = Vec::new();
        put_address(&mut data, &self.mint_a);
        put_address(&mut data, &self.mint_b);
        put_u64(&mut data, self.reserve_a);
        put_u64(&mut data, self.reserve_b);
        put_u16(&mut data, self.fee_bps);
        data.push(self.bump);
        proof {
            lemma_auto_spec_u64_to_from_le_bytes();
            lemma_auto_spec_u16_to_from_le_bytes();
            assert(data@ =~= self.spec_pack());
        }
        data
    }

    /// Reads the pool stored at the front of `data`.
    pub fn unpack(data: &[u8]) -> (r: Result<LiquidityPool, ProgramError>)
        ensures
            r == LiquidityPool::spec_unpack(data@),
    {
        if data.len() < LiquidityPool::SPACE {
            return Err(ProgramError::BorshIoError);
        }
        Ok(
            LiquidityPool {
                mint_a: Address::from_slice(data, 0),
                mint_b: Address::from_slice(data, 32),
                reserve_a: read_u64(data, 64),
                reserve_b: read_u64(data, 72),
                fee_bps: read_u16(data, 80),
                bump: data[82],
            },
        )
    }

    /// Reading what `pack` wrote gives the pool back, whatever follows the
    /// record in the account.
    pub proof fn law_unpack_pack(self, rest: Seq<u8>)
        ensures
            self.spec_pack().len() == LiquidityPool::SPACE,
            LiquidityPool::spec_unpack(self.spec_pack() + rest) == Ok::<LiquidityPool, ProgramError>(
                self,
            ),
    {
        lemma_auto_spec_u64_to_from_le_bytes();
        lemma_auto_spec_u16_to_from_le_bytes();
        let data = self.spec_pack() + rest;
        assert(data.subrange(0, 32) =~= self.mint_a@);
        assert(data.subrange(32, 64) =~= self.mint_b@);
        assert(data.subrange(64, 72) =~= spec_u64_to_le_bytes(self.reserve_a));
        assert(data.subrange(72, 80) =~= spec_u64_to_le_bytes(self.reserve_b));
        assert(data.subrange(80, 82) =~= spec_u16_to_le_bytes(self.fee_bps));
        assert(data[82] == self.bump);
        lemma_address_of(self.mint_a@);
        lemma_address_of(self.mint_b@);
        lemma_view_injective(Address::of(self.mint_a@), self.mint_a);
        lemma_view_injective(Address::of(self.mint_b@), self.mint_b);
    }
}

} // verus!
