//! The record that the swap pool keeps in its account: the mints of the
//! assets it was funded with, and the bump seed of its address.

use crate::address::Address;
use crate::codec::{put_address, put_u32};
use crate::program_error::ProgramError;
use vstd::bytes::{spec_u32_from_le_bytes, spec_u32_to_le_bytes, u32_from_le_bytes};
use vstd::prelude::*;
use vstd::slice::slice_subrange;

verus! {

/// The swap pool.
#[derive(Clone, Debug, PartialEq, Eq)]
pub struct LiquidityPool {
    pub assets: Vec<Address>,
    pub bump: u8,
}

/// The swap pool, as specifications see it.
pub struct LiquidityPoolView {
    pub assets: Seq<Address>,
    pub bump: u8,
}

impl View for LiquidityPool {
    type V = LiquidityPoolView;

    open spec fn view(&self) -> LiquidityPoolView {
        LiquidityPoolView { assets: self.assets@, bump: self.bump }
    }
}

/// The bytes of the first `count` assets of `assets`, one after another.
pub open spec fn packed_assets(assets: Seq<Address>, count: nat) -> Seq<u8>
    decreases count,
{
    if count == 0 {
        Seq::empty()
    } else {
        packed_assets(assets, (count - 1) as nat) + assets[count - 1]@
    }
}

/// The assets stored in `data` behind the count: `count` addresses of 32
/// bytes each.
pub open spec fn stored_assets(data: Seq<u8>, count: nat) -> Seq<Address> {
    Seq::new(count, |i: int| Address::of(data.subrange(4 + 32 * i, 36 + 32 * i)))
}

impl LiquidityPoolView {
    /// The stored form of the pool: the number of assets as a 32-bit
    /// little-endian number, the assets, and the bump seed.
    pub open spec fn spec_pack(self) -> Seq<u8> {
        spec_u32_to_le_bytes(self.assets.len() as u32) + packed_assets(
            self.assets,
            self.assets.len(),
        ) + seq![self.bump]
    }
}

impl LiquidityPool {
    /// The seed of the pool's address.
    pub const SEED_PREFIX: &'static str = "liquidity_pool";

    /// Bytes of a stored pool without assets.
    pub const SPACE: usize = 5;

    /// The pool stored at the front of `data`. Bytes behind the record are
    /// ignored; data that ends within the record is `BorshIoError`.
    pub open spec fn spec_unpack(data: Seq<u8>) -> Result<LiquidityPoolView, ProgramError> {
        if data.len() < 4 {
            Err(ProgramError::BorshIoError)
        } else {
            let count = spec_u32_from_le_bytes(data.subrange(0, 4)) as int;
            if data.len() < 4 + 32 * count + 1 {
                Err(ProgramError::BorshIoError)
            } else {
                Ok(
                    LiquidityPoolView {
                        assets: stored_assets(data, count as nat),
                        bump: data[4 + 32 * count],
                    },
                )
            }
        }
    }

    /// Whether `mint` is among the assets of the pool.
    pub fn contains(&self, mint: &Address) -> (r: bool)
        ensures
            r == self@.assets.contains(*mint),
    {
        let mut i: usize = 0;
        while i < self.assets.len()
            invariant
                0 <= i <= self.assets@.len(),
                forall|j: int| 0 <= j < i ==> self.assets@[j] != *mint,
            decreases self.assets@.len() - i,
        {
            if self.assets[i] == *mint {
                return true;
            }
            i += 1;
        }
        false
    }

    /// The stored form of the pool.
    pub fn pack(&self) -> (data: Vec<u8>)
        requires
            self@.assets.len() <= u32::MAX,
        ensures
            data@ == self@.spec_pack(),
    {
        let mut data: Vec<u8> = Vec::new();
        put_u32(&mut data, self.assets.len() as u32);
        let ghost head = data@;
        let mut i: usize = 0;
        while i < self.assets.len()
            invariant
                0 <= i <= self.assets@.len(),
                data@ == head + packed_assets(self.assets@, i as nat),
            decreases self.assets@.len() - i,
        {
            put_address(&mut data, &self.assets[i]);
            i += 1;
            assert(data@ =~= head + packed_assets(self.assets@, i as nat));
        }
        data.push(self.bump);
        data
    }

    /// Reads the pool stored at the front of `data`.
    pub fn unpack(data: &[u8]) -> (r: Result<LiquidityPool, ProgramError>)
        ensures
            r matches Ok(pool) ==> LiquidityPool::spec_unpack(data@) == Ok::<
                LiquidityPoolView,
                ProgramError,
            >(pool@),
            r matches Err(e) ==> LiquidityPool::spec_unpack(data@) == Err::<
                LiquidityPoolView,
                ProgramError,
            >(e),
    {
        let len = data.len();
        if len < 4 {
            return Err(ProgramError::BorshIoError);
        }
        let count = u32_from_le_bytes(slice_subrange(data, 0, 4));
        if (len as u64) < 4 + 32 * (count as u64) + 1 {
            return Err(ProgramError::BorshIoError);
        }
        let mut assets: Vec<Address> = Vec::new();
        let mut i: usize = 0;
        while i < count as usize
            invariant
                0 <= i <= count,
                len == data@.len(),
                4 + 32 * count + 1 <= len,
                assets@ == stored_assets(data@, i as nat),
            decreases count - i,
        {
            assets.push(Address::from_slice(data, 4 + 32 * i));
            i += 1;
            assert(assets@ =~= stored_assets(data@, i as nat));
        }
        Ok(LiquidityPool { assets, bump: data[4 + 32 * (count as usize)] })
    }
}

} // verus!
