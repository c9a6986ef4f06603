//! Account addresses and the addresses that a program derives from seeds.

use crate::program_error::ProgramError;
use vstd::prelude::*;

verus! {

/// Largest number of seeds from which an address can be derived.
pub const MAX_SEEDS: usize = 16;

/// Largest number of bytes of a single seed.
pub const MAX_SEED_LEN: usize = 32;

/// The address of an account: 32 bytes.
#[derive(Clone, Copy, Debug)]
pub struct Address {
    pub bytes: [u8; 32],
}

impl View for Address {
    type V = Seq<u8>;

    open spec fn view(&self) -> Seq<u8> {
        self.bytes@
    }
}

/// `a` comes before `b` in the lexicographic order of byte strings.
pub open spec fn lex_less(a: Seq<u8>, b: Seq<u8>) -> bool
    decreases a.len(),
{
    if b.len() == 0 {
        false
    } else if a.len() == 0 {
        true
    } else if a[0] != b[0] {
        a[0] < b[0]
    } else {
        lex_less(a.drop_first(), b.drop_first())
    }
}

/// Two addresses with the same bytes are the same address.
pub proof fn lemma_view_injective(a: Address, b: Address)
    requires
        a@ == b@,
    ensures
        a == b,
{
    assert(a.bytes =~= b.bytes);
}

/// Byte strings that agree on their first `k` bytes compare as their
/// remainders do.
proof fn lemma_lex_less_skip(a: Seq<u8>, b: Seq<u8>, k: int)
    requires
        0 <= k <= a.len(),
        k <= b.len(),
        forall|j: int| 0 <= j < k ==> a[j] == b[j],
    ensures
        lex_less(a, b) == lex_less(a.skip(k), b.skip(k)),
    decreases k,
{
    if k == 0 {
        assert(a.skip(0) =~= a);
        assert(b.skip(0) =~= b);
    } else {
        assert(a.drop_first().skip(k - 1) =~= a.skip(k));
        assert(b.drop_first().skip(k - 1) =~= b.skip(k));
        lemma_lex_less_skip(a.drop_first(), b.drop_first(), k - 1);
    }
}

/// The array that holds the first `n` bytes of `s` in front of what `base`
/// holds behind them.
spec fn overwritten(base: [u8; 32], s: Seq<u8>, n: nat) -> [u8; 32]
    decreases n,
{
    if n == 0 {
        base
    } else {
        vstd::array::spec_array_update(overwritten(base, s, (n - 1) as nat), n - 1, s[n - 1])
    }
}

/// The first `n` bytes of the overwritten array are those of `s`.
proof fn lemma_overwritten(base: [u8; 32], s: Seq<u8>, n: nat)
    requires
        n <= 32,
        s.len() == 32,
    ensures
        forall|j: int| 0 <= j < n ==> overwritten(base, s, n)@[j] == s[j],
    decreases n,
{
    if n > 0 {
        lemma_overwritten(base, s, (n - 1) as nat);
    }
}

/// Every string of 32 bytes is the view of an address.
pub proof fn lemma_address_of(s: Seq<u8>)
    requires
        s.len() == 32,
    ensures
        Address::of(s)@ == s,
{
    let base: [u8; 32] = arbitrary();
    lemma_overwritten(base, s, 32);
    let witness = Address { bytes: overwritten(base, s, 32) };
    assert(witness@ =~= s);
}

impl Address {
    /// The address whose bytes are `s`, a string of 32 bytes.
    pub open spec fn of(s: Seq<u8>) -> Address {
        choose|a: Address| a@ == s
    }

    /// The address held in the 32 bytes of `data` that start at `at`.
    pub fn from_slice(data: &[u8], at: usize) -> (a: Address)
        requires
            at + 32 <= data@.len(),
        ensures
            a@ == data@.subrange(at as int, at + 32),
            a == Address::of(data@.subrange(at as int, at + 32)),
    {
        let len = data.len();
        let mut bytes: [u8; 32] = [0u8; 32];
        let mut i: usize = 0;
        while i < 32
            invariant
                0 <= i <= 32,
                at + 32 <= data@.len() == len,
                forall|j: int| 0 <= j < i ==> bytes@[j] == data@[at + j],
            decreases 32 - i,
        {
            bytes[i] = data[at + i];
            i += 1;
        }
        let a = Address { bytes };
        proof {
            assert(a@ =~= data@.subrange(at as int, at + 32));
            lemma_address_of(a@);
            lemma_view_injective(a, Address::of(a@));
        }
        a
    }

    /// The address made of the given bytes.
    pub fn new_from_array(bytes: [u8; 32]) -> (a: Address)
        ensures
            a.bytes == bytes,
    {
        Address { bytes }
    }

    /// The bytes of the address, as an owned vector.
    pub fn to_vec(&self) -> (v: Vec<u8>)
        ensures
            v@ == self@,
    {
        let mut v: Vec<u8> = Vec::new();
        let mut i: usize = 0;
        while i < 32
            invariant
                0 <= i <= 32,
                v@ == self@.subrange(0, i as int),
            decreases 32 - i,
        {
            v.push(self.bytes[i]);
            i += 1;
        }
        v
    }

    /// Whether `self` sorts strictly before `other`, byte by byte.
    pub fn precedes(&self, other: &Address) -> (r: bool)
        ensures
            r == lex_less(self@, other@),
    {
        let mut i: usize = 0;
        while i < 32
            invariant
                0 <= i <= 32,
                forall|j: int| 0 <= j < i ==> self.bytes[j] == other.bytes[j],
            decreases 32 - i,
        {
            if self.bytes[i] != other.bytes[i] {
                proof {
                    lemma_lex_less_skip(self@, other@, i as int);
                }
                return self.bytes[i] < other.bytes[i];
            }
            i += 1;
        }
        proof {
            lemma_lex_less_skip(self@, other@, 32);
        }
        false
    }
}

/// The seeds of a list, each as the string of its bytes.
pub open spec fn seed_views(seeds: Seq<Vec<u8>>) -> Seq<Seq<u8>> {
    seeds.map_values(|seed: Vec<u8>| seed@)
}

/// Whether a list of seeds is within the limits of address derivation: at
/// most `MAX_SEEDS` seeds of at most `MAX_SEED_LEN` bytes each.
pub open spec fn seeds_within_limits(seeds: Seq<Seq<u8>>) -> bool {
    &&& seeds.len() <= MAX_SEEDS
    &&& forall|i: int| 0 <= i < seeds.len() ==> (#[trigger] seeds[i]).len() <= MAX_SEED_LEN
}

/// The address that `seeds` derive for the program `program_id`, for seeds
/// within the limits: the hash of the seeds, the program's address and a
/// fixed marker, provided the hash is no point of the ed25519 curve, so that
/// no private key belongs to it. `None` when the hash is such a point.
pub uninterp spec fn created_program_address(seeds: Seq<Seq<u8>>, program_id: Seq<u8>) -> Option<
    Seq<u8>,
>;

/// The address that a search for a bump seed derives from `seeds` for the
/// program `program_id`, with the bump seed that the search settled on.
pub uninterp spec fn found_program_address(seeds: Seq<Seq<u8>>, program_id: Seq<u8>) -> Option<
    (Seq<u8>, u8),
>;

/// `Pubkey::create_program_address` of solana_program: fails with
/// `MaxSeedLengthExceeded` on more than `MAX_SEEDS` seeds or a seed of more
/// than `MAX_SEED_LEN` bytes, with `InvalidSeeds` when the hash of the seeds
/// lies on the curve, and otherwise returns the derived address, which depends
/// on the seeds and the program's address alone.
#[verifier::external_body]
fn create_program_address(seeds: &Vec<Vec<u8>>, program_id: &Address) -> (r: Result<Address, ProgramError>)
    ensures
        r is Ok ==> seeds_within_limits(seed_views(seeds@)),
        r matches Ok(a) ==> created_program_address(seed_views(seeds@), program_id@) == Some(a@),
        r matches Err(e) ==> e == (if seeds_within_limits(seed_views(seeds@)) {
            ProgramError::InvalidSeeds
        } else {
            ProgramError::MaxSeedLengthExceeded
        }),
        r is Err && seeds_within_limits(seed_views(seeds@)) ==> created_program_address(
            seed_views(seeds@),
            program_id@,
        ) is None,
{
    let parts: Vec<&[u8]> = seeds.iter().map(|s| s.as_slice()).collect();
    match solana_program::pubkey::Pubkey::create_program_address(&parts, &program_id.bytes.into()) {
        Ok(a) => Ok(Address { bytes: a.to_bytes() }),
        Err(solana_program::pubkey::PubkeyError::MaxSeedLengthExceeded) => Err(
            ProgramError::MaxSeedLengthExceeded,
        ),
        Err(_) => Err(ProgramError::InvalidSeeds),
    }
}

/// `Pubkey::try_find_program_address` of solana_program: tries the bump seeds
/// from 255 downwards, each appended to `seeds` as a last seed of one byte,
/// and returns the first address that `create_program_address` derives, with
/// its bump seed. `None` when `MAX_SEEDS` seeds or more are given, when a seed
/// is too long, or when no bump seed derives an address. The result depends
/// on the seeds and the program's address alone.
#[verifier::external_body]
fn find_program_address(seeds: &Vec<Vec<u8>>, program_id: &Address) -> (r: Option<(Address, u8)>)
    ensures
        r matches Some((a, bump)) ==> found_program_address(seed_views(seeds@), program_id@) == Some(
            (a@, bump),
        ),
        r matches Some((a, bump)) ==> seeds_within_limits(seed_views(seeds@).push(seq![bump]))
            && created_program_address(seed_views(seeds@).push(seq![bump]), program_id@) == Some(a@),
        r is None ==> found_program_address(seed_views(seeds@), program_id@) is None,
{
    let parts: Vec<&[u8]> = seeds.iter().map(|s| s.as_slice()).collect();
    let found = solana_program::pubkey::Pubkey::try_find_program_address(
        &parts,
        &program_id.bytes.into(),
    );
    found.map(|(a, bump)| (Address { bytes: a.to_bytes() }, bump))
}

/// What deriving an address from `seeds` for the program `program_id`
/// gives: the address, `MaxSeedLengthExceeded` for seeds beyond the limits,
/// or `InvalidSeeds` where the seeds derive no address.
pub open spec fn spec_derive_address(seeds: Seq<Seq<u8>>, program_id: Address) -> Result<
    Address,
    ProgramError,
> {
    if !seeds_within_limits(seeds) {
        Err(ProgramError::MaxSeedLengthExceeded)
    } else {
        match created_program_address(seeds, program_id@) {
            Some(address) => Ok(Address::of(address)),
            None => Err(ProgramError::InvalidSeeds),
        }
    }
}

/// What the search for a bump seed from `seeds` gives for the program
/// `program_id`: the address and its bump seed, where one is found.
pub open spec fn spec_find_address(seeds: Seq<Seq<u8>>, program_id: Address) -> Option<(Address, u8)> {
    match found_program_address(seeds, program_id@) {
        Some((address, bump)) => Some((Address::of(address), bump)),
        None => None,
    }
}

/// The address that `seeds` derive for the program `program_id`.
pub fn derive_address(seeds: &Vec<Vec<u8>>, program_id: &Address) -> (r: Result<Address, ProgramError>)
    ensures
        r == spec_derive_address(seed_views(seeds@), *program_id),
{
    match create_program_address(seeds, program_id) {
        Ok(address) => {
            proof {
                lemma_address_of(address@);
                lemma_view_injective(address, Address::of(address@));
            }
            Ok(address)
        },
        Err(e) => Err(e),
    }
}

/// The address that `seeds` and the first bump seed from 255 downwards that
/// derives one derive for the program `program_id`, with that bump seed.
/// The seeds with the bump seed behind them derive the address found.
pub fn find_address(seeds: &Vec<Vec<u8>>, program_id: &Address) -> (r: Option<(Address, u8)>)
    ensures
        r == spec_find_address(seed_views(seeds@), *program_id),
        r matches Some((address, bump)) ==> spec_derive_address(
            seed_views(seeds@).push(seq![bump]),
            *program_id,
        ) == Ok::<Address, ProgramError>(address),
{
    match find_program_address(seeds, program_id) {
        Some((address, bump)) => {
            proof {
                lemma_address_of(address@);
                lemma_view_injective(address, Address::of(address@));
            }
            Some((address, bump))
        },
        None => None,
    }
}

/// Whether `derived` is the address `key`.
pub fn is_address(derived: Option<Address>, key: &Address) -> (r: bool)
    ensures
        r == (derived == Some(*key)),
{
    match derived {
        Some(address) => address == *key,
        None => false,
    }
}

/// The bump seed of `found`, where the address found is `key`.
pub open spec fn bump_at(found: Option<(Address, u8)>, key: Address) -> Option<u8> {
    match found {
        Some((address, bump)) => if address == key {
            Some(bump)
        } else {
            None
        },
        None => None,
    }
}

/// The bump seed of `found`, where the address found is `key`.
pub fn bump_of(found: Option<(Address, u8)>, key: &Address) -> (r: Option<u8>)
    ensures
        r == bump_at(found, *key),
{
    match found {
        Some((address, bump)) => if address == *key {
            Some(bump)
        } else {
            None
        },
        None => None,
    }
}

/// The address of `found`, without its bump seed.
pub open spec fn address_of_found(found: Option<(Address, u8)>) -> Option<Address> {
    match found {
        Some((address, _)) => Some(address),
        None => None,
    }
}

impl PartialEq for Address {
    fn eq(&self, other: &Address) -> (r: bool) {
        let mut i: usize = 0;
        while i < 32
            invariant
                0 <= i <= 32,
                forall|j: int| 0 <= j < i ==> self.bytes[j] == other.bytes[j],
            decreases 32 - i,
        {
            if self.bytes[i] != other.bytes[i] {
                return false;
            }
            i += 1;
        }
        assert(self.bytes =~= other.bytes);
        true
    }
}

impl vstd::std_specs::cmp::PartialEqSpecImpl for Address {
    open spec fn obeys_eq_spec() -> bool {
        true
    }

    open spec fn eq_spec(&self, other: &Address) -> bool {
        *self == *other
    }
}

impl Eq for Address {

}

} // verus!
