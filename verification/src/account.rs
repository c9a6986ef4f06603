//! Accounts as an instruction receives them, and the rent that an account
//! must hold.

use crate::address::Address;
use vstd::prelude::*;

verus! {

/// One account of an instruction: its address, how the transaction passed
/// it, and what the ledger holds for it.
#[derive(Clone, Debug, PartialEq, Eq)]
pub struct AccountInfo {
    pub key: Address,
    pub is_signer: bool,
    pub is_writable: bool,
    pub lamports: u64,
    pub data: Vec<u8>,
    pub owner: Address,
}

/// The rent parameters of the ledger, for the two exemption thresholds that
/// are computed in integers: one and two years of rent.
///
/// The rate is within the limit of its threshold, so that the minimum
/// balance of no permitted account overflows 64 bits.
#[derive(Clone, Copy, Debug)]
pub struct Rent {
    lamports_per_byte: u64,
    exemption_threshold: [u8; 8],
    burn_percent: u8,
}

/// Bytes that every account occupies besides its data.
pub const ACCOUNT_STORAGE_OVERHEAD: u64 = 128;

/// Largest permitted length of the data of an account: 10 MiB.
pub const MAX_PERMITTED_DATA_LENGTH: u64 = 10_485_760;

/// Largest rate with an exemption threshold of one year.
pub const MAX_LAMPORTS_PER_BYTE: u64 = 1_759_197_129_867;

/// Largest rate with an exemption threshold of two years.
pub const MAX_LAMPORTS_PER_BYTE_DOUBLED: u64 = 879_598_564_933;

/// An exemption threshold of one year: the bytes of the floating-point
/// number 1.0, little-endian.
pub const THRESHOLD_ONE: [u8; 8] = [0, 0, 0, 0, 0, 0, 240, 63];

/// An exemption threshold of two years: the bytes of the floating-point
/// number 2.0, little-endian.
pub const THRESHOLD_TWO: [u8; 8] = [0, 0, 0, 0, 0, 0, 0, 64];

/// Whether a rate and a threshold make a rent that is computed in integers
/// without overflow.
pub open spec fn rent_in_integers(lamports_per_byte: u64, exemption_threshold: Seq<u8>) -> bool {
    ||| exemption_threshold == THRESHOLD_ONE@ && lamports_per_byte <= MAX_LAMPORTS_PER_BYTE
    ||| exemption_threshold == THRESHOLD_TWO@ && lamports_per_byte <= MAX_LAMPORTS_PER_BYTE_DOUBLED
}

/// The minimum balance that exempts an account with `data_len` bytes of data
/// from rent: the rate times the length of the data and the storage
/// overhead, doubled for a threshold of two years. `None` for more data than
/// an account may have.
pub open spec fn minimum_balance_of(
    lamports_per_byte: u64,
    exemption_threshold: Seq<u8>,
    data_len: usize,
) -> Option<u64> {
    if data_len > MAX_PERMITTED_DATA_LENGTH {
        None
    } else if exemption_threshold == THRESHOLD_TWO@ {
        Some((2 * (ACCOUNT_STORAGE_OVERHEAD + data_len) * lamports_per_byte) as u64)
    } else {
        Some(((ACCOUNT_STORAGE_OVERHEAD + data_len) * lamports_per_byte) as u64)
    }
}

impl Rent {
    #[verifier::type_invariant]
    spec fn in_integers(self) -> bool {
        rent_in_integers(self.lamports_per_byte, self.exemption_threshold@)
    }

    /// Lamports per byte and year.
    pub closed spec fn spec_lamports_per_byte(self) -> u64 {
        self.lamports_per_byte
    }

    /// The exemption threshold, as the bytes of a floating-point number.
    pub closed spec fn spec_exemption_threshold(self) -> Seq<u8> {
        self.exemption_threshold@
    }

    /// The part of collected rent that is burnt, in percent.
    pub closed spec fn spec_burn_percent(self) -> u8 {
        self.burn_percent
    }

    /// The minimum balance that exempts an account with `data_len` bytes of
    /// data from rent.
    pub open spec fn spec_minimum_balance(self, data_len: usize) -> Option<u64> {
        minimum_balance_of(self.spec_lamports_per_byte(), self.spec_exemption_threshold(), data_len)
    }

    /// The rent with the given parameters, where the threshold is one or two
    /// years and the rate is within its limit.
    pub fn new(lamports_per_byte: u64, exemption_threshold: [u8; 8], burn_percent: u8) -> (r: Option<
        Rent,
    >)
        ensures
            r is Some <==> rent_in_integers(lamports_per_byte, exemption_threshold@),
            r matches Some(rent) ==> rent.spec_lamports_per_byte() == lamports_per_byte
                && rent.spec_exemption_threshold() == exemption_threshold@
                && rent.spec_burn_percent() == burn_percent,
    {
        let one = same_bytes(&exemption_threshold, &THRESHOLD_ONE);
        let two = same_bytes(&exemption_threshold, &THRESHOLD_TWO);
        if (one && lamports_per_byte <= MAX_LAMPORTS_PER_BYTE) || (two && lamports_per_byte
            <= MAX_LAMPORTS_PER_BYTE_DOUBLED) {
            Some(Rent { lamports_per_byte, exemption_threshold, burn_percent })
        } else {
            None
        }
    }

    /// The minimum balance that exempts an account with `data_len` bytes of
    /// data from rent.
    pub fn minimum_balance(&self, data_len: usize) -> (r: Option<u64>)
        ensures
            r == self.spec_minimum_balance(data_len),
            data_len <= MAX_PERMITTED_DATA_LENGTH <==> r is Some,
    {
        proof {
            use_type_invariant(self);
        }
        try_minimum_balance(self.lamports_per_byte, self.exemption_threshold, self.burn_percent, data_len)
    }
}

/// Whether two arrays of eight bytes hold the same bytes.
fn same_bytes(a: &[u8; 8], b: &[u8; 8]) -> (r: bool)
    ensures
        r == (a@ == b@),
{
    let mut i: usize = 0;
    while i < 8
        invariant
            0 <= i <= 8,
            forall|j: int| 0 <= j < i ==> a@[j] == b@[j],
        decreases 8 - i,
    {
        if a[i] != b[i] {
            return false;
        }
        i += 1;
    }
    assert(a@ =~= b@);
    true
}

/// `Rent::try_minimum_balance` of solana_program, for a rent whose exemption
/// threshold is one or two years and whose rate is within the limit of that
/// threshold: `None` for more than 10 MiB of data, and otherwise the rate
/// times the length of the data and the storage overhead, doubled for two
/// years. Other thresholds are computed in floating point and left out.
#[verifier::external_body]
fn try_minimum_balance(
    lamports_per_byte: u64,
    exemption_threshold: [u8; 8],
    burn_percent: u8,
    data_len: usize,
) -> (r: Option<u64>)
    requires
        rent_in_integers(lamports_per_byte, exemption_threshold@),
    ensures
        r == minimum_balance_of(lamports_per_byte, exemption_threshold@, data_len),
{
    #[allow(deprecated)]
    let rent = solana_program::rent::Rent { lamports_per_byte, exemption_threshold, burn_percent };
    rent.try_minimum_balance(data_len)
}

} // verus!
