//! Fixed-width little-endian fields of account data and instruction payloads.

use crate::address::Address;
use vstd::bytes::{
    spec_u16_from_le_bytes, spec_u16_to_le_bytes, spec_u32_from_le_bytes, spec_u32_to_le_bytes,
    spec_u64_from_le_bytes, spec_u64_to_le_bytes, u16_from_le_bytes, u16_to_le_bytes,
    u32_from_le_bytes, u32_to_le_bytes, u64_from_le_bytes, u64_to_le_bytes,
};
use vstd::prelude::*;
use vstd::slice::{slice_subrange, slice_to_vec};
use vstd::utf8::{decode_utf8, encode_utf8, valid_utf8};

verus! {

/// The 16-bit number in the two bytes of `data` that start at `at`.
pub fn read_u16(data: &[u8], at: usize) -> (x: u16)
    requires
        at + 2 <= data@.len(),
    ensures
        x == spec_u16_from_le_bytes(data@.subrange(at as int, at + 2)),
{
    let len = data.len();
    assert(at + 2 <= len);
    u16_from_le_bytes(slice_subrange(data, at, at + 2))
}

/// The 64-bit number in the eight bytes of `data` that start at `at`.
pub fn read_u64(data: &[u8], at: usize) -> (x: u64)
    requires
        at + 8 <= data@.len(),
    ensures
        x == spec_u64_from_le_bytes(data@.subrange(at as int, at + 8)),
{
    let len = data.len();
    assert(at + 8 <= len);
    u64_from_le_bytes(slice_subrange(data, at, at + 8))
}

/// Appends the bytes of `bytes` to `out`.
pub fn put_bytes(out: &mut Vec<u8>, bytes: &[u8])
    ensures
        final(out)@ == old(out)@ + bytes@,
{
    let n = bytes.len();
    let mut i: usize = 0;
    while i < n
        invariant
            0 <= i <= n,
            n == bytes@.len(),
            out@ == old(out)@ + bytes@.subrange(0, i as int),
        decreases n - i,
    {
        out.push(bytes[i]);
        i += 1;
    }
    assert(bytes@.subrange(0, n as int) =~= bytes@);
}

/// Appends the 32 bytes of `address` to `out`.
pub fn put_address(out: &mut Vec<u8>, address: &Address)
    ensures
        final(out)@ == old(out)@ + address@,
{
    let mut i: usize = 0;
    while i < 32
        invariant
            0 <= i <= 32,
            out@ == old(out)@ + address@.subrange(0, i as int),
        decreases 32 - i,
    {
        out.push(address.bytes[i]);
        i += 1;
    }
    assert(address@.subrange(0, 32) =~= address@);
}

/// Appends `x` to `out`, in two bytes.
pub fn put_u16(out: &mut Vec<u8>, x: u16)
    ensures
        final(out)@ == old(out)@ + spec_u16_to_le_bytes(x),
{
    let bytes = u16_to_le_bytes(x);
    put_bytes(out, bytes.as_slice());
}

/// Appends `x` to `out`, in four bytes.
pub fn put_u32(out: &mut Vec<u8>, x: u32)
    ensures
        final(out)@ == old(out)@ + spec_u32_to_le_bytes(x),
{
    let bytes = u32_to_le_bytes(x);
    put_bytes(out, bytes.as_slice());
}

/// Appends `x` to `out`, in eight bytes.
pub fn put_u64(out: &mut Vec<u8>, x: u64)
    ensures
        final(out)@ == old(out)@ + spec_u64_to_le_bytes(x),
{
    let bytes = u64_to_le_bytes(x);
    put_bytes(out, bytes.as_slice());
}

/// The stored form of a string: the number of its bytes as a 32-bit
/// little-endian number, then its bytes in UTF-8.
pub open spec fn spec_string(text: Seq<char>) -> Seq<u8> {
    spec_u32_to_le_bytes(encode_utf8(text).len() as u32) + encode_utf8(text)
}

/// The string stored at the front of `data`, with the number of bytes that
/// it occupies; `None` where `data` ends within the string or its bytes are
/// not UTF-8.
pub open spec fn spec_take_string(data: Seq<u8>) -> Option<(Seq<char>, int)> {
    if data.len() < 4 {
        None
    } else {
        let len = spec_u32_from_le_bytes(data.subrange(0, 4)) as int;
        if data.len() < 4 + len || !valid_utf8(data.subrange(4, 4 + len)) {
            None
        } else {
            Some((decode_utf8(data.subrange(4, 4 + len)), 4 + len))
        }
    }
}

/// `String::from_utf8` of std: the string that the bytes encode, where they
/// are valid UTF-8, and an error otherwise.
#[verifier::external_body]
fn string_from_utf8(bytes: Vec<u8>) -> (r: Option<String>)
    ensures
        r is Some <==> valid_utf8(bytes@),
        r matches Some(text) ==> text@ == decode_utf8(bytes@),
{
    String::from_utf8(bytes).ok()
}

/// Appends the stored form of `text` to `out`. `false`, with `out` as it
/// was, for a string of more than `u32::MAX` bytes.
pub fn put_string(out: &mut Vec<u8>, text: &str) -> (ok: bool)
    ensures
        ok <==> encode_utf8(text@).len() <= u32::MAX,
        ok ==> final(out)@ == old(out)@ + spec_string(text@),
        !ok ==> final(out)@ == old(out)@,
{
    let bytes = text.as_bytes();
    let len = bytes.len();
    if len > u32::MAX as usize {
        return false;
    }
    put_u32(out, len as u32);
    put_bytes(out, bytes);
    assert(out@ =~= old(out)@ + spec_string(text@));
    true
}

/// Reads the string stored in `data` from byte `at` on.
pub fn take_string(data: &[u8], at: usize) -> (r: Option<(String, usize)>)
    requires
        at <= data@.len(),
    ensures
        r is Some <==> spec_take_string(data@.skip(at as int)) is Some,
        r matches Some((text, next)) ==> spec_take_string(data@.skip(at as int)) == Some(
            (text@, next - at),
        ) && at <= next <= data@.len(),
{
    let total = data.len();
    let ghost rest = data@.skip(at as int);
    if total - at < 4 {
        return None;
    }
    assert(rest.subrange(0, 4) =~= data@.subrange(at as int, at + 4));
    let len = u32_from_le_bytes(slice_subrange(data, at, at + 4)) as usize;
    if total - at - 4 < len {
        return None;
    }
    assert(rest.subrange(4, 4 + len) =~= data@.subrange(at + 4, at + 4 + len));
    let bytes = slice_to_vec(slice_subrange(data, at + 4, at + 4 + len));
    match string_from_utf8(bytes) {
        Some(text) => Some((text, at + 4 + len)),
        None => None,
    }
}

/// The eight bytes of `x`, most significant first.
pub open spec fn spec_u64_to_be_bytes(x: u64) -> Seq<u8> {
    spec_u64_to_le_bytes(x).reverse()
}

/// The eight bytes of `x`, most significant first.
pub fn u64_to_be_bytes(x: u64) -> (bytes: Vec<u8>)
    ensures
        bytes@ == spec_u64_to_be_bytes(x),
        bytes@.len() == 8,
{
    let le = u64_to_le_bytes(x);
    proof {
        vstd::bytes::lemma_auto_spec_u64_to_from_le_bytes();
    }
    let mut bytes: Vec<u8> = Vec::new();
    let mut i: usize = 0;
    while i < 8
        invariant
            0 <= i <= 8,
            le@.len() == 8,
            bytes@.len() == i,
            forall|j: int| 0 <= j < i ==> bytes@[j] == le@[7 - j],
        decreases 8 - i,
    {
        bytes.push(le[7 - i]);
        i += 1;
    }
    assert(bytes@ =~= le@.reverse());
    bytes
}

} // verus!
