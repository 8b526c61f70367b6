//! Adler-32 and CRC-32: their definitions, the running and combining laws.

use vstd::prelude::*;
use crate::engine::{
    adler32_combine_result, crc32_combine_result, zrs_adler32, zrs_adler32_combine, zrs_crc32,
    zrs_crc32_combine,
};

verus! {

/// The modulus of Adler-32: the largest prime below 2^16.
pub open spec fn adler_base() -> int {
    65521
}

/// One byte folded into an Adler-32 value: the low half sums the bytes,
/// the high half sums the low halves, both modulo 65521.
pub open spec fn adler32_step(sum: u32, byte: u8) -> u32 {
    let low = ((sum % 65536) + byte) % adler_base();
    let high = ((sum / 65536) + low) % adler_base();
    (high * 65536 + low) as u32
}

/// The Adler-32 checksum of `data`, continuing from the running value `start`.
pub open spec fn adler32_spec(start: u32, data: Seq<u8>) -> u32
    decreases data.len(),
{
    if data.len() == 0 {
        start
    } else {
        adler32_step(adler32_spec(start, data.drop_last()), data.last())
    }
}

/// One bit of the reflected CRC-32 polynomial division.
pub open spec fn crc32_bit(c: u32) -> u32 {
    if c & 1u32 == 1u32 {
        (c >> 1u32) ^ 0xEDB8_8320u32
    } else {
        c >> 1u32
    }
}

/// `k` bits of polynomial division applied to `c`.
pub open spec fn crc32_bits(c: u32, k: nat) -> u32
    decreases k,
{
    if k == 0 {
        c
    } else {
        crc32_bit(crc32_bits(c, (k - 1) as nat))
    }
}

/// One byte folded into the (inverted) CRC register.
pub open spec fn crc32_byte(c: u32, byte: u8) -> u32 {
    crc32_bits(c ^ (byte as u32), 8)
}

/// The CRC register after folding in `data`.
pub open spec fn crc32_fold(c: u32, data: Seq<u8>) -> u32
    decreases data.len(),
{
    if data.len() == 0 {
        c
    } else {
        crc32_byte(crc32_fold(c, data.drop_last()), data.last())
    }
}

/// The CRC-32 (ISO-HDLC, as in zlib and gzip) of `data`, continuing from the running value `start`.
pub open spec fn crc32_spec(start: u32, data: Seq<u8>) -> u32 {
    !crc32_fold(!start, data)
}

/// Adler-32 of `data`, starting from `value` (1 begins a new checksum).
pub fn adler32(data: &[u8], value: u32) -> (r: u32)
    ensures
        r == adler32_spec(value, data@),
{
    zrs_adler32(value, data)
}

/// CRC-32 of `data`, starting from `value` (0 begins a new checksum).
pub fn crc32(data: &[u8], value: u32) -> (r: u32)
    ensures
        r == crc32_spec(value, data@),
{
    zrs_crc32(value, data)
}

/// The Adler-32 of the concatenation of two byte sequences, from their two
/// checksums and the length of the second; a negative length is taken as its
/// two's-complement 64-bit value.
pub fn adler32_combine(adler1: u32, adler2: u32, len2: i64) -> (r: u32)
    ensures
        r == adler32_combine_result(adler1, adler2, len2 as u64),
        forall|a: Seq<u8>, b: Seq<u8>|
            #![trigger adler32_spec(1, a), adler32_spec(1, b)]
            adler1 == adler32_spec(1, a) && adler2 == adler32_spec(1, b) && b.len() == len2
                ==> r == adler32_spec(1, a + b),
{
    zrs_adler32_combine(adler1, adler2, len2 as u64)
}

/// The CRC-32 of the concatenation of two byte sequences, from their two
/// checksums and the length of the second; a negative length is taken as its
/// two's-complement 64-bit value.
pub fn crc32_combine(crc1: u32, crc2: u32, len2: i64) -> (r: u32)
    ensures
        r == crc32_combine_result(crc1, crc2, len2 as u64),
        forall|s: u32, a: Seq<u8>, b: Seq<u8>|
            #![trigger crc32_spec(s, a), crc32_spec(0, b)]
            crc1 == crc32_spec(s, a) && crc2 == crc32_spec(0, b) && b.len() == len2
                ==> r == crc32_spec(s, a + b),
{
    zrs_crc32_combine(crc1, crc2, len2 as u64)
}

/// Folding two pieces one after the other folds their concatenation.
proof fn lemma_crc32_fold_concat(c: u32, a: Seq<u8>, b: Seq<u8>)
    ensures
        crc32_fold(crc32_fold(c, a), b) == crc32_fold(c, a + b),
    decreases b.len(),
{
    if b.len() == 0 {
        assert(a + b =~= a);
    } else {
        lemma_crc32_fold_concat(c, a, b.drop_last());
        assert((a + b).drop_last() =~= a + b.drop_last());
        assert((a + b).last() == b.last());
    }
}

/// Adler-32 is a running checksum: checksumming `b` from the checksum of `a`
/// gives the checksum of `a` followed by `b`.
pub proof fn lemma_adler32_running(start: u32, a: Seq<u8>, b: Seq<u8>)
    ensures
        adler32_spec(adler32_spec(start, a), b) == adler32_spec(start, a + b),
    decreases b.len(),
{
    if b.len() == 0 {
        assert(a + b =~= a);
    } else {
        lemma_adler32_running(start, a, b.drop_last());
        assert((a + b).drop_last() =~= a + b.drop_last());
        assert((a + b).last() == b.last());
    }
}

/// CRC-32 is a running checksum: checksumming `b` from the checksum of `a`
/// gives the checksum of `a` followed by `b`.
pub proof fn lemma_crc32_running(start: u32, a: Seq<u8>, b: Seq<u8>)
    ensures
        crc32_spec(crc32_spec(start, a), b) == crc32_spec(start, a + b),
{
    let x = crc32_fold(!start, a);
    assert(!(!x) == x) by (bit_vector);
    lemma_crc32_fold_concat(!start, a, b);
}

/// Checksumming nothing leaves the running value unchanged.
pub proof fn lemma_checksums_of_empty(start: u32)
    ensures
        adler32_spec(start, Seq::<u8>::empty()) == start,
        crc32_spec(start, Seq::<u8>::empty()) == start,
{
    assert(!(!start) == start) by (bit_vector);
}

/// Every Adler-32 value computed over at least one byte has both halves below 65521.
pub proof fn lemma_adler32_halves_reduced(start: u32, data: Seq<u8>)
    requires
        data.len() > 0,
    ensures
        adler32_spec(start, data) % 65536 < 65521,
        adler32_spec(start, data) / 65536 < 65521,
{
    let s = adler32_spec(start, data.drop_last());
    let low = ((s % 65536) + data.last()) % adler_base();
    let high = ((s / 65536) + low) % adler_base();
    assert(0 <= low < 65521 && 0 <= high < 65521);
    assert((high * 65536 + low) % 65536 == low && (high * 65536 + low) / 65536 == high) by (nonlinear_arith)
        requires 0 <= low < 65521, 0 <= high < 65521;
    assert(high * 65536 + low < 0x1_0000_0000) by (nonlinear_arith)
        requires 0 <= low < 65521, 0 <= high < 65521;
}

} // verus!
