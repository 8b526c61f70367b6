//! The calls into `zlib_rs`. Every item here is trusted: its contract is
//! believed, not proved, and says what the `zlib_rs` source shows of the call.

use vstd::prelude::*;
use zlib_rs::{Deflate, DeflateError, DeflateFlush, Inflate, InflateError, InflateFlush};
use crate::checksum::{adler32_spec, crc32_spec};
use crate::codes::{DeflateFailure, FlushMode, InflateFailure};

verus! {

#[verifier::external_type_specification]
#[verifier::external_body]
pub struct ExDeflate(zlib_rs::Deflate);

#[verifier::external_type_specification]
#[verifier::external_body]
pub struct ExInflate(zlib_rs::Inflate);

/// The flush modes with which the library drives a decompressor.
#[derive(Clone, Copy, Debug, PartialEq, Eq, Structural)]
pub enum InflateFlushMode {
    NoFlush,
    Finish,
}

/// The bytes a compressor has consumed so far (`Deflate::total_in` counts them).
pub uninterp spec fn deflate_fed(stream: zlib_rs::Deflate) -> Seq<u8>;

/// The bytes a compressor has written so far (`Deflate::total_out` counts them).
pub uninterp spec fn deflate_emitted(stream: zlib_rs::Deflate) -> Seq<u8>;

/// Whether a compressor has completed its stream: a `Finish` step returned `StreamEnd`.
pub uninterp spec fn deflate_ended(stream: zlib_rs::Deflate) -> bool;

/// Whether a compressor has not been asked to compress yet.
pub uninterp spec fn deflate_fresh(stream: zlib_rs::Deflate) -> bool;

/// The compression level a compressor was made with.
pub uninterp spec fn deflate_level(stream: zlib_rs::Deflate) -> i32;

/// The window size in bits a compressor was made with, negative for a raw
/// stream (no zlib header).
pub uninterp spec fn deflate_wbits(stream: zlib_rs::Deflate) -> i32;

/// The preset dictionary a compressor was primed with, if any.
pub uninterp spec fn deflate_dictionary(stream: zlib_rs::Deflate) -> Option<Seq<u8>>;

/// What `Deflate::compress` returns for `input`, an output buffer of
/// `out_len` bytes and `flush`: the `Status` or the `DeflateError` by number.
pub uninterp spec fn deflate_step(stream: zlib_rs::Deflate, input: Seq<u8>, out_len: nat, flush: FlushMode) -> Result<i32, i32>;

/// The compressor that `Deflate::compress` leaves for the same arguments.
pub uninterp spec fn deflate_after(stream: zlib_rs::Deflate, input: Seq<u8>, out_len: nat, flush: FlushMode) -> zlib_rs::Deflate;

/// The compressed bytes a decompressor has consumed so far (`Inflate::total_in` counts them).
pub uninterp spec fn inflate_fed(stream: zlib_rs::Inflate) -> Seq<u8>;

/// The bytes a decompressor has written so far (`Inflate::total_out` counts them).
pub uninterp spec fn inflate_produced(stream: zlib_rs::Inflate) -> Seq<u8>;

/// Whether a decompressor has reached the end of its stream: a step returned `StreamEnd`.
pub uninterp spec fn inflate_ended(stream: zlib_rs::Inflate) -> bool;

/// The window size in bits a decompressor was made with, negative for a raw
/// stream (no zlib header).
pub uninterp spec fn inflate_wbits(stream: zlib_rs::Inflate) -> i32;

/// The preset dictionary installed in a decompressor, if any.
pub uninterp spec fn inflate_dictionary(stream: zlib_rs::Inflate) -> Option<Seq<u8>>;

/// What `Inflate::decompress` returns for `input`, an output buffer of
/// `out_len` bytes and `flush`: the `Status` by number, or the error.
pub uninterp spec fn inflate_step(stream: zlib_rs::Inflate, input: Seq<u8>, out_len: nat, flush: InflateFlushMode) -> Result<i32, InflateFailure>;

/// The decompressor that `Inflate::decompress` leaves for the same arguments.
pub uninterp spec fn inflate_after(stream: zlib_rs::Inflate, input: Seq<u8>, out_len: nat, flush: InflateFlushMode) -> zlib_rs::Inflate;

/// What `zlib_rs::compress_slice` produces for an output buffer of `out_len`
/// bytes: the compressed bytes and the result code's number.
pub uninterp spec fn compress_slice_result(out_len: nat, input: Seq<u8>, level: i32, wbits: i32) -> (Seq<u8>, i32);

/// What `zlib_rs::decompress_slice` produces for an output buffer of `out_len`
/// bytes: the decompressed bytes and the result code's number.
pub uninterp spec fn decompress_slice_result(out_len: nat, input: Seq<u8>, wbits: i32) -> (Seq<u8>, i32);

/// What `zlib_rs::adler32::adler32_combine` returns.
pub uninterp spec fn adler32_combine_result(adler1: u32, adler2: u32, len2: u64) -> u32;

/// What `zlib_rs::crc32::crc32_combine` returns.
pub uninterp spec fn crc32_combine_result(crc1: u32, crc2: u32, len2: u64) -> u32;

/// A window size as a `wbits` value: negative for a raw stream (no header).
pub open spec fn signed_window(header: bool, window: u8) -> i32 {
    if header {
        window as i32
    } else {
        (0 - window as int) as i32
    }
}

/// `after` is `before` followed by more bytes.
pub open spec fn extends(after: Seq<u8>, before: Seq<u8>) -> bool {
    before.len() <= after.len() && after.take(before.len() as int) == before
}

/// The bytes that `after` adds to `before`.
pub open spec fn added(after: Seq<u8>, before: Seq<u8>) -> Seq<u8> {
    after.skip(before.len() as int)
}

/// Every sequence extends itself, adding nothing.
pub(crate) proof fn lemma_extends_refl(a: Seq<u8>)
    ensures
        extends(a, a),
        added(a, a) == Seq::<u8>::empty(),
{
    assert(a.take(a.len() as int) =~= a);
    assert(added(a, a) =~= Seq::<u8>::empty());
}

/// A sequence that extends another is that one followed by what it adds.
pub(crate) proof fn lemma_extends_split(a: Seq<u8>, b: Seq<u8>)
    requires
        extends(b, a),
    ensures
        b == a + added(b, a),
{
    assert(b =~= a + added(b, a));
}

/// A step that extends a record kept as `base` followed by `so_far`:
/// afterwards the record is `base` followed by `so_far` and what the step added.
pub(crate) proof fn lemma_step_extends(base: Seq<u8>, prev: Seq<u8>, after: Seq<u8>, so_far: Seq<u8>)
    requires
        prev == base + so_far,
        extends(after, prev),
    ensures
        after == base + (so_far + added(after, prev)),
{
    lemma_extends_split(prev, after);
    assert(after =~= base + (so_far + added(after, prev)));
}

/// Extending twice is extending, by what the two steps added in turn.
pub(crate) proof fn lemma_extends_trans(a: Seq<u8>, b: Seq<u8>, c: Seq<u8>)
    requires
        extends(b, a),
        extends(c, b),
    ensures
        extends(c, a),
        added(c, a) == added(b, a) + added(c, b),
        c == a + added(c, a),
{
    assert(b =~= a + added(b, a));
    assert(c =~= b + added(c, b));
    assert(c.take(a.len() as int) =~= a);
    assert(added(c, a) =~= added(b, a) + added(c, b));
}

/// `zlib_rs::compress_bound`'s formula: the input, one byte for empty input,
/// one for inputs under 9 bytes, an eighth of the input rounded up, 3 bytes of
/// block overhead and 6 of zlib wrapper.
pub open spec fn compress_bound_spec(n: nat) -> nat {
    n + (if n == 0 { 1nat } else { 0nat }) + (if n < 9 { 1nat } else { 0nat }) + (n + 7) / 8 + 3 + 6
}

/// The output buffer that one-shot compression gives `n` bytes: the bound,
/// and 12 bytes more for the gzip wrapper (18 bytes instead of zlib's 6).
pub open spec fn compress_buffer_spec(n: nat, wbits: i32) -> nat {
    compress_bound_spec(n) + (if 25 <= wbits <= 31 { 12nat } else { 0nat })
}

/// The settings with which one-shot compression succeeds: a level of -1 or
/// 0..=9, and a zlib (8..=15), raw (-15..=-9) or gzip (25..=31) window.
pub open spec fn deflate_params_ok(level: i32, wbits: i32) -> bool {
    &&& -1 <= level <= 9
    &&& (8 <= wbits <= 15 || -15 <= wbits <= -9 || 25 <= wbits <= 31)
}

/// The `wbits` with which what a compressor produced is given back by
/// `decompress_slice` with the same `wbits`: zlib and raw deflate with windows
/// of 9 to 15 bits, and gzip (25..=31). (Window 8 is widened to 9 by the
/// compressor, and raw window 8 is refused by it.)
pub open spec fn roundtrip_wbits(wbits: i32) -> bool {
    ||| 9 <= wbits <= 15
    ||| -15 <= wbits <= -9
    ||| 25 <= wbits <= 31
}

/// A compressor that ended its stream, without a preset dictionary, for the
/// given `wbits`: what it emitted is a complete stream of what it consumed.
pub open spec fn complete_plain_stream(d: zlib_rs::Deflate, wbits: i32) -> bool {
    &&& deflate_ended(d)
    &&& deflate_dictionary(d) is None
    &&& deflate_wbits(d) == wbits
    &&& roundtrip_wbits(wbits)
}

/// What a decoder produced is a prefix of `payload`, and all of it once the
/// decoder reached the end of its stream.
pub open spec fn decoded_so_far(payload: Seq<u8>, i: zlib_rs::Inflate) -> bool {
    &&& extends(payload, inflate_produced(i))
    &&& inflate_ended(i) ==> inflate_produced(i) == payload
}

/// A decoder that has consumed part of a complete stream with its own window
/// has decoded that part right: what it produced is a prefix of the stream's
/// payload, and all of it once it reached the end. The streams are those made
/// by `compress_slice`, or by a finished streaming compressor, without a
/// dictionary when the decoder holds none; and zlib streams of a finished
/// compressor that holds the same dictionary as the decoder.
pub open spec fn decodes_complete_streams(i: zlib_rs::Inflate) -> bool {
    &&& forall|s: zlib_rs::Deflate|
        #![trigger deflate_emitted(s), deflate_dictionary(s)]
        deflate_ended(s) && deflate_dictionary(s) is Some && deflate_dictionary(s) == inflate_dictionary(i)
            && deflate_wbits(s) == inflate_wbits(i) && 9 <= inflate_wbits(i) <= 15 && extends(
            deflate_emitted(s),
            inflate_fed(i),
        ) ==> decoded_so_far(deflate_fed(s), i)
    &&& forall|s: zlib_rs::Deflate|
        #![trigger deflate_emitted(s), deflate_fed(s)]
        complete_plain_stream(s, inflate_wbits(i)) && inflate_dictionary(i) is None && extends(
            deflate_emitted(s),
            inflate_fed(i),
        ) ==> decoded_so_far(deflate_fed(s), i)
    &&& forall|d: Seq<u8>, level: i32, m: nat|
        #![trigger compress_slice_result(m, d, level, inflate_wbits(i))]
        roundtrip_wbits(inflate_wbits(i)) && inflate_dictionary(i) is None && compress_slice_result(
            m,
            d,
            level,
            inflate_wbits(i),
        ).1 == 0 && extends(compress_slice_result(m, d, level, inflate_wbits(i)).0, inflate_fed(i))
            ==> decoded_so_far(d, i)
}

/// The decoder holds no dictionary and what it has consumed is a part of a
/// complete stream with its window: one made by `compress_slice`, or by a
/// finished compressor without a dictionary.
pub open spec fn on_plain_stream(i: zlib_rs::Inflate) -> bool {
    &&& inflate_dictionary(i) is None
    &&& {
        ||| exists|s: zlib_rs::Deflate|
            #![trigger deflate_emitted(s)]
            complete_plain_stream(s, inflate_wbits(i)) && extends(deflate_emitted(s), inflate_fed(i))
        ||| exists|d: Seq<u8>, level: i32, m: nat|
            #![trigger compress_slice_result(m, d, level, inflate_wbits(i))]
            roundtrip_wbits(inflate_wbits(i)) && compress_slice_result(m, d, level, inflate_wbits(i)).1 == 0
                && extends(compress_slice_result(m, d, level, inflate_wbits(i)).0, inflate_fed(i))
    }
}

/// Calls `zlib_rs::adler32::adler32`, which computes the Adler-32 checksum
/// (RFC 1950) of `data` continuing from `start`.
#[verifier::external_body]
pub(crate) fn zrs_adler32(start: u32, data: &[u8]) -> (r: u32)
    ensures
        r == adler32_spec(start, data@),
{
    zlib_rs::adler32::adler32(start, data)
}

/// Calls `zlib_rs::crc32::crc32`, which computes the CRC-32 used by zlib and
/// gzip of `data` continuing from `start`.
#[verifier::external_body]
pub(crate) fn zrs_crc32(start: u32, data: &[u8]) -> (r: u32)
    ensures
        r == crc32_spec(start, data@),
{
    zlib_rs::crc32::crc32(start, data)
}

/// Calls `zlib_rs::adler32::adler32_combine`: given the Adler-32 values of two
/// sequences and the length of the second, it returns that of their concatenation.
#[verifier::external_body]
pub(crate) fn zrs_adler32_combine(adler1: u32, adler2: u32, len2: u64) -> (r: u32)
    ensures
        r == adler32_combine_result(adler1, adler2, len2),
        forall|a: Seq<u8>, b: Seq<u8>|
            #![trigger adler32_spec(1, a), adler32_spec(1, b)]
            adler1 == adler32_spec(1, a) && adler2 == adler32_spec(1, b) && b.len() == len2
                ==> r == adler32_spec(1, a + b),
{
    zlib_rs::adler32::adler32_combine(adler1, adler2, len2)
}

/// Calls `zlib_rs::crc32::crc32_combine`: given the CRC-32 of a sequence, the
/// CRC-32 (from 0) of a second one and the second's length, it returns the
/// CRC-32 of their concatenation.
#[verifier::external_body]
pub(crate) fn zrs_crc32_combine(crc1: u32, crc2: u32, len2: u64) -> (r: u32)
    ensures
        r == crc32_combine_result(crc1, crc2, len2),
        forall|s: u32, a: Seq<u8>, b: Seq<u8>|
            #![trigger crc32_spec(s, a), crc32_spec(0, b)]
            crc1 == crc32_spec(s, a) && crc2 == crc32_spec(0, b) && b.len() == len2
                ==> r == crc32_spec(s, a + b),
{
    zlib_rs::crc32::crc32_combine(crc1, crc2, len2)
}

/// Calls `zlib_rs::compress_bound`, the size of output buffer with which
/// one-shot zlib compression of `n` bytes never runs out of room. The formula
/// divides `n + 7` by 8 after a cast to `c_ulong`, which is 32 bits wide on
/// some targets; the result is stated where that cast loses nothing.
#[verifier::external_body]
pub(crate) fn zrs_compress_bound(n: usize) -> (r: usize)
    ensures
        n + 7 < 0x1_0000_0000 && compress_bound_spec(n as nat) <= usize::MAX ==> r == compress_bound_spec(n as nat),
{
    zlib_rs::compress_bound(n)
}

/// Calls `zlib_rs::compress_slice` with a `DeflateConfig` of `level` and
/// `wbits`: it compresses `input` into `output`, and returns how many bytes
/// it wrote and the result code's number. The result depends on the output
/// buffer's length only, not on what it held. The code is never that of
/// `StreamEnd` or `NeedDict`: the end of the stream is reported as `Ok`. With
/// valid settings and a buffer of the bound (plus 12 bytes for gzip's wrapper)
/// it never runs out of room, so only a failed allocation (-4) can stop it.
/// Level -1, zlib's default, is level 6: zlib-rs maps it so before it does
/// anything else, and the result is the one for level 6.
#[verifier::external_body]
pub(crate) fn zrs_compress_slice(output: &mut Vec<u8>, input: &[u8], level: i32, wbits: i32) -> (r: (usize, i32))
    ensures
        final(output)@.len() == old(output)@.len(),
        r.0 <= old(output)@.len(),
        r.0 == compress_slice_result(old(output)@.len(), input@, level, wbits).0.len(),
        final(output)@.take(r.0 as int) == compress_slice_result(old(output)@.len(), input@, level, wbits).0,
        r.1 == compress_slice_result(old(output)@.len(), input@, level, wbits).1,
        -6 <= r.1 <= 0,
        deflate_params_ok(level, wbits) && old(output)@.len() >= compress_buffer_spec(input@.len(), wbits)
            ==> r.1 == 0 || r.1 == -4,
        level == -1 ==> r.0 == compress_slice_result(old(output)@.len(), input@, 6, wbits).0.len()
            && final(output)@.take(r.0 as int) == compress_slice_result(old(output)@.len(), input@, 6, wbits).0
            && r.1 == compress_slice_result(old(output)@.len(), input@, 6, wbits).1,
{
    let mut config = zlib_rs::DeflateConfig::new(level);
    config.window_bits = wbits;
    let (written, rc) = zlib_rs::compress_slice(output.as_mut_slice(), input, config);
    (written.len(), rc as i32)
}

/// Calls `zlib_rs::decompress_slice` with an `InflateConfig` of `wbits`: it
/// decompresses `input` into `output`, and returns how many bytes it wrote and
/// the result code's number; the result depends on the output buffer's
/// length only. The end of the stream is reported as 0 and a request for a
/// dictionary as -3 (`DataError`), so the code is never positive. A complete stream of some bytes with the same `wbits` (of
/// `roundtrip_wbits`), whether `compress_slice` made it with result code 0 or a
/// compressor without a dictionary emitted it and ended it, decompresses into
/// a buffer of at least one byte to those bytes with code 0 when the buffer
/// holds them, and to code -5 (`BufError`) when it is too short. The
/// decompressed bytes do not depend on the buffer: input that decompresses
/// with code 0 into a buffer of some size does so into every buffer that holds
/// the result, and ends with code -5 in every shorter one (of at least a byte).
#[verifier::external_body]
pub(crate) fn zrs_decompress_slice(output: &mut Vec<u8>, input: &[u8], wbits: i32) -> (r: (usize, i32))
    ensures
        final(output)@.len() == old(output)@.len(),
        r.0 <= old(output)@.len(),
        r.0 == decompress_slice_result(old(output)@.len(), input@, wbits).0.len(),
        final(output)@.take(r.0 as int) == decompress_slice_result(old(output)@.len(), input@, wbits).0,
        r.1 == decompress_slice_result(old(output)@.len(), input@, wbits).1,
        -6 <= r.1 <= 0,
        forall|d: Seq<u8>, level: i32, n: nat|
            #![trigger compress_slice_result(n, d, level, wbits)]
            roundtrip_wbits(wbits) && compress_slice_result(n, d, level, wbits).1 == 0
                && input@ == compress_slice_result(n, d, level, wbits).0 && old(output)@.len() >= 1
                ==> (old(output)@.len() >= d.len() ==> r.1 == 0 && final(output)@.take(r.0 as int) == d)
                && (old(output)@.len() < d.len() ==> r.1 == -5),
        forall|s: zlib_rs::Deflate|
            #![trigger deflate_emitted(s), deflate_fed(s)]
            complete_plain_stream(s, wbits) && input@ == deflate_emitted(s) && old(output)@.len() >= 1
                ==> (old(output)@.len() >= deflate_fed(s).len() ==> r.1 == 0 && final(output)@.take(r.0 as int) == deflate_fed(s))
                && (old(output)@.len() < deflate_fed(s).len() ==> r.1 == -5),
        forall|m: nat|
            #![trigger decompress_slice_result(m, input@, wbits)]
            m >= 1 && decompress_slice_result(m, input@, wbits).1 == 0 && old(output)@.len() >= 1
                ==> (old(output)@.len() >= decompress_slice_result(m, input@, wbits).0.len() ==> r.1 == 0
                && final(output)@.take(r.0 as int) == decompress_slice_result(m, input@, wbits).0)
                && (old(output)@.len() < decompress_slice_result(m, input@, wbits).0.len() ==> r.1 == -5),
{
    let config = zlib_rs::InflateConfig { window_bits: wbits };
    let (written, rc) = zlib_rs::decompress_slice(output.as_mut_slice(), input, config);
    (written.len(), rc as i32)
}

/// Calls `Deflate::new`, which panics unless the level is -1 or 0..=9, the
/// window is 8..=15 bits, and a raw stream (no zlib header) has a window above
/// 8. The new compressor has consumed and written nothing.
#[verifier::external_body]
pub(crate) fn zrs_deflate_new(level: i32, zlib_header: bool, window_bits: u8) -> (d: Deflate)
    requires
        -1 <= level <= 9,
        8 <= window_bits <= 15,
        zlib_header || window_bits != 8,
    ensures
        deflate_fed(d) == Seq::<u8>::empty(),
        deflate_emitted(d) == Seq::<u8>::empty(),
        !deflate_ended(d),
        deflate_fresh(d),
        deflate_level(d) == level,
        deflate_wbits(d) == signed_window(zlib_header, window_bits),
        deflate_dictionary(d) is None,
{
    Deflate::new(level, zlib_header, window_bits)
}

/// Calls `Deflate::total_in`, the number of bytes consumed.
#[verifier::external_body]
pub(crate) fn zrs_deflate_total_in(d: &Deflate) -> (r: u64)
    ensures
        r == deflate_fed(*d).len(),
{
    d.total_in()
}

/// Calls `Deflate::total_out`, the number of bytes written.
#[verifier::external_body]
pub(crate) fn zrs_deflate_total_out(d: &Deflate) -> (r: u64)
    ensures
        r == deflate_emitted(*d).len(),
{
    d.total_out()
}

/// Calls `Deflate::set_dictionary`. It fails only with `StreamError`, and then
/// changes nothing; it succeeds on a fresh raw or zlib compressor; on success
/// the compressor holds a dictionary, `dict` when it held none before, and
/// nothing else changes.
#[verifier::external_body]
pub(crate) fn zrs_deflate_set_dictionary(d: &mut Deflate, dict: &[u8]) -> (r: Result<u32, DeflateFailure>)
    ensures
        r matches Err(e) ==> e == DeflateFailure::StreamError && *final(d) == *old(d),
        deflate_fresh(*old(d)) && (8 <= deflate_wbits(*old(d)) <= 15 || -15 <= deflate_wbits(*old(d)) <= -8)
            ==> r is Ok,
        r is Ok && deflate_dictionary(*old(d)) is None ==> deflate_dictionary(*final(d)) == Some(dict@),
        r is Ok ==> deflate_dictionary(*final(d)) is Some
            && deflate_fed(*final(d)) == deflate_fed(*old(d))
            && deflate_emitted(*final(d)) == deflate_emitted(*old(d))
            && deflate_ended(*final(d)) == deflate_ended(*old(d))
            && deflate_fresh(*final(d)) == deflate_fresh(*old(d))
            && deflate_level(*final(d)) == deflate_level(*old(d))
            && deflate_wbits(*final(d)) == deflate_wbits(*old(d)),
{
    d.set_dictionary(dict).map_err(|e| match e {
        DeflateError::StreamError => DeflateFailure::StreamError,
        DeflateError::DataError => DeflateFailure::DataError,
        DeflateError::MemError => DeflateFailure::MemError,
    })
}

/// Calls `Deflate::compress` on all of `input` and all of `output`, and gives
/// back the `Status` (0 `Ok`, 1 `BufError`, 2 `StreamEnd`) or the
/// `DeflateError` (-2 `StreamError`, -3 `DataError`, -4 `MemError`) by number.
/// It consumes a prefix of `input` and writes its output at the front of
/// `output`; the byte counters must not pass `u64::MAX`. As zlib documents, a
/// successful step that is not a `Finish` stops short of the end of its input
/// only when the output buffer is full (buffers of at most `u32::MAX` bytes,
/// which is what one step takes); a `Finish` step with no input and room to
/// write either writes or ends the stream. A `Finish` step given input after
/// an earlier `Finish` may consume none of it: nothing is said of that case.
#[verifier::external_body]
pub(crate) fn zrs_deflate_compress(d: &mut Deflate, input: &[u8], output: &mut Vec<u8>, flush: FlushMode) -> (r: Result<i32, i32>)
    requires
        deflate_fed(*old(d)).len() + input@.len() <= u64::MAX,
        deflate_emitted(*old(d)).len() + old(output)@.len() <= u64::MAX,
    ensures
        r == deflate_step(*old(d), input@, old(output)@.len() as nat, flush),
        *final(d) == deflate_after(*old(d), input@, old(output)@.len() as nat, flush),
        final(output)@.len() == old(output)@.len(),
        extends(deflate_fed(*final(d)), deflate_fed(*old(d))),
        input@.take(added(deflate_fed(*final(d)), deflate_fed(*old(d))).len() as int) == added(
            deflate_fed(*final(d)),
            deflate_fed(*old(d)),
        ),
        added(deflate_fed(*final(d)), deflate_fed(*old(d))).len() <= input@.len(),
        extends(deflate_emitted(*final(d)), deflate_emitted(*old(d))),
        final(output)@.take(added(deflate_emitted(*final(d)), deflate_emitted(*old(d))).len() as int)
            == added(deflate_emitted(*final(d)), deflate_emitted(*old(d))),
        added(deflate_emitted(*final(d)), deflate_emitted(*old(d))).len() <= old(output)@.len(),
        deflate_ended(*final(d)) == (deflate_ended(*old(d)) || r == Ok::<i32, i32>(2)),
        !deflate_fresh(*final(d)),
        deflate_level(*final(d)) == deflate_level(*old(d)),
        deflate_wbits(*final(d)) == deflate_wbits(*old(d)),
        deflate_dictionary(*final(d)) == deflate_dictionary(*old(d)),
        match r {
            Ok(n) => 0 <= n <= 2,
            Err(n) => -4 <= n <= -2,
        },
        r is Ok && flush != FlushMode::Finish && input@.len() <= u32::MAX && old(output)@.len() <= u32::MAX
            && added(deflate_emitted(*final(d)), deflate_emitted(*old(d))).len() < old(output)@.len()
            ==> added(deflate_fed(*final(d)), deflate_fed(*old(d))).len() == input@.len(),
        flush == FlushMode::Finish && input@.len() == 0 && !deflate_ended(*old(d)) && r is Ok && old(output)@.len()
            >= 1 ==> r == Ok::<i32, i32>(2) || added(deflate_emitted(*final(d)), deflate_emitted(*old(d))).len() > 0,
{
    let mode = match flush {
        FlushMode::NoFlush => DeflateFlush::NoFlush,
        FlushMode::PartialFlush => DeflateFlush::PartialFlush,
        FlushMode::SyncFlush => DeflateFlush::SyncFlush,
        FlushMode::FullFlush => DeflateFlush::FullFlush,
        FlushMode::Finish => DeflateFlush::Finish,
        FlushMode::Block => DeflateFlush::Block,
    };
    d.compress(input, output.as_mut_slice(), mode).map(|s| s as i32).map_err(|e| e as i32)
}

/// Calls `Inflate::new`, which panics unless the window is 8..=15 bits. The
/// new decompressor has consumed and written nothing.
#[verifier::external_body]
pub(crate) fn zrs_inflate_new(expect_header: bool, window_bits: u8) -> (i: Inflate)
    requires
        8 <= window_bits <= 15,
    ensures
        inflate_fed(i) == Seq::<u8>::empty(),
        inflate_produced(i) == Seq::<u8>::empty(),
        !inflate_ended(i),
        inflate_wbits(i) == signed_window(expect_header, window_bits),
        inflate_dictionary(i) is None,
{
    Inflate::new(expect_header, window_bits)
}

/// Calls `Inflate::total_in`, the number of bytes consumed.
#[verifier::external_body]
pub(crate) fn zrs_inflate_total_in(i: &Inflate) -> (r: u64)
    ensures
        r == inflate_fed(*i).len(),
{
    i.total_in()
}

/// Calls `Inflate::total_out`, the number of bytes written.
#[verifier::external_body]
pub(crate) fn zrs_inflate_total_out(i: &Inflate) -> (r: u64)
    ensures
        r == inflate_produced(*i).len(),
{
    i.total_out()
}

/// Calls `Inflate::set_dictionary`. It fails only with `StreamError` or
/// `DataError`, and then changes nothing; on a raw stream it always succeeds;
/// on success the decoder holds a dictionary, `dict` when it held none before,
/// and nothing else changes.
#[verifier::external_body]
pub(crate) fn zrs_inflate_set_dictionary(i: &mut Inflate, dict: &[u8]) -> (r: Result<u32, InflateFailure>)
    ensures
        r matches Err(e) ==> (e == InflateFailure::StreamError || e == InflateFailure::DataError) && *final(i) == *old(i),
        inflate_wbits(*old(i)) < 0 ==> r is Ok,
        r is Ok && inflate_dictionary(*old(i)) is None ==> inflate_dictionary(*final(i)) == Some(dict@),
        r is Ok ==> inflate_dictionary(*final(i)) is Some
            && inflate_fed(*final(i)) == inflate_fed(*old(i))
            && inflate_produced(*final(i)) == inflate_produced(*old(i))
            && inflate_ended(*final(i)) == inflate_ended(*old(i))
            && inflate_wbits(*final(i)) == inflate_wbits(*old(i)),
{
    i.set_dictionary(dict).map_err(|e| match e {
        InflateError::NeedDict { dict_id } => InflateFailure::NeedDict { dict_id },
        InflateError::StreamError => InflateFailure::StreamError,
        InflateError::DataError => InflateFailure::DataError,
        InflateError::MemError => InflateFailure::MemError,
    })
}

/// Calls `Inflate::decompress` on `input[start..]` and `output[..want]`, and
/// gives back the `Status` by number (0 `Ok`, 1 `BufError`, 2 `StreamEnd`) or
/// the error. It consumes a prefix of `input[start..]` and writes its output at
/// the front of `output`; it asks for a dictionary only at the start of a zlib
/// stream, before it has produced anything or installed one, and writes
/// nothing then. The byte
/// counters must not pass `u64::MAX`. Decoding is right: after a successful
/// step, a decoder whose consumed bytes are a prefix of a complete stream with
/// its window and dictionary (see `decodes_complete_streams`) has produced a
/// prefix of that stream's payload, and the whole payload once it reached the
/// end; and a step after
/// which the decoder has consumed only such a part fails, if at all, for want
/// of memory.
#[verifier::external_body]
pub(crate) fn zrs_inflate_decompress(i: &mut Inflate, input: &[u8], start: usize, output: &mut Vec<u8>, want: usize, flush: InflateFlushMode) -> (r: Result<i32, InflateFailure>)
    requires
        start <= input@.len(),
        want <= old(output)@.len(),
        inflate_fed(*old(i)).len() + (input@.len() - start) <= u64::MAX,
        inflate_produced(*old(i)).len() + want <= u64::MAX,
    ensures
        r == inflate_step(*old(i), input@.skip(start as int), want as nat, flush),
        *final(i) == inflate_after(*old(i), input@.skip(start as int), want as nat, flush),
        final(output)@.len() == old(output)@.len(),
        extends(inflate_fed(*final(i)), inflate_fed(*old(i))),
        input@.skip(start as int).take(added(inflate_fed(*final(i)), inflate_fed(*old(i))).len() as int)
            == added(inflate_fed(*final(i)), inflate_fed(*old(i))),
        added(inflate_fed(*final(i)), inflate_fed(*old(i))).len() <= input@.len() - start,
        extends(inflate_produced(*final(i)), inflate_produced(*old(i))),
        final(output)@.take(added(inflate_produced(*final(i)), inflate_produced(*old(i))).len() as int)
            == added(inflate_produced(*final(i)), inflate_produced(*old(i))),
        added(inflate_produced(*final(i)), inflate_produced(*old(i))).len() <= want,
        inflate_ended(*final(i)) == (inflate_ended(*old(i)) || r == Ok::<i32, InflateFailure>(2)),
        inflate_wbits(*final(i)) == inflate_wbits(*old(i)),
        inflate_dictionary(*final(i)) == inflate_dictionary(*old(i)),
        r matches Ok(n) ==> 0 <= n <= 2,
        r matches Err(InflateFailure::NeedDict { .. }) ==> inflate_produced(*final(i)) == inflate_produced(*old(i))
            && inflate_produced(*final(i)) == Seq::<u8>::empty() && !inflate_ended(*final(i))
            && inflate_dictionary(*final(i)) is None,
        r is Ok ==> decodes_complete_streams(*final(i)),
        on_plain_stream(*final(i)) ==> (r is Ok || r matches Err(InflateFailure::MemError)),
{
    let mode = match flush {
        InflateFlushMode::NoFlush => InflateFlush::NoFlush,
        InflateFlushMode::Finish => InflateFlush::Finish,
    };
    i.decompress(&input[start..], &mut output[..want], mode).map(|s| s as i32).map_err(|e| match e {
        InflateError::NeedDict { dict_id } => InflateFailure::NeedDict { dict_id },
        InflateError::StreamError => InflateFailure::StreamError,
        InflateError::DataError => InflateFailure::DataError,
        InflateError::MemError => InflateFailure::MemError,
    })
}

} // verus!
