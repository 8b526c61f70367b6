//! One-call compression and decompression.

use vstd::prelude::*;
use crate::codes::{code_of_number, return_code_from_number, ReturnCode, ZlibError};
use crate::engine::{
    complete_plain_stream, compress_buffer_spec, compress_slice_result, decompress_slice_result,
    deflate_emitted, deflate_fed, deflate_params_ok, roundtrip_wbits, zrs_compress_bound,
    zrs_compress_slice, zrs_decompress_slice,
};
use crate::params::{decompress_wbits_ok, validate_decompress_wbits};

verus! {

/// What one-shot compression of `data` into a buffer of `out_len` bytes
/// gives: the bytes that `compress_slice` wrote when it reports success, and
/// its result code otherwise.
pub open spec fn compress_outcome_in(out_len: nat, data: Seq<u8>, level: i32, wbits: i32) -> Result<Seq<u8>, ZlibError> {
    let r = compress_slice_result(out_len, data, level, wbits);
    if r.1 == 0 {
        Ok(r.0)
    } else {
        Err(ZlibError::CompressData(code_of_number(r.1 as int).unwrap()))
    }
}

/// What one-shot compression of `data` gives with its buffer of
/// `compress_bound` bytes (plus 12 for the gzip wrapper).
pub open spec fn compress_outcome(data: Seq<u8>, level: i32, wbits: i32) -> Result<Seq<u8>, ZlibError> {
    compress_outcome_in(compress_buffer_spec(data.len(), wbits), data, level, wbits)
}

/// What one-shot decompression gives when it starts with an output buffer of
/// `size` bytes: the decompressed bytes on success, a doubled buffer when the
/// buffer was too small (until the size would pass `usize::MAX`), and the
/// result code otherwise.
pub open spec fn decompress_from(input: Seq<u8>, wbits: i32, size: nat) -> Result<Seq<u8>, ZlibError>
    decreases usize::MAX - size,
{
    let r = decompress_slice_result(size, input, wbits);
    if r.1 == 0 || r.1 == 1 {
        Ok(r.0)
    } else if r.1 == -5 {
        if size == 0 || size * 2 > usize::MAX {
            Err(ZlibError::OutputTooLarge)
        } else {
            decompress_from(input, wbits, size * 2)
        }
    } else {
        Err(ZlibError::DecompressData(code_of_number(r.1 as int).unwrap()))
    }
}

/// The first output buffer size of one-shot decompression: `bufsize`, but at least 1.
pub open spec fn first_buffer_size(bufsize: isize) -> nat {
    if bufsize <= 1 {
        1
    } else {
        bufsize as nat
    }
}

/// A result with its bytes taken by their view.
pub open spec fn bytes_result(r: Result<Vec<u8>, ZlibError>) -> Result<Seq<u8>, ZlibError> {
    match r {
        Ok(v) => Ok(v@),
        Err(e) => Err(e),
    }
}

/// Compresses `data` in one call at `level` (-1 for the default) with window
/// and wrapper chosen by `wbits`, into a buffer of `compress_bound` bytes
/// (plus 12 for the gzip wrapper). With valid settings it succeeds unless an
/// allocation fails; an invalid `level` or `wbits` comes back as the result
/// code that zlib reports for it. The default level, -1, compresses exactly as
/// level 6 does.
pub fn compress(data: &[u8], level: i32, wbits: i32) -> (r: Result<Vec<u8>, ZlibError>)
    requires
        data@.len() <= isize::MAX,
    ensures
        data@.len() + 7 < 0x1_0000_0000 ==> bytes_result(r) == compress_outcome(data@, level, wbits),
        exists|m: nat| bytes_result(r) == #[trigger] compress_outcome_in(m, data@, level, wbits),
        data@.len() + 7 < 0x1_0000_0000 && level == -1 ==> bytes_result(r) == compress_outcome(data@, 6, wbits),
        data@.len() + 7 < 0x1_0000_0000 && deflate_params_ok(level, wbits) ==> (r is Ok || r
            == Err::<Vec<u8>, ZlibError>(ZlibError::CompressData(ReturnCode::MemError))),
{
    let bound = zrs_compress_bound(data.len());
    assert(compress_buffer_spec(data@.len(), wbits) <= usize::MAX) by {
        assert(isize::MAX * 2 + 1 == usize::MAX);
    }
    let size: usize = if 25 <= wbits && wbits <= 31 && bound <= usize::MAX - 12 {
        bound + 12
    } else {
        bound
    };
    let mut output: Vec<u8> = vec![0u8; size];
    let (n, rc) = zrs_compress_slice(&mut output, data, level, wbits);
    let r = if rc == 0 || rc == 1 {
        output.truncate(n);
        Ok(output)
    } else {
        Err(ZlibError::CompressData(return_code_from_number(rc)))
    };
    assert(bytes_result(r) == compress_outcome_in(size as nat, data@, level, wbits));
    assert(level == -1 ==> bytes_result(r) == compress_outcome_in(size as nat, data@, 6, wbits));
    r
}

/// Decompresses `data` in one call, with `wbits` choosing the format, into an
/// output buffer of `bufsize` bytes at first (at least 1), doubled for as long
/// as it is too small.
///
/// What `compress` made of some bytes with the same `wbits` (zlib and raw
/// windows of 9 to 15 bits, and gzip) decompresses to those bytes, and so does
/// everything a streaming compressor without a dictionary emitted once it
/// finished its stream. Input that decompresses in one piece into a buffer of
/// some size gives the same bytes whatever `bufsize` is.
pub fn decompress(data: &[u8], wbits: i32, bufsize: isize) -> (r: Result<Vec<u8>, ZlibError>)
    ensures
        !decompress_wbits_ok(wbits) ==> r == Err::<Vec<u8>, ZlibError>(ZlibError::InvalidInitOption),
        decompress_wbits_ok(wbits) && bufsize < 0 ==> r == Err::<Vec<u8>, ZlibError>(
            ZlibError::NegativeBufsize,
        ),
        decompress_wbits_ok(wbits) && bufsize >= 0 ==> bytes_result(r) == decompress_from(
            data@,
            wbits,
            first_buffer_size(bufsize),
        ),
        forall|d: Seq<u8>, level: i32, m: nat|
            #![trigger compress_outcome_in(m, d, level, wbits)]
            roundtrip_wbits(wbits) && bufsize >= 0 && d.len() <= isize::MAX && compress_outcome_in(
                m,
                d,
                level,
                wbits,
            ) == Ok::<Seq<u8>, ZlibError>(data@) ==> bytes_result(r) == Ok::<Seq<u8>, ZlibError>(d),
        forall|s: zlib_rs::Deflate|
            #![trigger deflate_emitted(s), deflate_fed(s)]
            complete_plain_stream(s, wbits) && bufsize >= 0 && deflate_fed(s).len() <= isize::MAX
                && deflate_emitted(s) == data@ ==> bytes_result(r) == Ok::<Seq<u8>, ZlibError>(
                deflate_fed(s),
            ),
        forall|m: nat|
            #![trigger decompress_slice_result(m, data@, wbits)]
            decompress_wbits_ok(wbits) && bufsize >= 0 && m >= 1 && decompress_slice_result(m, data@, wbits).1 == 0
                && decompress_slice_result(m, data@, wbits).0.len() <= isize::MAX ==> bytes_result(r) == Ok::<
                Seq<u8>,
                ZlibError,
            >(decompress_slice_result(m, data@, wbits).0),
{
    match validate_decompress_wbits(wbits) {
        Ok(()) => {},
        Err(e) => {
            return Err(e);
        },
    }
    if bufsize < 0 {
        return Err(ZlibError::NegativeBufsize);
    }
    let start: usize = if bufsize <= 1 {
        1
    } else {
        bufsize as usize
    };
    let mut size: usize = start;
    loop
        invariant
            decompress_wbits_ok(wbits),
            bufsize >= 0,
            start as nat == first_buffer_size(bufsize),
            size >= 1,
            decompress_from(data@, wbits, size as nat) == decompress_from(data@, wbits, start as nat),
        decreases usize::MAX - size,
    {
        let mut output: Vec<u8> = vec![0u8; size];
        let (n, rc) = zrs_decompress_slice(&mut output, data, wbits);
        if rc == 0 || rc == 1 {
            output.truncate(n);
            return Ok(output);
        } else if rc == -5 {
            if size > usize::MAX / 2 {
                return Err(ZlibError::OutputTooLarge);
            }
            size = size * 2;
        } else {
            return Err(ZlibError::DecompressData(return_code_from_number(rc)));
        }
    }
}

} // verus!
