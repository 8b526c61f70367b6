//! The accepted `wbits` ranges and the window each one selects.

use vstd::prelude::*;
use crate::codes::ZlibError;

verus! {

/// The size of the streaming objects' working buffers.
pub const BUF_CAPACITY: usize = 32768;

/// The `wbits` that one-shot compression and `compressobj` accept:
/// raw deflate (-15..=-8), zlib (8..=15) and gzip (25..=31).
pub open spec fn compress_wbits_ok(wbits: i32) -> bool {
    ||| -15 <= wbits <= -8
    ||| 8 <= wbits <= 15
    ||| 25 <= wbits <= 31
}

/// The `wbits` that one-shot decompression accepts: those of compression,
/// 0 (window size from the header), 24..=31 (gzip) and 40..=47 (auto-detect).
pub open spec fn decompress_wbits_ok(wbits: i32) -> bool {
    ||| wbits == 0
    ||| -15 <= wbits <= -8
    ||| 8 <= wbits <= 15
    ||| 24 <= wbits <= 31
    ||| 40 <= wbits <= 47
}

/// Checks `wbits` for compression.
pub fn validate_compress_wbits(wbits: i32) -> (r: Result<(), ZlibError>)
    ensures
        r == (if compress_wbits_ok(wbits) {
            Ok(())
        } else {
            Err(ZlibError::InvalidInitOption)
        }),
{
    if (-15 <= wbits && wbits <= -8) || (8 <= wbits && wbits <= 15) || (25 <= wbits && wbits <= 31) {
        Ok(())
    } else {
        Err(ZlibError::InvalidInitOption)
    }
}

/// Checks `wbits` for decompression.
pub fn validate_decompress_wbits(wbits: i32) -> (r: Result<(), ZlibError>)
    ensures
        r == (if decompress_wbits_ok(wbits) {
            Ok(())
        } else {
            Err(ZlibError::InvalidInitOption)
        }),
{
    if wbits == 0 || (-15 <= wbits && wbits <= -8) || (8 <= wbits && wbits <= 15) || (24 <= wbits
        && wbits <= 31) || (40 <= wbits && wbits <= 47) {
        Ok(())
    } else {
        Err(ZlibError::InvalidInitOption)
    }
}

/// The `wbits` that a streaming decompressor accepts: raw deflate
/// (-15..=-8), zlib (8..=15), and 0 for the window named in the zlib header.
pub open spec fn stream_decompress_wbits_ok(wbits: i32) -> bool {
    ||| wbits == 0
    ||| -15 <= wbits <= -8
    ||| 8 <= wbits <= 15
}

/// The gzip (24..=31) and auto-detecting (40..=47) `wbits`, which the
/// streaming decompressors do not offer.
pub open spec fn gzip_or_auto_wbits(wbits: i32) -> bool {
    ||| 24 <= wbits <= 31
    ||| 40 <= wbits <= 47
}

/// Whether a streaming decompressor for `wbits` expects a zlib header, and its
/// window size in bits; `wbits == 0` takes the largest window (15) and leaves
/// the header to name the actual one.
pub open spec fn inflate_window_spec(wbits: i32) -> (bool, u8) {
    if wbits == 0 {
        (true, 15u8)
    } else if wbits < 0 {
        (false, (-wbits) as u8)
    } else {
        (true, wbits as u8)
    }
}

/// Whether a streaming compressor for `wbits` writes a zlib header, and its
/// window size in bits.
pub open spec fn deflate_window_spec(wbits: i32) -> (bool, u8) {
    if wbits < 0 {
        (false, (-wbits) as u8)
    } else {
        (true, wbits as u8)
    }
}

/// The header choice and window size of a streaming decompressor.
pub fn inflate_window(wbits: i32) -> (r: (bool, u8))
    requires
        stream_decompress_wbits_ok(wbits),
    ensures
        r == inflate_window_spec(wbits),
        8 <= r.1 <= 15,
        r.0 == (wbits >= 0),
{
    if wbits == 0 {
        (true, 15u8)
    } else if wbits < 0 {
        (false, (-wbits) as u8)
    } else {
        (true, wbits as u8)
    }
}

/// The header choice and window size of a streaming compressor.
pub fn deflate_window(wbits: i32) -> (r: (bool, u8))
    requires
        -15 <= wbits <= -8 || 8 <= wbits <= 15,
    ensures
        r == deflate_window_spec(wbits),
        8 <= r.1 <= 15,
        r.0 == (wbits > 0),
{
    if wbits < 0 {
        (false, (-wbits) as u8)
    } else {
        (true, wbits as u8)
    }
}

} // verus!
