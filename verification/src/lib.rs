//! A verified core for a zlib-compatible module built on `zlib_rs`:
//! parameter validation, checksums, one-shot compression and
//! decompression, and the streaming compressor/decompressor state machines.

pub mod codes;
pub mod params;
pub mod bytes;
pub mod engine;
pub mod decoding;
pub mod checksum;
pub mod oneshot;
pub mod compressor;
pub mod decompressor;
pub mod zlib_decompressor;
