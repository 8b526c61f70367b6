use zlib_py::codes::{ErrorClass, ZlibError};
use zlib_py::compressor::compressobj;
use zlib_py::decompressor::decompressobj;
use zlib_py::oneshot::{compress, decompress};
use zlib_py::zlib_decompressor::ZlibDecompressor;

fn sample(n: usize) -> Vec<u8> {
    (0..n).map(|i| (i % 13 * 17 + i / 101) as u8).collect()
}

fn stream_compress(data: &[u8], wbits: i32, chunk: usize) -> Vec<u8> {
    let mut c = compressobj(6, 8, wbits, 8, 0, None).unwrap();
    let mut out = Vec::new();
    for part in data.chunks(chunk) {
        out.extend(c.compress(part).unwrap());
    }
    out.extend(c.flush(4).unwrap());
    out
}

#[test]
fn streaming_compress_then_one_shot_decompress() {
    let data = sample(50_000);
    let z = stream_compress(&data, 15, 1000);
    assert_eq!(decompress(&z, 15, 16384).unwrap(), data);
    let raw = stream_compress(&data, -15, 777);
    assert_eq!(decompress(&raw, -15, 16384).unwrap(), data);
}

#[test]
fn finished_compressor_refuses_work() {
    let mut c = compressobj(-1, 8, 15, 8, 0, None).unwrap();
    c.compress(b"abc").unwrap();
    assert!(!c.finished());
    c.flush(4).unwrap();
    assert!(c.finished());
    assert_eq!(c.compress(b"more").unwrap_err(), ZlibError::CompressorFlushed);
    assert_eq!(c.flush(2).unwrap_err(), ZlibError::CompressorFlushed);
    assert_eq!(c.flush(0).unwrap(), Vec::<u8>::new());
}

#[test]
fn sync_flush_emits_decodable_prefix() {
    let mut c = compressobj(6, 8, 15, 8, 0, None).unwrap();
    let mut z = c.compress(b"hello world").unwrap();
    z.extend(c.flush(2).unwrap());
    assert!(!c.finished());
    let mut d = decompressobj(15, None).unwrap();
    assert_eq!(d.decompress(&z, 0).unwrap(), b"hello world".to_vec());
}

#[test]
fn flush_mode_checks() {
    let mut c = compressobj(6, 8, 15, 8, 0, None).unwrap();
    let e = c.flush(6).unwrap_err();
    assert_eq!(e, ZlibError::InvalidFlushOption);
    assert_eq!(e.error_class(), ErrorClass::ValueError);
    assert_eq!(c.flush(0).unwrap(), Vec::<u8>::new());
}

#[test]
fn compressobj_argument_checks() {
    assert_eq!(compressobj(10, 8, 15, 8, 0, None).err(), Some(ZlibError::BadCompressionLevel));
    assert_eq!(compressobj(-2, 8, 15, 8, 0, None).err(), Some(ZlibError::BadCompressionLevel));
    assert_eq!(compressobj(6, 9, 15, 8, 0, None).err(), Some(ZlibError::BadCompressionMethod));
    assert_eq!(compressobj(6, 8, 31, 8, 0, None).err(), Some(ZlibError::GzipCompressorUnsupported));
    assert_eq!(compressobj(6, 8, 20, 8, 0, None).err(), Some(ZlibError::InvalidInitOption));
    assert_eq!(compressobj(6, 8, 7, 8, 0, None).err(), Some(ZlibError::InvalidInitOption));
    assert!(compressobj(0, 8, 8, 8, 0, None).is_ok());
}

#[test]
fn decompressobj_argument_checks() {
    assert_eq!(decompressobj(31, None).err(), Some(ZlibError::GzipDecompressobjUnsupported));
    assert_eq!(decompressobj(47, None).err(), Some(ZlibError::GzipDecompressobjUnsupported));
    assert_eq!(decompressobj(16, None).err(), Some(ZlibError::InvalidInitOption));
    assert_eq!(decompressobj(-7, None).err(), Some(ZlibError::InvalidInitOption));
    let d = decompressobj(0, None).unwrap();
    assert!(!d.eof());
    assert!(d.needs_input());
    assert!(d.unused_data().is_empty());
    assert!(d.unconsumed_tail().is_empty());
}

#[test]
fn preset_dictionary_roundtrip() {
    let dict = b"the quick brown fox jumps over the lazy dog";
    let data = b"the lazy dog jumps over the quick brown fox".to_vec();
    let mut c = compressobj(6, 8, 15, 8, 0, Some(dict)).unwrap();
    let mut z = c.compress(&data).unwrap();
    z.extend(c.flush(4).unwrap());

    let mut with_dict = decompressobj(15, Some(dict)).unwrap();
    assert_eq!(with_dict.decompress(&z, 0).unwrap(), data);
    assert!(with_dict.eof());

    let mut without = decompressobj(15, None).unwrap();
    assert_eq!(without.decompress(&z, 0).unwrap_err(), ZlibError::DictionaryRequired);

    let mut raw_c = compressobj(6, 8, -15, 8, 0, Some(dict)).unwrap();
    let mut raw = raw_c.compress(&data).unwrap();
    raw.extend(raw_c.flush(4).unwrap());
    let mut raw_d = decompressobj(-15, Some(dict)).unwrap();
    assert_eq!(raw_d.decompress(&raw, 0).unwrap(), data);
}

#[test]
fn max_length_leaves_unconsumed_tail() {
    let data = sample(20_000);
    let z = compress(&data, 6, 15).unwrap();
    let mut d = decompressobj(15, None).unwrap();
    let mut out = Vec::new();
    let mut input = z.clone();
    loop {
        let chunk = d.decompress(&input, 1000).unwrap();
        assert!(chunk.len() <= 1000);
        out.extend(chunk);
        input = d.unconsumed_tail();
        if d.eof() || input.is_empty() {
            break;
        }
    }
    out.extend(d.flush(16384).unwrap());
    assert_eq!(out, data);
    assert!(d.eof());
}

#[test]
fn trailing_bytes_become_unused_data() {
    let z = compress(b"payload", 6, 15).unwrap();
    let mut input = z.clone();
    input.extend_from_slice(b"TRAILER");
    let mut d = decompressobj(15, None).unwrap();
    assert_eq!(d.decompress(&input, 0).unwrap(), b"payload".to_vec());
    assert!(d.eof());
    assert!(!d.needs_input());
    assert_eq!(d.unused_data(), b"TRAILER".to_vec());
    assert_eq!(d.decompress(b"MORE", 0).unwrap(), Vec::<u8>::new());
    assert_eq!(d.unused_data(), b"TRAILERMORE".to_vec());
    assert_eq!(d.flush(16384).unwrap(), Vec::<u8>::new());
}

#[test]
fn decompress_argument_checks() {
    let mut d = decompressobj(15, None).unwrap();
    let e = d.decompress(b"", -1).unwrap_err();
    assert_eq!(e, ZlibError::NegativeMaxLength);
    assert_eq!(e.error_class(), ErrorClass::ValueError);
    let e = d.flush(0).unwrap_err();
    assert_eq!(e, ZlibError::NonPositiveFlushLength);
    assert_eq!(e.error_class(), ErrorClass::ValueError);
}

#[test]
fn corrupt_stream_fails() {
    let mut d = decompressobj(15, None).unwrap();
    assert!(matches!(d.decompress(b"not a zlib stream", 0), Err(ZlibError::InflateFailed(_))));
}

#[test]
fn needs_input_until_stream_is_complete() {
    let data = sample(4000);
    let z = compress(&data, 6, 15).unwrap();
    let mut d = decompressobj(15, None).unwrap();
    let (first, second) = z.split_at(z.len() / 2);
    let mut out = d.decompress(first, 0).unwrap();
    assert!(d.needs_input());
    assert!(!d.eof());
    out.extend(d.decompress(second, 0).unwrap());
    assert!(d.eof());
    assert!(!d.needs_input());
    assert_eq!(out, data);
}

#[test]
fn zlib_decompressor_streams_and_stops_at_end() {
    let data = sample(30_000);
    let z = compress(&data, 6, 15).unwrap();
    let mut d = ZlibDecompressor::new(15, None).unwrap();
    let mut out = Vec::new();
    for part in z.chunks(100) {
        out.extend(d.decompress(part, -1).unwrap());
    }
    assert_eq!(out, data);
    assert!(d.eof());
    assert!(!d.needs_input());
    let e = d.decompress(b"x", -1).unwrap_err();
    assert_eq!(e, ZlibError::EndOfStream);
    assert_eq!(e.error_class(), ErrorClass::EofError);
}

#[test]
fn zlib_decompressor_zero_max_length_buffers_input() {
    let z = compress(b"abcdefghij", 6, 15).unwrap();
    let mut d = ZlibDecompressor::new(15, None).unwrap();
    assert_eq!(d.decompress(&z, 0).unwrap(), Vec::<u8>::new());
    assert_eq!(d.buffered_len(), z.len());
    assert!(!d.needs_input());
    assert_eq!(d.decompress(b"", -1).unwrap(), b"abcdefghij".to_vec());
    assert!(d.eof());
    assert_eq!(d.buffered_len(), 0);
}

#[test]
fn zlib_decompressor_limits_output_and_keeps_unused_data() {
    let data = sample(10_000);
    let mut z = compress(&data, 6, 15).unwrap();
    z.extend_from_slice(b"tail");
    let mut d = ZlibDecompressor::new(15, None).unwrap();
    let mut out = d.decompress(&z, 500).unwrap();
    assert_eq!(out.len(), 500);
    while !d.eof() {
        let chunk = d.decompress(b"", 500).unwrap();
        assert!(chunk.len() <= 500);
        out.extend(chunk);
    }
    assert_eq!(out, data);
    assert_eq!(d.unused_data(), b"tail".to_vec());
}

#[test]
fn zlib_decompressor_argument_checks() {
    assert_eq!(ZlibDecompressor::new(31, None).err(), Some(ZlibError::GzipZlibDecompressorUnsupported));
    assert_eq!(ZlibDecompressor::new(99, None).err(), Some(ZlibError::InvalidInitOption));
    let d = ZlibDecompressor::new(-15, None).unwrap();
    assert!(d.needs_input());
    assert!(!d.eof());
}

#[test]
fn zlib_decompressor_with_dictionary() {
    let dict = b"0123456789abcdef0123456789abcdef";
    let data = b"abcdef0123456789abcdef".to_vec();
    let mut c = compressobj(9, 8, 15, 8, 0, Some(dict)).unwrap();
    let mut z = c.compress(&data).unwrap();
    z.extend(c.flush(4).unwrap());
    let mut d = ZlibDecompressor::new(15, Some(dict)).unwrap();
    assert_eq!(d.decompress(&z, -1).unwrap(), data);
    let mut none = ZlibDecompressor::new(15, None).unwrap();
    assert_eq!(none.decompress(&z, -1).unwrap_err(), ZlibError::DictionaryRequired);
}

#[test]
fn wrong_dictionary_is_refused() {
    let dict = b"the quick brown fox jumps over the lazy dog";
    let mut c = compressobj(6, 8, 15, 8, 0, Some(dict)).unwrap();
    let mut z = c.compress(b"lazy dog").unwrap();
    z.extend(c.flush(4).unwrap());
    let mut d = decompressobj(15, Some(b"another dictionary entirely")).unwrap();
    assert!(matches!(
        d.decompress(&z, 0),
        Err(ZlibError::InflateDictionary(zlib_py::codes::InflateFailure::DataError))
    ));
}

#[test]
fn flushing_a_corrupt_tail_fails() {
    let mut c = compressobj(6, 8, -15, 8, 0, None).unwrap();
    let mut raw = c.compress(b"AAAAAAAAAAAAAAAA").unwrap();
    raw.extend(c.flush(2).unwrap());
    // A final block of the reserved type 3.
    raw.push(0x07);
    let mut d = decompressobj(-15, None).unwrap();
    let first = d.decompress(&raw, 1).unwrap();
    assert_eq!(first, b"A".to_vec());
    assert!(!d.unconsumed_tail().is_empty());
    assert!(matches!(
        d.flush(16384),
        Err(ZlibError::InflateFlushFailed(zlib_py::codes::InflateFailure::DataError))
    ));
}

/// A complete zlib stream of `b"hello"`.
const HELLO_Z: [u8; 13] = [0x78, 0x9c, 0xcb, 0x48, 0xcd, 0xc9, 0xc9, 0x07, 0x00, 0x06, 0x2c, 0x02, 0x15];

#[test]
fn limited_decompress_keeps_the_rest_as_unconsumed_tail() {
    let mut d = decompressobj(15, None).unwrap();
    assert_eq!(d.decompress(&HELLO_Z, 2).unwrap(), b"he".to_vec());
    assert!(!d.eof());
    assert!(!d.needs_input());
    let tail = d.unconsumed_tail();
    assert!(!tail.is_empty());
    assert!(HELLO_Z.ends_with(&tail));
    assert!(tail.ends_with(&[0x06, 0x2c, 0x02, 0x15]));
}

#[test]
fn unlimited_decompress_moves_trailing_bytes_to_unused_data() {
    let mut input = HELLO_Z.to_vec();
    input.extend_from_slice(b"xyz");
    let mut d = decompressobj(15, None).unwrap();
    assert_eq!(d.decompress(&input, 0).unwrap(), b"hello".to_vec());
    assert!(d.eof());
    assert_eq!(d.unused_data(), b"xyz".to_vec());
    assert!(d.unconsumed_tail().is_empty());
    assert!(!d.needs_input());
}

#[test]
fn stream_cut_before_its_check_value_needs_input() {
    let mut d = decompressobj(15, None).unwrap();
    assert_eq!(d.decompress(&HELLO_Z[..9], 0).unwrap(), b"hello".to_vec());
    assert!(!d.eof());
    assert!(d.needs_input());
    assert!(d.unconsumed_tail().is_empty());
    assert!(d.unused_data().is_empty());
}

#[test]
fn bad_header_is_a_decompression_error() {
    let mut d = decompressobj(15, None).unwrap();
    assert!(matches!(d.decompress(b"abc", 0), Err(ZlibError::InflateFailed(_))));
}

#[test]
fn flush_after_limited_decompress_moves_trailing_bytes_to_unused_data() {
    let mut input = HELLO_Z.to_vec();
    input.extend_from_slice(b"xyz");
    let mut d = decompressobj(15, None).unwrap();
    assert_eq!(d.decompress(&input, 2).unwrap(), b"he".to_vec());
    assert!(d.unconsumed_tail().ends_with(b"xyz"));
    assert_eq!(d.flush(16384).unwrap(), b"llo".to_vec());
    assert!(d.eof());
    assert_eq!(d.unused_data(), b"xyz".to_vec());
    assert!(d.unconsumed_tail().is_empty());
}

#[test]
fn chunked_decompress_gives_back_the_payload() {
    let data = sample(3000);
    for wbits in [-15, -9, 9, 15] {
        let z = compress(&data, 6, wbits).unwrap();
        for size in [1, 7, 100] {
            let mut d = decompressobj(wbits, None).unwrap();
            let mut out = Vec::new();
            for part in z.chunks(size) {
                out.extend(d.decompress(part, 0).unwrap());
            }
            assert_eq!(out, data);
            assert!(d.eof());
            assert!(d.unused_data().is_empty());
            assert!(d.unconsumed_tail().is_empty());
        }
    }
}

#[test]
fn repeated_limited_decompress_gives_back_the_payload() {
    let data = sample(5000);
    let z = compress(&data, 6, 15).unwrap();
    for m in [1, 3, 64] {
        let mut d = decompressobj(15, None).unwrap();
        let mut out = d.decompress(&z, m).unwrap();
        assert!(out.len() <= m as usize);
        let mut rounds = 0;
        while !d.eof() {
            let tail = d.unconsumed_tail();
            let chunk = d.decompress(&tail, m).unwrap();
            assert!(chunk.len() <= m as usize);
            out.extend(chunk);
            rounds += 1;
            assert!(rounds <= 10 * data.len());
        }
        assert_eq!(out, data);
        assert!(d.unconsumed_tail().is_empty());
        assert!(d.unused_data().is_empty());
    }
}

#[test]
fn streaming_compress_with_sync_flush_then_decompress() {
    let mut c = compressobj(6, 8, 15, 8, 0, None).unwrap();
    let mut z = c.compress(b"first part, ").unwrap();
    z.extend(c.flush(2).unwrap());
    z.extend(c.compress(b"second part").unwrap());
    z.extend(c.flush(4).unwrap());
    assert_eq!(&z[..2], &[0x78, 0x9c]);
    let mut d = decompressobj(15, None).unwrap();
    assert_eq!(d.decompress(&z, 0).unwrap(), b"first part, second part".to_vec());
    assert!(d.eof());
}

#[test]
fn empty_default_stream() {
    let mut c = compressobj(-1, 8, 15, 8, 0, None).unwrap();
    let mut z = c.compress(b"").unwrap();
    z.extend(c.flush(4).unwrap());
    assert_eq!(z, compress(b"", -1, 15).unwrap());
    let mut d = decompressobj(15, None).unwrap();
    assert_eq!(d.decompress(&z, 0).unwrap(), Vec::<u8>::new());
    assert!(d.eof());
}

#[test]
fn wbits_zero_takes_the_window_from_the_header() {
    let data = sample(2000);
    let z = compress(&data, 6, 12).unwrap();
    let mut d = decompressobj(0, None).unwrap();
    assert_eq!(d.decompress(&z, 0).unwrap(), data);
    let mut s = ZlibDecompressor::new(0, None).unwrap();
    assert_eq!(s.decompress(&z, -1).unwrap(), data);
}

#[test]
fn zlib_decompressor_buffers_input_at_zero_max_length() {
    let mut d = ZlibDecompressor::new(15, None).unwrap();
    assert_eq!(d.decompress(&HELLO_Z, 0).unwrap(), Vec::<u8>::new());
    assert!(!d.eof());
    assert!(!d.needs_input());
    assert_eq!(d.decompress(b"", -1).unwrap(), b"hello".to_vec());
    assert!(d.eof());
    assert!(d.unused_data().is_empty());
}

#[test]
fn zlib_decompressor_moves_trailing_bytes_to_unused_data() {
    let mut input = HELLO_Z.to_vec();
    input.extend_from_slice(b"xyz");
    let mut d = ZlibDecompressor::new(15, None).unwrap();
    assert_eq!(d.decompress(&input, -1).unwrap(), b"hello".to_vec());
    assert!(d.eof());
    assert_eq!(d.unused_data(), b"xyz".to_vec());
    assert!(!d.needs_input());
}

#[test]
fn zlib_decompressor_limited_chunks() {
    let mut d = ZlibDecompressor::new(15, None).unwrap();
    assert_eq!(d.decompress(&HELLO_Z, 2).unwrap(), b"he".to_vec());
    assert!(!d.needs_input());
    assert_eq!(d.decompress(b"", 2).unwrap(), b"ll".to_vec());
    assert_eq!(d.decompress(b"", -1).unwrap(), b"o".to_vec());
    assert!(d.eof());
    assert!(d.unused_data().is_empty());
}

#[test]
fn dictionary_stream_needs_its_dictionary() {
    let dict = b"hello hello hello";
    let mut c = compressobj(6, 8, 15, 8, 0, Some(dict)).unwrap();
    let mut z = c.compress(b"hello world").unwrap();
    z.extend(c.flush(4).unwrap());
    let mut d = decompressobj(15, Some(dict)).unwrap();
    assert_eq!(d.decompress(&z, 0).unwrap(), b"hello world".to_vec());
    assert!(d.eof());
    let mut none = decompressobj(15, None).unwrap();
    let e = none.decompress(&z, 0).unwrap_err();
    assert_eq!(e, ZlibError::DictionaryRequired);
}

#[test]
fn streaming_compress_then_streaming_decompress() {
    let data = sample(40_000);
    for wbits in [-15, -9, 9, 15] {
        let z = stream_compress(&data, wbits, 999);
        let mut d = decompressobj(wbits, None).unwrap();
        let mut out = Vec::new();
        for part in z.chunks(333) {
            let piece = d.decompress(part, 0).unwrap();
            out.extend(piece);
            assert!(data.starts_with(&out));
        }
        assert!(d.eof());
        assert_eq!(out, data);

        let mut s = ZlibDecompressor::new(wbits, None).unwrap();
        let mut out = Vec::new();
        for part in z.chunks(4096) {
            out.extend(s.decompress(part, 1000).unwrap());
            assert!(data.starts_with(&out));
        }
        while !s.eof() {
            out.extend(s.decompress(b"", 1000).unwrap());
        }
        assert_eq!(out, data);
    }
}

#[test]
fn flush_drains_everything_whatever_the_length_hint() {
    let mut d = decompressobj(15, None).unwrap();
    assert_eq!(d.decompress(&HELLO_Z, 2).unwrap(), b"he".to_vec());
    assert_eq!(d.flush(1).unwrap(), b"llo".to_vec());
    assert!(d.eof());
    assert!(d.unconsumed_tail().is_empty());
}

#[test]
fn partial_and_full_flushes_emit_all_pending_output() {
    for mode in [1, 2, 3] {
        let mut c = compressobj(6, 8, 15, 8, 0, None).unwrap();
        let mut z = c.compress(b"pending bytes").unwrap();
        z.extend(c.flush(mode).unwrap());
        let mut d = decompressobj(15, None).unwrap();
        assert_eq!(d.decompress(&z, 0).unwrap(), b"pending bytes".to_vec());
        assert!(!d.eof());
    }
}
