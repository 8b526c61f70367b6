use zlib_py::codes::{ErrorClass, ReturnCode, ZlibError};
use zlib_py::oneshot::{compress, decompress};

fn sample(n: usize) -> Vec<u8> {
    (0..n).map(|i| (i % 7 * 31 + i / 97) as u8).collect()
}

#[test]
fn decompresses_c_zlib_output() {
    let c_zlib = [120u8, 156, 203, 72, 205, 201, 201, 7, 0, 6, 44, 2, 21];
    assert_eq!(decompress(&c_zlib, 15, 16384).unwrap(), b"hello".to_vec());
}

#[test]
fn zlib_roundtrip_all_levels() {
    let data = sample(20_000);
    for level in -1..=9 {
        let c = compress(&data, level, 15).unwrap();
        assert_eq!(c[0], 0x78);
        assert_eq!(decompress(&c, 15, 16384).unwrap(), data);
    }
}

#[test]
fn raw_and_gzip_roundtrip() {
    let data = sample(5000);
    for wbits in [-15, -9, 9, 12, 25, 31] {
        let c = compress(&data, 6, wbits).unwrap();
        assert_eq!(decompress(&c, wbits, 0).unwrap(), data);
    }
    let gz = compress(&data, 6, 31).unwrap();
    assert_eq!(&gz[..2], &[0x1f, 0x8b]);
    assert_eq!(decompress(&gz, 47, 16384).unwrap(), data);
}

#[test]
fn empty_input_roundtrip() {
    let c = compress(b"", 6, 15).unwrap();
    assert_eq!(decompress(&c, 15, 1).unwrap(), Vec::<u8>::new());
}

#[test]
fn small_buffer_grows_until_output_fits() {
    let data = sample(100_000);
    let c = compress(&data, 9, 15).unwrap();
    assert!(c.len() < data.len());
    assert_eq!(decompress(&c, 15, 1).unwrap(), data);
    assert_eq!(decompress(&c, 15, 0).unwrap(), data);
}

#[test]
fn invalid_level_is_reported_as_stream_error() {
    let e = compress(b"abc", 10, 15).unwrap_err();
    assert_eq!(e, ZlibError::CompressData(ReturnCode::StreamError));
    assert_eq!(e.error_class(), ErrorClass::ZlibError);
}

#[test]
fn invalid_compress_wbits_is_reported_by_zlib() {
    assert_eq!(compress(b"abc", 6, 7).unwrap_err(), ZlibError::CompressData(ReturnCode::StreamError));
}

#[test]
fn invalid_decompress_wbits_is_a_value_error() {
    let e = decompress(b"abc", 7, 16384).unwrap_err();
    assert_eq!(e, ZlibError::InvalidInitOption);
    assert_eq!(e.error_class(), ErrorClass::ValueError);
    assert_eq!(decompress(b"abc", 16, 16384).unwrap_err(), ZlibError::InvalidInitOption);
    assert_eq!(decompress(b"abc", 48, 16384).unwrap_err(), ZlibError::InvalidInitOption);
}

#[test]
fn negative_bufsize_is_a_value_error() {
    let c = compress(b"abc", 6, 15).unwrap();
    let e = decompress(&c, 15, -1).unwrap_err();
    assert_eq!(e, ZlibError::NegativeBufsize);
    assert_eq!(e.error_class(), ErrorClass::ValueError);
}

#[test]
fn corrupt_and_truncated_input_is_a_data_error() {
    assert_eq!(
        decompress(b"this is not zlib", 15, 16384).unwrap_err(),
        ZlibError::DecompressData(ReturnCode::DataError)
    );
    let data = sample(3000);
    let c = compress(&data, 6, 15).unwrap();
    assert_eq!(
        decompress(&c[..c.len() - 5], 15, 16384).unwrap_err(),
        ZlibError::DecompressData(ReturnCode::DataError)
    );
}

#[test]
fn wrong_format_is_a_data_error() {
    let c = compress(b"hello hello hello", 6, 15).unwrap();
    assert_eq!(
        decompress(&c, 31, 16384).unwrap_err(),
        ZlibError::DecompressData(ReturnCode::DataError)
    );
}

#[test]
fn zlib_window_of_8_bits_is_widened_to_9() {
    let data = b"hello hello hello hello".to_vec();
    let c = compress(&data, 6, 8).unwrap();
    assert_eq!(decompress(&c, 8, 100).unwrap_err(), ZlibError::DecompressData(ReturnCode::DataError));
    assert_eq!(decompress(&c, 9, 100).unwrap(), data);
}

#[test]
fn raw_window_of_8_bits_and_wbits_24_are_refused_by_the_compressor() {
    assert_eq!(compress(b"hello", 6, -8).unwrap_err(), ZlibError::CompressData(ReturnCode::StreamError));
    assert_eq!(compress(b"hello", 6, 24).unwrap_err(), ZlibError::CompressData(ReturnCode::StreamError));
}

#[test]
fn gzip_output_of_tiny_input_fits_its_buffer() {
    for data in [&b""[..], &b"a"[..], &b"hello"[..]] {
        for wbits in [25, 31] {
            let gz = compress(data, 6, wbits).unwrap();
            assert_eq!(&gz[..3], &[0x1f, 0x8b, 0x08]);
            assert_eq!(decompress(&gz, wbits, 16384).unwrap(), data.to_vec());
        }
    }
}

#[test]
fn incompressible_input_fits_the_bound() {
    let mut x: u32 = 12345;
    let data: Vec<u8> = (0..1000)
        .map(|_| {
            x = x.wrapping_mul(1103515245).wrapping_add(12345);
            (x >> 16) as u8
        })
        .collect();
    for level in [0, 1, 6, 9] {
        let c = compress(&data, level, 15).unwrap();
        assert!(c.len() > data.len());
        assert_eq!(decompress(&c, 15, 1).unwrap(), data);
    }
}

#[test]
fn every_bufsize_gives_the_same_bytes() {
    let data = sample(20_000);
    let c = compress(&data, 6, 15).unwrap();
    for bufsize in [0, 1, 2, 3, 1000, 20_000, 1 << 20] {
        assert_eq!(decompress(&c, 15, bufsize).unwrap(), data);
    }
}
