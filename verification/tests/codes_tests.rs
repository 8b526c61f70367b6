use zlib_py::codes::{deflate_flush_from_mode, return_code_info, ErrorClass, FlushMode, ReturnCode, ZlibError};
use zlib_py::params::{validate_compress_wbits, validate_decompress_wbits};

#[test]
fn return_code_table() {
    assert_eq!(return_code_info(ReturnCode::Success), (0, "Z_OK", ""));
    assert_eq!(return_code_info(ReturnCode::DataError), (-3, "Z_DATA_ERROR", "invalid or incomplete data"));
    assert_eq!(return_code_info(ReturnCode::BufError), (-5, "Z_BUF_ERROR", "incomplete or truncated stream"));
    assert_eq!(return_code_info(ReturnCode::VersionError), (-6, "Z_VERSION_ERROR", "incompatible zlib version"));
    assert_eq!(return_code_info(ReturnCode::NeedDict), (2, "Z_NEED_DICT", "preset dictionary required"));
}

#[test]
fn flush_modes() {
    assert_eq!(deflate_flush_from_mode(0), Ok(FlushMode::NoFlush));
    assert_eq!(deflate_flush_from_mode(2), Ok(FlushMode::SyncFlush));
    assert_eq!(deflate_flush_from_mode(4), Ok(FlushMode::Finish));
    assert_eq!(deflate_flush_from_mode(5), Ok(FlushMode::Block));
    assert_eq!(deflate_flush_from_mode(6), Err(ZlibError::InvalidFlushOption));
    assert_eq!(deflate_flush_from_mode(-1), Err(ZlibError::InvalidFlushOption));
}

#[test]
fn compress_wbits_ranges() {
    for w in [-15, -8, 8, 15, 25, 31] {
        assert_eq!(validate_compress_wbits(w), Ok(()));
    }
    for w in [-16, -7, 0, 7, 16, 24, 32, 40] {
        assert_eq!(validate_compress_wbits(w), Err(ZlibError::InvalidInitOption));
    }
}

#[test]
fn decompress_wbits_ranges() {
    for w in [0, -15, -8, 8, 15, 24, 31, 40, 47] {
        assert_eq!(validate_decompress_wbits(w), Ok(()));
    }
    for w in [-16, -7, 7, 16, 23, 32, 39, 48] {
        assert_eq!(validate_decompress_wbits(w), Err(ZlibError::InvalidInitOption));
    }
}

#[test]
fn error_classes() {
    assert_eq!(ZlibError::EndOfStream.error_class(), ErrorClass::EofError);
    assert_eq!(ZlibError::NegativeMaxLength.error_class(), ErrorClass::ValueError);
    assert_eq!(ZlibError::NonPositiveFlushLength.error_class(), ErrorClass::ValueError);
    assert_eq!(ZlibError::BadCompressionLevel.error_class(), ErrorClass::ValueError);
    assert_eq!(ZlibError::BadCompressionMethod.error_class(), ErrorClass::ZlibError);
    assert_eq!(ZlibError::CompressorFlushed.error_class(), ErrorClass::ZlibError);
}
