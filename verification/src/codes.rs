//! Result codes, flush modes, failures and the library's errors.

use vstd::prelude::*;

verus! {

/// The result codes of zlib, with the numbers that C zlib gives them.
#[derive(Clone, Copy, Debug, PartialEq, Eq, Structural)]
pub enum ReturnCode {
    Success,
    StreamEnd,
    NeedDict,
    ErrNo,
    StreamError,
    DataError,
    MemError,
    BufError,
    VersionError,
}

/// The number that C zlib gives a result code.
pub open spec fn code_number(rc: ReturnCode) -> int {
    match rc {
        ReturnCode::Success => 0,
        ReturnCode::StreamEnd => 1,
        ReturnCode::NeedDict => 2,
        ReturnCode::ErrNo => -1,
        ReturnCode::StreamError => -2,
        ReturnCode::DataError => -3,
        ReturnCode::MemError => -4,
        ReturnCode::BufError => -5,
        ReturnCode::VersionError => -6,
    }
}

/// The symbolic name of a result code.
pub open spec fn code_name(rc: ReturnCode) -> Seq<char> {
    match rc {
        ReturnCode::Success => "Z_OK"@,
        ReturnCode::StreamEnd => "Z_STREAM_END"@,
        ReturnCode::NeedDict => "Z_NEED_DICT"@,
        ReturnCode::ErrNo => "Z_ERRNO"@,
        ReturnCode::StreamError => "Z_STREAM_ERROR"@,
        ReturnCode::DataError => "Z_DATA_ERROR"@,
        ReturnCode::MemError => "Z_MEM_ERROR"@,
        ReturnCode::BufError => "Z_BUF_ERROR"@,
        ReturnCode::VersionError => "Z_VERSION_ERROR"@,
    }
}

/// The human-readable message attached to a result code.
pub open spec fn code_message(rc: ReturnCode) -> Seq<char> {
    match rc {
        ReturnCode::Success => ""@,
        ReturnCode::StreamEnd => ""@,
        ReturnCode::NeedDict => "preset dictionary required"@,
        ReturnCode::ErrNo => "io error"@,
        ReturnCode::StreamError => "invalid stream state"@,
        ReturnCode::DataError => "invalid or incomplete data"@,
        ReturnCode::MemError => "out of memory"@,
        ReturnCode::BufError => "incomplete or truncated stream"@,
        ReturnCode::VersionError => "incompatible zlib version"@,
    }
}

/// The result code that C zlib numbers `n`, if any.
pub open spec fn code_of_number(n: int) -> Option<ReturnCode> {
    if n == 0 {
        Some(ReturnCode::Success)
    } else if n == 1 {
        Some(ReturnCode::StreamEnd)
    } else if n == 2 {
        Some(ReturnCode::NeedDict)
    } else if n == -1 {
        Some(ReturnCode::ErrNo)
    } else if n == -2 {
        Some(ReturnCode::StreamError)
    } else if n == -3 {
        Some(ReturnCode::DataError)
    } else if n == -4 {
        Some(ReturnCode::MemError)
    } else if n == -5 {
        Some(ReturnCode::BufError)
    } else if n == -6 {
        Some(ReturnCode::VersionError)
    } else {
        None
    }
}

/// Numbers and codes correspond one to one.
pub proof fn lemma_code_number_roundtrip(rc: ReturnCode)
    ensures
        code_of_number(code_number(rc)) == Some(rc),
{
}

/// The result code for a number in C zlib's range of result codes.
pub fn return_code_from_number(n: i32) -> (rc: ReturnCode)
    requires
        -6 <= n <= 2,
    ensures
        code_number(rc) == n,
        code_of_number(n as int) == Some(rc),
{
    if n == 0 {
        ReturnCode::Success
    } else if n == 1 {
        ReturnCode::StreamEnd
    } else if n == 2 {
        ReturnCode::NeedDict
    } else if n == -1 {
        ReturnCode::ErrNo
    } else if n == -2 {
        ReturnCode::StreamError
    } else if n == -3 {
        ReturnCode::DataError
    } else if n == -4 {
        ReturnCode::MemError
    } else if n == -5 {
        ReturnCode::BufError
    } else {
        ReturnCode::VersionError
    }
}

/// The numeric code, the symbolic name and the message of a result code,
/// as error messages that mimic C zlib report them.
pub fn return_code_info(rc: ReturnCode) -> (r: (i32, &'static str, &'static str))
    ensures
        r.0 == code_number(rc),
        r.1@ == code_name(rc),
        r.2@ == code_message(rc),
{
    match rc {
        ReturnCode::Success => (0, "Z_OK", ""),
        ReturnCode::StreamEnd => (1, "Z_STREAM_END", ""),
        ReturnCode::NeedDict => (2, "Z_NEED_DICT", "preset dictionary required"),
        ReturnCode::ErrNo => (-1, "Z_ERRNO", "io error"),
        ReturnCode::StreamError => (-2, "Z_STREAM_ERROR", "invalid stream state"),
        ReturnCode::DataError => (-3, "Z_DATA_ERROR", "invalid or incomplete data"),
        ReturnCode::MemError => (-4, "Z_MEM_ERROR", "out of memory"),
        ReturnCode::BufError => (-5, "Z_BUF_ERROR", "incomplete or truncated stream"),
        ReturnCode::VersionError => (-6, "Z_VERSION_ERROR", "incompatible zlib version"),
    }
}

/// Progress reported by one step of a compressor or decompressor.
#[derive(Clone, Copy, Debug, PartialEq, Eq, Structural)]
pub enum Status {
    Progress,
    BufError,
    StreamEnd,
}

/// The status numbered `n` in the declaration order of `zlib_rs::Status`.
pub open spec fn status_of_number(n: int) -> Status {
    if n == 0 {
        Status::Progress
    } else if n == 1 {
        Status::BufError
    } else {
        Status::StreamEnd
    }
}

/// The status for a number of `zlib_rs::Status`.
pub fn status_from_number(n: i32) -> (s: Status)
    requires
        0 <= n <= 2,
    ensures
        s == status_of_number(n as int),
{
    if n == 0 {
        Status::Progress
    } else if n == 1 {
        Status::BufError
    } else {
        Status::StreamEnd
    }
}

/// Why a step of the compressor failed.
#[derive(Clone, Copy, Debug, PartialEq, Eq, Structural)]
pub enum DeflateFailure {
    StreamError,
    DataError,
    MemError,
}

/// The compressor failure that `zlib_rs::DeflateError` numbers `n`.
pub open spec fn deflate_failure_of_number(n: int) -> DeflateFailure {
    if n == -2 {
        DeflateFailure::StreamError
    } else if n == -3 {
        DeflateFailure::DataError
    } else {
        DeflateFailure::MemError
    }
}

/// The compressor failure for a number of `zlib_rs::DeflateError`.
pub fn deflate_failure_from_number(n: i32) -> (f: DeflateFailure)
    requires
        -4 <= n <= -2,
    ensures
        f == deflate_failure_of_number(n as int),
{
    if n == -2 {
        DeflateFailure::StreamError
    } else if n == -3 {
        DeflateFailure::DataError
    } else {
        DeflateFailure::MemError
    }
}

/// Why a step of the decompressor failed.
#[derive(Clone, Copy, Debug, PartialEq, Eq, Structural)]
pub enum InflateFailure {
    NeedDict { dict_id: u32 },
    StreamError,
    DataError,
    MemError,
}

/// The flush modes that a compressor accepts.
#[derive(Clone, Copy, Debug, PartialEq, Eq, Structural)]
pub enum FlushMode {
    NoFlush,
    PartialFlush,
    SyncFlush,
    FullFlush,
    Finish,
    Block,
}

/// The number by which zlib names a flush mode.
pub open spec fn flush_mode_number(m: FlushMode) -> int {
    match m {
        FlushMode::NoFlush => 0,
        FlushMode::PartialFlush => 1,
        FlushMode::SyncFlush => 2,
        FlushMode::FullFlush => 3,
        FlushMode::Finish => 4,
        FlushMode::Block => 5,
    }
}

/// The Python exception class that an error is raised as.
#[derive(Clone, Copy, Debug, PartialEq, Eq, Structural)]
pub enum ErrorClass {
    /// The module's own `zlib.error`.
    ZlibError,
    ValueError,
    EofError,
}

/// Everything that the library refuses or that fails in it.
#[derive(Clone, Copy, Debug, PartialEq, Eq, Structural)]
pub enum ZlibError {
    /// `wbits` outside the accepted ranges.
    InvalidInitOption,
    /// A negative `bufsize` for one-shot decompression.
    NegativeBufsize,
    /// The output buffer of one-shot decompression would need more than `usize::MAX` bytes.
    OutputTooLarge,
    /// One-shot compression ended with this code.
    CompressData(ReturnCode),
    /// One-shot decompression ended with this code.
    DecompressData(ReturnCode),
    /// A compression level outside `-1` and `0..=9`.
    BadCompressionLevel,
    /// A compression method other than deflate (8).
    BadCompressionMethod,
    /// Gzip `wbits` asked of a streaming compressor.
    GzipCompressorUnsupported,
    /// Gzip or auto-detecting `wbits` asked of `decompressobj`.
    GzipDecompressobjUnsupported,
    /// Gzip or auto-detecting `wbits` asked of the standalone decompressor.
    GzipZlibDecompressorUnsupported,
    /// Installing the compressor's preset dictionary failed.
    DeflateDictionary(DeflateFailure),
    /// Installing the decompressor's preset dictionary failed.
    InflateDictionary(InflateFailure),
    /// A flush mode outside `0..=5`.
    InvalidFlushOption,
    /// The compressor was finished and takes no more work.
    CompressorFlushed,
    /// A compression step failed.
    CompressFailed(DeflateFailure),
    /// A flushing compression step failed.
    FlushFailed(DeflateFailure),
    /// A negative `max_length`.
    NegativeMaxLength,
    /// The stream asks for a preset dictionary and none was given.
    DictionaryRequired,
    /// A decompression step failed.
    InflateFailed(InflateFailure),
    /// A `length` of zero or less for flushing a decompressor.
    NonPositiveFlushLength,
    /// A flushing decompression step failed.
    InflateFlushFailed(InflateFailure),
    /// Decompression was asked of a decompressor that already reached the end of its stream.
    EndOfStream,
    /// A stream's byte counters would pass `u64::MAX`.
    CounterOverflow,
}

/// The exception class that each error is raised as.
pub open spec fn error_class_of(e: ZlibError) -> ErrorClass {
    match e {
        ZlibError::InvalidInitOption => ErrorClass::ValueError,
        ZlibError::NegativeBufsize => ErrorClass::ValueError,
        ZlibError::BadCompressionLevel => ErrorClass::ValueError,
        ZlibError::InvalidFlushOption => ErrorClass::ValueError,
        ZlibError::NegativeMaxLength => ErrorClass::ValueError,
        ZlibError::NonPositiveFlushLength => ErrorClass::ValueError,
        ZlibError::EndOfStream => ErrorClass::EofError,
        _ => ErrorClass::ZlibError,
    }
}

impl ZlibError {
    /// The exception class that this error is raised as.
    pub fn error_class(&self) -> (c: ErrorClass)
        ensures
            c == error_class_of(*self),
    {
        match self {
            ZlibError::InvalidInitOption => ErrorClass::ValueError,
            ZlibError::NegativeBufsize => ErrorClass::ValueError,
            ZlibError::BadCompressionLevel => ErrorClass::ValueError,
            ZlibError::InvalidFlushOption => ErrorClass::ValueError,
            ZlibError::NegativeMaxLength => ErrorClass::ValueError,
            ZlibError::NonPositiveFlushLength => ErrorClass::ValueError,
            ZlibError::EndOfStream => ErrorClass::EofError,
            _ => ErrorClass::ZlibError,
        }
    }
}

/// The flush mode that zlib numbers `mode`; numbers outside `0..=5` are refused.
pub fn deflate_flush_from_mode(mode: i32) -> (r: Result<FlushMode, ZlibError>)
    ensures
        match r {
            Ok(m) => 0 <= mode <= 5 && flush_mode_number(m) == mode,
            Err(e) => !(0 <= mode <= 5) && e == ZlibError::InvalidFlushOption,
        },
{
    match mode {
        0 => Ok(FlushMode::NoFlush),
        1 => Ok(FlushMode::PartialFlush),
        2 => Ok(FlushMode::SyncFlush),
        3 => Ok(FlushMode::FullFlush),
        4 => Ok(FlushMode::Finish),
        5 => Ok(FlushMode::Block),
        _ => Err(ZlibError::InvalidFlushOption),
    }
}

} // verus!
