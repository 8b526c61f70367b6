//! The streaming compressor.

use vstd::prelude::*;
use zlib_rs::Deflate;
use crate::codes::{
    deflate_failure_from_number, deflate_failure_of_number, deflate_flush_from_mode,
    status_from_number, FlushMode, Status, ZlibError,
};
use crate::decompressor::opt_slice;
use crate::engine::{
    added, complete_plain_stream, compress_bound_spec, deflate_after, roundtrip_wbits, deflate_dictionary, deflate_emitted, deflate_ended,
    deflate_fed, deflate_level, deflate_step, deflate_wbits, extends, lemma_extends_refl,
    lemma_extends_split, lemma_extends_trans, zrs_compress_bound,
    zrs_deflate_compress, zrs_deflate_new, zrs_deflate_set_dictionary, zrs_deflate_total_in,
    zrs_deflate_total_out,
};
use crate::params::{BUF_CAPACITY, compress_wbits_ok, deflate_window, validate_compress_wbits};

verus! {

/// The state of a streaming compressor as its users see it.
pub struct CompressView {
    /// Whether a `Finish` flush has closed the compressor.
    pub finished: bool,
    /// The underlying compression stream, with what it consumed and emitted.
    pub stream: Deflate,
    /// The length of the working output buffer.
    pub buffer_len: nat,
}

/// A streaming compressor. After a `Finish` flush it is finished and takes no
/// more work.
pub struct Compress {
    deflate: Deflate,
    finished: bool,
    buf: Vec<u8>,
}

impl View for Compress {
    type V = CompressView;

    closed spec fn view(&self) -> CompressView {
        CompressView { finished: self.finished, stream: self.deflate, buffer_len: self.buf@.len() }
    }
}

/// Whether a step on `s` with `input_len` input bytes and `out_len` output
/// bytes keeps the stream's byte counters within `u64`.
pub open spec fn counters_fit(s: Deflate, input_len: nat, out_len: nat) -> bool {
    &&& deflate_fed(s).len() + input_len <= u64::MAX
    &&& deflate_emitted(s).len() + out_len <= u64::MAX
}

/// `after` is `before` with a prefix of `data` appended.
pub open spec fn took_prefix(after: Seq<u8>, before: Seq<u8>, data: Seq<u8>) -> bool {
    &&& extends(after, before)
    &&& added(after, before).len() <= data.len()
    &&& data.take(added(after, before).len() as int) == added(after, before)
}

/// The larger of two lengths.
pub open spec fn max_len(a: nat, b: nat) -> nat {
    if a >= b {
        a
    } else {
        b
    }
}

/// What one call of `Compress::compress` on an open compressor did: one
/// `NoFlush` step of the stream over all of `data` with the working buffer,
/// whose bytes (the ones the stream emitted) are returned.
pub open spec fn compress_call(
    before: CompressView,
    after: CompressView,
    data: Seq<u8>,
    r: Result<Seq<u8>, ZlibError>,
) -> bool {
    &&& !after.finished
    &&& after.buffer_len >= before.buffer_len
    &&& data.len() + 7 < 0x1_0000_0000 ==> after.buffer_len == max_len(
        before.buffer_len,
        compress_bound_spec(data.len()) + 64,
    )
    &&& if !counters_fit(before.stream, data.len(), after.buffer_len) {
        r == Err::<Seq<u8>, ZlibError>(ZlibError::CounterOverflow) && after.stream == before.stream
    } else {
        &&& after.stream == deflate_after(before.stream, data, after.buffer_len, FlushMode::NoFlush)
        &&& r == match deflate_step(before.stream, data, after.buffer_len, FlushMode::NoFlush) {
            Ok(_) => Ok::<Seq<u8>, ZlibError>(
                added(deflate_emitted(after.stream), deflate_emitted(before.stream)),
            ),
            Err(n) => Err(ZlibError::CompressFailed(deflate_failure_of_number(n as int))),
        }
        &&& extends(deflate_emitted(after.stream), deflate_emitted(before.stream))
        &&& took_prefix(deflate_fed(after.stream), deflate_fed(before.stream), data)
        &&& settings_kept(before.stream, after.stream)
        &&& r is Ok && data.len() <= u32::MAX && after.buffer_len <= u32::MAX && added(
            deflate_emitted(after.stream),
            deflate_emitted(before.stream),
        ).len() < after.buffer_len ==> deflate_fed(after.stream) == deflate_fed(before.stream)
            + data
    }
}

/// A step kept the compressor's level, window and preset dictionary.
pub open spec fn settings_kept(before: Deflate, after: Deflate) -> bool {
    &&& deflate_level(after) == deflate_level(before)
    &&& deflate_wbits(after) == deflate_wbits(before)
    &&& deflate_dictionary(after) == deflate_dictionary(before)
}

/// The flush mode for a number in `1..=5`.
pub open spec fn flush_mode_of(mode: i32) -> FlushMode {
    if mode == 1 {
        FlushMode::PartialFlush
    } else if mode == 2 {
        FlushMode::SyncFlush
    } else if mode == 3 {
        FlushMode::FullFlush
    } else if mode == 4 {
        FlushMode::Finish
    } else {
        FlushMode::Block
    }
}

/// The compressor that `k` successive steps take `s` to, each with no input,
/// `n` bytes of room and flush mode `m`, when all of them succeed.
pub open spec fn flush_steps(s: Deflate, k: nat, n: nat, m: FlushMode) -> Option<Deflate>
    decreases k,
{
    if k == 0 {
        Some(s)
    } else {
        match flush_steps(s, (k - 1) as nat, n, m) {
            Some(t) => if deflate_step(t, Seq::<u8>::empty(), n, m) is Ok {
                Some(deflate_after(t, Seq::<u8>::empty(), n, m))
            } else {
                None
            },
            None => None,
        }
    }
}

/// How a flush with a mode in `1..=5` stops: after some successful steps, one
/// more successful step, with no input and `n` bytes of room, that ended the
/// stream, wrote less than its room (but for a `Finish`, which goes on until
/// the end), or wrote nothing; it left the compressor `after`.
pub open spec fn flush_stopped(before: Deflate, after: Deflate, n: nat, mode: i32) -> bool {
    exists|j: nat|
        #![trigger flush_steps(before, j, n, flush_mode_of(mode))]
        flush_steps(before, j, n, flush_mode_of(mode)) matches Some(t) && {
            let st = deflate_step(t, Seq::<u8>::empty(), n, flush_mode_of(mode));
            let wrote = added(deflate_emitted(after), deflate_emitted(t)).len();
            &&& st is Ok
            &&& deflate_after(t, Seq::<u8>::empty(), n, flush_mode_of(mode)) == after
            &&& extends(deflate_emitted(after), deflate_emitted(t))
            &&& {
                ||| st == Ok::<i32, i32>(2)
                ||| mode != 4 && wrote < n
                ||| wrote == 0
            }
        }
}

/// What one call of `Compress::flush` with a mode in `1..=5` on an open
/// compressor did: steps of that mode with no input, whose bytes are all
/// returned; a `Finish` flush ends the stream and closes the compressor; a
/// failure comes from a step of the stream.
pub open spec fn flush_call(
    before: CompressView,
    after: CompressView,
    mode: i32,
    r: Result<Seq<u8>, ZlibError>,
) -> bool {
    &&& after.buffer_len == max_len(before.buffer_len, BUF_CAPACITY as nat)
    &&& deflate_fed(after.stream) == deflate_fed(before.stream)
    &&& extends(deflate_emitted(after.stream), deflate_emitted(before.stream))
    &&& settings_kept(before.stream, after.stream)
    &&& match r {
        Ok(out) => {
            &&& out == added(deflate_emitted(after.stream), deflate_emitted(before.stream))
            &&& after.finished == (mode == 4)
            &&& mode == 4 ==> deflate_ended(after.stream)
            &&& flush_stopped(before.stream, after.stream, after.buffer_len, mode)
        },
        Err(e) => {
            &&& !after.finished
            &&& exists|k: nat|
                #![trigger flush_steps(before.stream, k, after.buffer_len, flush_mode_of(mode))]
                flush_steps(before.stream, k, after.buffer_len, flush_mode_of(mode)) matches Some(t) && {
                    ||| e == ZlibError::CounterOverflow && t == after.stream && !counters_fit(t, 0, after.buffer_len)
                    ||| (deflate_step(t, Seq::<u8>::empty(), after.buffer_len, flush_mode_of(mode)) matches Err(n)
                        && e == ZlibError::FlushFailed(deflate_failure_of_number(n as int))
                        && deflate_after(t, Seq::<u8>::empty(), after.buffer_len, flush_mode_of(mode)) == after.stream)
                }
        },
    }
}

/// Once a `Finish` flush has succeeded on a compressor that has no preset
/// dictionary and whose `wbits` one-shot decompression reads back, what the
/// compressor emitted is a complete stream of everything it consumed: by the
/// contract of `decompress`, decompressing it with the same `wbits` gives
/// those bytes back. The flush's output is the end of that stream.
pub proof fn law_finish_completes_the_stream(before: CompressView, after: CompressView, out: Seq<u8>, wbits: i32)
    requires
        flush_call(before, after, 4, Ok(out)),
        deflate_dictionary(before.stream) is None,
        deflate_wbits(before.stream) == wbits,
        roundtrip_wbits(wbits),
    ensures
        after.finished,
        complete_plain_stream(after.stream, wbits),
        deflate_emitted(after.stream) == deflate_emitted(before.stream) + out,
        deflate_fed(after.stream) == deflate_fed(before.stream),
{
    lemma_extends_split(deflate_emitted(before.stream), deflate_emitted(after.stream));
}

/// A compressor gives each `compress` step room for what zlib bounds the
/// compression of `data` by, and 64 bytes more: the working buffer holds at
/// least `compress_bound(data.len()) + 64` bytes (for inputs whose bound zlib
/// computes without loss, under 4 GiB). When the step leaves part of that
/// room unused, it has consumed all of `data`.
pub proof fn law_compress_gives_room_for_all_input(
    before: CompressView,
    after: CompressView,
    data: Seq<u8>,
    r: Result<Seq<u8>, ZlibError>,
)
    requires
        !before.finished,
        compress_call(before, after, data, r),
        data.len() + 7 < 0x1_0000_0000,
    ensures
        after.buffer_len >= compress_bound_spec(data.len()) + 64,
        r matches Ok(out) && after.buffer_len <= u32::MAX && out.len() < after.buffer_len
            ==> deflate_fed(after.stream) == deflate_fed(before.stream) + data,
{
}

/// A result with its bytes taken by their view.
pub open spec fn out_view(r: Result<Vec<u8>, ZlibError>) -> Result<Seq<u8>, ZlibError> {
    match r {
        Ok(v) => Ok(v@),
        Err(e) => Err(e),
    }
}

impl Compress {
    /// Whether a `Finish` flush has closed the compressor.
    pub fn finished(&self) -> (r: bool)
        ensures
            r == self@.finished,
    {
        self.finished
    }

    /// Compresses `data` and returns what the stream emits for it (possibly
    /// nothing: the compressor may hold input back until a flush).
    pub fn compress(&mut self, data: &[u8]) -> (r: Result<Vec<u8>, ZlibError>)
        requires
            data@.len() <= isize::MAX,
        ensures
            old(self)@.finished ==> r == Err::<Vec<u8>, ZlibError>(ZlibError::CompressorFlushed)
                && final(self)@ == old(self)@,
            !old(self)@.finished ==> compress_call(old(self)@, final(self)@, data@, out_view(r)),
    {
        if self.finished {
            return Err(ZlibError::CompressorFlushed);
        }
        let bound = zrs_compress_bound(data.len());
        let needed: usize = if bound <= usize::MAX - 64 {
            bound + 64
        } else {
            bound
        };
        proof {
            assert(isize::MAX * 2 + 1 == usize::MAX);
        }
        if self.buf.len() < needed {
            self.buf.resize(needed, 0u8);
        }
        let total_in = zrs_deflate_total_in(&self.deflate);
        let before = zrs_deflate_total_out(&self.deflate);
        if total_in > u64::MAX - (data.len() as u64) || before > u64::MAX - (self.buf.len() as u64) {
            return Err(ZlibError::CounterOverflow);
        }
        let rc = zrs_deflate_compress(&mut self.deflate, data, &mut self.buf, FlushMode::NoFlush);
        match rc {
            Err(n) => Err(ZlibError::CompressFailed(deflate_failure_from_number(n))),
            Ok(_) => {
                proof {
                    lemma_extends_split(deflate_fed(old(self)@.stream), deflate_fed(self.deflate));
                    assert(data@.take(data@.len() as int) =~= data@);
                }
                let after = zrs_deflate_total_out(&self.deflate);
                let written = (after - before) as usize;
                let out = vstd::slice::slice_to_vec(
                    vstd::slice::slice_subrange(self.buf.as_slice(), 0, written),
                );
                Ok(out)
            },
        }
    }

    /// Flushes the stream with flush mode `mode` (0..=5) and returns what it
    /// emits. Mode 0 (`NoFlush`) does nothing; mode 4 (`Finish`) ends the
    /// stream and closes the compressor.
    pub fn flush(&mut self, mode: i32) -> (r: Result<Vec<u8>, ZlibError>)
        ensures
            !(0 <= mode <= 5) ==> r == Err::<Vec<u8>, ZlibError>(ZlibError::InvalidFlushOption)
                && final(self)@ == old(self)@,
            mode == 0 ==> (r matches Ok(out) && out@.len() == 0) && final(self)@ == old(self)@,
            1 <= mode <= 5 && old(self)@.finished ==> r == Err::<Vec<u8>, ZlibError>(
                ZlibError::CompressorFlushed,
            ) && final(self)@ == old(self)@,
            1 <= mode <= 5 && !old(self)@.finished ==> flush_call(old(self)@, final(self)@, mode, out_view(r)),
    {
        let flush_mode = match deflate_flush_from_mode(mode) {
            Ok(m) => m,
            Err(e) => {
                return Err(e);
            },
        };
        if let FlushMode::NoFlush = flush_mode {
            return Ok(Vec::new());
        }
        if self.finished {
            return Err(ZlibError::CompressorFlushed);
        }
        if self.buf.len() < BUF_CAPACITY {
            self.buf.resize(BUF_CAPACITY, 0u8);
        }
        let finishing = match flush_mode {
            FlushMode::Finish => true,
            _ => false,
        };
        let empty: Vec<u8> = Vec::new();
        let mut output: Vec<u8> = Vec::with_capacity(4096);
        let buf_len = self.buf.len();
        let fed_total = zrs_deflate_total_in(&self.deflate);
        let ghost start = self.deflate;
        let ghost mut steps: nat = 0;
        let ghost mut last_t = start;
        let ghost mut last_j: nat = 0;
        assert(flush_mode == flush_mode_of(mode));
        proof {
            lemma_extends_refl(deflate_emitted(start));
        }
        loop
            invariant
                !self.finished,
                !old(self)@.finished,
                old(self)@.stream == start,
                self.buf@.len() == buf_len,
                buf_len == max_len(old(self)@.buffer_len, BUF_CAPACITY as nat),
                empty@.len() == 0,
                finishing == (mode == 4),
                1 <= mode <= 5,
                flush_mode == flush_mode_of(mode),
                deflate_fed(self.deflate) == deflate_fed(start),
                deflate_fed(start).len() == fed_total,
                extends(deflate_emitted(self.deflate), deflate_emitted(start)),
                output@ == added(deflate_emitted(self.deflate), deflate_emitted(start)),
                deflate_level(self.deflate) == deflate_level(start),
                deflate_wbits(self.deflate) == deflate_wbits(start),
                deflate_dictionary(self.deflate) == deflate_dictionary(start),
                flush_steps(start, steps, buf_len as nat, flush_mode) == Some(self.deflate),
            ensures
                finishing ==> deflate_ended(self.deflate),
                flush_steps(start, steps, buf_len as nat, flush_mode) == Some(self.deflate),
                flush_stopped(start, self.deflate, buf_len as nat, mode),
            decreases u64::MAX - deflate_emitted(self.deflate).len(),
        {
            let before = zrs_deflate_total_out(&self.deflate);
            if before > u64::MAX - (buf_len as u64) {
                return Err(ZlibError::CounterOverflow);
            }
            let ghost prev = self.deflate;
            let rc = zrs_deflate_compress(&mut self.deflate, empty.as_slice(), &mut self.buf, flush_mode);
            assert(empty@ == Seq::<u8>::empty());
            proof {
                lemma_extends_trans(deflate_emitted(start), deflate_emitted(prev), deflate_emitted(self.deflate));
                lemma_extends_split(deflate_fed(prev), deflate_fed(self.deflate));
                assert(deflate_fed(self.deflate) =~= deflate_fed(prev));
            }
            let status = match rc {
                Ok(n) => {
                    proof {
                        last_j = steps;
                        last_t = prev;
                        steps = steps + 1;
                    }
                    status_from_number(n)
                },
                Err(n) => {
                    assert(deflate_step(prev, Seq::<u8>::empty(), buf_len as nat, flush_mode_of(mode))
                        == Err::<i32, i32>(n));
                    return Err(ZlibError::FlushFailed(deflate_failure_from_number(n)));
                },
            };
            let after = zrs_deflate_total_out(&self.deflate);
            let written = (after - before) as usize;
            output.extend_from_slice(vstd::slice::slice_subrange(self.buf.as_slice(), 0, written));
            assert(output@ =~= added(deflate_emitted(self.deflate), deflate_emitted(start)));
            assert(flush_steps(start, last_j, buf_len as nat, flush_mode) == Some(last_t));
            assert(written == added(deflate_emitted(self.deflate), deflate_emitted(last_t)).len());
            match status {
                Status::StreamEnd => {
                    break ;
                },
                _ => {
                    if written < buf_len && !finishing {
                        break ;
                    }
                    if written == 0 {
                        break ;
                    }
                },
            }
        }
        if finishing {
            self.finished = true;
        }
        Ok(output)
    }
}

/// The outcome of `compressobj`'s checks on its arguments, in the order it
/// makes them: `Ok` when it goes on to build the compressor.
pub open spec fn compressobj_check(level: i32, method: i32, wbits: i32) -> Result<(), ZlibError> {
    if level != -1 && !(0 <= level <= 9) {
        Err(ZlibError::BadCompressionLevel)
    } else if method != 8 {
        Err(ZlibError::BadCompressionMethod)
    } else if 25 <= wbits <= 31 {
        Err(ZlibError::GzipCompressorUnsupported)
    } else if !compress_wbits_ok(wbits) {
        Err(ZlibError::InvalidInitOption)
    } else {
        Ok(())
    }
}

/// Checks `compressobj`'s arguments in the order it does.
pub fn check_compressobj_args(level: i32, method: i32, wbits: i32) -> (r: Result<(), ZlibError>)
    ensures
        r == compressobj_check(level, method, wbits),
{
    if level != -1 && !(0 <= level && level <= 9) {
        return Err(ZlibError::BadCompressionLevel);
    }
    if method != 8 {
        return Err(ZlibError::BadCompressionMethod);
    }
    if 25 <= wbits && wbits <= 31 {
        return Err(ZlibError::GzipCompressorUnsupported);
    }
    validate_compress_wbits(wbits)
}

/// A new compressor's state: open, with a stream at `level` and `wbits` (raw
/// when negative) that has consumed and emitted nothing, primed with `zdict`.
pub open spec fn fresh_compressor(c: CompressView, level: i32, wbits: i32, zdict: Option<Seq<u8>>) -> bool {
    &&& !c.finished
    &&& c.buffer_len == 0
    &&& deflate_fed(c.stream) == Seq::<u8>::empty()
    &&& deflate_emitted(c.stream) == Seq::<u8>::empty()
    &&& !deflate_ended(c.stream)
    &&& deflate_level(c.stream) == level
    &&& deflate_wbits(c.stream) == wbits
    &&& deflate_dictionary(c.stream) == zdict
}

/// Makes a streaming compressor at `level` with window and wrapper chosen by
/// `wbits` (raw or zlib), primed with the preset dictionary `zdict` if one is
/// given. `mem_level` and `strategy` are accepted and not used. A raw window
/// of 8 bits (`wbits == -8`) that passes the checks is left out: the
/// compressor cannot be built for it.
pub fn compressobj(
    level: i32,
    method: i32,
    wbits: i32,
    mem_level: i32,
    strategy: i32,
    zdict: Option<&[u8]>,
) -> (r: Result<Compress, ZlibError>)
    requires
        wbits == -8 ==> compressobj_check(level, method, wbits) is Err,
    ensures
        compressobj_check(level, method, wbits) matches Err(e) ==> r == Err::<Compress, ZlibError>(e),
        compressobj_check(level, method, wbits) is Ok ==> (r matches Ok(c) && fresh_compressor(
            c@,
            level,
            wbits,
            opt_slice(zdict),
        )),
{
    match check_compressobj_args(level, method, wbits) {
        Ok(()) => {},
        Err(e) => {
            return Err(e);
        },
    }
    let (zlib_header, window_bits) = deflate_window(wbits);
    let mut deflate = zrs_deflate_new(level, zlib_header, window_bits);
    if let Some(d) = zdict {
        match zrs_deflate_set_dictionary(&mut deflate, d) {
            Ok(_) => {},
            Err(e) => {
                return Err(ZlibError::DeflateDictionary(e));
            },
        }
    }
    Ok(Compress { deflate, finished: false, buf: Vec::new() })
}

} // verus!
