//! The standalone streaming decompressor that buffers its own input.

use vstd::prelude::*;
use zlib_rs::Inflate;
use crate::bytes::append_bytes;
use crate::codes::{status_from_number, InflateFailure, Status, ZlibError};
use crate::decompressor::{
    dict_fuel, dictionary_kept_or_installed, eof_follows_decoder, fed_with, fresh_inflate,
    lemma_take_more, new_inflate, opt_bytes, opt_slice,
};
use crate::decoding::{
    asked_dictionary_after, decoder_error, failed_after, inflate_link, inflate_run, min_len, stalled_step,
    lemma_decodes_trivially,
    lemma_prefix_of_source, lemma_run_push,
    lemma_run_start, next_input, ok_path,
};
use crate::engine::{
    inflate_after, inflate_step, on_plain_stream, complete_plain_stream, decodes_complete_streams, deflate_emitted, deflate_fed, extends, lemma_extends_trans,
    inflate_dictionary, inflate_fed, inflate_produced, inflate_wbits, lemma_step_extends, zrs_inflate_decompress, zrs_inflate_set_dictionary,
    zrs_inflate_total_in, zrs_inflate_total_out, InflateFlushMode,
};
use crate::params::{BUF_CAPACITY, gzip_or_auto_wbits, stream_decompress_wbits_ok};

verus! {

/// The state of a standalone decompressor as its users see it.
pub struct ZlibDecompressorView {
    /// Input that was given and that the decoder has not consumed yet.
    pub input_buffer: Seq<u8>,
    /// Bytes that followed the end of the compressed stream.
    pub unused_data: Seq<u8>,
    /// Whether the end of the compressed stream was reached.
    pub eof: bool,
    /// Whether more input is needed before more output can come.
    pub needs_input: bool,
    /// The preset dictionary, applied when the stream asks for it.
    pub zdict: Option<Seq<u8>>,
    /// The underlying decompression stream, with what it consumed and produced.
    pub stream: Inflate,
    /// The length of the working output buffer.
    pub buffer_len: nat,
}

/// A streaming decompressor that keeps unconsumed input itself, and refuses
/// work once its stream has ended.
pub struct ZlibDecompressor {
    inflate: Inflate,
    input_buffer: Vec<u8>,
    output_scratch: Vec<u8>,
    unused_data: Vec<u8>,
    eof: bool,
    needs_input: bool,
    zdict: Option<Vec<u8>>,
}

impl View for ZlibDecompressor {
    type V = ZlibDecompressorView;

    closed spec fn view(&self) -> ZlibDecompressorView {
        ZlibDecompressorView {
            input_buffer: self.input_buffer@,
            unused_data: self.unused_data@,
            eof: self.eof,
            needs_input: self.needs_input,
            zdict: opt_bytes(self.zdict),
            stream: self.inflate,
            buffer_len: self.output_scratch@.len(),
        }
    }
}

/// The outcome of the standalone decompressor's checks on `wbits`.
pub open spec fn zlib_decompressor_check(wbits: i32) -> Result<(), ZlibError> {
    if gzip_or_auto_wbits(wbits) {
        Err(ZlibError::GzipZlibDecompressorUnsupported)
    } else if !stream_decompress_wbits_ok(wbits) {
        Err(ZlibError::InvalidInitOption)
    } else {
        Ok(())
    }
}

/// The output limit for `max_length`: none when it is negative.
pub open spec fn output_cap(max_length: i64) -> nat {
    if max_length < 0 {
        usize::MAX as nat
    } else {
        (max_length as usize) as nat
    }
}

/// A new standalone decompressor for `wbits` and `zdict`: nothing buffered,
/// nothing left over, a fresh decoder.
pub open spec fn fresh_zlib_decompressor(d: ZlibDecompressorView, wbits: i32, zdict: Option<Seq<u8>>) -> bool {
    &&& d.input_buffer == Seq::<u8>::empty()
    &&& d.unused_data == Seq::<u8>::empty()
    &&& !d.eof
    &&& d.needs_input
    &&& d.zdict == zdict
    &&& d.buffer_len == 0
    &&& fresh_inflate(d.stream, wbits, zdict)
}

/// What one successful call of `ZlibDecompressor::decompress` did, with `k`
/// the number of pending input bytes (earlier leftovers followed by `data`)
/// that the decoder consumed: the returned bytes are all that the decoder
/// produced, and what it did not consume stays buffered, or, once the stream
/// has ended, goes to `unused_data`.
pub open spec fn zlib_decompress_effect_at(
    before: ZlibDecompressorView,
    after: ZlibDecompressorView,
    data: Seq<u8>,
    out: Seq<u8>,
    max_length: i64,
    k: int,
) -> bool {
    let pending = before.input_buffer + data;
    &&& fed_with(inflate_fed(after.stream), inflate_fed(before.stream), pending, k)
    &&& inflate_produced(after.stream) == inflate_produced(before.stream) + out
    &&& out.len() <= output_cap(max_length)
    &&& after.zdict == before.zdict
    &&& inflate_wbits(after.stream) == inflate_wbits(before.stream)
    &&& dictionary_kept_or_installed(before.stream, after.stream, before.zdict)
    &&& ok_path(before.stream, after.stream, inflate_fed(before.stream) + pending, InflateFlushMode::NoFlush, before.zdict)
    &&& decodes_complete_streams(before.stream) ==> decodes_complete_streams(after.stream)
    &&& eof_follows_decoder(before.stream, after.stream, after.eof)
    &&& if after.eof {
        &&& after.input_buffer.len() == 0
        &&& !after.needs_input
        &&& after.unused_data == before.unused_data + pending.subrange(k, pending.len() as int)
    } else {
        &&& after.input_buffer == pending.subrange(k, pending.len() as int)
        &&& after.unused_data == before.unused_data
        &&& after.needs_input == (after.input_buffer.len() == 0)
    }
}

/// Why a successful call of `ZlibDecompressor::decompress` stopped: the
/// stream had ended, the output limit was reached (at once, for a limit of
/// 0), or the decoder's last step, given the room left, could make no
/// progress on the buffered input.
pub open spec fn zlib_decompress_stopped(
    before: ZlibDecompressorView,
    after: ZlibDecompressorView,
    data: Seq<u8>,
    out: Seq<u8>,
    max_length: i64,
) -> bool {
    ||| after.eof
    ||| out.len() == output_cap(max_length)
    ||| stalled_step(
        before.stream,
        after.stream,
        inflate_fed(before.stream) + (before.input_buffer + data),
        InflateFlushMode::NoFlush,
        before.zdict,
        min_len((output_cap(max_length) - out.len()) as nat, after.buffer_len),
    )
}

/// What one successful call of `ZlibDecompressor::decompress` did, for some
/// number of consumed bytes.
pub open spec fn zlib_decompress_effect(
    before: ZlibDecompressorView,
    after: ZlibDecompressorView,
    data: Seq<u8>,
    out: Seq<u8>,
    max_length: i64,
) -> bool {
    exists|k: int| zlib_decompress_effect_at(before, after, data, out, max_length, k)
}

/// What a failed call of `ZlibDecompressor::decompress` left and why it
/// failed: `data` was added to the buffered input, the end of stream and the
/// trailing data are untouched, and a decoder failure comes from a step of
/// the decoder.
pub open spec fn zlib_decompress_failure(
    before: ZlibDecompressorView,
    after: ZlibDecompressorView,
    data: Seq<u8>,
    e: ZlibError,
) -> bool {
    &&& after.eof == before.eof
    &&& after.unused_data == before.unused_data
    &&& after.zdict == before.zdict
    &&& after.needs_input == before.needs_input
    &&& after.input_buffer == before.input_buffer + data
    &&& extends(inflate_fed(before.stream) + (before.input_buffer + data), inflate_fed(after.stream))
    &&& inflate_wbits(after.stream) == inflate_wbits(before.stream)
    &&& dictionary_kept_or_installed(before.stream, after.stream, before.zdict)
    &&& decoder_error(
        before.stream,
        after.stream,
        inflate_fed(before.stream) + (before.input_buffer + data),
        InflateFlushMode::NoFlush,
        before.zdict,
        e,
        inflate_fed(after.stream).len() + after.input_buffer.len() > u64::MAX || inflate_produced(after.stream).len()
            + after.buffer_len > u64::MAX,
    )
}

/// The loop's account of the buffered input: until the end of the stream it
/// is all still buffered, from `pos` on unconsumed; at the end, what followed
/// the stream went to `unused_data` and the buffer was emptied.
pub open spec fn buffered_input_state(
    before: ZlibDecompressorView,
    now: ZlibDecompressorView,
    pending: Seq<u8>,
    pos: int,
    consumed: int,
) -> bool {
    if now.eof {
        &&& now.input_buffer.len() == 0
        &&& !now.needs_input
        &&& 0 <= consumed <= pending.len()
        &&& now.unused_data == before.unused_data + pending.subrange(consumed, pending.len() as int)
    } else {
        &&& now.input_buffer == pending
        &&& consumed == pos
        &&& now.unused_data == before.unused_data
    }
}

/// Checks the standalone decompressor's `wbits` in the order it does.
pub fn check_zlib_decompressor_args(wbits: i32) -> (r: Result<(), ZlibError>)
    ensures
        r == zlib_decompressor_check(wbits),
{
    if (24 <= wbits && wbits <= 31) || (40 <= wbits && wbits <= 47) {
        return Err(ZlibError::GzipZlibDecompressorUnsupported);
    }
    if !((-15 <= wbits && wbits <= -8) || (8 <= wbits && wbits <= 15) || wbits == 0) {
        return Err(ZlibError::InvalidInitOption);
    }
    Ok(())
}

/// No input is lost or read twice: after a successful call, what the decoder
/// has consumed followed by what stays buffered (or, once the stream has
/// ended, by what went to `unused_data`) is what it had consumed followed by
/// what was buffered before and `data`.
pub proof fn law_zlib_decompress_conserves_input(
    before: ZlibDecompressorView,
    after: ZlibDecompressorView,
    data: Seq<u8>,
    out: Seq<u8>,
    max_length: i64,
)
    requires
        zlib_decompress_effect(before, after, data, out, max_length),
    ensures
        !after.eof ==> inflate_fed(after.stream) + after.input_buffer == inflate_fed(before.stream) + (
        before.input_buffer + data),
        after.eof ==> exists|rest: Seq<u8>|
            after.unused_data == before.unused_data + rest && inflate_fed(after.stream) + rest
                == inflate_fed(before.stream) + (before.input_buffer + data),
{
    let k = choose|k: int| zlib_decompress_effect_at(before, after, data, out, max_length, k);
    let pending = before.input_buffer + data;
    let rest = pending.subrange(k, pending.len() as int);
    assert(pending.take(k) + rest =~= pending);
    assert(inflate_fed(after.stream) + rest =~= inflate_fed(before.stream) + pending);
}

/// Streaming decompression gives back what was compressed: take a complete
/// stream without a dictionary, emitted by a compressor with the decoder's
/// window and finished; let what a decompressor that holds no dictionary had
/// buffered, followed by `data`, continue what its decoder consumed before as
/// a part of that stream. After a successful call, what the decoder produced
/// before followed by what the call returned is a prefix of the compressor's
/// input, and all of it once the end of the stream was reached.
pub proof fn law_zlib_decompress_returns_the_payload(
    before: ZlibDecompressorView,
    after: ZlibDecompressorView,
    data: Seq<u8>,
    out: Seq<u8>,
    max_length: i64,
    s: zlib_rs::Deflate,
)
    requires
        zlib_decompress_effect(before, after, data, out, max_length),
        decodes_complete_streams(before.stream),
        complete_plain_stream(s, inflate_wbits(before.stream)),
        inflate_dictionary(after.stream) is None,
        extends(deflate_emitted(s), inflate_fed(before.stream) + (before.input_buffer + data)),
    ensures
        extends(deflate_fed(s), inflate_produced(before.stream) + out),
        after.eof ==> inflate_produced(before.stream) + out == deflate_fed(s),
{
    let k = choose|k: int| zlib_decompress_effect_at(before, after, data, out, max_length, k);
    let whole = inflate_fed(before.stream) + (before.input_buffer + data);
    assert(whole.take(inflate_fed(after.stream).len() as int) =~= inflate_fed(after.stream));
    lemma_extends_trans(inflate_fed(after.stream), whole, deflate_emitted(s));
}

/// A part of a plain stream never makes decompression fail with a decoding
/// error: when neither the decoder nor the decompressor has a dictionary, and
/// what the decoder consumed before followed by the buffered input and `data`
/// is a part of a complete stream with the decoder's window, emitted by a
/// finished compressor without a dictionary, a failed call failed for want of
/// memory or because a byte counter would pass `u64::MAX`, never on the data,
/// and never for want of a dictionary.
pub proof fn law_zlib_plain_stream_decodes_without_error(
    before: ZlibDecompressorView,
    after: ZlibDecompressorView,
    data: Seq<u8>,
    e: ZlibError,
    s: zlib_rs::Deflate,
)
    requires
        zlib_decompress_failure(before, after, data, e),
        before.zdict is None,
        inflate_dictionary(before.stream) is None,
        complete_plain_stream(s, inflate_wbits(before.stream)),
        extends(deflate_emitted(s), inflate_fed(before.stream) + (before.input_buffer + data)),
    ensures
        e matches ZlibError::InflateFailed(f) ==> f == InflateFailure::MemError,
        e != ZlibError::DictionaryRequired,
{
    lemma_extends_trans(
        inflate_fed(after.stream),
        inflate_fed(before.stream) + (before.input_buffer + data),
        deflate_emitted(s),
    );
    assert(complete_plain_stream(s, inflate_wbits(after.stream)) && extends(deflate_emitted(s), inflate_fed(after.stream)));
    assert(on_plain_stream(after.stream));
}

/// With a negative `max_length` (no limit) a successful call stops only at
/// the end of the stream or when the decoder's last step, with the working
/// buffer as room, could make no progress on the buffered input: the output
/// is all that the buffered input decodes to. (An output of `usize::MAX` bytes,
/// the limit itself, is the only other way out.)
pub proof fn law_unlimited_zlib_decompress_drains(
    before: ZlibDecompressorView,
    after: ZlibDecompressorView,
    data: Seq<u8>,
    out: Seq<u8>,
    max_length: i64,
)
    requires
        max_length < 0,
        zlib_decompress_stopped(before, after, data, out, max_length),
    ensures
        after.eof || out.len() == usize::MAX || stalled_step(
            before.stream,
            after.stream,
            inflate_fed(before.stream) + (before.input_buffer + data),
            InflateFlushMode::NoFlush,
            before.zdict,
            min_len((usize::MAX - out.len()) as nat, after.buffer_len),
        ),
{
}

impl ZlibDecompressor {
    /// Makes a standalone decompressor for raw deflate or zlib streams
    /// (`wbits`), with the preset dictionary `zdict` if one is given.
    pub fn new(wbits: i32, zdict: Option<&[u8]>) -> (r: Result<ZlibDecompressor, ZlibError>)
        ensures
            zlib_decompressor_check(wbits) matches Err(e) ==> r == Err::<ZlibDecompressor, ZlibError>(e),
            zlib_decompressor_check(wbits) is Ok ==> (r matches Ok(d) && fresh_zlib_decompressor(
                d@,
                wbits,
                opt_slice(zdict),
            )),
    {
        match check_zlib_decompressor_args(wbits) {
            Ok(()) => {},
            Err(e) => {
                return Err(e);
            },
        }
        let (inflate, zdict) = new_inflate(wbits, zdict);
        Ok(
            ZlibDecompressor {
                inflate,
                input_buffer: Vec::new(),
                output_scratch: Vec::with_capacity(BUF_CAPACITY),
                unused_data: Vec::new(),
                eof: false,
                needs_input: true,
                zdict,
            },
        )
    }

    /// Decompresses the buffered input followed by `data`, producing at most
    /// `max_length` bytes when it is not negative (a negative one means no
    /// limit). Input the decoder does not consume stays buffered; once the
    /// stream has ended, further calls are refused. The preset dictionary is
    /// installed when the stream asks for it; a stream that asks a second time
    /// within one call fails.
    pub fn decompress(&mut self, data: &[u8], max_length: i64) -> (r: Result<Vec<u8>, ZlibError>)
        requires
            old(self)@.input_buffer.len() + data@.len() <= isize::MAX,
        ensures
            old(self)@.eof ==> r == Err::<Vec<u8>, ZlibError>(ZlibError::EndOfStream) && final(self)@
                == old(self)@,
            !old(self)@.eof ==> match r {
                Ok(out) => zlib_decompress_effect(old(self)@, final(self)@, data@, out@, max_length)
                    && zlib_decompress_stopped(old(self)@, final(self)@, data@, out@, max_length),
                Err(e) => zlib_decompress_failure(old(self)@, final(self)@, data@, e),
            },
    {
        if self.eof {
            return Err(ZlibError::EndOfStream);
        }
        let cap: usize = if max_length < 0 {
            usize::MAX
        } else {
            max_length as usize
        };
        append_bytes(&mut self.input_buffer, data);
        let ghost pending = self.input_buffer@;
        if self.output_scratch.len() < BUF_CAPACITY {
            self.output_scratch.resize(BUF_CAPACITY, 0u8);
        }
        let mut output: Vec<u8> = Vec::new();
        let mut input_pos: usize = 0;
        let mut dict_applied = false;
        let ghost mut consumed: int = 0;
        let ghost start = self.inflate;
        let ghost source = inflate_fed(start) + pending;
        let ghost zd = old(self)@.zdict;
        let ghost mut states: Seq<Inflate> = seq![start];
        let ghost mut stepped = false;
        let ghost mut last_s = start;
        let ghost mut last_n: nat = 0;
        proof {
            lemma_run_start(start, source, InflateFlushMode::NoFlush, zd);
            lemma_prefix_of_source(inflate_fed(start), pending, 0);
            assert(inflate_fed(start) + pending.take(0) =~= inflate_fed(start));
        }
        loop
            invariant_except_break
                !self.eof,
                !self.eof ==> self.needs_input == old(self)@.needs_input,
            invariant
                !old(self)@.eof,
                self.output_scratch@.len() >= 1,
                stepped ==> ok_path(start, last_s, source, InflateFlushMode::NoFlush, zd)
                    && inflate_step(last_s, next_input(last_s, source), last_n, InflateFlushMode::NoFlush) is Ok
                    && inflate_after(last_s, next_input(last_s, source), last_n, InflateFlushMode::NoFlush)
                    == self.inflate,
                old(self)@.stream == start,
                source == inflate_fed(start) + pending,
                zd == old(self)@.zdict,
                inflate_run(states, source, InflateFlushMode::NoFlush, zd),
                decodes_complete_streams(start) ==> decodes_complete_streams(self.inflate),
                extends(source, inflate_fed(self.inflate)),
                states[0] == start,
                states[states.len() - 1] == self.inflate,
                cap as nat == output_cap(max_length),
                pending == old(self)@.input_buffer + data@,
                input_pos <= self@.input_buffer.len(),
                output@.len() <= cap,
                0 <= consumed <= pending.len(),
                inflate_fed(self.inflate) == inflate_fed(start) + pending.take(consumed),
                inflate_produced(self.inflate) == inflate_produced(start) + output@,
                inflate_wbits(self.inflate) == inflate_wbits(start),
                dictionary_kept_or_installed(start, self.inflate, old(self)@.zdict),
                eof_follows_decoder(start, self.inflate, self.eof),
                self@.zdict == old(self)@.zdict,
                buffered_input_state(old(self)@, self@, pending, input_pos as int, consumed),
            ensures
                self.eof || output@.len() == cap || (stepped && inflate_fed(self.inflate) == inflate_fed(last_s)
                    && inflate_produced(self.inflate) == inflate_produced(last_s) && last_n == min_len(
                    (cap - output@.len()) as nat,
                    self.output_scratch@.len(),
                )),
            decreases (u64::MAX - inflate_fed(self.inflate).len()) + (u64::MAX - inflate_produced(
                self.inflate,
            ).len()), dict_fuel(dict_applied),
        {
            if self.eof {
                break ;
            }
            if output.len() >= cap {
                self.needs_input = false;
                break ;
            }
            let rem = cap - output.len();
            let want: usize = if rem < self.output_scratch.len() {
                rem
            } else {
                self.output_scratch.len()
            };
            if want == 0 {
                self.needs_input = false;
                break ;
            }
            let old_in = zrs_inflate_total_in(&self.inflate);
            let old_out = zrs_inflate_total_out(&self.inflate);
            if old_in > u64::MAX - ((self.input_buffer.len() - input_pos) as u64) || old_out
                > u64::MAX - (self.output_scratch.len() as u64) {
                return Err(ZlibError::CounterOverflow);
            }
            let ghost prev = self.inflate;
            let result = zrs_inflate_decompress(
                &mut self.inflate,
                self.input_buffer.as_slice(),
                input_pos,
                &mut self.output_scratch,
                want,
                InflateFlushMode::NoFlush,
            );
            let used = (zrs_inflate_total_in(&self.inflate) - old_in) as usize;
            proof {
                assert(next_input(prev, source) =~= self.input_buffer@.skip(input_pos as int));
                assert(ok_path(start, prev, source, InflateFlushMode::NoFlush, zd));
                lemma_take_more(pending, input_pos as int, used as int);
                lemma_step_extends(inflate_fed(start), inflate_fed(prev), inflate_fed(self.inflate), pending.take(input_pos as int));
                lemma_prefix_of_source(inflate_fed(start), pending, input_pos + used);
                lemma_step_extends(inflate_produced(start), inflate_produced(prev), inflate_produced(self.inflate), output@);
            }
            let status = match result {
                Ok(n) => status_from_number(n),
                Err(InflateFailure::NeedDict { dict_id }) => {
                    if dict_applied {
                        assert(failed_after(start, self.inflate, source, InflateFlushMode::NoFlush, zd, InflateFailure::NeedDict { dict_id }));
                        return Err(ZlibError::InflateFailed(InflateFailure::NeedDict { dict_id }));
                    }
                    assert(asked_dictionary_after(start, self.inflate, source, InflateFlushMode::NoFlush, zd));
                    match &self.zdict {
                        Some(d) => {
                            input_pos = input_pos + used;
                            proof {
                                consumed = consumed + used;
                            }
                            match zrs_inflate_set_dictionary(&mut self.inflate, d.as_slice()) {
                                Ok(_) => {},
                                Err(e) => {
                                    return Err(ZlibError::InflateDictionary(e));
                                },
                            }
                            proof {
                                lemma_decodes_trivially(self.inflate);
                                assert(inflate_link(prev, self.inflate, source, InflateFlushMode::NoFlush, zd));
                                lemma_run_push(states, self.inflate, source, InflateFlushMode::NoFlush, zd);
                                states = states.push(self.inflate);
                                stepped = false;
                            }
                            dict_applied = true;
                            continue ;
                        },
                        None => {
                            return Err(ZlibError::DictionaryRequired);
                        },
                    }
                },
                Err(e) => {
                    assert(failed_after(start, self.inflate, source, InflateFlushMode::NoFlush, zd, e));
                    return Err(ZlibError::InflateFailed(e));
                },
            };
            proof {
                assert(inflate_link(prev, self.inflate, source, InflateFlushMode::NoFlush, zd));
                lemma_run_push(states, self.inflate, source, InflateFlushMode::NoFlush, zd);
                states = states.push(self.inflate);
                stepped = true;
                last_s = prev;
                last_n = want as nat;
            }
            let produced = (zrs_inflate_total_out(&self.inflate) - old_out) as usize;
            input_pos = input_pos + used;
            proof {
                consumed = consumed + used;
            }
            assert(self.output_scratch@.subrange(0, produced as int) =~= self.output_scratch@.take(produced as int));
            append_bytes(
                &mut output,
                vstd::slice::slice_subrange(self.output_scratch.as_slice(), 0, produced),
            );
            if let Status::StreamEnd = status {
                self.eof = true;
                if input_pos < self.input_buffer.len() {
                    let rest = vstd::slice::slice_subrange(
                        self.input_buffer.as_slice(),
                        input_pos,
                        self.input_buffer.len(),
                    );
                    append_bytes(&mut self.unused_data, rest);
                }
                self.input_buffer.clear();
                input_pos = 0;
                self.needs_input = false;
                assert(self@.unused_data =~= old(self)@.unused_data + pending.subrange(consumed, pending.len() as int));
                break ;
            }
            if used == 0 && produced == 0 {
                self.needs_input = true;
                break ;
            }
        }
        if input_pos > 0 {
            let rest = self.input_buffer.split_off(input_pos);
            self.input_buffer = rest;
        }
        assert(!self.eof ==> self@.input_buffer =~= pending.subrange(consumed, pending.len() as int));
        if !self.eof {
            self.needs_input = self.input_buffer.len() == 0;
        }
        assert(ok_path(start, self.inflate, source, InflateFlushMode::NoFlush, zd));
        assert(zlib_decompress_effect_at(old(self)@, self@, data@, output@, max_length, consumed));
        Ok(output)
    }

    /// How many bytes of input are buffered, not yet consumed.
    pub fn buffered_len(&self) -> (r: usize)
        ensures
            r == self@.input_buffer.len(),
    {
        self.input_buffer.len()
    }

    /// Whether the end of the compressed stream was reached.
    pub fn eof(&self) -> (r: bool)
        ensures
            r == self@.eof,
    {
        self.eof
    }

    /// The bytes that followed the end of the compressed stream.
    pub fn unused_data(&self) -> (r: Vec<u8>)
        ensures
            r@ == self@.unused_data,
    {
        vstd::slice::slice_to_vec(self.unused_data.as_slice())
    }

    /// Whether more input is needed before more output can come.
    pub fn needs_input(&self) -> (r: bool)
        ensures
            r == self@.needs_input,
    {
        self.needs_input
    }
}

} // verus!
