//! The streaming decompressor with an output limit per call.

use vstd::prelude::*;
use zlib_rs::Inflate;
use crate::bytes::{append_bytes, copy_range};
use crate::codes::{status_from_number, InflateFailure, Status, ZlibError};
use crate::decoding::{
    asked_dictionary_after, decoder_error, failed_after, inflate_link, inflate_run, last_step, min_len, stalled_step,
    lemma_decodes_trivially,
    lemma_prefix_of_source, lemma_run_push,
    lemma_run_start, next_input, ok_path,
};
use crate::engine::{
    inflate_after, inflate_step, compress_slice_result, roundtrip_wbits, on_plain_stream, complete_plain_stream, deflate_dictionary, deflate_ended, deflate_wbits, decodes_complete_streams, deflate_emitted, deflate_fed, extends, lemma_extends_trans, inflate_dictionary, inflate_ended, inflate_fed, inflate_produced, inflate_wbits, lemma_step_extends,
    signed_window, zrs_inflate_decompress, zrs_inflate_new, zrs_inflate_set_dictionary, zrs_inflate_total_in,
    zrs_inflate_total_out, InflateFlushMode,
};
use crate::params::{gzip_or_auto_wbits, inflate_window, inflate_window_spec, stream_decompress_wbits_ok};

verus! {

/// The working buffer of a streaming decompressor never starts above this size.
pub const MAX_INITIAL_BUFFER: usize = 65536;

/// The working buffer for flushing never exceeds this size.
pub const MAX_FLUSH_BUFFER: usize = 65536;

/// The state of a streaming decompressor as its users see it.
pub struct DecompressView {
    /// Bytes that followed the end of the compressed stream.
    pub unused_data: Seq<u8>,
    /// Input that the last call left unprocessed because it hit its output limit.
    pub unconsumed_tail: Seq<u8>,
    /// Whether the end of the compressed stream was reached.
    pub eof: bool,
    /// Whether the last call consumed all its input without reaching the end.
    pub needs_input: bool,
    /// The preset dictionary, applied when the stream asks for it.
    pub zdict: Option<Seq<u8>>,
    /// The underlying decompression stream, with what it consumed and produced.
    pub stream: Inflate,
    /// The length of the working output buffer.
    pub buffer_len: nat,
}

/// A streaming decompressor with an output limit per call; input left over
/// at the limit is handed back as `unconsumed_tail`.
pub struct Decompress {
    inflate: Inflate,
    buf: Vec<u8>,
    unused_data: Vec<u8>,
    unconsumed_tail: Vec<u8>,
    eof: bool,
    needs_input: bool,
    zdict: Option<Vec<u8>>,
}

/// An optional byte buffer by its view.
pub open spec fn opt_bytes(o: Option<Vec<u8>>) -> Option<Seq<u8>> {
    match o {
        Some(v) => Some(v@),
        None => None,
    }
}

/// An optional byte slice by its view.
pub open spec fn opt_slice(o: Option<&[u8]>) -> Option<Seq<u8>> {
    match o {
        Some(v) => Some(v@),
        None => None,
    }
}

impl View for Decompress {
    type V = DecompressView;

    closed spec fn view(&self) -> DecompressView {
        DecompressView {
            unused_data: self.unused_data@,
            unconsumed_tail: self.unconsumed_tail@,
            eof: self.eof,
            needs_input: self.needs_input,
            zdict: opt_bytes(self.zdict),
            stream: self.inflate,
            buffer_len: self.buf@.len(),
        }
    }
}

/// A new decoder for `wbits`: it has consumed and produced nothing, has the
/// window and header choice that `wbits` selects, and holds `zdict` at once
/// for a raw stream (which never asks for it), none yet for a zlib stream.
pub open spec fn fresh_inflate(i: Inflate, wbits: i32, zdict: Option<Seq<u8>>) -> bool {
    let (header, window) = inflate_window_spec(wbits);
    &&& inflate_fed(i) == Seq::<u8>::empty()
    &&& inflate_produced(i) == Seq::<u8>::empty()
    &&& !inflate_ended(i)
    &&& inflate_wbits(i) == signed_window(header, window)
    &&& inflate_dictionary(i) == (if header { None } else { zdict })
    &&& decodes_complete_streams(i)
}

/// Makes the decoder that a streaming decompressor for `wbits` uses, and the
/// stashed copy of the preset dictionary. Raw streams never ask for their
/// dictionary, so it is installed at once for them; zlib streams get it when
/// they ask.
pub(crate) fn new_inflate(wbits: i32, zdict: Option<&[u8]>) -> (r: (Inflate, Option<Vec<u8>>))
    requires
        stream_decompress_wbits_ok(wbits),
    ensures
        fresh_inflate(r.0, wbits, opt_slice(zdict)),
        opt_bytes(r.1) == opt_slice(zdict),
{
    let (zlib_header, window_bits) = inflate_window(wbits);
    let mut inflate = zrs_inflate_new(zlib_header, window_bits);
    let stash: Option<Vec<u8>> = match zdict {
        Some(d) => Some(vstd::slice::slice_to_vec(d)),
        None => None,
    };
    if !zlib_header {
        if let Some(d) = zdict {
            let _ = zrs_inflate_set_dictionary(&mut inflate, d);
        }
    }
    proof {
        lemma_decodes_trivially(inflate);
    }
    (inflate, stash)
}

/// The outcome of `decompressobj`'s checks on `wbits`.
pub open spec fn decompressobj_check(wbits: i32) -> Result<(), ZlibError> {
    if gzip_or_auto_wbits(wbits) {
        Err(ZlibError::GzipDecompressobjUnsupported)
    } else if !stream_decompress_wbits_ok(wbits) {
        Err(ZlibError::InvalidInitOption)
    } else {
        Ok(())
    }
}

/// Checks `decompressobj`'s `wbits` in the order it does.
pub fn check_decompressobj_args(wbits: i32) -> (r: Result<(), ZlibError>)
    ensures
        r == decompressobj_check(wbits),
{
    if (24 <= wbits && wbits <= 31) || (40 <= wbits && wbits <= 47) {
        return Err(ZlibError::GzipDecompressobjUnsupported);
    }
    if !((-15 <= wbits && wbits <= -8) || (8 <= wbits && wbits <= 15) || wbits == 0) {
        return Err(ZlibError::InvalidInitOption);
    }
    Ok(())
}

/// Makes a streaming decompressor for raw deflate or zlib streams (`wbits`),
/// with the preset dictionary `zdict` if one is given.
pub fn decompressobj(wbits: i32, zdict: Option<&[u8]>) -> (r: Result<Decompress, ZlibError>)
    ensures
        decompressobj_check(wbits) matches Err(e) ==> r == Err::<Decompress, ZlibError>(e),
        decompressobj_check(wbits) is Ok ==> (r matches Ok(d) && d@.unused_data == Seq::<u8>::empty()
            && d@.unconsumed_tail == Seq::<u8>::empty() && !d@.eof && d@.needs_input && d@.zdict
            == opt_slice(zdict) && d@.buffer_len == 0 && fresh_inflate(d@.stream, wbits, opt_slice(zdict))),
{
    match check_decompressobj_args(wbits) {
        Ok(()) => {},
        Err(e) => {
            return Err(e);
        },
    }
    let (inflate, zdict) = new_inflate(wbits, zdict);
    Ok(
        Decompress {
            inflate,
            buf: Vec::new(),
            unused_data: Vec::new(),
            unconsumed_tail: Vec::new(),
            eof: false,
            needs_input: true,
            zdict,
        },
    )
}

/// `after` is `before` followed by the first `k` bytes of `data`.
pub open spec fn fed_with(after: Seq<u8>, before: Seq<u8>, data: Seq<u8>, k: int) -> bool {
    0 <= k <= data.len() && after == before + data.take(k)
}

/// The stream ended in a call exactly when the decoder reached its end in it.
pub open spec fn eof_follows_decoder(before: Inflate, after: Inflate, eof: bool) -> bool {
    &&& eof ==> inflate_ended(after)
    &&& inflate_ended(after) && !inflate_ended(before) ==> eof
}

/// What one successful call of `Decompress::decompress` on a live stream
/// did, with `k` the number of input bytes that the decoder consumed: the
/// returned bytes are all that the decoder produced.
pub open spec fn decompress_effect_at(
    before: DecompressView,
    after: DecompressView,
    data: Seq<u8>,
    out: Seq<u8>,
    limit: nat,
    k: int,
) -> bool {
    &&& fed_with(inflate_fed(after.stream), inflate_fed(before.stream), data, k)
    &&& inflate_produced(after.stream) == inflate_produced(before.stream) + out
    &&& limit > 0 ==> out.len() <= limit
    &&& after.zdict == before.zdict
    &&& inflate_wbits(after.stream) == inflate_wbits(before.stream)
    &&& eof_follows_decoder(before.stream, after.stream, after.eof)
    &&& after.needs_input == (k == data.len() && !after.eof)
    &&& after.unconsumed_tail == (if limit > 0 && out.len() == limit && !after.eof {
        data.subrange(k, data.len() as int)
    } else {
        Seq::<u8>::empty()
    })
    &&& unused_after_eof(before, after, data, k)
}

/// Once the stream has ended, the rest of the input (from `k` on) goes to
/// `unused_data`; before that, `unused_data` is unchanged.
pub open spec fn unused_after_eof(before: DecompressView, after: DecompressView, data: Seq<u8>, k: int) -> bool {
    if after.eof {
        after.unused_data == before.unused_data + data.subrange(k, data.len() as int)
    } else {
        after.unused_data == before.unused_data
    }
}

/// The state after input arrives at a stream that has already ended.
pub open spec fn with_trailing_input(before: DecompressView, data: Seq<u8>) -> DecompressView {
    DecompressView { unused_data: before.unused_data + data, ..before }
}

/// Why a successful call of `Decompress::decompress` on a live stream
/// stopped: its last act was a step of the decoder, after which the stream
/// had ended, the output limit was reached, all input was consumed with no
/// limit, or the step, given the room left, could make no progress.
pub open spec fn decompress_stopped(
    before: DecompressView,
    after: DecompressView,
    data: Seq<u8>,
    out: Seq<u8>,
    limit: nat,
) -> bool {
    let source = inflate_fed(before.stream) + data;
    &&& last_step(before.stream, after.stream, source, InflateFlushMode::NoFlush, before.zdict)
    &&& {
        ||| after.eof
        ||| limit > 0 && out.len() == limit
        ||| limit == 0 && after.needs_input
        ||| stalled_step(
            before.stream,
            after.stream,
            source,
            InflateFlushMode::NoFlush,
            before.zdict,
            if limit > 0 {
                min_len((limit - out.len()) as nat, after.buffer_len)
            } else {
                after.buffer_len
            },
        )
    }
}

/// What one successful call of `Decompress::decompress` on a live stream
/// did, for some number of consumed input bytes.
pub open spec fn decompress_effect(
    before: DecompressView,
    after: DecompressView,
    data: Seq<u8>,
    out: Seq<u8>,
    limit: nat,
) -> bool {
    exists|k: int| decompress_effect_at(before, after, data, out, limit, k)
}

/// What a failed call on a live stream left and why it failed: the end of
/// stream and the trailing data are untouched, and the failure is the
/// decoder's, fed from `source` (see `decoder_error`).
pub open spec fn decompress_failure(
    before: DecompressView,
    after: DecompressView,
    source: Seq<u8>,
    data_len: nat,
    e: ZlibError,
    mode: InflateFlushMode,
    zdict: Option<Seq<u8>>,
) -> bool {
    &&& after.eof == before.eof
    &&& after.unused_data == before.unused_data
    &&& after.zdict == before.zdict
    &&& after.needs_input == before.needs_input
    &&& after.unconsumed_tail.len() == 0
    &&& extends(source, inflate_fed(after.stream))
    &&& inflate_wbits(after.stream) == inflate_wbits(before.stream)
    &&& dictionary_kept_or_installed(before.stream, after.stream, zdict)
    &&& decoder_error(
        before.stream,
        after.stream,
        source,
        mode,
        zdict,
        e,
        inflate_fed(after.stream).len() + data_len > u64::MAX || inflate_produced(after.stream).len()
            + after.buffer_len > u64::MAX,
    )
}

/// Whether a preset dictionary may still be installed during a call: the
/// loop's second measure.
pub open spec fn dict_fuel(applied: bool) -> int {
    if applied {
        0
    } else {
        1
    }
}

/// The dictionary the decoder holds after a call: the one it held, or the
/// preset dictionary installed when the stream asked for it.
pub open spec fn dictionary_kept_or_installed(before: Inflate, after: Inflate, zdict: Option<Seq<u8>>) -> bool {
    inflate_dictionary(after) == inflate_dictionary(before) || (zdict is Some && inflate_dictionary(after)
        == zdict)
}

/// Appending what `data` holds from `pos` on, `c` bytes of it, to what it
/// holds before `pos`.
pub(crate) proof fn lemma_take_more(data: Seq<u8>, pos: int, c: int)
    requires
        0 <= pos,
        0 <= c,
        pos + c <= data.len(),
    ensures
        data.take(pos) + data.skip(pos).take(c) == data.take(pos + c),
{
    assert(data.take(pos) + data.skip(pos).take(c) =~= data.take(pos + c));
}

/// No input of a successful call on a live stream is unaccounted for: the
/// decoder consumed a prefix of `data`, and the rest is handed back as
/// `unconsumed_tail` when the output limit stopped the call, went to
/// `unused_data` when the stream ended, and is empty when the call asks for
/// more input.
pub proof fn law_decompress_accounts_for_input(
    before: DecompressView,
    after: DecompressView,
    data: Seq<u8>,
    out: Seq<u8>,
    limit: nat,
)
    requires
        decompress_effect(before, after, data, out, limit),
    ensures
        exists|k: int|
            0 <= k <= data.len() && inflate_fed(after.stream) == inflate_fed(before.stream) + data.take(k) && {
                &&& after.unconsumed_tail.len() > 0 ==> after.unconsumed_tail == data.skip(k)
                &&& after.eof ==> after.unused_data == before.unused_data + data.skip(k)
                &&& after.needs_input ==> k == data.len()
            },
{
    let k = choose|k: int| decompress_effect_at(before, after, data, out, limit, k);
    assert(data.subrange(k, data.len() as int) =~= data.skip(k));
}

/// Streaming decompression gives back what was compressed: take a complete
/// stream without a dictionary, emitted by a compressor with the decoder's
/// window and finished; feed a decompressor that holds no dictionary a part of
/// it that continues what its decoder consumed before. After a successful
/// call, what the decoder produced before followed by what the call returned
/// is a prefix of the compressor's input, and all of it once the end of the
/// stream was reached. A new decompressor has produced nothing, so over a run
/// of calls the returned pieces make up the payload.
pub proof fn law_decompress_returns_the_payload(
    before: DecompressView,
    after: DecompressView,
    data: Seq<u8>,
    out: Seq<u8>,
    limit: nat,
    s: zlib_rs::Deflate,
)
    requires
        decompress_effect(before, after, data, out, limit),
        decodes_complete_streams(before.stream) ==> decodes_complete_streams(after.stream),
        decodes_complete_streams(before.stream),
        complete_plain_stream(s, inflate_wbits(before.stream)),
        inflate_dictionary(after.stream) is None,
        extends(deflate_emitted(s), inflate_fed(before.stream) + data),
    ensures
        extends(deflate_fed(s), inflate_produced(before.stream) + out),
        after.eof ==> inflate_produced(before.stream) + out == deflate_fed(s),
{
    let k = choose|k: int| decompress_effect_at(before, after, data, out, limit, k);
    let whole = inflate_fed(before.stream) + data;
    assert(whole.take(inflate_fed(after.stream).len() as int) =~= inflate_fed(after.stream));
    lemma_extends_trans(inflate_fed(after.stream), whole, deflate_emitted(s));
}

/// A part of a plain stream never makes decompression fail with a decoding
/// error: when neither the decoder nor the call has a dictionary, and what the
/// decoder consumed before followed by the call's input is a part of a
/// complete stream with the decoder's window, emitted by a finished compressor
/// without a dictionary, a failed call failed for want of memory or because a
/// byte counter would pass `u64::MAX`, never on the data, and never for want
/// of a dictionary.
pub proof fn law_plain_stream_decodes_without_error(
    before: DecompressView,
    after: DecompressView,
    source: Seq<u8>,
    data_len: nat,
    e: ZlibError,
    mode: InflateFlushMode,
    s: zlib_rs::Deflate,
)
    requires
        decompress_failure(before, after, source, data_len, e, mode, None),
        inflate_dictionary(before.stream) is None,
        complete_plain_stream(s, inflate_wbits(before.stream)),
        extends(deflate_emitted(s), source),
    ensures
        e matches ZlibError::InflateFailed(f) ==> f == InflateFailure::MemError,
        e matches ZlibError::InflateFlushFailed(f) ==> f == InflateFailure::MemError,
        e != ZlibError::DictionaryRequired,
{
    lemma_extends_trans(inflate_fed(after.stream), source, deflate_emitted(s));
    assert(complete_plain_stream(s, inflate_wbits(after.stream)) && extends(deflate_emitted(s), inflate_fed(after.stream)));
    assert(on_plain_stream(after.stream));
}

/// Streaming decompression with a preset dictionary gives back what was
/// compressed with it: take a complete zlib stream emitted by a finished
/// compressor primed with a dictionary, with the decoder's window; feed a
/// decompressor a part of it that continues what its decoder consumed before.
/// After a successful call that leaves the same dictionary in the decoder (the
/// one the decompressor was given, installed when the stream asked for it),
/// what the decoder produced before followed by what the call returned is a
/// prefix of the compressor's input, and all of it once the end of the stream
/// was reached.
pub proof fn law_decompress_with_dictionary_returns_the_payload(
    before: DecompressView,
    after: DecompressView,
    data: Seq<u8>,
    out: Seq<u8>,
    limit: nat,
    s: zlib_rs::Deflate,
)
    requires
        decompress_effect(before, after, data, out, limit),
        decodes_complete_streams(before.stream) ==> decodes_complete_streams(after.stream),
        decodes_complete_streams(before.stream),
        deflate_ended(s),
        deflate_dictionary(s) is Some,
        deflate_dictionary(s) == inflate_dictionary(after.stream),
        deflate_wbits(s) == inflate_wbits(before.stream),
        9 <= inflate_wbits(before.stream) <= 15,
        extends(deflate_emitted(s), inflate_fed(before.stream) + data),
    ensures
        extends(deflate_fed(s), inflate_produced(before.stream) + out),
        after.eof ==> inflate_produced(before.stream) + out == deflate_fed(s),
{
    let k = choose|k: int| decompress_effect_at(before, after, data, out, limit, k);
    let whole = inflate_fed(before.stream) + data;
    assert(whole.take(inflate_fed(after.stream).len() as int) =~= inflate_fed(after.stream));
    lemma_extends_trans(inflate_fed(after.stream), whole, deflate_emitted(s));
}

/// Flushing keeps streaming decompression right: under the conditions of
/// `law_decompress_returns_the_payload`, with the pending `unconsumed_tail` as
/// the input, what the decoder produced before followed by what a successful
/// flush returned is a prefix of the compressor's input, and all of it once
/// the end of the stream was reached.
pub proof fn law_flush_returns_the_payload(before: DecompressView, after: DecompressView, out: Seq<u8>, s: zlib_rs::Deflate)
    requires
        flush_effect(before, after, out),
        decodes_complete_streams(before.stream) ==> decodes_complete_streams(after.stream),
        decodes_complete_streams(before.stream),
        complete_plain_stream(s, inflate_wbits(before.stream)),
        inflate_dictionary(after.stream) is None,
        extends(deflate_emitted(s), inflate_fed(before.stream) + before.unconsumed_tail),
    ensures
        extends(deflate_fed(s), inflate_produced(before.stream) + out),
        after.eof ==> inflate_produced(before.stream) + out == deflate_fed(s),
{
    let k = choose|k: int| flush_effect_at(before, after, out, k);
    let whole = inflate_fed(before.stream) + before.unconsumed_tail;
    assert(whole.take(inflate_fed(after.stream).len() as int) =~= inflate_fed(after.stream));
    lemma_extends_trans(inflate_fed(after.stream), whole, deflate_emitted(s));
}

/// Streaming decompression gives back what one-shot compression compressed:
/// when `compress_slice` made a complete stream of `payload` with the
/// decoder's window (a zlib or raw window of 9 to 15 bits), and the decoder,
/// holding no dictionary, is fed a part of it that continues what it consumed
/// before, then after a successful call what it produced before followed by
/// what the call returned is a prefix of `payload`, and all of it once the end
/// of the stream was reached.
pub proof fn law_decompress_returns_what_compress_took(
    before: DecompressView,
    after: DecompressView,
    data: Seq<u8>,
    out: Seq<u8>,
    limit: nat,
    payload: Seq<u8>,
    level: i32,
    m: nat,
)
    requires
        decompress_effect(before, after, data, out, limit),
        decodes_complete_streams(before.stream) ==> decodes_complete_streams(after.stream),
        decodes_complete_streams(before.stream),
        roundtrip_wbits(inflate_wbits(before.stream)),
        compress_slice_result(m, payload, level, inflate_wbits(before.stream)).1 == 0,
        inflate_dictionary(after.stream) is None,
        extends(compress_slice_result(m, payload, level, inflate_wbits(before.stream)).0, inflate_fed(before.stream) + data),
    ensures
        extends(payload, inflate_produced(before.stream) + out),
        after.eof ==> inflate_produced(before.stream) + out == payload,
{
    let k = choose|k: int| decompress_effect_at(before, after, data, out, limit, k);
    let whole = inflate_fed(before.stream) + data;
    assert(whole.take(inflate_fed(after.stream).len() as int) =~= inflate_fed(after.stream));
    lemma_extends_trans(
        inflate_fed(after.stream),
        whole,
        compress_slice_result(m, payload, level, inflate_wbits(before.stream)).0,
    );
}

/// With no output limit, a successful call on a live stream leaves no input
/// behind and hands none back: either the stream ended (what followed it
/// going to `unused_data`), or the decoder consumed all of `data`, or its last
/// step, given the whole working buffer as room, could make no progress.
/// Stopping early because some amount of output was produced is not among the
/// outcomes.
pub proof fn law_unlimited_decompress_leaves_no_input(
    before: DecompressView,
    after: DecompressView,
    data: Seq<u8>,
    out: Seq<u8>,
)
    requires
        decompress_effect(before, after, data, out, 0),
        decompress_stopped(before, after, data, out, 0),
    ensures
        after.unconsumed_tail.len() == 0,
        after.eof || inflate_fed(after.stream) == inflate_fed(before.stream) + data || stalled_step(
            before.stream,
            after.stream,
            inflate_fed(before.stream) + data,
            InflateFlushMode::NoFlush,
            before.zdict,
            after.buffer_len,
        ),
{
    let k = choose|k: int| decompress_effect_at(before, after, data, out, 0, k);
    assert(data.take(data.len() as int) =~= data);
}

/// A successful flush of a live stream drains the decoder: unless the stream
/// ended, its last step, a `Finish` step on what was left of the pending tail
/// with the whole working buffer as room, could make no progress. Stopping
/// because some amount of output was produced is not among the outcomes.
pub proof fn law_flush_drains_the_decoder(before: DecompressView, after: DecompressView)
    requires
        flush_stopped(before, after),
    ensures
        after.eof || stalled_step(
            before.stream,
            after.stream,
            inflate_fed(before.stream) + before.unconsumed_tail,
            InflateFlushMode::Finish,
            None,
            after.buffer_len,
        ),
{
}

impl Decompress {
    /// Decompresses `data`, producing at most `max_length` bytes when it is
    /// positive (0 means no limit); input left over at the limit becomes
    /// `unconsumed_tail`. After the end of the stream, input only accumulates
    /// in `unused_data`. The preset dictionary is installed when the stream
    /// asks for it; a stream that asks a second time within one call fails.
    pub fn decompress(&mut self, data: &[u8], max_length: i64) -> (r: Result<Vec<u8>, ZlibError>)
        requires
            data@.len() <= isize::MAX,
        ensures
            max_length < 0 ==> r == Err::<Vec<u8>, ZlibError>(ZlibError::NegativeMaxLength)
                && final(self)@ == old(self)@,
            max_length >= 0 && old(self)@.eof ==> (r matches Ok(out) && out@.len() == 0)
                && final(self)@ == with_trailing_input(old(self)@, data@),
            max_length >= 0 && !old(self)@.eof ==> match r {
                Ok(out) => decompress_effect(old(self)@, final(self)@, data@, out@, (max_length as usize) as nat)
                    && dictionary_kept_or_installed(old(self)@.stream, final(self)@.stream, old(self)@.zdict)
                    && (decodes_complete_streams(old(self)@.stream) ==> decodes_complete_streams(final(self)@.stream))
                    && decompress_stopped(old(self)@, final(self)@, data@, out@, (max_length as usize) as nat)
                    && ok_path(
                    old(self)@.stream,
                    final(self)@.stream,
                    inflate_fed(old(self)@.stream) + data@,
                    InflateFlushMode::NoFlush,
                    old(self)@.zdict,
                ),
                Err(e) => decompress_failure(
                    old(self)@,
                    final(self)@,
                    inflate_fed(old(self)@.stream) + data@,
                    data@.len(),
                    e,
                    InflateFlushMode::NoFlush,
                    old(self)@.zdict,
                ),
            },
    {
        if max_length < 0 {
            return Err(ZlibError::NegativeMaxLength);
        }
        let limit = max_length as usize;
        if self.eof {
            append_bytes(&mut self.unused_data, data);
            return Ok(Vec::new());
        }
        self.unconsumed_tail.clear();
        let mut output: Vec<u8> = Vec::new();
        let initial: usize = if limit > 0 {
            if limit < MAX_INITIAL_BUFFER {
                limit
            } else {
                MAX_INITIAL_BUFFER
            }
        } else {
            let twice: usize = data.len() * 2;
            let base: usize = if twice > 16384 {
                twice
            } else {
                16384
            };
            if base < MAX_INITIAL_BUFFER {
                base
            } else {
                MAX_INITIAL_BUFFER
            }
        };
        if self.buf.len() < initial {
            self.buf.resize(initial, 0u8);
        }
        let mut input_pos: usize = 0;
        let mut dict_applied = false;
        let ghost start = self.inflate;
        let ghost source = inflate_fed(start) + data@;
        let ghost zd = old(self)@.zdict;
        let ghost mut states: Seq<Inflate> = seq![start];
        let ghost mut stepped = false;
        let ghost mut last_s = start;
        let ghost mut last_n: nat = 0;
        proof {
            lemma_run_start(start, source, InflateFlushMode::NoFlush, zd);
            lemma_prefix_of_source(inflate_fed(start), data@, 0);
            assert(inflate_fed(start) + data@.take(0) =~= inflate_fed(start));
        }
        loop
            invariant_except_break
                !self.eof,
                self@.unconsumed_tail.len() == 0,
            invariant
                !old(self)@.eof,
                old(self)@.stream == start,
                source == inflate_fed(start) + data@,
                self.buf@.len() >= 1,
                stepped ==> last_n >= 1 && ok_path(start, last_s, source, InflateFlushMode::NoFlush, zd)
                    && inflate_step(last_s, next_input(last_s, source), last_n, InflateFlushMode::NoFlush) is Ok
                    && inflate_after(last_s, next_input(last_s, source), last_n, InflateFlushMode::NoFlush)
                    == self.inflate,
                !stepped ==> output@.len() == 0 && !self.eof,
                zd == old(self)@.zdict,
                inflate_run(states, source, InflateFlushMode::NoFlush, zd),
                decodes_complete_streams(start) ==> decodes_complete_streams(self.inflate),
                extends(source, inflate_fed(self.inflate)),
                states[0] == start,
                states[states.len() - 1] == self.inflate,
                max_length >= 0,
                limit == max_length as usize,
                input_pos <= data@.len(),
                inflate_fed(self.inflate) == inflate_fed(start) + data@.take(input_pos as int),
                inflate_produced(self.inflate) == inflate_produced(start) + output@,
                inflate_wbits(self.inflate) == inflate_wbits(start),
                dictionary_kept_or_installed(start, self.inflate, old(self)@.zdict),
                eof_follows_decoder(start, self.inflate, self.eof),
                limit > 0 ==> output@.len() <= limit,
                self@.zdict == old(self)@.zdict,
                unused_after_eof(old(self)@, self@, data@, input_pos as int),
                !self.eof ==> self@.unused_data == old(self)@.unused_data,
                self.needs_input == old(self)@.needs_input,
            ensures
                stepped,
                self@.unconsumed_tail == (if limit > 0 && output@.len() == limit && !self.eof {
                    data@.subrange(input_pos as int, data@.len() as int)
                } else {
                    Seq::<u8>::empty()
                }),
                self.eof || (limit > 0 && output@.len() == limit) || (limit == 0 && input_pos == data@.len()) || (
                inflate_fed(self.inflate) == inflate_fed(last_s) && inflate_produced(self.inflate)
                    == inflate_produced(last_s) && last_n == (if limit > 0 {
                    min_len((limit - output@.len()) as nat, self.buf@.len())
                } else {
                    self.buf@.len() as nat
                })),
            decreases (u64::MAX - inflate_fed(self.inflate).len()) + (u64::MAX - inflate_produced(
                self.inflate,
            ).len()), dict_fuel(dict_applied),
        {
            if self.eof {
                break ;
            }
            if limit > 0 && output.len() >= limit {
                self.unconsumed_tail = copy_range(data, input_pos, data.len());
                break ;
            }
            let want: usize = if limit > 0 {
                let rem = limit - output.len();
                if rem < self.buf.len() {
                    rem
                } else {
                    self.buf.len()
                }
            } else {
                self.buf.len()
            };
            if want == 0 {
                break ;
            }
            let old_in = zrs_inflate_total_in(&self.inflate);
            let old_out = zrs_inflate_total_out(&self.inflate);
            if old_in > u64::MAX - ((data.len() - input_pos) as u64) || old_out > u64::MAX - (
            self.buf.len() as u64) {
                return Err(ZlibError::CounterOverflow);
            }
            let ghost prev = self.inflate;
            let result = zrs_inflate_decompress(
                &mut self.inflate,
                data,
                input_pos,
                &mut self.buf,
                want,
                InflateFlushMode::NoFlush,
            );
            let consumed = (zrs_inflate_total_in(&self.inflate) - old_in) as usize;
            proof {
                assert(next_input(prev, source) =~= data@.skip(input_pos as int));
                assert(ok_path(start, prev, source, InflateFlushMode::NoFlush, zd));
                lemma_take_more(data@, input_pos as int, consumed as int);
                lemma_step_extends(inflate_fed(start), inflate_fed(prev), inflate_fed(self.inflate), data@.take(input_pos as int));
                lemma_prefix_of_source(inflate_fed(start), data@, input_pos + consumed);
                lemma_step_extends(inflate_produced(start), inflate_produced(prev), inflate_produced(self.inflate), output@);
            }
            let status = match result {
                Ok(n) => status_from_number(n),
                Err(InflateFailure::NeedDict { dict_id }) => {
                    if dict_applied {
                        assert(failed_after(start, self.inflate, source, InflateFlushMode::NoFlush, zd, InflateFailure::NeedDict { dict_id }));
                        return Err(ZlibError::InflateFailed(InflateFailure::NeedDict { dict_id }));
                    }
                    assert(asked_dictionary_after(start, self.inflate, source, InflateFlushMode::NoFlush, zd));
                    match &self.zdict {
                        Some(d) => {
                            input_pos = input_pos + consumed;
                            match zrs_inflate_set_dictionary(&mut self.inflate, d.as_slice()) {
                                Ok(_) => {},
                                Err(e) => {
                                    return Err(ZlibError::InflateDictionary(e));
                                },
                            }
                            proof {
                                lemma_decodes_trivially(self.inflate);
                                assert(inflate_link(prev, self.inflate, source, InflateFlushMode::NoFlush, zd));
                                lemma_run_push(states, self.inflate, source, InflateFlushMode::NoFlush, zd);
                                states = states.push(self.inflate);
                                stepped = false;
                            }
                            dict_applied = true;
                            continue ;
                        },
                        None => {
                            return Err(ZlibError::DictionaryRequired);
                        },
                    }
                },
                Err(e) => {
                    assert(failed_after(start, self.inflate, source, InflateFlushMode::NoFlush, zd, e));
                    return Err(ZlibError::InflateFailed(e));
                },
            };
            proof {
                assert(inflate_link(prev, self.inflate, source, InflateFlushMode::NoFlush, zd));
                lemma_run_push(states, self.inflate, source, InflateFlushMode::NoFlush, zd);
                states = states.push(self.inflate);
                stepped = true;
                last_s = prev;
                last_n = want as nat;
            }
            let produced = (zrs_inflate_total_out(&self.inflate) - old_out) as usize;
            input_pos = input_pos + consumed;
            assert(self.buf@.subrange(0, produced as int) =~= self.buf@.take(produced as int));
            append_bytes(&mut output, vstd::slice::slice_subrange(self.buf.as_slice(), 0, produced));
            if let Status::StreamEnd = status {
                self.eof = true;
                if input_pos < data.len() {
                    append_bytes(&mut self.unused_data, vstd::slice::slice_subrange(data, input_pos, data.len()));
                }
                break ;
            }
            if consumed == 0 && produced == 0 {
                break ;
            }
            if input_pos >= data.len() && limit == 0 {
                break ;
            }
            if produced == want && limit == 0 && self.buf.len() <= usize::MAX / 2 {
                let doubled = self.buf.len() * 2;
                self.buf.resize(doubled, 0u8);
            }
        }
        self.needs_input = input_pos == data.len() && !self.eof;
        assert(ok_path(start, self.inflate, source, InflateFlushMode::NoFlush, zd));
        assert(last_step(start, self.inflate, source, InflateFlushMode::NoFlush, zd));
        assert(decompress_effect_at(old(self)@, self@, data@, output@, limit as nat, input_pos as int));
        Ok(output)
    }

    /// Drains the decoder: feeds it `unconsumed_tail` with a finishing flush
    /// and returns all the output it still has, using a working buffer of
    /// `length` bytes (between 1024 and 65536) as a hint. If the stream ends,
    /// what is left of the tail goes to `unused_data`.
    pub fn flush(&mut self, length: i64) -> (r: Result<Vec<u8>, ZlibError>)
        ensures
            length <= 0 ==> r == Err::<Vec<u8>, ZlibError>(ZlibError::NonPositiveFlushLength)
                && final(self)@ == old(self)@,
            length > 0 && old(self)@.eof ==> (r matches Ok(out) && out@.len() == 0) && final(self)@
                == old(self)@,
            length > 0 && !old(self)@.eof ==> match r {
                Ok(out) => flush_effect(old(self)@, final(self)@, out@) && (decodes_complete_streams(old(self)@.stream)
                    ==> decodes_complete_streams(final(self)@.stream)) && flush_stopped(old(self)@, final(self)@)
                    && ok_path(
                    old(self)@.stream,
                    final(self)@.stream,
                    inflate_fed(old(self)@.stream) + old(self)@.unconsumed_tail,
                    InflateFlushMode::Finish,
                    None,
                ),
                Err(e) => decompress_failure(
                    old(self)@,
                    final(self)@,
                    inflate_fed(old(self)@.stream) + old(self)@.unconsumed_tail,
                    old(self)@.unconsumed_tail.len(),
                    e,
                    InflateFlushMode::Finish,
                    None,
                ),
            },
    {
        if length <= 0 {
            return Err(ZlibError::NonPositiveFlushLength);
        }
        let hint = length as usize;
        let capped: usize = if hint < MAX_FLUSH_BUFFER {
            hint
        } else {
            MAX_FLUSH_BUFFER
        };
        let buf_size: usize = if capped > 1024 {
            capped
        } else {
            1024
        };
        if self.eof {
            return Ok(Vec::new());
        }
        if self.buf.len() < buf_size {
            self.buf.resize(buf_size, 0u8);
        }
        let mut input: Vec<u8> = Vec::new();
        std::mem::swap(&mut input, &mut self.unconsumed_tail);
        let ghost tail = input@;
        let ghost start = self.inflate;
        let ghost source = inflate_fed(start) + tail;
        let ghost mut states: Seq<Inflate> = seq![start];
        let ghost mut stepped = false;
        let ghost mut last_s = start;
        proof {
            lemma_run_start(start, source, InflateFlushMode::Finish, None);
            lemma_prefix_of_source(inflate_fed(start), tail, 0);
            assert(inflate_fed(start) + tail.take(0) =~= inflate_fed(start));
        }
        let ghost mut k: int = 0;
        let mut input_pos: usize = 0;
        let mut output: Vec<u8> = Vec::new();
        loop
            invariant_except_break
                !self.eof,
            invariant
                source == inflate_fed(start) + tail,
                self.buf@.len() >= 1,
                stepped ==> ok_path(start, last_s, source, InflateFlushMode::Finish, None)
                    && inflate_step(last_s, next_input(last_s, source), self.buf@.len() as nat, InflateFlushMode::Finish) is Ok
                    && inflate_after(last_s, next_input(last_s, source), self.buf@.len() as nat, InflateFlushMode::Finish)
                    == self.inflate,
                inflate_run(states, source, InflateFlushMode::Finish, None),
                decodes_complete_streams(start) ==> decodes_complete_streams(self.inflate),
                extends(source, inflate_fed(self.inflate)),
                states[0] == start,
                states[states.len() - 1] == self.inflate,
                !old(self)@.eof,
                length > 0,
                tail == old(self)@.unconsumed_tail,
                old(self)@.stream == start,
                self@.unconsumed_tail.len() == 0,
                self@.needs_input == old(self)@.needs_input,
                self@.zdict == old(self)@.zdict,
                input_pos <= input@.len(),
                0 <= k <= tail.len(),
                (input@ == tail && input_pos == k) || (input@.len() == 0 && input_pos == 0 && k
                    == tail.len()),
                inflate_fed(self.inflate) == inflate_fed(start) + tail.take(k),
                inflate_produced(self.inflate) == inflate_produced(start) + output@,
                inflate_wbits(self.inflate) == inflate_wbits(start),
                inflate_dictionary(self.inflate) == inflate_dictionary(start),
                eof_follows_decoder(start, self.inflate, self.eof),
                if self.eof {
                    self@.unused_data == old(self)@.unused_data + tail.skip(k)
                } else {
                    self@.unused_data == old(self)@.unused_data
                },
            ensures
                stepped,
                self.eof || (inflate_fed(self.inflate) == inflate_fed(last_s) && inflate_produced(self.inflate)
                    == inflate_produced(last_s)),
            decreases (u64::MAX - inflate_fed(self.inflate).len()) + (u64::MAX - inflate_produced(
                self.inflate,
            ).len()),
        {
            if self.eof {
                break ;
            }
            let old_in = zrs_inflate_total_in(&self.inflate);
            let old_out = zrs_inflate_total_out(&self.inflate);
            let want = self.buf.len();
            if old_in > u64::MAX - ((input.len() - input_pos) as u64) || old_out > u64::MAX - (
            want as u64) {
                assert(tail.len() >= input.len() - input_pos);
                return Err(ZlibError::CounterOverflow);
            }
            let ghost prev = self.inflate;
            let result = zrs_inflate_decompress(
                &mut self.inflate,
                input.as_slice(),
                input_pos,
                &mut self.buf,
                want,
                InflateFlushMode::Finish,
            );
            let consumed = (zrs_inflate_total_in(&self.inflate) - old_in) as usize;
            let produced = (zrs_inflate_total_out(&self.inflate) - old_out) as usize;
            proof {
                assert(next_input(prev, source) =~= input@.skip(input_pos as int));
                assert(ok_path(start, prev, source, InflateFlushMode::Finish, None));
                lemma_take_more(input@, input_pos as int, consumed as int);
                lemma_step_extends(inflate_fed(start), inflate_fed(prev), inflate_fed(self.inflate), tail.take(k));
                lemma_prefix_of_source(inflate_fed(start), tail, k + consumed);
                lemma_step_extends(inflate_produced(start), inflate_produced(prev), inflate_produced(self.inflate), output@);
                k = k + consumed;
            }
            input_pos = input_pos + consumed;
            assert(self.buf@.subrange(0, produced as int) =~= self.buf@.take(produced as int));
            append_bytes(&mut output, vstd::slice::slice_subrange(self.buf.as_slice(), 0, produced));
            match result {
                Ok(n) => {
                    proof {
                        assert(inflate_link(prev, self.inflate, source, InflateFlushMode::Finish, None));
                        lemma_run_push(states, self.inflate, source, InflateFlushMode::Finish, None);
                        states = states.push(self.inflate);
                        stepped = true;
                        last_s = prev;
                    }
                    if let Status::StreamEnd = status_from_number(n) {
                        self.eof = true;
                        if input_pos < input.len() {
                            append_bytes(
                                &mut self.unused_data,
                                vstd::slice::slice_subrange(input.as_slice(), input_pos, input.len()),
                            );
                        }
                        assert(self@.unused_data =~= old(self)@.unused_data + tail.skip(k));
                        break ;
                    }
                    if consumed == 0 && produced == 0 {
                        break ;
                    }
                },
                Err(e) => {
                    assert(failed_after(start, self.inflate, source, InflateFlushMode::Finish, None, e));
                    return Err(ZlibError::InflateFlushFailed(e));
                },
            }
            if input_pos >= input.len() {
                input.clear();
                input_pos = 0;
            }
        }
        assert(ok_path(start, self.inflate, source, InflateFlushMode::Finish, None));
        assert(flush_effect_at(old(self)@, self@, output@, k));
        assert(last_step(start, self.inflate, source, InflateFlushMode::Finish, None));
        Ok(output)
    }

    /// The bytes that followed the end of the compressed stream.
    pub fn unused_data(&self) -> (r: Vec<u8>)
        ensures
            r@ == self@.unused_data,
    {
        vstd::slice::slice_to_vec(self.unused_data.as_slice())
    }

    /// The input that the last call left unprocessed at its output limit.
    pub fn unconsumed_tail(&self) -> (r: Vec<u8>)
        ensures
            r@ == self@.unconsumed_tail,
    {
        vstd::slice::slice_to_vec(self.unconsumed_tail.as_slice())
    }

    /// Whether the end of the compressed stream was reached.
    pub fn eof(&self) -> (r: bool)
        ensures
            r == self@.eof,
    {
        self.eof
    }

    /// Whether the last call consumed all its input without reaching the end.
    pub fn needs_input(&self) -> (r: bool)
        ensures
            r == self@.needs_input,
    {
        self.needs_input
    }
}

/// What a successful flush of a live stream did, with `k` the number of bytes
/// of the pending tail that the decoder consumed: `unconsumed_tail` emptied,
/// every byte the decoder wrote returned, and, if the stream ended, the rest
/// of the tail put in `unused_data`.
pub open spec fn flush_effect_at(before: DecompressView, after: DecompressView, out: Seq<u8>, k: int) -> bool {
    &&& fed_with(inflate_fed(after.stream), inflate_fed(before.stream), before.unconsumed_tail, k)
    &&& after.unconsumed_tail.len() == 0
    &&& after.needs_input == before.needs_input
    &&& after.zdict == before.zdict
    &&& inflate_produced(after.stream) == inflate_produced(before.stream) + out
    &&& inflate_wbits(after.stream) == inflate_wbits(before.stream)
    &&& eof_follows_decoder(before.stream, after.stream, after.eof)
    &&& if after.eof {
        after.unused_data == before.unused_data + before.unconsumed_tail.skip(k)
    } else {
        after.unused_data == before.unused_data
    }
}

/// Why a successful flush of a live stream stopped: its last act was a
/// `Finish` step of the decoder, fed what was left of the pending tail, after
/// which the stream had ended, or which, with the whole working buffer as
/// room, could make no progress: the decoder was drained.
pub open spec fn flush_stopped(before: DecompressView, after: DecompressView) -> bool {
    let source = inflate_fed(before.stream) + before.unconsumed_tail;
    &&& last_step(before.stream, after.stream, source, InflateFlushMode::Finish, None)
    &&& after.eof || stalled_step(
        before.stream,
        after.stream,
        source,
        InflateFlushMode::Finish,
        None,
        after.buffer_len,
    )
}

/// What a successful flush of a live stream did, for some number of bytes of
/// the pending tail consumed.
pub open spec fn flush_effect(before: DecompressView, after: DecompressView, out: Seq<u8>) -> bool {
    exists|k: int| flush_effect_at(before, after, out, k)
}

} // verus!
