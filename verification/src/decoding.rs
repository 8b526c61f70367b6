//! How a decoder moves during one call of a streaming decompressor: runs of
//! successful steps, each fed what follows the bytes the decoder has consumed.

use vstd::prelude::*;
use zlib_rs::Inflate;
use crate::codes::{InflateFailure, ZlibError};
use crate::engine::{
    decodes_complete_streams, extends, inflate_after, on_plain_stream, inflate_dictionary, inflate_ended, inflate_fed, inflate_produced, inflate_step, inflate_wbits,
    InflateFlushMode,
};

verus! {

/// What a decoder in state `a` is fed from `source`, the record of every
/// compressed byte that the decoder has consumed or that a call makes
/// available to it: what follows the bytes it has consumed.
pub open spec fn next_input(a: Inflate, source: Seq<u8>) -> Seq<u8> {
    source.skip(inflate_fed(a).len() as int)
}

/// `b` is `a` with the dictionary `d` installed, and the same in all else
/// that the contracts see.
pub open spec fn dictionary_installed(a: Inflate, b: Inflate, d: Seq<u8>) -> bool {
    &&& inflate_dictionary(b) == Some(d)
    &&& inflate_fed(b) == inflate_fed(a)
    &&& inflate_produced(b) == inflate_produced(a)
    &&& inflate_ended(b) == inflate_ended(a)
    &&& inflate_wbits(b) == inflate_wbits(a)
}

/// One link of a run from `a` to `b`: a step in `mode`, fed from `source`
/// with room for at least one byte, that succeeded; or one that asked for the
/// preset dictionary, followed by the installation of `zdict`.
pub open spec fn inflate_link(a: Inflate, b: Inflate, source: Seq<u8>, mode: InflateFlushMode, zdict: Option<Seq<u8>>) -> bool {
    exists|n: nat|
        #![trigger inflate_step(a, next_input(a, source), n, mode)]
        n >= 1 && {
            ||| inflate_step(a, next_input(a, source), n, mode) is Ok && inflate_after(a, next_input(a, source), n, mode) == b
            ||| (inflate_step(a, next_input(a, source), n, mode) matches Err(InflateFailure::NeedDict { .. }))
                && (zdict matches Some(d) && dictionary_installed(inflate_after(a, next_input(a, source), n, mode), b, d))
        }
}

/// `states` is a run: each state follows from the one before by a link.
pub open spec fn inflate_run(states: Seq<Inflate>, source: Seq<u8>, mode: InflateFlushMode, zdict: Option<Seq<u8>>) -> bool {
    &&& states.len() >= 1
    &&& forall|i: int| 0 <= i < states.len() - 1 ==> #[trigger] inflate_link(states[i], states[i + 1], source, mode, zdict)
}

/// The decoder went from `a` to `b` by a run: no step on the way failed.
pub open spec fn ok_path(a: Inflate, b: Inflate, source: Seq<u8>, mode: InflateFlushMode, zdict: Option<Seq<u8>>) -> bool {
    exists|states: Seq<Inflate>|
        #[trigger] inflate_run(states, source, mode, zdict) && states[0] == a && states[states.len() - 1] == b
}

/// The decoder went from `before` by a run to a state whose next step, fed
/// from `source`, failed with `f` and left it `after`.
pub open spec fn failed_after(
    before: Inflate,
    after: Inflate,
    source: Seq<u8>,
    mode: InflateFlushMode,
    zdict: Option<Seq<u8>>,
    f: InflateFailure,
) -> bool {
    exists|s: Inflate, n: nat|
        #![trigger inflate_step(s, next_input(s, source), n, mode)]
        n >= 1 && ok_path(before, s, source, mode, zdict) && inflate_step(s, next_input(s, source), n, mode) == Err::<
            i32,
            InflateFailure,
        >(f) && inflate_after(s, next_input(s, source), n, mode) == after
}

/// The decoder went from `before` by a run to a state whose next step, fed
/// from `source`, asked for the preset dictionary and left it `after`.
pub open spec fn asked_dictionary_after(
    before: Inflate,
    after: Inflate,
    source: Seq<u8>,
    mode: InflateFlushMode,
    zdict: Option<Seq<u8>>,
) -> bool {
    exists|s: Inflate, n: nat|
        #![trigger inflate_step(s, next_input(s, source), n, mode)]
        n >= 1 && ok_path(before, s, source, mode, zdict) && (inflate_step(s, next_input(s, source), n, mode) matches Err(
            InflateFailure::NeedDict { .. },
        )) && inflate_after(s, next_input(s, source), n, mode) == after
}

/// The call's last act was a successful step, fed from `source` with room for
/// at least one byte, from a state the decoder reached from `before` by a
/// run; it left the decoder `after`.
pub open spec fn last_step(
    before: Inflate,
    after: Inflate,
    source: Seq<u8>,
    mode: InflateFlushMode,
    zdict: Option<Seq<u8>>,
) -> bool {
    exists|s: Inflate, n: nat|
        #![trigger inflate_step(s, next_input(s, source), n, mode)]
        n >= 1 && ok_path(before, s, source, mode, zdict) && inflate_step(s, next_input(s, source), n, mode) is Ok
            && inflate_after(s, next_input(s, source), n, mode) == after
}

/// The call's last act was a successful step, fed from `source` with `n`
/// bytes of room, from a state the decoder reached from `before` by a run,
/// that consumed and produced nothing: the decoder could make no more
/// progress. It left the decoder `after`.
pub open spec fn stalled_step(
    before: Inflate,
    after: Inflate,
    source: Seq<u8>,
    mode: InflateFlushMode,
    zdict: Option<Seq<u8>>,
    n: nat,
) -> bool {
    exists|s: Inflate|
        #![trigger inflate_step(s, next_input(s, source), n, mode)]
        ok_path(before, s, source, mode, zdict) && inflate_step(s, next_input(s, source), n, mode) is Ok
            && inflate_after(s, next_input(s, source), n, mode) == after && inflate_fed(after) == inflate_fed(s)
            && inflate_produced(after) == inflate_produced(s)
}

/// The smaller of two lengths.
pub open spec fn min_len(a: nat, b: nat) -> nat {
    if a < b {
        a
    } else {
        b
    }
}

/// Why a call that drives a decoder in `mode` from `before` to `after`
/// failed with `e`: a step failed (a decompression error in `NoFlush` mode, a
/// flush error in `Finish` mode), for want of memory or on input that is no
/// part of a plain stream; the stream asked for a dictionary when none was
/// given; installing the given one failed; or, with no step failed, the
/// byte counters would have passed `u64::MAX` (`overflow`).
pub open spec fn decoder_error(
    before: Inflate,
    after: Inflate,
    source: Seq<u8>,
    mode: InflateFlushMode,
    zdict: Option<Seq<u8>>,
    e: ZlibError,
    overflow: bool,
) -> bool {
    match e {
        ZlibError::InflateFailed(f) => mode == InflateFlushMode::NoFlush && failed_after(
            before,
            after,
            source,
            mode,
            zdict,
            f,
        ) && (f == InflateFailure::MemError || !on_plain_stream(after)),
        ZlibError::InflateFlushFailed(f) => mode == InflateFlushMode::Finish && failed_after(
            before,
            after,
            source,
            mode,
            zdict,
            f,
        ) && (f == InflateFailure::MemError || !on_plain_stream(after)),
        ZlibError::DictionaryRequired => mode == InflateFlushMode::NoFlush && zdict is None
            && asked_dictionary_after(before, after, source, mode, zdict) && !on_plain_stream(after),
        ZlibError::InflateDictionary(_) => mode == InflateFlushMode::NoFlush && zdict is Some
            && asked_dictionary_after(before, after, source, mode, zdict),
        ZlibError::CounterOverflow => ok_path(before, after, source, mode, zdict) && overflow,
        _ => false,
    }
}

/// A decoder that has produced nothing and not reached an end has decoded
/// every stream right so far.
pub(crate) proof fn lemma_decodes_trivially(i: Inflate)
    requires
        inflate_produced(i) == Seq::<u8>::empty(),
        !inflate_ended(i),
    ensures
        decodes_complete_streams(i),
{
    assert forall|p: Seq<u8>| #![trigger p.take(0)] extends(p, Seq::<u8>::empty()) by {
        assert(p.take(0) =~= Seq::<u8>::empty());
    }
}

/// The first bytes of `data` continue `base` as a prefix of `base + data`.
pub(crate) proof fn lemma_prefix_of_source(base: Seq<u8>, data: Seq<u8>, j: int)
    requires
        0 <= j <= data.len(),
    ensures
        extends(base + data, base + data.take(j)),
{
    assert((base + data).take((base + data.take(j)).len() as int) =~= base + data.take(j));
}

/// A single state is a run.
pub(crate) proof fn lemma_run_start(a: Inflate, source: Seq<u8>, mode: InflateFlushMode, zdict: Option<Seq<u8>>)
    ensures
        inflate_run(seq![a], source, mode, zdict),
        ok_path(a, a, source, mode, zdict),
{
    assert(inflate_run(seq![a], source, mode, zdict));
}

/// A run followed by a link is a run.
pub(crate) proof fn lemma_run_push(
    states: Seq<Inflate>,
    b: Inflate,
    source: Seq<u8>,
    mode: InflateFlushMode,
    zdict: Option<Seq<u8>>,
)
    requires
        inflate_run(states, source, mode, zdict),
        inflate_link(states[states.len() - 1], b, source, mode, zdict),
    ensures
        inflate_run(states.push(b), source, mode, zdict),
        states.push(b)[0] == states[0],
        states.push(b)[states.push(b).len() - 1] == b,
{
    let t = states.push(b);
    assert forall|i: int| 0 <= i < t.len() - 1 implies #[trigger] inflate_link(t[i], t[i + 1], source, mode, zdict) by {
        if i < states.len() - 1 {
            assert(t[i] == states[i] && t[i + 1] == states[i + 1]);
        } else {
            assert(t[i] == states[states.len() - 1] && t[i + 1] == b);
        }
    }
}

} // verus!
