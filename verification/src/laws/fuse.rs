//! Laws of a stream fused with its codec.

use crate::decoder::Decoder;
use crate::encoder::Encoder;
use crate::fuse::Fuse;
use vstd::prelude::*;

verus! {

/// One decoding: of the bytes `src`, with `result`, leaving the bytes `left`.
pub struct Decoding<I, E> {
    /// The bytes before.
    pub src: Seq<u8>,
    /// What was found.
    pub result: Result<Option<I>, E>,
    /// The bytes afterwards.
    pub left: Seq<u8>,
}

/// Decoding through the fused stream is one decoding by the codec: of the same bytes, with the same
/// result, leaving the same codec and the same bytes. The stream is left alone.
pub proof fn decodes_as_codec<T, U: Decoder>(
    fuse: Fuse<T, U>,
    src: Seq<u8>,
    result: Result<Option<U::Item>, U::Error>,
    after: Fuse<T, U>,
    left: Seq<u8>,
)
    ensures
        fuse.decodes(src, result, &after, left) == (fuse.u.decodes(src, result, &after.u, left)
            && after.t == fuse.t),
{
}

/// Decoding at the end of the stream is one decoding at the end by the codec: of the same bytes,
/// with the same result, leaving the same codec and the same bytes. The stream is left alone.
pub proof fn decodes_eof_as_codec<T, U: Decoder>(
    fuse: Fuse<T, U>,
    src: Seq<u8>,
    result: Result<Option<U::Item>, U::Error>,
    after: Fuse<T, U>,
    left: Seq<u8>,
)
    ensures
        fuse.decodes_eof(src, result, &after, left) == (fuse.u.decodes_eof(
            src,
            result,
            &after.u,
            left,
        ) && after.t == fuse.t),
{
}

/// Encoding through the fused stream is one encoding by the codec: of the same item, behind the
/// same bytes, with the same result, leaving the same codec and the same bytes. The stream is left
/// alone.
pub proof fn encodes_as_codec<T, U: Encoder>(
    fuse: Fuse<T, U>,
    item: U::Item,
    dst: Seq<u8>,
    result: Result<(), U::Error>,
    after: Fuse<T, U>,
    dst_after: Seq<u8>,
)
    ensures
        fuse.encodes(item, dst, result, &after, dst_after) == (fuse.u.encodes(
            item,
            dst,
            result,
            &after.u,
            dst_after,
        ) && after.t == fuse.t),
{
}

/// Where the codec leaves its source unchanged when it asks for more bytes, so does decoding
/// through the fused stream.
pub proof fn asking_for_more_keeps_the_source<T, U: Decoder>(
    fuse: Fuse<T, U>,
    src: Seq<u8>,
    result: Result<Option<U::Item>, U::Error>,
    after: Fuse<T, U>,
    left: Seq<u8>,
)
    requires
        forall|codec: U, rest: Seq<u8>| #[trigger]
            fuse.u.decodes(src, Ok(None), &codec, rest) ==> rest == src,
        fuse.decodes(src, result, &after, left),
        result matches Ok(None),
    ensures
        left == src,
{
}

/// A message that the codec finds at the end of the stream is given.
pub proof fn last_message_is_given<T, U: Decoder>(
    fuse: Fuse<T, U>,
    src: Seq<u8>,
    item: U::Item,
    result: Result<Option<U::Item>, U::Error>,
    after: Fuse<T, U>,
    left: Seq<u8>,
)
    requires
        forall|found: Result<Option<U::Item>, U::Error>, codec: U, rest: Seq<u8>| #[trigger]
            fuse.u.decodes_eof(src, found, &codec, rest) ==> found == Ok::<
                Option<U::Item>,
                U::Error,
            >(Some(item)),
        fuse.decodes_eof(src, result, &after, left),
    ensures
        result == Ok::<Option<U::Item>, U::Error>(Some(item)),
{
}

/// Wherever it begins with the frame of a message, the codec, while it is `good`, finds that
/// message and takes its frame alone.
pub open spec fn reads_frames<U: Decoder>(
    good: spec_fn(U) -> bool,
    frame: spec_fn(U::Item) -> Seq<u8>,
) -> bool {
    forall|
        codec: U,
        item: U::Item,
        rest: Seq<u8>,
        result: Result<Option<U::Item>, U::Error>,
        after: U,
        left: Seq<u8>,
    |
        good(codec) && #[trigger] codec.decodes(frame(item) + rest, result, &after, left) ==> {
            &&& result == Ok::<Option<U::Item>, U::Error>(Some(item))
            &&& left == rest
            &&& good(after)
        }
}

/// The codec, while it is `good`, asks for more where it is given only a part of the frame of a
/// message, and leaves that part.
pub open spec fn awaits_frames<U: Decoder>(
    good: spec_fn(U) -> bool,
    frame: spec_fn(U::Item) -> Seq<u8>,
) -> bool {
    forall|
        codec: U,
        item: U::Item,
        src: Seq<u8>,
        result: Result<Option<U::Item>, U::Error>,
        after: U,
        left: Seq<u8>,
    |
        good(codec) && src.len() < frame(item).len() && src.is_prefix_of(#[trigger] frame(item))
            && #[trigger] codec.decodes(src, result, &after, left) ==> {
            &&& result == Ok::<Option<U::Item>, U::Error>(None)
            &&& left == src
            &&& good(after)
        }
}

/// The frames of `items`, one after another.
pub open spec fn frames<I>(items: Seq<I>, frame: spec_fn(I) -> Seq<u8>) -> Seq<u8>
    decreases items.len(),
{
    if items.len() == 0 {
        Seq::empty()
    } else {
        frame(items[0]) + frames(items.skip(1), frame)
    }
}

/// Whether `calls` are decodings through the fused stream, made one after another: the codec goes
/// from `fuses[i]` to `fuses[i + 1]` in call `i`.
pub open spec fn decodings<T, U: Decoder>(
    fuses: Seq<Fuse<T, U>>,
    calls: Seq<Decoding<U::Item, U::Error>>,
) -> bool {
    &&& fuses.len() == calls.len() + 1
    &&& forall|i: int, j: int|
        #![trigger fuses[i], fuses[j]]
        0 <= i < calls.len() && j == i + 1 ==> fuses[i].decodes(
            calls[i].src,
            calls[i].result,
            &fuses[j],
            calls[i].left,
        )
}

/// Messages come out in the order in which they lie in the buffer, none left out and each once: as
/// many decodings as there are messages give just these messages, and leave what lies behind them.
pub proof fn messages_come_out_in_order<T, U: Decoder>(
    fuses: Seq<Fuse<T, U>>,
    calls: Seq<Decoding<U::Item, U::Error>>,
    items: Seq<U::Item>,
    rest: Seq<u8>,
    good: spec_fn(U) -> bool,
    frame: spec_fn(U::Item) -> Seq<u8>,
)
    requires
        reads_frames(good, frame),
        decodings(fuses, calls),
        calls.len() == items.len(),
        calls.len() > 0,
        good(fuses[0].u),
        calls[0].src == frames(items, frame) + rest,
        forall|i: int, j: int|
            0 <= i && j == i + 1 && j < calls.len() ==> (#[trigger] calls[j]).src == (
            #[trigger] calls[i]).left,
    ensures
        forall|i: int|
            0 <= i < calls.len() ==> (#[trigger] calls[i]).result == Ok::<
                Option<U::Item>,
                U::Error,
            >(Some(items[i])),
        calls.last().left == rest,
        fuses.last().t == fuses[0].t,
    decreases calls.len(),
{
    let behind = frames(items.skip(1), frame) + rest;
    assert(calls[0].src =~= frame(items[0]) + behind);
    assert(fuses[0].decodes(calls[0].src, calls[0].result, &fuses[1], calls[0].left));
    assert(fuses[0].u.decodes(
        frame(items[0]) + behind,
        calls[0].result,
        &fuses[1].u,
        calls[0].left,
    ));
    if calls.len() > 1 {
        let later = calls.skip(1);
        let onward = fuses.skip(1);
        assert(calls[1].src == calls[0].left);
        assert forall|i: int, j: int|
            #![trigger onward[i], onward[j]]
            0 <= i < later.len() && j == i + 1 implies onward[i].decodes(
            later[i].src,
            later[i].result,
            &onward[j],
            later[i].left,
        ) by {
            assert(fuses[i + 1].decodes(
                calls[i + 1].src,
                calls[i + 1].result,
                &fuses[i + 2],
                calls[i + 1].left,
            ));
        }
        assert forall|i: int, j: int| 0 <= i && j == i + 1 && j < later.len() implies (
        #[trigger] later[j]).src == (#[trigger] later[i]).left by {
            assert(calls[j + 1].src == calls[i + 1].left);
        }
        messages_come_out_in_order(onward, later, items.skip(1), rest, good, frame);
        assert forall|i: int| 0 <= i < calls.len() implies (#[trigger] calls[i]).result == Ok::<
            Option<U::Item>,
            U::Error,
        >(Some(items[i])) by {
            if i > 0 {
                assert(later[i - 1] == calls[i]);
                assert(items.skip(1)[i - 1] == items[i]);
            }
        }
        assert(later.last() == calls.last());
        assert(onward.last() == fuses.last());
    } else {
        assert(items.skip(1).len() == 0);
        assert(behind =~= rest);
    }
}

/// A message that arrives in pieces is given whole: for as long as it is not complete every
/// decoding asks for more and keeps what has come; the decoding that finds it complete gives it,
/// and leaves what has come behind it. `come` holds what has come in all before each decoding.
pub proof fn message_comes_out_whole<T, U: Decoder>(
    fuses: Seq<Fuse<T, U>>,
    calls: Seq<Decoding<U::Item, U::Error>>,
    come: Seq<Seq<u8>>,
    pieces: Seq<Seq<u8>>,
    item: U::Item,
    rest: Seq<u8>,
    good: spec_fn(U) -> bool,
    frame: spec_fn(U::Item) -> Seq<u8>,
    n: int,
)
    requires
        reads_frames(good, frame),
        awaits_frames(good, frame),
        decodings(fuses, calls),
        0 <= n < calls.len(),
        come.len() == calls.len(),
        pieces.len() == calls.len(),
        good(fuses[0].u),
        calls[0].src == come[0],
        forall|i: int, j: int|
            0 <= i && j == i + 1 && j < calls.len() ==> (#[trigger] come[j]) == (#[trigger] come[i])
                + pieces[j],
        forall|i: int, j: int|
            0 <= i && j == i + 1 && j < calls.len() ==> (#[trigger] calls[j]).src == (
            #[trigger] calls[i]).left + pieces[j],
        forall|i: int|
            0 <= i < calls.len() - 1 ==> (#[trigger] come[i]).len() < frame(item).len()
                && come[i].is_prefix_of(frame(item)),
        come.last() == frame(item) + rest,
    ensures
        calls[n].src == come[n],
        n < calls.len() - 1 ==> calls[n].result == Ok::<Option<U::Item>, U::Error>(None)
            && calls[n].left == come[n],
        n == calls.len() - 1 ==> calls[n].result == Ok::<Option<U::Item>, U::Error>(Some(item))
            && calls[n].left == rest,
        good(fuses[n + 1].u),
    decreases n,
{
    if n > 0 {
        message_comes_out_whole(fuses, calls, come, pieces, item, rest, good, frame, n - 1);
        assert(come[n] == come[n - 1] + pieces[n]);
        assert(calls[n].src == calls[n - 1].left + pieces[n]);
    }
    assert(fuses[n].decodes(calls[n].src, calls[n].result, &fuses[n + 1], calls[n].left));
    assert(fuses[n].u.decodes(calls[n].src, calls[n].result, &fuses[n + 1].u, calls[n].left));
}

} // verus!
