//! Laws of a framed stream.

use crate::buffer::contents;
use crate::encoder::Encoder;
use crate::framed::Framed;
use crate::message_patterns::Sending;
use crate::poll::Poll;
use vstd::prelude::*;

verus! {

/// A fresh framed stream is the stream and the codec that it was made of, with nothing in either
/// buffer.
pub proof fn fresh_stream_has_nothing_buffered<S, C>(framed: Framed<S, C>, stream: S, codec: C)
    ensures
        framed.fresh(stream, codec) == (framed.fuse.t == stream && framed.fuse.u == codec
            && contents(framed.read_buffer).len() == 0 && contents(framed.write_buffer).len() == 0),
{
    if contents(framed.read_buffer).len() == 0 && contents(framed.write_buffer).len() == 0 {
        assert(contents(framed.read_buffer) =~= Seq::<u8>::empty());
        assert(contents(framed.write_buffer) =~= Seq::<u8>::empty());
    }
}

/// To hand an item to a framed stream is one encoding by its codec, behind what waits to be
/// written. The stream and what was read from it are left alone.
pub proof fn accepting_is_one_encoding<S, C: Encoder>(
    framed: Framed<S, C>,
    item: C::Item,
    result: Result<(), C::Error>,
    after: Framed<S, C>,
)
    ensures
        framed.accepts(item, result, after) == (framed.fuse.u.encodes(
            item,
            contents(framed.write_buffer),
            result,
            &after.fuse.u,
            contents(after.write_buffer),
        ) && after.fuse.t == framed.fuse.t && after.read_buffer == framed.read_buffer),
{
}

/// A message is handed to the codec when the framed stream is ready for it, once, behind what waits
/// to be written, and the codec's answer is told. Where the framed stream is not ready, or fails,
/// it is told so, and is left as it was.
pub proof fn handing_over_is_one_encoding<S, C: Encoder>(
    sending: Sending<S, C>,
    ready: Poll<Result<(), C::Error>>,
    handed: Poll<Result<(), C::Error>>,
    after: Framed<S, C>,
)
    ensures
        sending.hands_over(ready, handed, after) == match ready {
            Poll::Pending => handed is Pending && after == sending.framed,
            Poll::Ready(Err(e)) => handed == Poll::Ready(Err::<(), C::Error>(e)) && after
                == sending.framed,
            Poll::Ready(Ok(())) => handed is Ready && sending.framed.fuse.u.encodes(
                sending.message->0,
                contents(sending.framed.write_buffer),
                handed->Ready_0,
                &after.fuse.u,
                contents(after.write_buffer),
            ) && after.fuse.t == sending.framed.fuse.t && after.read_buffer
                == sending.framed.read_buffer,
        },
{
}

/// The codec, while it is `good`, appends the frame of every item that it takes.
pub open spec fn appends_frames<C: Encoder>(
    good: spec_fn(C) -> bool,
    frame: spec_fn(C::Item) -> Seq<u8>,
) -> bool {
    forall|
        codec: C,
        item: C::Item,
        dst: Seq<u8>,
        result: Result<(), C::Error>,
        after: C,
        dst_after: Seq<u8>,
    |
        good(codec) && #[trigger] codec.encodes(item, dst, result, &after, dst_after)
            && result is Ok ==> dst_after == dst + frame(item) && good(after)
}

/// The frames of `items`, one after another.
pub open spec fn frames<I>(items: Seq<I>, frame: spec_fn(I) -> Seq<u8>) -> Seq<u8>
    decreases items.len(),
{
    if items.len() == 0 {
        Seq::empty()
    } else {
        frames(items.drop_last(), frame) + frame(items.last())
    }
}

/// Messages wait to be written in the order in which they were handed over, none left out and each
/// once, behind what waited before them.
pub proof fn messages_go_out_in_order<S, C: Encoder>(
    streams: Seq<Framed<S, C>>,
    items: Seq<C::Item>,
    good: spec_fn(C) -> bool,
    frame: spec_fn(C::Item) -> Seq<u8>,
)
    requires
        appends_frames(good, frame),
        streams.len() == items.len() + 1,
        good(streams[0].fuse.u),
        forall|i: int, j: int|
            0 <= i < items.len() && j == i + 1 ==> (#[trigger] streams[i]).accepts(
                items[i],
                Ok(()),
                #[trigger] streams[j],
            ),
    ensures
        contents(streams.last().write_buffer) == contents(streams[0].write_buffer) + frames(
            items,
            frame,
        ),
        streams.last().read_buffer == streams[0].read_buffer,
        streams.last().fuse.t == streams[0].fuse.t,
        good(streams.last().fuse.u),
    decreases items.len(),
{
    let n = items.len() as int;
    if n == 0 {
        assert(contents(streams[0].write_buffer) + Seq::<u8>::empty() =~= contents(
            streams[0].write_buffer,
        ));
    } else {
        let earlier = streams.drop_last();
        assert forall|i: int, j: int| 0 <= i < n - 1 && j == i + 1 implies (
        #[trigger] earlier[i]).accepts(items.drop_last()[i], Ok(()), #[trigger] earlier[j]) by {
            assert(streams[i].accepts(items[i], Ok(()), streams[j]));
        }
        messages_go_out_in_order(earlier, items.drop_last(), good, frame);
        assert(streams[n - 1].accepts(items[n - 1], Ok(()), streams[n]));
        assert(earlier.last() == streams[n - 1]);
        assert(contents(streams[0].write_buffer) + frames(items.drop_last(), frame) + frame(
            items.last(),
        ) =~= contents(streams[0].write_buffer) + frames(items, frame));
    }
}

} // verus!
