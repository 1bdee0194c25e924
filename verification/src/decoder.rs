//! Decoding of bytes as messages.

use crate::buffer::contents;
use bytes::BytesMut;
use vstd::prelude::*;

verus! {

/// Decoding of bytes as messages, for use with [`Framed`](crate::framed::Framed).
pub trait Decoder {
    /// The type of items returned by `decode`.
    type Item;

    /// The type of decoding errors.
    type Error;

    /// Whether decoding with this codec, from a buffer that holds `src`, may give `result` and
    /// leave the codec as `after` and the buffer holding `src_after`.
    ///
    /// Each codec may say for itself what it does. One that says nothing may do anything.
    open spec fn decodes(
        &self,
        src: Seq<u8>,
        result: Result<Option<Self::Item>, Self::Error>,
        after: &Self,
        src_after: Seq<u8>,
    ) -> bool {
        true
    }

    /// The relation [`decodes`](Decoder::decodes) once the stream has ended.
    open spec fn decodes_eof(
        &self,
        src: Seq<u8>,
        result: Result<Option<Self::Item>, Self::Error>,
        after: &Self,
        src_after: Seq<u8>,
    ) -> bool {
        true
    }

    /// Decodes an item from the `BytesMut` provided by src, removing its bytes. `None` asks for
    /// more bytes.
    fn decode(&mut self, src: &mut BytesMut) -> (result: Result<Option<Self::Item>, Self::Error>)
        ensures
            old(self).decodes(contents(*old(src)), result, final(self), contents(*final(src))),
    ;

    /// Called in place of `decode` once the stream has ended and no more bytes will come.
    fn decode_eof(&mut self, src: &mut BytesMut) -> (result: Result<
        Option<Self::Item>,
        Self::Error,
    >)
        ensures
            old(self).decodes_eof(contents(*old(src)), result, final(self), contents(*final(src))),
    ;
}

} // verus!
