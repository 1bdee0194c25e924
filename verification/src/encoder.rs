//! Encoding of messages as bytes.

use crate::buffer::contents;
use bytes::BytesMut;
use core::fmt::Debug;
use vstd::prelude::*;

verus! {

/// Encoding of messages as bytes, for use with [`Framed`](crate::framed::Framed).
pub trait Encoder {
    /// The type of items consumed by `encode`.
    type Item;

    /// The type of encoding errors.
    type Error: Debug;

    /// Whether encoding `item` with this codec, into a buffer that holds `dst`, may give `result`
    /// and leave the codec as `after` and the buffer holding `dst_after`.
    ///
    /// Each codec may say for itself what it does. One that says nothing may do anything.
    open spec fn encodes(
        &self,
        item: Self::Item,
        dst: Seq<u8>,
        result: Result<(), Self::Error>,
        after: &Self,
        dst_after: Seq<u8>,
    ) -> bool {
        true
    }

    /// Encodes an item into the `BytesMut` provided by dst.
    fn encode(&mut self, item: Self::Item, dst: &mut BytesMut) -> (result: Result<(), Self::Error>)
        ensures
            old(self).encodes(
                item,
                contents(*old(dst)),
                result,
                final(self),
                contents(*final(dst)),
            ),
    ;
}

} // verus!
