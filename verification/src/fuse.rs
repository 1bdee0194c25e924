//! A stream and its codec held as one value.

use crate::buffer::contents;
use crate::decoder::Decoder;
use crate::encoder::Encoder;
use bytes::BytesMut;
use core::ops::{Deref, DerefMut};
use vstd::prelude::*;

verus! {

/// A stream `t` together with the codec `u` that frames it.
///
/// It dereferences to the stream, and encodes and decodes as the codec does.
#[derive(Debug)]
pub struct Fuse<T, U> {
    /// The stream.
    pub t: T,
    /// The codec.
    pub u: U,
}

impl<T, U> Fuse<T, U> {
    /// Joins a stream and a codec.
    pub fn new(t: T, u: U) -> (fuse: Self)
        ensures
            fuse.t == t,
            fuse.u == u,
    {
        Self { t, u }
    }
}

impl<T, U> Deref for Fuse<T, U> {
    type Target = T;

    fn deref(&self) -> (t: &T)
        ensures
            *t == self.t,
    {
        &self.t
    }
}

impl<T, U> DerefMut for Fuse<T, U> {
    fn deref_mut(&mut self) -> (t: &mut T)
        ensures
            *t == old(self).t,
            final(self).t == *final(t),
            final(self).u == old(self).u,
    {
        &mut self.t
    }
}

impl<T, U: Decoder> Decoder for Fuse<T, U> {
    type Item = U::Item;

    type Error = U::Error;

    /// The codec decodes, and the stream is left alone.
    open spec fn decodes(
        &self,
        src: Seq<u8>,
        result: Result<Option<Self::Item>, Self::Error>,
        after: &Self,
        src_after: Seq<u8>,
    ) -> bool {
        &&& self.u.decodes(src, result, &after.u, src_after)
        &&& after.t == self.t
    }

    /// The codec decodes, and the stream is left alone.
    open spec fn decodes_eof(
        &self,
        src: Seq<u8>,
        result: Result<Option<Self::Item>, Self::Error>,
        after: &Self,
        src_after: Seq<u8>,
    ) -> bool {
        &&& self.u.decodes_eof(src, result, &after.u, src_after)
        &&& after.t == self.t
    }

    fn decode(&mut self, src: &mut BytesMut) -> (result: Result<Option<Self::Item>, Self::Error>)
        ensures
            old(self).u.decodes(contents(*old(src)), result, &final(self).u, contents(*final(src))),
            final(self).t == old(self).t,
    {
        self.u.decode(src)
    }

    fn decode_eof(&mut self, src: &mut BytesMut) -> (result: Result<
        Option<Self::Item>,
        Self::Error,
    >)
        ensures
            old(self).u.decodes_eof(
                contents(*old(src)),
                result,
                &final(self).u,
                contents(*final(src)),
            ),
            final(self).t == old(self).t,
    {
        self.u.decode_eof(src)
    }
}

impl<T, U: Encoder> Encoder for Fuse<T, U> {
    type Item = U::Item;

    type Error = U::Error;

    /// The codec encodes, and the stream is left alone.
    open spec fn encodes(
        &self,
        item: Self::Item,
        dst: Seq<u8>,
        result: Result<(), Self::Error>,
        after: &Self,
        dst_after: Seq<u8>,
    ) -> bool {
        &&& self.u.encodes(item, dst, result, &after.u, dst_after)
        &&& after.t == self.t
    }

    fn encode(&mut self, item: Self::Item, dst: &mut BytesMut) -> (result: Result<
        (),
        Self::Error,
    >)
        ensures
            old(self).u.encodes(
                item,
                contents(*old(dst)),
                result,
                &final(self).u,
                contents(*final(dst)),
            ),
            final(self).t == old(self).t,
    {
        self.u.encode(item, dst)
    }
}

} // verus!
