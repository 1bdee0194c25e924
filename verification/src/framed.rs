//! A byte stream seen as a stream of messages.

use crate::buffer::contents;
use crate::decoder::Decoder;
use crate::encoder::Encoder;
use crate::fuse::Fuse;
use bytes::BytesMut;
use vstd::prelude::*;

verus! {

/// A stream with the codec that frames it, the bytes read but not yet decoded, and the bytes
/// encoded but not yet written.
#[derive(Debug)]
pub struct Framed<S, C> {
    /// The stream and its codec.
    pub fuse: Fuse<S, C>,
    /// Bytes that came from the stream and wait to be decoded.
    pub read_buffer: BytesMut,
    /// Bytes that were encoded and wait to be written to the stream.
    pub write_buffer: BytesMut,
}

/// What a [`Framed`] is made of.
#[derive(Debug)]
pub struct FramedParts<S, C> {
    /// The stream.
    pub io: S,
    /// The codec.
    pub codec: C,
    /// Bytes that came from the stream and wait to be decoded.
    pub read_buffer: BytesMut,
    /// Bytes that were encoded and wait to be written to the stream.
    pub write_buffer: BytesMut,
}

impl<S, C> Framed<S, C> {
    /// The stream.
    pub open spec fn io(self) -> S {
        self.fuse.t
    }

    /// The codec.
    pub open spec fn codec(self) -> C {
        self.fuse.u
    }

    /// Whether this is `stream` framed by `codec`, with nothing buffered.
    pub open spec fn fresh(self, stream: S, codec: C) -> bool {
        &&& self.io() == stream
        &&& self.codec() == codec
        &&& contents(self.read_buffer) == Seq::<u8>::empty()
        &&& contents(self.write_buffer) == Seq::<u8>::empty()
    }

    /// Takes the framed stream apart.
    pub fn into_parts(self) -> (parts: FramedParts<S, C>)
        ensures
            parts == (FramedParts {
                io: self.io(),
                codec: self.codec(),
                read_buffer: self.read_buffer,
                write_buffer: self.write_buffer,
            }),
    {
        let Framed { fuse, read_buffer, write_buffer } = self;
        let Fuse { t, u } = fuse;
        FramedParts { io: t, codec: u, read_buffer, write_buffer }
    }
}

impl<S, C: Encoder + Decoder> Framed<S, C> {
    /// Frames a stream with a codec. Nothing is buffered yet.
    pub fn new(stream: S, codec: C) -> (framed: Self)
        ensures
            framed.fresh(stream, codec),
            framed.fuse.t == stream,
            framed.fuse.u == codec,
    {
        Framed {
            fuse: Fuse::new(stream, codec),
            read_buffer: BytesMut::new(),
            write_buffer: BytesMut::new(),
        }
    }
}

impl<S, C: Encoder> Framed<S, C> {
    /// Whether `after` is this framed stream once its codec has been handed `item`, with `result`
    /// as the codec's answer: the codec and the write buffer change as the codec does it, the rest
    /// stays.
    pub open spec fn accepts(
        self,
        item: C::Item,
        result: Result<(), C::Error>,
        after: Framed<S, C>,
    ) -> bool {
        &&& self.codec().encodes(
            item,
            contents(self.write_buffer),
            result,
            &after.codec(),
            contents(after.write_buffer),
        )
        &&& after.io() == self.io()
        &&& after.read_buffer == self.read_buffer
    }

    /// Encodes an item, to be written when the stream is flushed.
    pub fn start_send(&mut self, item: C::Item) -> (result: Result<(), C::Error>)
        ensures
            old(self).accepts(item, result, *final(self)),
    {
        self.fuse.encode(item, &mut self.write_buffer)
    }
}

} // verus!
