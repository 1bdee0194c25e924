//! The byte buffers that codecs read from and write to.

use bytes::BytesMut;
use vstd::prelude::*;

verus! {

/// The growable byte buffer `bytes::BytesMut`, carried as an opaque value.
#[verifier::external_type_specification]
#[verifier::external_body]
pub struct ExBytesMut(bytes::BytesMut);

/// The bytes that a buffer holds, first byte first.
pub uninterp spec fn contents(buffer: BytesMut) -> Seq<u8>;

/// `bytes::BytesMut::new`: the new buffer holds no bytes.
pub assume_specification[ BytesMut::new ]() -> (buffer: BytesMut)
    ensures
        contents(buffer) == Seq::<u8>::empty(),
;

} // verus!
