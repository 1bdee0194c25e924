//! What holds of the message patterns as wholes: of every run, whatever the calls on the framed
//! stream bring. And what holds of the parts that they are made of: the framed stream, the codec
//! that is fused with it, and the failures that are reported.

pub mod errors;
pub mod framed;
pub mod fuse;
pub mod recvsend;
pub mod send;
pub mod sendrecv;
pub mod wire;
