//! Message patterns over framed byte streams: send a message, send a request and receive the
//! response, or receive a request and send the response.
//!
//! The patterns do no input or output. Each is a state machine: it says which call it needs on its
//! framed stream ([`Demand`]), takes what that call gave ([`Outcome`]) and answers with a [`Step`].
//! What a step does is stated in the `steps` relation of each pattern; what holds of every run is
//! stated and proved in [`laws`].

pub mod buffer;
pub mod decoder;
pub mod encoder;
pub mod framed;
pub mod fuse;
pub mod io_error;
pub mod laws;
pub mod message_patterns;
pub mod poll;
pub mod recvsend;
pub mod run;
pub mod send;
pub mod sendrecv;

pub use crate::decoder::Decoder;
pub use crate::encoder::Encoder;
pub use crate::framed::{Framed, FramedParts};
pub use crate::fuse::Fuse;
pub use crate::io_error::{Cause, ErrorKind, IoError};
pub use crate::message_patterns::{CloseStream, Error, ReturnStream, Sending};
pub use crate::poll::{Demand, Outcome, Poll, Step};
pub use crate::recvsend::{Event, RecvSend, Responder, Shared};
pub use crate::send::Send;
pub use crate::sendrecv::SendRecv;
