//! The failures that a message pattern reports.

use crate::message_patterns::Error;
use vstd::prelude::*;

verus! {

/// The category of an [`IoError`], named as in [`std::io::ErrorKind`].
#[derive(Debug, Clone, Copy, PartialEq, Eq, Structural)]
pub enum ErrorKind {
    /// The stream ended where a message was due.
    UnexpectedEof,
    /// The response will never come.
    BrokenPipe,
    /// A failure of the framed stream or of the codec; the error says which in its source.
    Other,
}

/// A failure of a message exchange.
#[derive(Debug)]
pub struct IoError<E> {
    /// The category of the failure.
    pub kind: ErrorKind,
    /// What went wrong underneath, if anything did.
    pub source: Option<Box<Error<Cause<E>>>>,
}

/// What an [`Error`] of a message exchange holds.
#[derive(Debug)]
pub enum Cause<E> {
    /// A failure of the framed stream or of its codec.
    Codec(E),
    /// A failure that was already reported once.
    Io(IoError<E>),
}

impl<E> IoError<E> {
    /// A failure of the given kind with nothing underneath.
    pub open spec fn simple(kind: ErrorKind) -> IoError<E> {
        IoError { kind, source: None }
    }

    /// A failure of kind `Other` with `source` underneath.
    pub open spec fn other(source: Error<Cause<E>>) -> IoError<E> {
        IoError { kind: ErrorKind::Other, source: Some(Box::new(source)) }
    }

    /// Receiving failed with `error`.
    pub open spec fn recv(error: E) -> IoError<E> {
        IoError::other(Error::Recv(Cause::Codec(error)))
    }

    /// Sending failed with `error`.
    pub open spec fn send(error: E) -> IoError<E> {
        IoError::other(Error::Send(Cause::Codec(error)))
    }

    /// Handing over a message failed with `error`: a failure to send, reported as the source of
    /// another.
    pub open spec fn start_send(error: E) -> IoError<E> {
        IoError::other(Error::Send(Cause::Io(IoError::send(error))))
    }
}

impl<E> From<ErrorKind> for IoError<E> {
    fn from(kind: ErrorKind) -> (error: Self) {
        IoError { kind, source: None }
    }
}

impl<E> vstd::std_specs::convert::FromSpecImpl<ErrorKind> for IoError<E> {
    open spec fn obeys_from_spec() -> bool {
        true
    }

    open spec fn from_spec(kind: ErrorKind) -> IoError<E> {
        IoError::simple(kind)
    }
}

/// Reports `e` as a failure of kind `Other`.
pub fn into_io_error<E>(e: Error<Cause<E>>) -> (error: IoError<E>)
    ensures
        error == IoError::other(e),
{
    IoError { kind: ErrorKind::Other, source: Some(Box::new(e)) }
}

} // verus!
