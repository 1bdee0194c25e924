//! What the failures of a message exchange say.

use crate::io_error::{Cause, ErrorKind, IoError};
use crate::message_patterns::Error;
use vstd::prelude::*;

verus! {

/// The failure is of kind `Other` and has `half` underneath.
pub open spec fn says<E>(failure: IoError<E>, half: Error<Cause<E>>) -> bool {
    failure.kind == ErrorKind::Other && failure.source == Some(Box::new(half))
}

/// The failure is a failure to send that was reported twice, with `error` at the bottom.
pub open spec fn says_twice<E>(failure: IoError<E>, error: E) -> bool {
    failure.kind == ErrorKind::Other && match failure.source {
        Some(half) => match *half {
            Error::Send(Cause::Io(inner)) => says(inner, Error::Send(Cause::Codec(error))),
            _ => false,
        },
        None => false,
    }
}

/// The failure is of the given kind, with nothing underneath.
pub open spec fn says_only<E>(failure: IoError<E>, kind: ErrorKind) -> bool {
    failure.kind == kind && failure.source is None
}

/// A failure keeps the error it was made of, and tells a failure to receive from a failure to send,
/// and one that was reported once from one that was reported twice.
pub proof fn failures_keep_their_cause<E>(one: E, two: E)
    ensures
        says(IoError::recv(one), Error::Recv(Cause::Codec(one))),
        says(IoError::send(one), Error::Send(Cause::Codec(one))),
        says_twice(IoError::start_send(one), one),
        IoError::recv(one) == IoError::recv(two) ==> one == two,
        IoError::send(one) == IoError::send(two) ==> one == two,
        IoError::start_send(one) == IoError::start_send(two) ==> one == two,
        IoError::recv(one) != IoError::send(two),
        IoError::send(one) != IoError::start_send(two),
        IoError::recv(one) != IoError::start_send(two),
{
}

/// A failure without a cause is told by its kind alone, and differs from every failure with one.
pub proof fn simple_failures_differ<E>(kind: ErrorKind, error: E)
    ensures
        says_only(IoError::<E>::simple(kind), kind),
        IoError::<E>::simple(kind) != IoError::recv(error),
        IoError::<E>::simple(kind) != IoError::send(error),
        IoError::<E>::simple(kind) != IoError::start_send(error),
{
}

} // verus!
