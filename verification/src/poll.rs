//! What passes between a message pattern and the code that does its input and output.
//!
//! A message pattern does no input or output itself. It says in a [`Demand`] which call it needs
//! on its framed stream, takes what that call gave as an [`Outcome`], and answers with a [`Step`].

use vstd::prelude::*;

verus! {

/// Whether a value is available yet.
#[derive(Debug)]
pub enum Poll<T> {
    /// The value is available.
    Ready(T),
    /// The value is not available yet. The current task will be woken when it may be.
    Pending,
}

/// The call that a message pattern needs on its framed stream before its next step.
#[derive(Debug, Clone, Copy, PartialEq, Eq, Structural)]
pub enum Demand {
    /// Wait until the framed stream can take a message.
    Ready,
    /// Write out all that was sent.
    Flush,
    /// Receive a message.
    Next,
    /// Close the framed stream.
    Close,
    /// No call: the step can be taken at once.
    Nothing,
    /// No call, and no step either: the pattern has reported its end, and is not to be polled any
    /// more.
    Poisoned,
}

/// What the call that a message pattern asked for has given.
#[derive(Debug)]
pub enum Outcome<In, E> {
    /// From waiting until the framed stream can take a message.
    Ready(Poll<Result<(), E>>),
    /// From writing out all that was sent.
    Flush(Poll<Result<(), E>>),
    /// From receiving: a message, a failure, or `None` at the end of the stream.
    Next(Poll<Option<Result<In, E>>>),
    /// From closing the framed stream.
    Close(Poll<Result<(), E>>),
    /// No call was made.
    Nothing,
}

impl<In, E> Outcome<In, E> {
    /// The demand that this outcome meets.
    pub open spec fn demand(self) -> Demand {
        match self {
            Outcome::Ready(_) => Demand::Ready,
            Outcome::Flush(_) => Demand::Flush,
            Outcome::Next(_) => Demand::Next,
            Outcome::Close(_) => Demand::Close,
            Outcome::Nothing => Demand::Nothing,
        }
    }

    /// The call would have blocked.
    pub open spec fn is_pending(self) -> bool {
        match self {
            Outcome::Ready(Poll::Pending) => true,
            Outcome::Flush(Poll::Pending) => true,
            Outcome::Next(Poll::Pending) => true,
            Outcome::Close(Poll::Pending) => true,
            _ => false,
        }
    }

    /// The call has failed, or the stream has ended where a message was due.
    pub open spec fn is_failure(self) -> bool {
        match self {
            Outcome::Ready(Poll::Ready(Err(_))) => true,
            Outcome::Flush(Poll::Ready(Err(_))) => true,
            Outcome::Next(Poll::Ready(Some(Err(_)))) => true,
            Outcome::Next(Poll::Ready(None)) => true,
            Outcome::Close(Poll::Ready(Err(_))) => true,
            _ => false,
        }
    }
}

/// What a message pattern answers to an outcome.
#[derive(Debug)]
pub enum Step<T> {
    /// Go on: meet the next demand within the same poll.
    Continue,
    /// The poll is over. It gives an item, `None` once there are no more items, or nothing yet.
    Return(Poll<Option<T>>),
}

impl<T> Step<T> {
    /// The poll gives `item`.
    pub open spec fn emits(self, item: T) -> bool {
        self == Step::Return(Poll::Ready(Some(item)))
    }

    /// The poll says that there are no more items.
    pub open spec fn finishes(self) -> bool {
        self == Step::<T>::Return(Poll::Ready(None))
    }

    /// The poll gives nothing yet.
    pub open spec fn blocks(self) -> bool {
        self == Step::<T>::Return(Poll::Pending)
    }
}

} // verus!
