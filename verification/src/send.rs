//! The send message pattern.

use crate::decoder::Decoder;
use crate::encoder::Encoder;
use crate::framed::Framed;
use crate::io_error::{into_io_error, Cause, IoError};
use crate::message_patterns::{CloseStream, Error, ReturnStream, Sending};
use crate::poll::{Demand, Outcome, Poll, Step};
use core::fmt::Debug;
use core::marker::PhantomData;
use vstd::pervasive::unreached;
use vstd::prelude::*;

verus! {

/// The send message pattern.
///
/// This struct implements a fire-and-forget message pattern for the sending side.
///
/// Each instance will only ever emit one item, as the laws `close_gives_at_most_one_item` and
/// `return_gives_at_most_one_item` in [`laws::send`](crate::laws::send) show, and may have more
/// work to do after sending the message: closing the stream.
///
/// This component works really well when used together with `SelectAll`, which polls again after
/// every item: it can be polled again after every step but the one that reports its end
/// (`close_can_be_polled_again`, `return_never_closes`).
pub struct Send<S, C, B> where C: Encoder {
    inner: SendState<S, C>,
    behaviour: PhantomData<B>,
}

/// How far a [`Send`] has come.
pub enum SendState<S, C: Encoder> {
    /// The message waits to be handed to the framed stream.
    Sending(Sending<S, C>),
    /// The message was handed over and is being written.
    Flushing {
        /// The framed stream.
        framed: Framed<S, C>,
    },
    /// The message was written and the stream is being closed.
    Closing {
        /// The framed stream.
        framed: Framed<S, C>,
    },
    /// The exchange is over.
    Done,
    /// Not to be polled any more.
    Poisoned,
}

impl<S, C: Encoder> SendState<S, C> {
    /// The call that is needed for the next step.
    pub open spec fn demand(self) -> Demand {
        match self {
            SendState::Sending(_) => Demand::Ready,
            SendState::Flushing { .. } => Demand::Flush,
            SendState::Closing { .. } => Demand::Close,
            SendState::Done => Demand::Nothing,
            SendState::Poisoned => Demand::Poisoned,
        }
    }

    /// The framed stream, while there is one.
    pub open spec fn framed(self) -> Option<Framed<S, C>> {
        match self {
            SendState::Sending(sending) => Some(sending.framed),
            SendState::Flushing { framed } => Some(framed),
            SendState::Closing { framed } => Some(framed),
            SendState::Done => None,
            SendState::Poisoned => None,
        }
    }

    /// The same state with another framed stream in it.
    pub open spec fn with_framed(self, framed: Framed<S, C>) -> SendState<S, C> {
        match self {
            SendState::Sending(sending) => SendState::Sending(Sending { framed, ..sending }),
            SendState::Flushing { .. } => SendState::Flushing { framed },
            SendState::Closing { .. } => SendState::Closing { framed },
            SendState::Done => SendState::Done,
            SendState::Poisoned => SendState::Poisoned,
        }
    }
}

impl<S, C: Encoder, B> View for Send<S, C, B> {
    type V = SendState<S, C>;

    closed spec fn view(&self) -> SendState<S, C> {
        self.inner
    }
}

impl<S, C: Encoder, B> Send<S, C, B> {
    /// The call on the framed stream that the next step needs.
    pub fn demand(&self) -> (demand: Demand)
        ensures
            demand == self@.demand(),
    {
        match &self.inner {
            SendState::Sending(_) => Demand::Ready,
            SendState::Flushing { .. } => Demand::Flush,
            SendState::Closing { .. } => Demand::Close,
            SendState::Done => Demand::Nothing,
            SendState::Poisoned => Demand::Poisoned,
        }
    }

    /// The framed stream to make calls on, while there is one.
    pub fn framed(&mut self) -> (framed: Option<&mut Framed<S, C>>)
        ensures
            match framed {
                Some(framed) => {
                    &&& old(self)@.framed() == Some(*framed)
                    &&& final(self)@ == old(self)@.with_framed(*final(framed))
                },
                None => old(self)@.framed() is None && final(self)@ == old(self)@,
            },
            framed is None == (old(self)@ is Done || old(self)@ is Poisoned),
    {
        match &mut self.inner {
            SendState::Sending(sending) => Some(&mut sending.framed),
            SendState::Flushing { framed } => Some(framed),
            SendState::Closing { framed } => Some(framed),
            SendState::Done => None,
            SendState::Poisoned => None,
        }
    }
}

impl<S, C> Send<S, C, ReturnStream> where C: Encoder + Decoder {
    /// Sends `message` on `stream`, encoded by `codec`.
    pub fn new(stream: S, codec: C, message: <C as Encoder>::Item) -> (send: Self)
        ensures
            send.valid(),
            send@ matches SendState::Sending(sending) && sending.framed.fresh(stream, codec)
                && sending.message == Some(message),
    {
        Self {
            inner: SendState::Sending(
                Sending { framed: Framed::new(stream, codec), message: Some(message) },
            ),
            behaviour: PhantomData,
        }
    }

    /// Reconfigure this pattern to close the stream after the message has been sent instead of
    /// returning it.
    pub fn close_after_send(self) -> (send: Send<S, C, CloseStream>)
        ensures
            send@ == self@,
            self.valid() ==> send.valid(),
    {
        Send { inner: self.inner, behaviour: PhantomData }
    }
}

impl<S, C: Encoder> Send<S, C, CloseStream> {
    /// A pattern that waits to hand over its message still has it.
    pub open spec fn valid(&self) -> bool {
        self@ matches SendState::Sending(sending) ==> sending.message is Some
    }
}

impl<S, C: Encoder> Send<S, C, ReturnStream> {
    /// A pattern that waits to hand over its message still has it. The stream is never closed, and
    /// the pattern is never poisoned: it can always be polled again.
    pub open spec fn valid(&self) -> bool {
        &&& self@ matches SendState::Sending(sending) ==> sending.message is Some
        &&& !(self@ is Closing)
        &&& !(self@ is Poisoned)
    }
}

impl<S, C, Req, Res, E> Send<S, C, CloseStream> where
    C: Encoder<Item = Req, Error = E> + Decoder<Item = Res, Error = E>,
    E: Debug,
 {
    /// What a step from `before` on `outcome` may answer, and the state `after` it.
    ///
    /// The message is handed over, the stream is flushed and then closed. A call that would block
    /// is made again in the next poll; one that fails ends the exchange with its error. The end is
    /// reported once.
    pub open spec fn steps(
        before: SendState<S, C>,
        outcome: Outcome<Res, E>,
        step: Step<Result<(), IoError<E>>>,
        after: SendState<S, C>,
    ) -> bool {
        match (before, outcome) {
            (SendState::Sending(sending), Outcome::Ready(ready)) => exists|
                handed: Poll<Result<(), E>>,
                framed: Framed<S, C>,
            |
                #[trigger] sending.hands_over(ready, handed, framed) && match handed {
                    Poll::Ready(Ok(())) => step is Continue && after == (SendState::Flushing {
                        framed,
                    }),
                    Poll::Ready(Err(e)) => step.emits(Err(IoError::start_send(e))) && after is Done,
                    Poll::Pending => step.blocks() && after == before,
                },
            (SendState::Flushing { framed }, Outcome::Flush(flushed)) => match flushed {
                Poll::Ready(Ok(())) => step is Continue && after == (SendState::Closing { framed }),
                Poll::Ready(Err(e)) => step.emits(Err(IoError::send(e))) && after is Done,
                Poll::Pending => step.blocks() && after == before,
            },
            (SendState::Closing { framed }, Outcome::Close(closed)) => match closed {
                Poll::Ready(Ok(())) => step is Continue && after is Done,
                Poll::Ready(Err(e)) => step.emits(Err(IoError::recv(e))) && after is Done,
                Poll::Pending => step.blocks() && after == before,
            },
            (SendState::Done, Outcome::Nothing) => step.finishes() && after is Poisoned,
            _ => false,
        }
    }

    /// Takes one step, given what the call that was demanded has brought.
    pub fn poll_step(&mut self, outcome: Outcome<Res, E>) -> (step: Step<Result<(), IoError<E>>>)
        requires
            old(self).valid(),
            outcome.demand() == old(self)@.demand(),
        ensures
            Self::steps(old(self)@, outcome, step, final(self)@),
            final(self).valid(),
    {
        let mut state = SendState::Poisoned;
        core::mem::swap(&mut self.inner, &mut state);
        match (state, outcome) {
            (SendState::Sending(mut sending), Outcome::Ready(ready)) => match sending.poll(ready) {
                Poll::Ready(Ok(())) => {
                    self.inner = SendState::Flushing { framed: sending.framed };
                    Step::Continue
                },
                Poll::Ready(Err(e)) => {
                    self.inner = SendState::Done;
                    Step::Return(
                        Poll::Ready(Some(Err(into_io_error(Error::Send(Cause::Io(e)))))),
                    )
                },
                Poll::Pending => {
                    self.inner = SendState::Sending(sending);
                    Step::Return(Poll::Pending)
                },
            },
            (SendState::Flushing { framed }, Outcome::Flush(flushed)) => match flushed {
                Poll::Ready(Ok(())) => {
                    self.inner = SendState::Closing { framed };
                    Step::Continue
                },
                Poll::Ready(Err(e)) => {
                    self.inner = SendState::Done;
                    Step::Return(
                        Poll::Ready(Some(Err(into_io_error(Error::Send(Cause::Codec(e)))))),
                    )
                },
                Poll::Pending => {
                    self.inner = SendState::Flushing { framed };
                    Step::Return(Poll::Pending)
                },
            },
            (SendState::Closing { framed }, Outcome::Close(closed)) => match closed {
                Poll::Ready(Ok(())) => {
                    self.inner = SendState::Done;
                    Step::Continue
                },
                Poll::Ready(Err(e)) => {
                    self.inner = SendState::Done;
                    Step::Return(
                        Poll::Ready(Some(Err(into_io_error(Error::Recv(Cause::Codec(e)))))),
                    )
                },
                Poll::Pending => {
                    self.inner = SendState::Closing { framed };
                    Step::Return(Poll::Pending)
                },
            },
            (SendState::Done, _) => Step::Return(Poll::Ready(None)),
            _ => unreached(),
        }
    }
}

impl<S, C, Req, Res, E> Send<S, C, ReturnStream> where
    C: Encoder<Item = Req, Error = E> + Decoder<Item = Res, Error = E>,
    E: Debug,
 {
    /// What a step from `before` on `outcome` may answer, and the state `after` it.
    ///
    /// The message is handed over, the stream is flushed and then given back. A call that would
    /// block is made again in the next poll; one that fails ends the exchange with its error. The
    /// end is reported in every poll that follows.
    pub open spec fn steps(
        before: SendState<S, C>,
        outcome: Outcome<Res, E>,
        step: Step<Result<S, IoError<E>>>,
        after: SendState<S, C>,
    ) -> bool {
        match (before, outcome) {
            (SendState::Sending(sending), Outcome::Ready(ready)) => exists|
                handed: Poll<Result<(), E>>,
                framed: Framed<S, C>,
            |
                #[trigger] sending.hands_over(ready, handed, framed) && match handed {
                    Poll::Ready(Ok(())) => step is Continue && after == (SendState::Flushing {
                        framed,
                    }),
                    Poll::Ready(Err(e)) => step.emits(Err(IoError::start_send(e))) && after is Done,
                    Poll::Pending => step.blocks() && after == before,
                },
            (SendState::Flushing { framed }, Outcome::Flush(flushed)) => match flushed {
                Poll::Ready(Ok(())) => step.emits(Ok(framed.io())) && after is Done,
                Poll::Ready(Err(e)) => step.emits(Err(IoError::send(e))) && after is Done,
                Poll::Pending => step.blocks() && after == before,
            },
            (SendState::Done, Outcome::Nothing) => step.finishes() && after is Done,
            _ => false,
        }
    }

    /// Takes one step, given what the call that was demanded has brought.
    pub fn poll_step(&mut self, outcome: Outcome<Res, E>) -> (step: Step<Result<S, IoError<E>>>)
        requires
            old(self).valid(),
            outcome.demand() == old(self)@.demand(),
        ensures
            Self::steps(old(self)@, outcome, step, final(self)@),
            final(self).valid(),
    {
        let mut state = SendState::Poisoned;
        core::mem::swap(&mut self.inner, &mut state);
        match (state, outcome) {
            (SendState::Sending(mut sending), Outcome::Ready(ready)) => match sending.poll(ready) {
                Poll::Ready(Ok(())) => {
                    self.inner = SendState::Flushing { framed: sending.framed };
                    Step::Continue
                },
                Poll::Ready(Err(e)) => {
                    self.inner = SendState::Done;
                    Step::Return(
                        Poll::Ready(Some(Err(into_io_error(Error::Send(Cause::Io(e)))))),
                    )
                },
                Poll::Pending => {
                    self.inner = SendState::Sending(sending);
                    Step::Return(Poll::Pending)
                },
            },
            (SendState::Flushing { framed }, Outcome::Flush(flushed)) => match flushed {
                Poll::Ready(Ok(())) => {
                    self.inner = SendState::Done;
                    Step::Return(Poll::Ready(Some(Ok(framed.into_parts().io))))
                },
                Poll::Ready(Err(e)) => {
                    self.inner = SendState::Done;
                    Step::Return(
                        Poll::Ready(Some(Err(into_io_error(Error::Send(Cause::Codec(e)))))),
                    )
                },
                Poll::Pending => {
                    self.inner = SendState::Flushing { framed };
                    Step::Return(Poll::Pending)
                },
            },
            (SendState::Done, _) => {
                self.inner = SendState::Done;
                Step::Return(Poll::Ready(None))
            },
            _ => unreached(),
        }
    }
}

} // verus!
