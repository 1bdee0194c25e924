//! The send-recv message pattern.

use crate::decoder::Decoder;
use crate::encoder::Encoder;
use crate::framed::Framed;
use crate::io_error::{into_io_error, Cause, ErrorKind, IoError};
use crate::message_patterns::{CloseStream, Error, ReturnStream, Sending};
use crate::poll::{Demand, Outcome, Poll, Step};
use core::fmt::Debug;
use core::marker::PhantomData;
use vstd::pervasive::unreached;
use vstd::prelude::*;

verus! {

/// The send-recv message pattern.
///
/// This struct implements a request-response message pattern for the requesting side: it first
/// sends a message on the stream and then receives the response.
///
/// Each instance will only ever emit one item besides an error of closing the stream, and may have
/// more work to do after emitting it: closing the stream. The laws `close_gives_at_most_one_item`,
/// `close_gives_more_only_where_closing_fails` and `return_gives_at_most_one_item` in
/// [`laws::sendrecv`](crate::laws::sendrecv) show it.
///
/// This component works really well when used together with `SelectAll`, which polls again after
/// every item: it can be polled again after every step but the one that reports its end
/// (`close_can_be_polled_again`, `return_never_closes`).
pub struct SendRecv<S, C, B> where C: Encoder {
    inner: SendRecvState<S, C>,
    behaviour: PhantomData<B>,
}

/// How far a [`SendRecv`] has come.
pub enum SendRecvState<S, C: Encoder> {
    /// The message waits to be handed to the framed stream.
    Sending(Sending<S, C>),
    /// The message was handed over and is being written.
    Flushing {
        /// The framed stream.
        framed: Framed<S, C>,
    },
    /// The message was written and the response is due.
    Receiving {
        /// The framed stream.
        framed: Framed<S, C>,
    },
    /// The response was received and the stream is being closed.
    Closing {
        /// The framed stream.
        framed: Framed<S, C>,
    },
    /// The exchange is over.
    Done,
    /// Not to be polled any more.
    Poisoned,
}

impl<S, C: Encoder> SendRecvState<S, C> {
    /// The call that is needed for the next step.
    pub open spec fn demand(self) -> Demand {
        match self {
            SendRecvState::Sending(_) => Demand::Ready,
            SendRecvState::Flushing { .. } => Demand::Flush,
            SendRecvState::Receiving { .. } => Demand::Next,
            SendRecvState::Closing { .. } => Demand::Close,
            SendRecvState::Done => Demand::Nothing,
            SendRecvState::Poisoned => Demand::Poisoned,
        }
    }

    /// The framed stream, while there is one.
    pub open spec fn framed(self) -> Option<Framed<S, C>> {
        match self {
            SendRecvState::Sending(sending) => Some(sending.framed),
            SendRecvState::Flushing { framed } => Some(framed),
            SendRecvState::Receiving { framed } => Some(framed),
            SendRecvState::Closing { framed } => Some(framed),
            SendRecvState::Done => None,
            SendRecvState::Poisoned => None,
        }
    }

    /// The same state with another framed stream in it.
    pub open spec fn with_framed(self, framed: Framed<S, C>) -> SendRecvState<S, C> {
        match self {
            SendRecvState::Sending(sending) => SendRecvState::Sending(
                Sending { framed, ..sending },
            ),
            SendRecvState::Flushing { .. } => SendRecvState::Flushing { framed },
            SendRecvState::Receiving { .. } => SendRecvState::Receiving { framed },
            SendRecvState::Closing { .. } => SendRecvState::Closing { framed },
            SendRecvState::Done => SendRecvState::Done,
            SendRecvState::Poisoned => SendRecvState::Poisoned,
        }
    }
}

impl<S, C: Encoder, B> View for SendRecv<S, C, B> {
    type V = SendRecvState<S, C>;

    closed spec fn view(&self) -> SendRecvState<S, C> {
        self.inner
    }
}

impl<S, C: Encoder, B> SendRecv<S, C, B> {
    /// The call on the framed stream that the next step needs.
    pub fn demand(&self) -> (demand: Demand)
        ensures
            demand == self@.demand(),
    {
        match &self.inner {
            SendRecvState::Sending(_) => Demand::Ready,
            SendRecvState::Flushing { .. } => Demand::Flush,
            SendRecvState::Receiving { .. } => Demand::Next,
            SendRecvState::Closing { .. } => Demand::Close,
            SendRecvState::Done => Demand::Nothing,
            SendRecvState::Poisoned => Demand::Poisoned,
        }
    }

    /// The framed stream to make calls on, while there is one.
    pub fn framed(&mut self) -> (framed: Option<&mut Framed<S, C>>)
        ensures
            match framed {
                Some(framed) => {
                    &&& old(self)@.framed() == Some(*framed)
                    &&& final(self)@ == old(self)@.with_framed(*final(framed))
                },
                None => old(self)@.framed() is None && final(self)@ == old(self)@,
            },
            framed is None == (old(self)@ is Done || old(self)@ is Poisoned),
    {
        match &mut self.inner {
            SendRecvState::Sending(sending) => Some(&mut sending.framed),
            SendRecvState::Flushing { framed } => Some(framed),
            SendRecvState::Receiving { framed } => Some(framed),
            SendRecvState::Closing { framed } => Some(framed),
            SendRecvState::Done => None,
            SendRecvState::Poisoned => None,
        }
    }
}

impl<S, C> SendRecv<S, C, ReturnStream> where C: Encoder + Decoder {
    /// Sends `message` on `stream` and receives the response, both framed by `codec`.
    pub fn new(stream: S, codec: C, message: <C as Encoder>::Item) -> (exchange: Self)
        ensures
            exchange.valid(),
            exchange@ matches SendRecvState::Sending(sending) && sending.framed.fresh(stream, codec)
                && sending.message == Some(message),
    {
        Self {
            inner: SendRecvState::Sending(
                Sending { framed: Framed::new(stream, codec), message: Some(message) },
            ),
            behaviour: PhantomData,
        }
    }

    /// Reconfigure this pattern to close the stream after the message has been sent instead of
    /// returning it.
    pub fn close_after_send(self) -> (exchange: SendRecv<S, C, CloseStream>)
        ensures
            exchange@ == self@,
            self.valid() ==> exchange.valid(),
    {
        SendRecv { inner: self.inner, behaviour: PhantomData }
    }
}

impl<S, C: Encoder> SendRecv<S, C, CloseStream> {
    /// A pattern that waits to hand over its message still has it.
    pub open spec fn valid(&self) -> bool {
        self@ matches SendRecvState::Sending(sending) ==> sending.message is Some
    }
}

impl<S, C: Encoder> SendRecv<S, C, ReturnStream> {
    /// A pattern that waits to hand over its message still has it. The stream is never closed, and
    /// the pattern is never poisoned: it can always be polled again.
    pub open spec fn valid(&self) -> bool {
        &&& self@ matches SendRecvState::Sending(sending) ==> sending.message is Some
        &&& !(self@ is Closing)
        &&& !(self@ is Poisoned)
    }
}

impl<S, C, Req, Res, E> SendRecv<S, C, CloseStream> where
    C: Encoder<Item = Req, Error = E> + Decoder<Item = Res, Error = E>,
    E: Debug,
 {
    /// What a step from `before` on `outcome` may answer, and the state `after` it.
    ///
    /// The message is handed over and the stream is flushed; then the response is received and
    /// given, and the stream is closed. A call that would block is made again in the next poll; one
    /// that fails ends the exchange with its error. The end is reported once.
    pub open spec fn steps(
        before: SendRecvState<S, C>,
        outcome: Outcome<Res, E>,
        step: Step<Result<Res, IoError<E>>>,
        after: SendRecvState<S, C>,
    ) -> bool {
        match (before, outcome) {
            (SendRecvState::Sending(sending), Outcome::Ready(ready)) => exists|
                handed: Poll<Result<(), E>>,
                framed: Framed<S, C>,
            |
                #[trigger] sending.hands_over(ready, handed, framed) && match handed {
                    Poll::Ready(Ok(())) => step is Continue && after == (SendRecvState::Flushing {
                        framed,
                    }),
                    Poll::Ready(Err(e)) => step.emits(Err(IoError::start_send(e))) && after is Done,
                    Poll::Pending => step.blocks() && after == before,
                },
            (SendRecvState::Flushing { framed }, Outcome::Flush(flushed)) => match flushed {
                Poll::Ready(Ok(())) => step is Continue && after == (SendRecvState::Receiving {
                    framed,
                }),
                Poll::Ready(Err(e)) => step.emits(Err(IoError::send(e))) && after is Done,
                Poll::Pending => step.blocks() && after == before,
            },
            (SendRecvState::Receiving { framed }, Outcome::Next(received)) => match received {
                Poll::Ready(Some(Ok(response))) => step.emits(Ok(response)) && after == (
                SendRecvState::Closing { framed }),
                Poll::Ready(Some(Err(e))) => step.emits(Err(IoError::recv(e))) && after is Done,
                Poll::Ready(None) => step.emits(Err(IoError::simple(ErrorKind::UnexpectedEof)))
                    && after is Done,
                Poll::Pending => step.blocks() && after == before,
            },
            (SendRecvState::Closing { framed }, Outcome::Close(closed)) => match closed {
                Poll::Ready(Ok(())) => step is Continue && after is Done,
                Poll::Ready(Err(e)) => step.emits(Err(IoError::recv(e))) && after is Done,
                Poll::Pending => step.blocks() && after == before,
            },
            (SendRecvState::Done, Outcome::Nothing) => step.finishes() && after is Poisoned,
            _ => false,
        }
    }

    /// Takes one step, given what the call that was demanded has brought.
    pub fn poll_step(&mut self, outcome: Outcome<Res, E>) -> (step: Step<Result<Res, IoError<E>>>)
        requires
            old(self).valid(),
            outcome.demand() == old(self)@.demand(),
        ensures
            Self::steps(old(self)@, outcome, step, final(self)@),
            final(self).valid(),
    {
        let mut state = SendRecvState::Poisoned;
        core::mem::swap(&mut self.inner, &mut state);
        match (state, outcome) {
            (SendRecvState::Sending(mut sending), Outcome::Ready(ready)) => match sending.poll(
                ready,
            ) {
                Poll::Ready(Ok(())) => {
                    self.inner = SendRecvState::Flushing { framed: sending.framed };
                    Step::Continue
                },
                Poll::Ready(Err(e)) => {
                    self.inner = SendRecvState::Done;
                    Step::Return(
                        Poll::Ready(Some(Err(into_io_error(Error::Send(Cause::Io(e)))))),
                    )
                },
                Poll::Pending => {
                    self.inner = SendRecvState::Sending(sending);
                    Step::Return(Poll::Pending)
                },
            },
            (SendRecvState::Flushing { framed }, Outcome::Flush(flushed)) => match flushed {
                Poll::Ready(Ok(())) => {
                    self.inner = SendRecvState::Receiving { framed };
                    Step::Continue
                },
                Poll::Ready(Err(e)) => {
                    self.inner = SendRecvState::Done;
                    Step::Return(
                        Poll::Ready(Some(Err(into_io_error(Error::Send(Cause::Codec(e)))))),
                    )
                },
                Poll::Pending => {
                    self.inner = SendRecvState::Flushing { framed };
                    Step::Return(Poll::Pending)
                },
            },
            (SendRecvState::Receiving { framed }, Outcome::Next(received)) => match received {
                Poll::Ready(Some(Ok(response))) => {
                    self.inner = SendRecvState::Closing { framed };
                    Step::Return(Poll::Ready(Some(Ok(response))))
                },
                Poll::Ready(Some(Err(e))) => {
                    self.inner = SendRecvState::Done;
                    Step::Return(
                        Poll::Ready(Some(Err(into_io_error(Error::Recv(Cause::Codec(e)))))),
                    )
                },
                Poll::Ready(None) => {
                    self.inner = SendRecvState::Done;
                    Step::Return(Poll::Ready(Some(Err(IoError::from(ErrorKind::UnexpectedEof)))))
                },
                Poll::Pending => {
                    self.inner = SendRecvState::Receiving { framed };
                    Step::Return(Poll::Pending)
                },
            },
            (SendRecvState::Closing { framed }, Outcome::Close(closed)) => match closed {
                Poll::Ready(Ok(())) => {
                    self.inner = SendRecvState::Done;
                    Step::Continue
                },
                Poll::Ready(Err(e)) => {
                    self.inner = SendRecvState::Done;
                    Step::Return(
                        Poll::Ready(Some(Err(into_io_error(Error::Recv(Cause::Codec(e)))))),
                    )
                },
                Poll::Pending => {
                    self.inner = SendRecvState::Closing { framed };
                    Step::Return(Poll::Pending)
                },
            },
            (SendRecvState::Done, _) => Step::Return(Poll::Ready(None)),
            _ => unreached(),
        }
    }
}

impl<S, C, Req, Res, E> SendRecv<S, C, ReturnStream> where
    C: Encoder<Item = Req, Error = E> + Decoder<Item = Res, Error = E>,
    E: Debug,
 {
    /// What a step from `before` on `outcome` may answer, and the state `after` it.
    ///
    /// The message is handed over and the stream is flushed; then the response is received and
    /// given together with the stream. A call that would block is made again in the next poll; one
    /// that fails ends the exchange with its error. The end is reported in every poll that follows.
    pub open spec fn steps(
        before: SendRecvState<S, C>,
        outcome: Outcome<Res, E>,
        step: Step<Result<(Res, S), IoError<E>>>,
        after: SendRecvState<S, C>,
    ) -> bool {
        match (before, outcome) {
            (SendRecvState::Sending(sending), Outcome::Ready(ready)) => exists|
                handed: Poll<Result<(), E>>,
                framed: Framed<S, C>,
            |
                #[trigger] sending.hands_over(ready, handed, framed) && match handed {
                    Poll::Ready(Ok(())) => step is Continue && after == (SendRecvState::Flushing {
                        framed,
                    }),
                    Poll::Ready(Err(e)) => step.emits(Err(IoError::start_send(e))) && after is Done,
                    Poll::Pending => step.blocks() && after == before,
                },
            (SendRecvState::Flushing { framed }, Outcome::Flush(flushed)) => match flushed {
                Poll::Ready(Ok(())) => step is Continue && after == (SendRecvState::Receiving {
                    framed,
                }),
                Poll::Ready(Err(e)) => step.emits(Err(IoError::send(e))) && after is Done,
                Poll::Pending => step.blocks() && after == before,
            },
            (SendRecvState::Receiving { framed }, Outcome::Next(received)) => match received {
                Poll::Ready(Some(Ok(response))) => step.emits(Ok((response, framed.io())))
                    && after is Done,
                Poll::Ready(Some(Err(e))) => step.emits(Err(IoError::recv(e))) && after is Done,
                Poll::Ready(None) => step.emits(Err(IoError::simple(ErrorKind::UnexpectedEof)))
                    && after is Done,
                Poll::Pending => step.blocks() && after == before,
            },
            (SendRecvState::Done, Outcome::Nothing) => step.finishes() && after is Done,
            _ => false,
        }
    }

    /// Takes one step, given what the call that was demanded has brought.
    pub fn poll_step(&mut self, outcome: Outcome<Res, E>) -> (step: Step<
        Result<(Res, S), IoError<E>>,
    >)
        requires
            old(self).valid(),
            outcome.demand() == old(self)@.demand(),
        ensures
            Self::steps(old(self)@, outcome, step, final(self)@),
            final(self).valid(),
    {
        let mut state = SendRecvState::Poisoned;
        core::mem::swap(&mut self.inner, &mut state);
        match (state, outcome) {
            (SendRecvState::Sending(mut sending), Outcome::Ready(ready)) => match sending.poll(
                ready,
            ) {
                Poll::Ready(Ok(())) => {
                    self.inner = SendRecvState::Flushing { framed: sending.framed };
                    Step::Continue
                },
                Poll::Ready(Err(e)) => {
                    self.inner = SendRecvState::Done;
                    Step::Return(
                        Poll::Ready(Some(Err(into_io_error(Error::Send(Cause::Io(e)))))),
                    )
                },
                Poll::Pending => {
                    self.inner = SendRecvState::Sending(sending);
                    Step::Return(Poll::Pending)
                },
            },
            (SendRecvState::Flushing { framed }, Outcome::Flush(flushed)) => match flushed {
                Poll::Ready(Ok(())) => {
                    self.inner = SendRecvState::Receiving { framed };
                    Step::Continue
                },
                Poll::Ready(Err(e)) => {
                    self.inner = SendRecvState::Done;
                    Step::Return(
                        Poll::Ready(Some(Err(into_io_error(Error::Send(Cause::Codec(e)))))),
                    )
                },
                Poll::Pending => {
                    self.inner = SendRecvState::Flushing { framed };
                    Step::Return(Poll::Pending)
                },
            },
            (SendRecvState::Receiving { framed }, Outcome::Next(received)) => match received {
                Poll::Ready(Some(Ok(response))) => {
                    self.inner = SendRecvState::Done;
                    Step::Return(Poll::Ready(Some(Ok((response, framed.into_parts().io)))))
                },
                Poll::Ready(Some(Err(e))) => {
                    self.inner = SendRecvState::Done;
                    Step::Return(
                        Poll::Ready(Some(Err(into_io_error(Error::Recv(Cause::Codec(e)))))),
                    )
                },
                Poll::Ready(None) => {
                    self.inner = SendRecvState::Done;
                    Step::Return(Poll::Ready(Some(Err(IoError::from(ErrorKind::UnexpectedEof)))))
                },
                Poll::Pending => {
                    self.inner = SendRecvState::Receiving { framed };
                    Step::Return(Poll::Pending)
                },
            },
            (SendRecvState::Done, _) => {
                self.inner = SendRecvState::Done;
                Step::Return(Poll::Ready(None))
            },
            _ => unreached(),
        }
    }
}

} // verus!
