//! The recv-send message pattern.

use crate::decoder::Decoder;
use crate::encoder::Encoder;
use crate::framed::Framed;
use crate::io_error::{into_io_error, Cause, ErrorKind, IoError};
use crate::message_patterns::{CloseStream, Error, ReturnStream, Sending};
use crate::poll::{Demand, Outcome, Poll, Step};
use core::fmt::Debug;
use core::marker::PhantomData;
use vstd::pervasive::unreached;
use vstd::prelude::*;

verus! {

/// The recv-send message pattern.
///
/// This struct implements a request-response message pattern for the receiving side. It will
/// attempt to first read a message from the stream and then send a response.
///
/// Each instance will only ever emit one item besides errors, the request, and has more work to do
/// after emitting it: sending the response. The laws `close_gives_at_most_one_request` and
/// `return_gives_each_event_once` in [`laws::recvsend`](crate::laws::recvsend) show it; an instance
/// that returns its stream emits the stream as well, once it has done that work.
///
/// This component works really well when used together with `SelectAll`, which polls again after
/// every item: it can be polled again after every step but the one that reports its end
/// (`close_can_be_polled_again`, `return_never_closes`), and waits for as long as the responder
/// does nothing (`close_waits_for_response`, `return_waits_for_response`).
///
/// The response reaches it through a [`Shared`] slot, which every step is given.
pub struct RecvSend<S, C, B> where C: Encoder {
    inner: RecvSendState<S, C>,
    behaviour: PhantomData<B>,
}

/// How far a [`RecvSend`] has come.
pub enum RecvSendState<S, C: Encoder> {
    /// The request is due.
    Receiving {
        /// The framed stream.
        framed: Framed<S, C>,
    },
    /// The request was received and the response is due from the [`Responder`].
    Waiting(Waiting<C>, Framed<S, C>),
    /// The response waits to be handed to the framed stream.
    Sending(Sending<S, C>),
    /// The response was handed over and is being written.
    Flushing {
        /// The framed stream.
        framed: Framed<S, C>,
    },
    /// Nothing more will be written and the stream is being closed.
    Closing {
        /// The framed stream.
        framed: Framed<S, C>,
    },
    /// The exchange is over.
    Done,
    /// Not to be polled any more.
    Poisoned,
}

impl<S, C: Encoder> RecvSendState<S, C> {
    /// The call that is needed for the next step. To look for the response takes none.
    pub open spec fn demand(self) -> Demand {
        match self {
            RecvSendState::Receiving { .. } => Demand::Next,
            RecvSendState::Waiting(_, _) => Demand::Nothing,
            RecvSendState::Sending(_) => Demand::Ready,
            RecvSendState::Flushing { .. } => Demand::Flush,
            RecvSendState::Closing { .. } => Demand::Close,
            RecvSendState::Done => Demand::Nothing,
            RecvSendState::Poisoned => Demand::Poisoned,
        }
    }

    /// The framed stream, while there is one.
    pub open spec fn framed(self) -> Option<Framed<S, C>> {
        match self {
            RecvSendState::Receiving { framed } => Some(framed),
            RecvSendState::Waiting(_, framed) => Some(framed),
            RecvSendState::Sending(sending) => Some(sending.framed),
            RecvSendState::Flushing { framed } => Some(framed),
            RecvSendState::Closing { framed } => Some(framed),
            RecvSendState::Done => None,
            RecvSendState::Poisoned => None,
        }
    }

    /// The same state with another framed stream in it.
    pub open spec fn with_framed(self, framed: Framed<S, C>) -> RecvSendState<S, C> {
        match self {
            RecvSendState::Receiving { .. } => RecvSendState::Receiving { framed },
            RecvSendState::Waiting(waiting, _) => RecvSendState::Waiting(waiting, framed),
            RecvSendState::Sending(sending) => RecvSendState::Sending(
                Sending { framed, ..sending },
            ),
            RecvSendState::Flushing { .. } => RecvSendState::Flushing { framed },
            RecvSendState::Closing { .. } => RecvSendState::Closing { framed },
            RecvSendState::Done => RecvSendState::Done,
            RecvSendState::Poisoned => RecvSendState::Poisoned,
        }
    }

    /// The name of the state, for debugging output.
    pub fn name(&self) -> (name: &'static str)
        ensures
            name@ == match self {
                RecvSendState::Receiving { .. } => "RecvSendState::Receiving"@,
                RecvSendState::Waiting(_, _) => "RecvSendState::Waiting"@,
                RecvSendState::Sending(_) => "RecvSendState::Sending"@,
                RecvSendState::Flushing { .. } => "RecvSendState::Flushing"@,
                RecvSendState::Closing { .. } => "RecvSendState::Closing"@,
                RecvSendState::Done => "RecvSendState::Done"@,
                RecvSendState::Poisoned => "RecvSendState::Poisoned"@,
            },
    {
        match self {
            RecvSendState::Receiving { .. } => "RecvSendState::Receiving",
            RecvSendState::Waiting(_, _) => "RecvSendState::Waiting",
            RecvSendState::Sending(_) => "RecvSendState::Sending",
            RecvSendState::Flushing { .. } => "RecvSendState::Flushing",
            RecvSendState::Closing { .. } => "RecvSendState::Closing",
            RecvSendState::Done => "RecvSendState::Done",
            RecvSendState::Poisoned => "RecvSendState::Poisoned",
        }
    }
}

impl<S, C: Encoder, B> View for RecvSend<S, C, B> {
    type V = RecvSendState<S, C>;

    closed spec fn view(&self) -> RecvSendState<S, C> {
        self.inner
    }
}

impl<S, C: Encoder, B> RecvSend<S, C, B> {
    /// The state that the exchange is in.
    pub fn state(&self) -> (state: &RecvSendState<S, C>)
        ensures
            *state == self@,
    {
        &self.inner
    }

    /// The call on the framed stream that the next step needs.
    pub fn demand(&self) -> (demand: Demand)
        ensures
            demand == self@.demand(),
    {
        match &self.inner {
            RecvSendState::Receiving { .. } => Demand::Next,
            RecvSendState::Waiting(_, _) => Demand::Nothing,
            RecvSendState::Sending(_) => Demand::Ready,
            RecvSendState::Flushing { .. } => Demand::Flush,
            RecvSendState::Closing { .. } => Demand::Close,
            RecvSendState::Done => Demand::Nothing,
            RecvSendState::Poisoned => Demand::Poisoned,
        }
    }

    /// The framed stream to make calls on, while there is one.
    pub fn framed(&mut self) -> (framed: Option<&mut Framed<S, C>>)
        ensures
            match framed {
                Some(framed) => {
                    &&& old(self)@.framed() == Some(*framed)
                    &&& final(self)@ == old(self)@.with_framed(*final(framed))
                },
                None => old(self)@.framed() is None && final(self)@ == old(self)@,
            },
            framed is None == (old(self)@ is Done || old(self)@ is Poisoned),
    {
        match &mut self.inner {
            RecvSendState::Receiving { framed } => Some(framed),
            RecvSendState::Waiting(_, framed) => Some(framed),
            RecvSendState::Sending(sending) => Some(&mut sending.framed),
            RecvSendState::Flushing { framed } => Some(framed),
            RecvSendState::Closing { framed } => Some(framed),
            RecvSendState::Done => None,
            RecvSendState::Poisoned => None,
        }
    }
}

impl<S, C> RecvSend<S, C, ReturnStream> where C: Encoder + Decoder {
    /// Receives a request on `stream` and sends the response, both framed by `codec`.
    pub fn new(stream: S, codec: C) -> (exchange: Self)
        ensures
            exchange.valid(),
            exchange@ matches RecvSendState::Receiving { framed } && framed.fresh(stream, codec),
    {
        Self {
            inner: RecvSendState::Receiving { framed: Framed::new(stream, codec) },
            behaviour: PhantomData,
        }
    }

    /// Reconfigure this pattern to close the stream after the message has been sent instead of
    /// returning it.
    pub fn close_after_send(self) -> (exchange: RecvSend<S, C, CloseStream>)
        ensures
            exchange@ == self@,
            self.valid() ==> exchange.valid(),
    {
        RecvSend { inner: self.inner, behaviour: PhantomData }
    }

    /// Abort this message exchange, immediately freeing all resources.
    pub fn abort(&mut self)
        ensures
            final(self)@ is Done,
            final(self).valid(),
    {
        self.inner = RecvSendState::Done;
    }
}

impl<S, C: Encoder> RecvSend<S, C, CloseStream> {
    /// A pattern that waits to hand over its response still has it.
    pub open spec fn valid(&self) -> bool {
        self@ matches RecvSendState::Sending(sending) ==> sending.message is Some
    }
}

impl<S, C: Encoder> RecvSend<S, C, ReturnStream> {
    /// A pattern that waits to hand over its response still has it. The stream is never closed, and
    /// the pattern is never poisoned: it can always be polled again.
    pub open spec fn valid(&self) -> bool {
        &&& self@ matches RecvSendState::Sending(sending) ==> sending.message is Some
        &&& !(self@ is Closing)
        &&& !(self@ is Poisoned)
    }
}

impl<S, C, Req, Res, E> RecvSend<S, C, CloseStream> where
    C: Encoder<Item = Res, Error = E> + Decoder<Item = Req, Error = E>,
    E: Debug,
 {
    /// What a step from `before` on `outcome` may answer, and the state `after` it. The slot goes
    /// from `slot` to `slot_after`; `waker` wakes the task that polls.
    ///
    /// The request is received and given together with a responder; the response is looked for,
    /// handed over and flushed, and the stream is closed. A call that would block is made again in
    /// the next poll; one that fails gives its error. A response that never comes or cannot be
    /// handed over still has the stream closed; any other failure ends the exchange. The end is
    /// reported once.
    ///
    /// The waker is parked in the slot when the request is given.
    pub open spec fn steps<W>(
        before: RecvSendState<S, C>,
        slot: Shared<Res, W>,
        waker: W,
        outcome: Outcome<Req, E>,
        step: Step<Result<(Req, Responder<Res>), IoError<E>>>,
        after: RecvSendState<S, C>,
        slot_after: Shared<Res, W>,
    ) -> bool {
        &&& slot_after == match (before, outcome) {
            (
                RecvSendState::Receiving { .. },
                Outcome::Next(Poll::Ready(Some(Ok(_)))),
            ) => Shared { message: None, waker: Some(waker) },
            (RecvSendState::Waiting(_, _), _) => slot.after_poll(waker),
            _ => slot,
        }
        &&& match (before, outcome) {
            (RecvSendState::Receiving { framed }, Outcome::Next(received)) => match received {
                Poll::Ready(Some(Ok(request))) => {
                    &&& step.emits(Ok((request, Responder::fresh())))
                    &&& after == (RecvSendState::Waiting(Waiting::fresh(), framed))
                },
                Poll::Ready(Some(Err(e))) => step.emits(Err(IoError::recv(e))) && after is Done,
                Poll::Ready(None) => step.emits(Err(IoError::simple(ErrorKind::UnexpectedEof)))
                    && after is Done,
                Poll::Pending => step.blocks() && after == before,
            },
            (RecvSendState::Waiting(_, framed), Outcome::Nothing) => match slot.poll() {
                Poll::Ready(Ok(response)) => step is Continue && after == (RecvSendState::Sending(
                    Sending { framed, message: Some(response) },
                )),
                Poll::Ready(Err(kind)) => step.emits(Err(IoError::simple(kind))) && after == (
                RecvSendState::Closing { framed }),
                Poll::Pending => step.blocks() && after == before,
            },
            (RecvSendState::Sending(sending), Outcome::Ready(ready)) => exists|
                handed: Poll<Result<(), E>>,
                framed: Framed<S, C>,
            |
                #[trigger] sending.hands_over(ready, handed, framed) && match handed {
                    Poll::Ready(Ok(())) => step is Continue && after == (RecvSendState::Flushing {
                        framed,
                    }),
                    Poll::Ready(Err(e)) => step.emits(Err(IoError::start_send(e))) && after == (
                    RecvSendState::Closing { framed }),
                    Poll::Pending => step.blocks() && after == before,
                },
            (RecvSendState::Flushing { framed }, Outcome::Flush(flushed)) => match flushed {
                Poll::Ready(Ok(())) => step is Continue && after == (RecvSendState::Closing {
                    framed,
                }),
                Poll::Ready(Err(e)) => step.emits(Err(IoError::send(e))) && after is Done,
                Poll::Pending => step.blocks() && after == before,
            },
            (RecvSendState::Closing { framed }, Outcome::Close(closed)) => match closed {
                Poll::Ready(Ok(())) => step is Continue && after is Done,
                Poll::Ready(Err(e)) => step.emits(Err(IoError::send(e))) && after is Done,
                Poll::Pending => step.blocks() && after == before,
            },
            (RecvSendState::Done, Outcome::Nothing) => step.finishes() && after is Poisoned,
            _ => false,
        }
    }

    /// Takes one step, given what the call that was demanded has brought, the slot for the response
    /// and the waker of the task that polls.
    pub fn poll_step<W>(
        &mut self,
        shared: &mut Shared<Res, W>,
        waker: W,
        outcome: Outcome<Req, E>,
    ) -> (step: Step<Result<(Req, Responder<Res>), IoError<E>>>)
        requires
            old(self).valid(),
            outcome.demand() == old(self)@.demand(),
        ensures
            Self::steps(
                old(self)@,
                *old(shared),
                waker,
                outcome,
                step,
                final(self)@,
                *final(shared),
            ),
            final(self).valid(),
    {
        let mut state = RecvSendState::Poisoned;
        core::mem::swap(&mut self.inner, &mut state);
        match (state, outcome) {
            (RecvSendState::Receiving { framed }, Outcome::Next(received)) => match received {
                Poll::Ready(Some(Ok(request))) => {
                    *shared = Shared { waker: Some(waker), ..Shared::default() };
                    self.inner = RecvSendState::Waiting(Waiting { codec: PhantomData }, framed);
                    let responder = Responder { response: PhantomData };
                    Step::Return(Poll::Ready(Some(Ok((request, responder)))))
                },
                Poll::Ready(Some(Err(e))) => {
                    self.inner = RecvSendState::Done;
                    Step::Return(
                        Poll::Ready(Some(Err(into_io_error(Error::Recv(Cause::Codec(e)))))),
                    )
                },
                Poll::Ready(None) => {
                    self.inner = RecvSendState::Done;
                    Step::Return(Poll::Ready(Some(Err(IoError::from(ErrorKind::UnexpectedEof)))))
                },
                Poll::Pending => {
                    self.inner = RecvSendState::Receiving { framed };
                    Step::Return(Poll::Pending)
                },
            },
            (RecvSendState::Waiting(mut waiting, framed), Outcome::Nothing) => match waiting.poll(
                shared,
                waker,
            ) {
                Poll::Ready(Ok(response)) => {
                    self.inner =
                    RecvSendState::Sending(Sending { framed, message: Some(response) });
                    Step::Continue
                },
                Poll::Ready(Err(e)) => {
                    self.inner = RecvSendState::Closing { framed };
                    Step::Return(Poll::Ready(Some(Err(e))))
                },
                Poll::Pending => {
                    self.inner = RecvSendState::Waiting(waiting, framed);
                    Step::Return(Poll::Pending)
                },
            },
            (RecvSendState::Sending(mut sending), Outcome::Ready(ready)) => match sending.poll(
                ready,
            ) {
                Poll::Ready(Ok(())) => {
                    self.inner = RecvSendState::Flushing { framed: sending.framed };
                    Step::Continue
                },
                Poll::Ready(Err(e)) => {
                    self.inner = RecvSendState::Closing { framed: sending.framed };
                    Step::Return(
                        Poll::Ready(Some(Err(into_io_error(Error::Send(Cause::Io(e)))))),
                    )
                },
                Poll::Pending => {
                    self.inner = RecvSendState::Sending(sending);
                    Step::Return(Poll::Pending)
                },
            },
            (RecvSendState::Flushing { framed }, Outcome::Flush(flushed)) => match flushed {
                Poll::Ready(Ok(())) => {
                    self.inner = RecvSendState::Closing { framed };
                    Step::Continue
                },
                Poll::Ready(Err(e)) => {
                    self.inner = RecvSendState::Done;
                    Step::Return(
                        Poll::Ready(Some(Err(into_io_error(Error::Send(Cause::Codec(e)))))),
                    )
                },
                Poll::Pending => {
                    self.inner = RecvSendState::Flushing { framed };
                    Step::Return(Poll::Pending)
                },
            },
            (RecvSendState::Closing { framed }, Outcome::Close(closed)) => match closed {
                Poll::Ready(Ok(())) => {
                    self.inner = RecvSendState::Done;
                    Step::Continue
                },
                Poll::Ready(Err(e)) => {
                    self.inner = RecvSendState::Done;
                    Step::Return(
                        Poll::Ready(Some(Err(into_io_error(Error::Send(Cause::Codec(e)))))),
                    )
                },
                Poll::Pending => {
                    self.inner = RecvSendState::Closing { framed };
                    Step::Return(Poll::Pending)
                },
            },
            (RecvSendState::Done, _) => Step::Return(Poll::Ready(None)),
            _ => unreached(),
        }
    }
}

impl<S, C, Req, Res, E> RecvSend<S, C, ReturnStream> where
    C: Encoder<Item = Res, Error = E> + Decoder<Item = Req, Error = E>,
    E: Debug,
 {
    /// What a step from `before` on `outcome` may answer, and the state `after` it. The slot goes
    /// from `slot` to `slot_after`; `waker` wakes the task that polls.
    ///
    /// The request is received and given together with a responder; the response is looked for,
    /// handed over and flushed, and the stream is given back. A call that would block is made again
    /// in the next poll; one that fails ends the exchange with its error, as does a responder that
    /// is dropped. The end is reported in every poll that follows.
    ///
    /// The waker is parked in the slot when the request is given.
    pub open spec fn steps<W>(
        before: RecvSendState<S, C>,
        slot: Shared<Res, W>,
        waker: W,
        outcome: Outcome<Req, E>,
        step: Step<Result<Event<Req, Res, S>, IoError<E>>>,
        after: RecvSendState<S, C>,
        slot_after: Shared<Res, W>,
    ) -> bool {
        &&& slot_after == match (before, outcome) {
            (
                RecvSendState::Receiving { .. },
                Outcome::Next(Poll::Ready(Some(Ok(_)))),
            ) => Shared { message: None, waker: Some(waker) },
            (RecvSendState::Waiting(_, _), _) => slot.after_poll(waker),
            _ => slot,
        }
        &&& match (before, outcome) {
            (RecvSendState::Receiving { framed }, Outcome::Next(received)) => match received {
                Poll::Ready(Some(Ok(request))) => {
                    &&& step.emits(Ok(Event::NewRequest { request, responder: Responder::fresh() }))
                    &&& after == (RecvSendState::Waiting(Waiting::fresh(), framed))
                },
                Poll::Ready(Some(Err(e))) => step.emits(Err(IoError::recv(e))) && after is Done,
                Poll::Ready(None) => step.emits(Err(IoError::simple(ErrorKind::UnexpectedEof)))
                    && after is Done,
                Poll::Pending => step.blocks() && after == before,
            },
            (RecvSendState::Waiting(_, framed), Outcome::Nothing) => match slot.poll() {
                Poll::Ready(Ok(response)) => step is Continue && after == (RecvSendState::Sending(
                    Sending { framed, message: Some(response) },
                )),
                Poll::Ready(Err(kind)) => step.emits(Err(IoError::simple(kind))) && after is Done,
                Poll::Pending => step.blocks() && after == before,
            },
            (RecvSendState::Sending(sending), Outcome::Ready(ready)) => exists|
                handed: Poll<Result<(), E>>,
                framed: Framed<S, C>,
            |
                #[trigger] sending.hands_over(ready, handed, framed) && match handed {
                    Poll::Ready(Ok(())) => step is Continue && after == (RecvSendState::Flushing {
                        framed,
                    }),
                    Poll::Ready(Err(e)) => step.emits(Err(IoError::start_send(e))) && after is Done,
                    Poll::Pending => step.blocks() && after == before,
                },
            (RecvSendState::Flushing { framed }, Outcome::Flush(flushed)) => match flushed {
                Poll::Ready(Ok(())) => step.emits(Ok(Event::Completed { stream: framed.io() }))
                    && after is Done,
                Poll::Ready(Err(e)) => step.emits(Err(IoError::send(e))) && after is Done,
                Poll::Pending => step.blocks() && after == before,
            },
            (RecvSendState::Done, Outcome::Nothing) => step.finishes() && after is Done,
            _ => false,
        }
    }

    /// Takes one step, given what the call that was demanded has brought, the slot for the response
    /// and the waker of the task that polls.
    pub fn poll_step<W>(
        &mut self,
        shared: &mut Shared<Res, W>,
        waker: W,
        outcome: Outcome<Req, E>,
    ) -> (step: Step<Result<Event<Req, Res, S>, IoError<E>>>)
        requires
            old(self).valid(),
            outcome.demand() == old(self)@.demand(),
        ensures
            Self::steps(
                old(self)@,
                *old(shared),
                waker,
                outcome,
                step,
                final(self)@,
                *final(shared),
            ),
            final(self).valid(),
    {
        let mut state = RecvSendState::Poisoned;
        core::mem::swap(&mut self.inner, &mut state);
        match (state, outcome) {
            (RecvSendState::Receiving { framed }, Outcome::Next(received)) => match received {
                Poll::Ready(Some(Ok(request))) => {
                    *shared = Shared { waker: Some(waker), ..Shared::default() };
                    self.inner = RecvSendState::Waiting(Waiting { codec: PhantomData }, framed);
                    let responder = Responder { response: PhantomData };
                    Step::Return(Poll::Ready(Some(Ok(Event::NewRequest { request, responder }))))
                },
                Poll::Ready(Some(Err(e))) => {
                    self.inner = RecvSendState::Done;
                    Step::Return(
                        Poll::Ready(Some(Err(into_io_error(Error::Recv(Cause::Codec(e)))))),
                    )
                },
                Poll::Ready(None) => {
                    self.inner = RecvSendState::Done;
                    Step::Return(Poll::Ready(Some(Err(IoError::from(ErrorKind::UnexpectedEof)))))
                },
                Poll::Pending => {
                    self.inner = RecvSendState::Receiving { framed };
                    Step::Return(Poll::Pending)
                },
            },
            (RecvSendState::Waiting(mut waiting, framed), Outcome::Nothing) => match waiting.poll(
                shared,
                waker,
            ) {
                Poll::Ready(Ok(response)) => {
                    self.inner =
                    RecvSendState::Sending(Sending { framed, message: Some(response) });
                    Step::Continue
                },
                Poll::Ready(Err(e)) => {
                    self.inner = RecvSendState::Done;
                    Step::Return(Poll::Ready(Some(Err(e))))
                },
                Poll::Pending => {
                    self.inner = RecvSendState::Waiting(waiting, framed);
                    Step::Return(Poll::Pending)
                },
            },
            (RecvSendState::Sending(mut sending), Outcome::Ready(ready)) => match sending.poll(
                ready,
            ) {
                Poll::Ready(Ok(())) => {
                    self.inner = RecvSendState::Flushing { framed: sending.framed };
                    Step::Continue
                },
                Poll::Ready(Err(e)) => {
                    self.inner = RecvSendState::Done;
                    Step::Return(
                        Poll::Ready(Some(Err(into_io_error(Error::Send(Cause::Io(e)))))),
                    )
                },
                Poll::Pending => {
                    self.inner = RecvSendState::Sending(sending);
                    Step::Return(Poll::Pending)
                },
            },
            (RecvSendState::Flushing { framed }, Outcome::Flush(flushed)) => match flushed {
                Poll::Ready(Ok(())) => {
                    self.inner = RecvSendState::Done;
                    Step::Return(
                        Poll::Ready(Some(Ok(Event::Completed { stream: framed.into_parts().io }))),
                    )
                },
                Poll::Ready(Err(e)) => {
                    self.inner = RecvSendState::Done;
                    Step::Return(
                        Poll::Ready(Some(Err(into_io_error(Error::Send(Cause::Codec(e)))))),
                    )
                },
                Poll::Pending => {
                    self.inner = RecvSendState::Flushing { framed };
                    Step::Return(Poll::Pending)
                },
            },
            (RecvSendState::Done, _) => {
                self.inner = RecvSendState::Done;
                Step::Return(Poll::Ready(None))
            },
            _ => unreached(),
        }
    }
}

/// What a [`RecvSend`] gives whose stream is returned.
#[derive(Debug)]
pub enum Event<Req, Res, S> {
    /// A request was received.
    NewRequest {
        /// The request.
        request: Req,
        /// The right to respond to it.
        responder: Responder<Res>,
    },
    /// The response was sent.
    Completed {
        /// The stream, free for another exchange.
        stream: S,
    },
}

/// The right to put the response into the slot that it is sent from.
///
/// There is one for each request, and it cannot be copied.
#[derive(Debug)]
pub struct Responder<Res> {
    response: PhantomData<Res>,
}

impl<Response> Responder<Response> {
    /// The responder that comes with a request.
    pub closed spec fn fresh() -> Responder<Response> {
        Responder { response: PhantomData }
    }

    /// Send response.
    ///
    /// This consumes the responder because a response can only be sent once. The response is put
    /// into the slot; it is sent when the [`RecvSend`] is next polled. The waker that was parked in
    /// the slot is given back, to be woken.
    pub fn respond<W>(self, shared: &mut Shared<Response, W>, response: Response) -> (waker: Option<
        W,
    >)
        ensures
            *final(shared) == old(shared).after_respond(response),
            waker == old(shared).waker,
    {
        shared.message = Some(response);
        self.release(shared)
    }

    /// Gives up the responder: if there was no response before, there will be none. The waker that
    /// was parked in the slot is given back, to be woken.
    pub fn release<W>(self, shared: &mut Shared<Response, W>) -> (waker: Option<W>)
        ensures
            *final(shared) == old(shared).after_release(),
            waker == old(shared).waker,
    {
        shared.waker.take()
    }
}

/// The slot that the response passes through, with the waker of the task that waits for it.
#[derive(Debug)]
pub struct Shared<M, W> {
    /// The response, once it is there and until it is taken.
    pub message: Option<M>,
    /// The waker of the waiting task.
    pub waker: Option<W>,
}

impl<M, W> Default for Shared<M, W> {
    /// An empty slot.
    fn default() -> (shared: Self)
        ensures
            shared == (Shared { message: None::<M>, waker: None::<W> }),
    {
        Self { message: None, waker: None }
    }
}

impl<M, W> Shared<M, W> {
    /// What a poll finds: the response if it is there. If it is not, a waker that is no longer
    /// parked tells that the responder has gone, and the response will never come.
    pub open spec fn poll(self) -> Poll<Result<M, ErrorKind>> {
        match self.message {
            Some(response) => Poll::Ready(Ok(response)),
            None => if self.waker is None {
                Poll::Ready(Err(ErrorKind::BrokenPipe))
            } else {
                Poll::Pending
            },
        }
    }

    /// The slot after that poll: the response is taken, or else the waker is parked.
    pub open spec fn after_poll(self, waker: W) -> Shared<M, W> {
        match self.message {
            Some(_) => Shared { message: None, waker: self.waker },
            None => Shared { message: None, waker: Some(waker) },
        }
    }

    /// The slot after `response` has been put into it and the responder has gone.
    pub open spec fn after_respond(self, response: M) -> Shared<M, W> {
        Shared { message: Some(response), waker: None }
    }

    /// The slot after the responder has gone.
    pub open spec fn after_release(self) -> Shared<M, W> {
        Shared { message: self.message, waker: None }
    }
}

/// The right to take the response out of the slot.
#[derive(Debug)]
pub struct Waiting<C> where C: Encoder {
    codec: PhantomData<C>,
}

impl<C> Waiting<C> where C: Encoder {
    /// The counterpart of the responder.
    pub closed spec fn fresh() -> Waiting<C> {
        Waiting { codec: PhantomData }
    }

    /// Takes the response out of the slot, or parks `waker` there until it comes.
    pub fn poll<W>(&mut self, shared: &mut Shared<C::Item, W>, waker: W) -> (polled: Poll<
        Result<C::Item, IoError<C::Error>>,
    >)
        ensures
            polled == match old(shared).poll() {
                Poll::Ready(Ok(response)) => Poll::Ready(Ok(response)),
                Poll::Ready(Err(kind)) => Poll::Ready(
                    Err(IoError::<C::Error>::simple(kind)),
                ),
                Poll::Pending => Poll::Pending,
            },
            *final(shared) == old(shared).after_poll(waker),
            *final(self) == *old(self),
    {
        match shared.message.take() {
            Some(response) => Poll::Ready(Ok(response)),
            None => {
                let released = shared.waker.is_none();
                shared.waker = Some(waker);
                if released {
                    Poll::Ready(Err(IoError::from(ErrorKind::BrokenPipe)))
                } else {
                    Poll::Pending
                }
            },
        }
    }
}

} // verus!
