//! What the message patterns have in common.

use crate::encoder::Encoder;
use crate::framed::Framed;
use crate::io_error::{into_io_error, Cause, IoError};
use crate::poll::Poll;
use vstd::prelude::*;

verus! {

/// Marker type for a message pattern that will close the stream after the message has been sent.
#[derive(Debug)]
pub enum CloseStream {
    /// Only the type is of use: it says what a pattern does with its stream.
    Marker,
}

/// Marker type for a message pattern that will return the stream back to the user after the message
/// has been sent.
///
/// This may be useful if multiple request-response exchanges should happen on the same stream.
#[derive(Debug)]
pub enum ReturnStream {
    /// Only the type is of use: it says what a pattern does with its stream.
    Marker,
}

/// The half of an exchange that failed.
#[derive(Debug)]
pub enum Error<Enc> {
    /// Receiving failed.
    Recv(Enc),
    /// Sending failed.
    Send(Enc),
}

impl<Enc> Error<Enc> {
    /// What went wrong underneath.
    pub open spec fn inner(self) -> Enc {
        match self {
            Error::Recv(inner) => inner,
            Error::Send(inner) => inner,
        }
    }

    /// Says which half of the exchange failed.
    pub fn to_string(&self) -> (text: String)
        ensures
            self is Recv ==> text@ == "failed to recv on stream"@,
            self is Send ==> text@ == "failed to send on stream"@,
    {
        match self {
            Error::Recv(_) => "failed to recv on stream".to_owned(),
            Error::Send(_) => "failed to send on stream".to_owned(),
        }
    }

    /// What went wrong underneath. There is always something.
    pub fn source(&self) -> (source: Option<&Enc>)
        ensures
            source == Some(&self.inner()),
    {
        match self {
            Error::Recv(inner) => Some(inner),
            Error::Send(inner) => Some(inner),
        }
    }
}

/// A message on its way to a framed stream.
pub struct Sending<S, C> where C: Encoder {
    /// The framed stream.
    pub framed: Framed<S, C>,
    /// The message, until it has been handed to the codec.
    pub message: Option<C::Item>,
}

impl<S, C> Sending<S, C> where C: Encoder {
    /// What may come of handing the message over, given `ready` from waiting for the framed stream:
    /// `handed` is how it went and `framed` the framed stream afterwards.
    ///
    /// The codec is handed the message when the framed stream is ready for it, and not before.
    pub open spec fn hands_over(
        self,
        ready: Poll<Result<(), C::Error>>,
        handed: Poll<Result<(), C::Error>>,
        framed: Framed<S, C>,
    ) -> bool {
        match ready {
            Poll::Ready(Ok(())) => handed matches Poll::Ready(result) && self.framed.accepts(
                self.message->0,
                result,
                framed,
            ),
            _ => handed == ready && framed == self.framed,
        }
    }

    /// Where the message was handed over and went well, the codec has taken it.
    pub proof fn lemma_taken(self, ready: Poll<Result<(), C::Error>>, framed: Framed<S, C>)
        requires
            exists|handed: Poll<Result<(), C::Error>>| #[trigger]
                self.hands_over(ready, handed, framed) && (handed matches Poll::Ready(Ok(()))),
        ensures
            ready matches Poll::Ready(Ok(())),
            self.framed.accepts(self.message->0, Ok(()), framed),
    {
        let handed = choose|handed: Poll<Result<(), C::Error>>| #[trigger]
            self.hands_over(ready, handed, framed) && (handed matches Poll::Ready(Ok(())));
        assert(handed->Ready_0->Ok_0 == ());
    }

    /// Hands the message to the codec once the framed stream is `ready` to take it.
    ///
    /// Not to be polled with a stream that is ready after completion.
    pub fn poll(&mut self, ready: Poll<Result<(), C::Error>>) -> (polled: Poll<
        Result<(), IoError<C::Error>>,
    >)
        requires
            ready matches Poll::Ready(Ok(())) ==> old(self).message is Some,
        ensures
            exists|handed: Poll<Result<(), C::Error>>|
                {
                    &&& #[trigger] old(self).hands_over(ready, handed, final(self).framed)
                    &&& polled == match handed {
                        Poll::Pending => Poll::Pending,
                        Poll::Ready(Ok(())) => Poll::Ready(Ok(())),
                        Poll::Ready(Err(e)) => Poll::Ready(Err(IoError::send(e))),
                    }
                },
            final(self).message == match ready {
                Poll::Ready(Ok(())) => None,
                _ => old(self).message,
            },
    {
        proof {
            match ready {
                Poll::Ready(Ok(())) => {},
                _ => assert(old(self).hands_over(ready, ready, self.framed)),
            }
        }
        match ready {
            Poll::Pending => Poll::Pending,
            Poll::Ready(Err(e)) => Poll::Ready(Err(into_io_error(Error::Send(Cause::Codec(e))))),
            Poll::Ready(Ok(())) => {
                let message = self.message.take().unwrap();
                let result = self.framed.start_send(message);
                assert(old(self).hands_over(ready, Poll::Ready(result), self.framed));
                match result {
                    Ok(()) => Poll::Ready(Ok(())),
                    Err(e) => Poll::Ready(Err(into_io_error(Error::Send(Cause::Codec(e))))),
                }
            },
        }
    }
}

} // verus!
