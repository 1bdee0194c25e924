use asynchronous_codec::io_error::into_io_error;
use asynchronous_codec::recvsend::RecvSendState;
use asynchronous_codec::{
    Cause, CloseStream, Decoder, Demand, Encoder, Error, ErrorKind, Event, Framed, Fuse, IoError,
    Outcome, Poll, RecvSend, ReturnStream, Send, SendRecv, Sending, Shared, Step,
};
use bytes::BytesMut;

/// Messages are bytes; the byte 0 is not taken, and the byte 255 is not understood.
#[derive(Debug)]
struct ByteCodec {
    encoded: usize,
}

type Failure = &'static str;

impl Encoder for ByteCodec {
    type Item = u8;
    type Error = Failure;

    fn encode(&mut self, item: u8, dst: &mut BytesMut) -> Result<(), Failure> {
        if item == 0 {
            return Err("not taken");
        }
        self.encoded += 1;
        dst.extend_from_slice(&[item]);
        Ok(())
    }
}

impl Decoder for ByteCodec {
    type Item = u8;
    type Error = Failure;

    fn decode(&mut self, src: &mut BytesMut) -> Result<Option<u8>, Failure> {
        if src.is_empty() {
            return Ok(None);
        }
        match src.split_to(1)[0] {
            255 => Err("not understood"),
            byte => Ok(Some(byte)),
        }
    }

    fn decode_eof(&mut self, src: &mut BytesMut) -> Result<Option<u8>, Failure> {
        match src.is_empty() {
            true => Err("ended"),
            false => self.decode(src),
        }
    }
}

fn codec() -> ByteCodec {
    ByteCodec { encoded: 0 }
}

fn ready<T>() -> Outcome<T, Failure> {
    Outcome::Ready(Poll::Ready(Ok(())))
}

fn flushed<T>() -> Outcome<T, Failure> {
    Outcome::Flush(Poll::Ready(Ok(())))
}

fn closed<T>() -> Outcome<T, Failure> {
    Outcome::Close(Poll::Ready(Ok(())))
}

fn next<T>(item: T) -> Outcome<T, Failure> {
    Outcome::Next(Poll::Ready(Some(Ok(item))))
}

fn goes_on<T>(step: Step<T>) -> bool {
    matches!(step, Step::Continue)
}

fn blocks<T>(step: Step<T>) -> bool {
    matches!(step, Step::Return(Poll::Pending))
}

fn finishes<T>(step: Step<T>) -> bool {
    matches!(step, Step::Return(Poll::Ready(None)))
}

fn item<T, E>(step: Step<Result<T, E>>) -> T {
    match step {
        Step::Return(Poll::Ready(Some(Ok(item)))) => item,
        _ => panic!(),
    }
}

fn error<T>(step: Step<Result<T, IoError<Failure>>>) -> IoError<Failure> {
    match step {
        Step::Return(Poll::Ready(Some(Err(error)))) => error,
        _ => panic!(),
    }
}

/// The kind of an error, the halves that failed from the outermost in, and the codec's own error.
fn anatomy(error: IoError<Failure>) -> (ErrorKind, String, Option<Failure>) {
    let mut path = String::new();
    let kind = error.kind;
    let mut source = error.source;
    loop {
        match source.map(|source| *source) {
            None => return (kind, path, None),
            Some(Error::Recv(Cause::Codec(e))) => return (kind, path + "recv", Some(e)),
            Some(Error::Send(Cause::Codec(e))) => return (kind, path + "send", Some(e)),
            Some(Error::Recv(Cause::Io(inner))) => {
                path += "recv ";
                source = inner.source;
            }
            Some(Error::Send(Cause::Io(inner))) => {
                path += "send ";
                source = inner.source;
            }
        }
    }
}

fn other(path: &str, failure: Failure) -> (ErrorKind, String, Option<Failure>) {
    (ErrorKind::Other, path.to_string(), Some(failure))
}

fn simple(kind: ErrorKind) -> (ErrorKind, String, Option<Failure>) {
    (kind, String::new(), None)
}

// Framing

#[test]
fn fuse_dereferences_to_the_stream() {
    let mut fuse = Fuse::new(vec![1u8], codec());
    assert_eq!(*fuse, vec![1u8]);
    fuse.push(2);
    assert_eq!(fuse.t, vec![1u8, 2]);
    assert_eq!(fuse.u.encoded, 0);
}

#[test]
fn fuse_encodes_and_decodes_as_its_codec() {
    let mut fuse = Fuse::new("wire", codec());
    let mut buffer = BytesMut::new();
    assert_eq!(fuse.encode(7, &mut buffer), Ok(()));
    assert_eq!(fuse.encode(0, &mut buffer), Err("not taken"));
    assert_eq!(&buffer[..], [7u8]);
    assert_eq!(fuse.u.encoded, 1);
    assert_eq!(fuse.decode(&mut buffer), Ok(Some(7)));
    assert_eq!(fuse.decode(&mut buffer), Ok(None));
    assert_eq!(fuse.decode_eof(&mut buffer), Err("ended"));
    assert_eq!(fuse.t, "wire");
}

#[test]
fn framed_starts_with_empty_buffers() {
    let framed = Framed::new("wire", codec());
    assert!(framed.read_buffer.is_empty());
    assert!(framed.write_buffer.is_empty());
    let parts = framed.into_parts();
    assert_eq!(parts.io, "wire");
    assert_eq!(parts.codec.encoded, 0);
    assert!(parts.read_buffer.is_empty());
    assert!(parts.write_buffer.is_empty());
}

#[test]
fn framed_keeps_what_was_sent_until_it_is_written() {
    let mut framed = Framed::new("wire", codec());
    assert_eq!(framed.start_send(5), Ok(()));
    assert_eq!(framed.start_send(0), Err("not taken"));
    assert_eq!(framed.start_send(6), Ok(()));
    framed.read_buffer.extend_from_slice(&[9]);
    let parts = framed.into_parts();
    assert_eq!(&parts.write_buffer[..], [5u8, 6]);
    assert_eq!(&parts.read_buffer[..], [9u8]);
    assert_eq!(parts.codec.encoded, 2);
    assert_eq!(parts.io, "wire");
}

// Errors

#[test]
fn errors_say_which_half_failed() {
    let recv: Error<Failure> = Error::Recv("lost");
    let send: Error<Failure> = Error::Send("full");
    assert_eq!(recv.to_string(), "failed to recv on stream");
    assert_eq!(send.to_string(), "failed to send on stream");
    assert_eq!(recv.source(), Some(&"lost"));
    assert_eq!(send.source(), Some(&"full"));
}

#[test]
fn errors_are_reported_as_other() {
    let error = into_io_error(Error::Recv(Cause::Codec("lost")));
    assert_eq!(anatomy(error), other("recv", "lost"));
    let error: IoError<Failure> = IoError::from(ErrorKind::BrokenPipe);
    assert_eq!(anatomy(error), simple(ErrorKind::BrokenPipe));
}

// Handing over

#[test]
fn sending_waits_until_the_stream_is_ready() {
    let mut sending = Sending { framed: Framed::new("wire", codec()), message: Some(4u8) };
    assert!(matches!(sending.poll(Poll::Pending), Poll::Pending));
    assert_eq!(sending.message, Some(4));
    assert!(sending.framed.write_buffer.is_empty());
    assert!(matches!(sending.poll(Poll::Ready(Ok(()))), Poll::Ready(Ok(()))));
    assert_eq!(sending.message, None);
    assert_eq!(&sending.framed.write_buffer[..], [4u8]);
}

#[test]
fn sending_fails_with_the_stream_or_the_codec() {
    let mut sending = Sending { framed: Framed::new("wire", codec()), message: Some(0u8) };
    match sending.poll(Poll::Ready(Err("broken"))) {
        Poll::Ready(Err(e)) => assert_eq!(anatomy(e), other("send", "broken")),
        _ => panic!(),
    }
    assert_eq!(sending.message, Some(0));
    match sending.poll(Poll::Ready(Ok(()))) {
        Poll::Ready(Err(e)) => assert_eq!(anatomy(e), other("send", "not taken")),
        _ => panic!(),
    }
    assert_eq!(sending.message, None);
}

#[test]
fn sending_without_a_message_tells_how_the_stream_is() {
    let mut sending = Sending { framed: Framed::new("wire", codec()), message: None };
    assert!(matches!(sending.poll(Poll::Pending), Poll::Pending));
    match sending.poll(Poll::Ready(Err("broken"))) {
        Poll::Ready(Err(e)) => assert_eq!(anatomy(e), other("send", "broken")),
        _ => panic!(),
    }
    assert!(sending.framed.write_buffer.is_empty());
}

// Send

fn closing_send(message: u8) -> Send<&'static str, ByteCodec, CloseStream> {
    Send::new("wire", codec(), message).close_after_send()
}

fn returning_send(message: u8) -> Send<&'static str, ByteCodec, ReturnStream> {
    Send::new("wire", codec(), message)
}

#[test]
fn send_writes_closes_and_finishes_once() {
    let mut send = closing_send(3);
    assert_eq!(send.demand(), Demand::Ready);
    assert!(goes_on(send.poll_step(ready())));
    assert_eq!(send.demand(), Demand::Flush);
    assert_eq!(&send.framed().unwrap().write_buffer[..], [3u8]);
    assert!(goes_on(send.poll_step(flushed())));
    assert_eq!(send.demand(), Demand::Close);
    assert!(goes_on(send.poll_step(closed())));
    assert_eq!(send.demand(), Demand::Nothing);
    assert!(send.framed().is_none());
    assert!(finishes(send.poll_step(Outcome::Nothing)));
    assert_eq!(send.demand(), Demand::Poisoned);
}

#[test]
fn send_writes_and_gives_the_stream_back() {
    let mut send = returning_send(3);
    assert!(goes_on(send.poll_step(ready())));
    send.framed().unwrap().fuse.t = "used wire";
    assert_eq!(item(send.poll_step(flushed())), "used wire");
    assert!(finishes(send.poll_step(Outcome::Nothing)));
    assert_eq!(send.demand(), Demand::Nothing);
    assert!(finishes(send.poll_step(Outcome::Nothing)));
}

#[test]
fn send_blocks_where_it_is() {
    let mut send = closing_send(3);
    assert!(blocks(send.poll_step(Outcome::Ready(Poll::Pending))));
    assert_eq!(send.demand(), Demand::Ready);
    assert!(goes_on(send.poll_step(ready())));
    assert!(blocks(send.poll_step(Outcome::Flush(Poll::Pending))));
    assert_eq!(send.demand(), Demand::Flush);
    assert_eq!(send.framed().unwrap().fuse.u.encoded, 1);
    assert!(goes_on(send.poll_step(flushed())));
    assert!(blocks(send.poll_step(Outcome::Close(Poll::Pending))));
    assert_eq!(send.demand(), Demand::Close);
}

#[test]
fn send_fails_once() {
    let mut send = closing_send(3);
    let failure = error(send.poll_step(Outcome::Ready(Poll::Ready(Err("broken")))));
    assert_eq!(anatomy(failure), other("send send", "broken"));
    assert!(finishes(send.poll_step(Outcome::Nothing)));

    let mut send = closing_send(0);
    assert_eq!(anatomy(error(send.poll_step(ready()))), other("send send", "not taken"));
    assert!(finishes(send.poll_step(Outcome::Nothing)));

    let mut send = closing_send(3);
    assert!(goes_on(send.poll_step(ready())));
    let failure = error(send.poll_step(Outcome::Flush(Poll::Ready(Err("broken")))));
    assert_eq!(anatomy(failure), other("send", "broken"));
    assert!(finishes(send.poll_step(Outcome::Nothing)));

    let mut send = closing_send(3);
    assert!(goes_on(send.poll_step(ready())));
    assert!(goes_on(send.poll_step(flushed())));
    let failure = error(send.poll_step(Outcome::Close(Poll::Ready(Err("broken")))));
    assert_eq!(anatomy(failure), other("recv", "broken"));
    assert!(finishes(send.poll_step(Outcome::Nothing)));
}

#[test]
fn returning_send_fails_once() {
    let mut send = returning_send(0);
    assert_eq!(anatomy(error(send.poll_step(ready()))), other("send send", "not taken"));
    assert!(finishes(send.poll_step(Outcome::Nothing)));

    let mut send = returning_send(3);
    assert!(goes_on(send.poll_step(ready())));
    let failure = error(send.poll_step(Outcome::Flush(Poll::Ready(Err("broken")))));
    assert_eq!(anatomy(failure), other("send", "broken"));
    assert!(finishes(send.poll_step(Outcome::Nothing)));
}

#[test]
fn send_can_turn_to_closing_midway() {
    let mut send = returning_send(3);
    assert!(goes_on(send.poll_step(ready())));
    let mut send = send.close_after_send();
    assert_eq!(send.demand(), Demand::Flush);
    assert!(goes_on(send.poll_step(flushed())));
    assert_eq!(send.demand(), Demand::Close);
}

// SendRecv

fn closing_ask(message: u8) -> SendRecv<&'static str, ByteCodec, CloseStream> {
    SendRecv::new("wire", codec(), message).close_after_send()
}

fn returning_ask(message: u8) -> SendRecv<&'static str, ByteCodec, ReturnStream> {
    SendRecv::new("wire", codec(), message)
}

#[test]
fn ask_writes_receives_closes_and_finishes_once() {
    let mut ask = closing_ask(3);
    assert_eq!(ask.demand(), Demand::Ready);
    assert!(goes_on(ask.poll_step(ready())));
    assert_eq!(ask.demand(), Demand::Flush);
    assert_eq!(&ask.framed().unwrap().write_buffer[..], [3u8]);
    assert!(goes_on(ask.poll_step(flushed())));
    assert_eq!(ask.demand(), Demand::Next);
    assert!(blocks(ask.poll_step(Outcome::Next(Poll::Pending))));
    assert_eq!(item(ask.poll_step(next(9))), 9);
    assert_eq!(ask.demand(), Demand::Close);
    assert!(goes_on(ask.poll_step(closed())));
    assert!(finishes(ask.poll_step(Outcome::Nothing)));
    assert_eq!(ask.demand(), Demand::Poisoned);
}

#[test]
fn ask_gives_the_response_with_the_stream() {
    let mut ask = returning_ask(3);
    assert!(goes_on(ask.poll_step(ready())));
    assert!(goes_on(ask.poll_step(flushed())));
    ask.framed().unwrap().fuse.t = "used wire";
    assert_eq!(item(ask.poll_step(next(9))), (9, "used wire"));
    assert!(finishes(ask.poll_step(Outcome::Nothing)));
    assert!(finishes(ask.poll_step(Outcome::Nothing)));
}

#[test]
fn ask_fails_where_the_stream_ends() {
    let mut ask = closing_ask(3);
    assert!(goes_on(ask.poll_step(ready())));
    assert!(goes_on(ask.poll_step(flushed())));
    let failure = error(ask.poll_step(Outcome::Next(Poll::Ready(None))));
    assert_eq!(anatomy(failure), simple(ErrorKind::UnexpectedEof));
    assert_eq!(ask.demand(), Demand::Nothing);
    assert!(finishes(ask.poll_step(Outcome::Nothing)));
    assert_eq!(ask.demand(), Demand::Poisoned);

    let mut ask = returning_ask(3);
    assert!(goes_on(ask.poll_step(ready())));
    assert!(goes_on(ask.poll_step(flushed())));
    let failure = error(ask.poll_step(Outcome::Next(Poll::Ready(None))));
    assert_eq!(anatomy(failure), simple(ErrorKind::UnexpectedEof));
    assert!(finishes(ask.poll_step(Outcome::Nothing)));
}

#[test]
fn ask_fails_with_any_call() {
    let mut ask = closing_ask(0);
    assert_eq!(anatomy(error(ask.poll_step(ready()))), other("send send", "not taken"));
    assert!(finishes(ask.poll_step(Outcome::Nothing)));

    let mut ask = returning_ask(3);
    let failure = error(ask.poll_step(Outcome::Ready(Poll::Ready(Err("broken")))));
    assert_eq!(anatomy(failure), other("send send", "broken"));
    assert!(finishes(ask.poll_step(Outcome::Nothing)));

    let mut ask = closing_ask(3);
    assert!(goes_on(ask.poll_step(ready())));
    let failure = error(ask.poll_step(Outcome::Flush(Poll::Ready(Err("broken")))));
    assert_eq!(anatomy(failure), other("send", "broken"));
    assert!(finishes(ask.poll_step(Outcome::Nothing)));

    let mut ask = closing_ask(3);
    assert!(goes_on(ask.poll_step(ready())));
    assert!(goes_on(ask.poll_step(flushed())));
    let failure = error(ask.poll_step(Outcome::Next(Poll::Ready(Some(Err("lost"))))));
    assert_eq!(anatomy(failure), other("recv", "lost"));
    assert!(finishes(ask.poll_step(Outcome::Nothing)));

    let mut ask = returning_ask(3);
    assert!(goes_on(ask.poll_step(ready())));
    assert!(goes_on(ask.poll_step(flushed())));
    let failure = error(ask.poll_step(Outcome::Next(Poll::Ready(Some(Err("lost"))))));
    assert_eq!(anatomy(failure), other("recv", "lost"));
    assert!(finishes(ask.poll_step(Outcome::Nothing)));
}

#[test]
fn ask_reports_a_failure_to_close_after_the_response() {
    let mut ask = closing_ask(3);
    assert!(goes_on(ask.poll_step(ready())));
    assert!(goes_on(ask.poll_step(flushed())));
    assert_eq!(item(ask.poll_step(next(9))), 9);
    let failure = error(ask.poll_step(Outcome::Close(Poll::Ready(Err("broken")))));
    assert_eq!(anatomy(failure), other("recv", "broken"));
    assert!(finishes(ask.poll_step(Outcome::Nothing)));
}

#[test]
fn ask_gives_one_item_unless_closing_fails() {
    for fails in [false, true] {
        let mut ask = closing_ask(3);
        let mut items = 0;
        while ask.demand() != Demand::Poisoned {
            let outcome = match ask.demand() {
                Demand::Ready => ready(),
                Demand::Flush => flushed(),
                Demand::Next => next(9),
                Demand::Close if fails => Outcome::Close(Poll::Ready(Err("broken"))),
                Demand::Close => closed(),
                _ => Outcome::Nothing,
            };
            if let Step::Return(Poll::Ready(Some(item))) = ask.poll_step(outcome) {
                assert_eq!(item.is_ok(), items == 0);
                items += 1;
            }
        }
        assert_eq!(items, if fails { 2 } else { 1 });
    }
}

// RecvSend

type Slot = Shared<u8, u32>;

fn closing_answer() -> RecvSend<&'static str, ByteCodec, CloseStream> {
    RecvSend::new("wire", codec()).close_after_send()
}

fn returning_answer() -> RecvSend<&'static str, ByteCodec, ReturnStream> {
    RecvSend::new("wire", codec())
}

#[test]
fn answer_receives_writes_closes_and_finishes_once() {
    let mut slot = Slot::default();
    let mut answer = closing_answer();
    assert_eq!(answer.demand(), Demand::Next);
    assert!(blocks(answer.poll_step(&mut slot, 1, Outcome::Next(Poll::Pending))));
    let (request, responder) = item(answer.poll_step(&mut slot, 2, next(9)));
    assert_eq!(request, 9);
    assert_eq!(slot.waker, Some(2));
    assert_eq!(answer.demand(), Demand::Nothing);
    assert_eq!(responder.respond(&mut slot, 3), Some(2));
    assert_eq!(slot.message, Some(3));
    assert!(goes_on(answer.poll_step(&mut slot, 4, Outcome::Nothing)));
    assert_eq!(slot.message, None);
    assert_eq!(answer.demand(), Demand::Ready);
    assert!(goes_on(answer.poll_step(&mut slot, 5, ready())));
    assert_eq!(answer.demand(), Demand::Flush);
    assert_eq!(&answer.framed().unwrap().write_buffer[..], [3u8]);
    assert!(goes_on(answer.poll_step(&mut slot, 6, flushed())));
    assert_eq!(answer.demand(), Demand::Close);
    assert!(goes_on(answer.poll_step(&mut slot, 7, closed())));
    assert!(finishes(answer.poll_step(&mut slot, 8, Outcome::Nothing)));
    assert_eq!(answer.demand(), Demand::Poisoned);
}

#[test]
fn answer_waits_for_the_response_and_gives_the_stream_back() {
    let mut slot = Slot::default();
    let mut answer = returning_answer();
    let responder = match item(answer.poll_step(&mut slot, 1, next(9))) {
        Event::NewRequest { request, responder } => {
            assert_eq!(request, 9);
            responder
        }
        Event::Completed { .. } => panic!(),
    };
    assert_eq!(slot.waker, Some(1));
    assert!(blocks(answer.poll_step(&mut slot, 2, Outcome::Nothing)));
    assert!(blocks(answer.poll_step(&mut slot, 3, Outcome::Nothing)));
    assert_eq!(slot.waker, Some(3));
    assert_eq!(responder.respond(&mut slot, 4), Some(3));
    assert!(goes_on(answer.poll_step(&mut slot, 5, Outcome::Nothing)));
    assert!(goes_on(answer.poll_step(&mut slot, 6, ready())));
    assert_eq!(&answer.framed().unwrap().write_buffer[..], [4u8]);
    answer.framed().unwrap().fuse.t = "used wire";
    match item(answer.poll_step(&mut slot, 7, flushed())) {
        Event::Completed { stream } => assert_eq!(stream, "used wire"),
        Event::NewRequest { .. } => panic!(),
    }
    assert!(finishes(answer.poll_step(&mut slot, 8, Outcome::Nothing)));
    assert!(finishes(answer.poll_step(&mut slot, 9, Outcome::Nothing)));
}

#[test]
fn answer_breaks_when_the_responder_goes() {
    let mut slot = Slot::default();
    let mut answer = returning_answer();
    let responder = match item(answer.poll_step(&mut slot, 1, next(9))) {
        Event::NewRequest { responder, .. } => responder,
        Event::Completed { .. } => panic!(),
    };
    assert!(blocks(answer.poll_step(&mut slot, 2, Outcome::Nothing)));
    assert_eq!(responder.release(&mut slot), Some(2));
    let failure = error(answer.poll_step(&mut slot, 3, Outcome::Nothing));
    assert_eq!(anatomy(failure), simple(ErrorKind::BrokenPipe));
    assert!(finishes(answer.poll_step(&mut slot, 4, Outcome::Nothing)));

    let mut slot = Slot::default();
    let mut answer = closing_answer();
    let (_, responder) = item(answer.poll_step(&mut slot, 1, next(9)));
    assert_eq!(responder.release(&mut slot), Some(1));
    let failure = error(answer.poll_step(&mut slot, 2, Outcome::Nothing));
    assert_eq!(anatomy(failure), simple(ErrorKind::BrokenPipe));
    assert_eq!(answer.demand(), Demand::Close);
    assert!(goes_on(answer.poll_step(&mut slot, 3, closed())));
    assert!(finishes(answer.poll_step(&mut slot, 4, Outcome::Nothing)));

    let mut slot = Slot::default();
    let mut answer = closing_answer();
    let (_, responder) = item(answer.poll_step(&mut slot, 1, next(9)));
    assert!(blocks(answer.poll_step(&mut slot, 2, Outcome::Nothing)));
    assert!(blocks(answer.poll_step(&mut slot, 3, Outcome::Nothing)));
    assert_eq!(responder.release(&mut slot), Some(3));
    let failure = error(answer.poll_step(&mut slot, 4, Outcome::Nothing));
    assert_eq!(anatomy(failure), simple(ErrorKind::BrokenPipe));
    assert_eq!(answer.demand(), Demand::Close);
}

#[test]
fn closing_answer_waits_for_the_response() {
    let mut slot = Slot::default();
    let mut answer = closing_answer();
    let (_, responder) = item(answer.poll_step(&mut slot, 1, next(9)));
    assert_eq!(slot.waker, Some(1));
    assert!(blocks(answer.poll_step(&mut slot, 2, Outcome::Nothing)));
    assert!(blocks(answer.poll_step(&mut slot, 3, Outcome::Nothing)));
    assert_eq!(slot.waker, Some(3));
    assert_eq!(answer.state().name(), "RecvSendState::Waiting");
    assert_eq!(responder.respond(&mut slot, 4), Some(3));
    assert!(goes_on(answer.poll_step(&mut slot, 5, Outcome::Nothing)));
    assert!(goes_on(answer.poll_step(&mut slot, 6, ready())));
    assert_eq!(&answer.framed().unwrap().write_buffer[..], [4u8]);
    assert!(goes_on(answer.poll_step(&mut slot, 7, flushed())));
    assert_eq!(answer.demand(), Demand::Close);
}

#[test]
fn answer_leaves_the_slot_alone_once_it_has_the_response() {
    let mut slot = Slot::default();
    let mut answer = closing_answer();
    let (_, responder) = item(answer.poll_step(&mut slot, 1, next(9)));
    assert_eq!(responder.respond(&mut slot, 3), Some(1));
    assert!(goes_on(answer.poll_step(&mut slot, 2, Outcome::Nothing)));
    let mut other = Slot { message: Some(8), waker: Some(7) };
    assert!(goes_on(answer.poll_step(&mut other, 3, ready())));
    assert_eq!(&answer.framed().unwrap().write_buffer[..], [3u8]);
    assert!(goes_on(answer.poll_step(&mut other, 4, flushed())));
    assert!(goes_on(answer.poll_step(&mut other, 5, closed())));
    assert!(finishes(answer.poll_step(&mut other, 6, Outcome::Nothing)));
    assert_eq!((other.message, other.waker), (Some(8), Some(7)));
}

#[test]
fn answer_fails_to_receive() {
    let mut slot = Slot::default();
    let mut answer = closing_answer();
    let failure = error(answer.poll_step(&mut slot, 1, Outcome::Next(Poll::Ready(None))));
    assert_eq!(anatomy(failure), simple(ErrorKind::UnexpectedEof));
    assert_eq!(answer.demand(), Demand::Nothing);
    assert!(finishes(answer.poll_step(&mut slot, 2, Outcome::Nothing)));

    let mut answer = closing_answer();
    let lost = Outcome::Next(Poll::Ready(Some(Err("lost"))));
    assert_eq!(anatomy(error(answer.poll_step(&mut slot, 1, lost))), other("recv", "lost"));
    assert_eq!(answer.demand(), Demand::Nothing);
    assert!(finishes(answer.poll_step(&mut slot, 2, Outcome::Nothing)));

    let mut answer = returning_answer();
    let failure = error(answer.poll_step(&mut slot, 1, Outcome::Next(Poll::Ready(None))));
    assert_eq!(anatomy(failure), simple(ErrorKind::UnexpectedEof));
    assert!(finishes(answer.poll_step(&mut slot, 2, Outcome::Nothing)));

    let mut answer = returning_answer();
    let lost = Outcome::Next(Poll::Ready(Some(Err("lost"))));
    assert_eq!(anatomy(error(answer.poll_step(&mut slot, 1, lost))), other("recv", "lost"));
    assert!(finishes(answer.poll_step(&mut slot, 2, Outcome::Nothing)));
}

#[test]
fn closing_answer_fails_to_send() {
    let mut slot = Slot::default();
    let mut answer = closing_answer();
    let (_, responder) = item(answer.poll_step(&mut slot, 1, next(9)));
    assert_eq!(responder.respond(&mut slot, 0), Some(1));
    assert!(goes_on(answer.poll_step(&mut slot, 2, Outcome::Nothing)));
    let failure = error(answer.poll_step(&mut slot, 3, ready()));
    assert_eq!(anatomy(failure), other("send send", "not taken"));
    assert_eq!(answer.demand(), Demand::Close);
    let failure = error(answer.poll_step(&mut slot, 4, Outcome::Close(Poll::Ready(Err("stuck")))));
    assert_eq!(anatomy(failure), other("send", "stuck"));
    assert!(finishes(answer.poll_step(&mut slot, 5, Outcome::Nothing)));

    let mut answer = closing_answer();
    let (_, responder) = item(answer.poll_step(&mut slot, 1, next(9)));
    assert_eq!(responder.respond(&mut slot, 3), Some(1));
    assert!(goes_on(answer.poll_step(&mut slot, 2, Outcome::Nothing)));
    assert!(blocks(answer.poll_step(&mut slot, 3, Outcome::Ready(Poll::Pending))));
    assert!(goes_on(answer.poll_step(&mut slot, 4, ready())));
    assert!(blocks(answer.poll_step(&mut slot, 5, Outcome::Flush(Poll::Pending))));
    let failure = error(answer.poll_step(&mut slot, 6, Outcome::Flush(Poll::Ready(Err("stuck")))));
    assert_eq!(anatomy(failure), other("send", "stuck"));
    assert!(finishes(answer.poll_step(&mut slot, 7, Outcome::Nothing)));
}

#[test]
fn returning_answer_fails_to_send() {
    for response in [0u8, 3] {
        let mut slot = Slot::default();
        let mut answer = returning_answer();
        let responder = match item(answer.poll_step(&mut slot, 1, next(9))) {
            Event::NewRequest { responder, .. } => responder,
            Event::Completed { .. } => panic!(),
        };
        assert_eq!(responder.respond(&mut slot, response), Some(1));
        assert!(goes_on(answer.poll_step(&mut slot, 2, Outcome::Nothing)));
        if response == 0 {
            let failure = error(answer.poll_step(&mut slot, 3, ready()));
            assert_eq!(anatomy(failure), other("send send", "not taken"));
        } else {
            assert!(goes_on(answer.poll_step(&mut slot, 3, ready())));
            let stuck = Outcome::Flush(Poll::Ready(Err("stuck")));
            assert_eq!(anatomy(error(answer.poll_step(&mut slot, 4, stuck))), other("send", "stuck"));
        }
        assert!(finishes(answer.poll_step(&mut slot, 5, Outcome::Nothing)));
    }
}

#[test]
fn aborted_answer_has_finished() {
    let mut slot = Slot::default();
    let mut answer = returning_answer();
    assert!(answer.framed().is_some());
    answer.abort();
    assert!(answer.framed().is_none());
    assert!(finishes(answer.poll_step(&mut slot, 1, Outcome::Nothing)));
    assert!(finishes(answer.poll_step(&mut slot, 2, Outcome::Nothing)));
}

#[test]
fn answer_names_its_state() {
    let mut slot = Slot::default();
    let mut answer = closing_answer();
    assert_eq!(answer.state().name(), "RecvSendState::Receiving");
    let (_, responder) = item(answer.poll_step(&mut slot, 1, next(9)));
    assert_eq!(answer.state().name(), "RecvSendState::Waiting");
    responder.respond(&mut slot, 3);
    answer.poll_step(&mut slot, 2, Outcome::Nothing);
    assert_eq!(answer.state().name(), "RecvSendState::Sending");
    answer.poll_step(&mut slot, 3, ready());
    assert_eq!(answer.state().name(), "RecvSendState::Flushing");
    answer.poll_step(&mut slot, 4, flushed());
    assert_eq!(answer.state().name(), "RecvSendState::Closing");
    answer.poll_step(&mut slot, 5, closed());
    assert_eq!(answer.state().name(), "RecvSendState::Done");
    answer.poll_step(&mut slot, 6, Outcome::Nothing);
    assert_eq!(answer.state().name(), "RecvSendState::Poisoned");
}

#[test]
fn request_starts_with_a_fresh_slot() {
    let mut slot = Slot { message: Some(8), waker: Some(7) };
    let mut answer = returning_answer();
    item(answer.poll_step(&mut slot, 1, next(9)));
    assert_eq!(slot.message, None);
    assert_eq!(slot.waker, Some(1));
    match answer.state() {
        RecvSendState::Waiting(_, framed) => assert_eq!(framed.fuse.t, "wire"),
        _ => panic!(),
    }

    let mut slot = Slot { message: Some(8), waker: Some(7) };
    let mut answer = closing_answer();
    item(answer.poll_step(&mut slot, 1, next(9)));
    assert_eq!(slot.message, None);
    assert_eq!(slot.waker, Some(1));
}

#[test]
fn answer_can_turn_to_closing_while_it_waits() {
    let mut slot = Slot::default();
    let mut answer = returning_answer();
    let responder = match item(answer.poll_step(&mut slot, 1, next(9))) {
        Event::NewRequest { responder, .. } => responder,
        Event::Completed { .. } => panic!(),
    };
    let mut answer = answer.close_after_send();
    assert!(blocks(answer.poll_step(&mut slot, 2, Outcome::Nothing)));
    assert_eq!(responder.respond(&mut slot, 3), Some(2));
    assert!(goes_on(answer.poll_step(&mut slot, 3, Outcome::Nothing)));
    assert!(goes_on(answer.poll_step(&mut slot, 4, ready())));
    assert!(goes_on(answer.poll_step(&mut slot, 5, flushed())));
    assert_eq!(answer.demand(), Demand::Close);
}
