use asynchronous_codec::{
    CloseStream, Decoder, Demand, Encoder, ErrorKind, Event, Framed, IoError, Outcome, RecvSend,
    Responder, ReturnStream, SendRecv, Shared, Step,
};
use bytes::{Buf, BytesMut};
use futures::channel::oneshot;
use futures::executor::{block_on, LocalPool};
use futures::io::{AsyncRead, AsyncReadExt, AsyncWrite, AsyncWriteExt};
use futures::stream::{SelectAll, Stream, StreamExt};
use futures::task::LocalSpawnExt;
use futures::FutureExt;
use futures_ringbuf::Endpoint;
use std::io;
use std::iter::FromIterator;
use std::pin::Pin;
use std::sync::{Arc, Mutex};
use std::task::{Context, Poll, Waker};

/// Messages are lines, with their line ends.
#[derive(Debug)]
struct LinesCodec;

impl Encoder for LinesCodec {
    type Item = String;
    type Error = io::Error;

    fn encode(&mut self, item: String, dst: &mut BytesMut) -> Result<(), io::Error> {
        dst.extend_from_slice(item.as_bytes());
        Ok(())
    }
}

impl Decoder for LinesCodec {
    type Item = String;
    type Error = io::Error;

    fn decode(&mut self, src: &mut BytesMut) -> Result<Option<String>, io::Error> {
        match src.iter().position(|byte| *byte == b'\n') {
            Some(end) => String::from_utf8(src.split_to(end + 1).to_vec())
                .map(Some)
                .map_err(|e| io::Error::new(io::ErrorKind::InvalidData, e)),
            None => Ok(None),
        }
    }

    fn decode_eof(&mut self, src: &mut BytesMut) -> Result<Option<String>, io::Error> {
        self.decode(src)
    }
}

type Lines = Framed<Endpoint, LinesCodec>;

fn poll_flush(framed: &mut Lines, cx: &mut Context<'_>) -> Poll<Result<(), io::Error>> {
    while !framed.write_buffer.is_empty() {
        match Pin::new(&mut *framed.fuse).poll_write(cx, &framed.write_buffer) {
            Poll::Ready(Ok(n)) => framed.write_buffer.advance(n),
            Poll::Ready(Err(e)) => return Poll::Ready(Err(e)),
            Poll::Pending => return Poll::Pending,
        }
    }
    Pin::new(&mut *framed.fuse).poll_flush(cx)
}

fn poll_close(framed: &mut Lines, cx: &mut Context<'_>) -> Poll<Result<(), io::Error>> {
    match poll_flush(framed, cx) {
        Poll::Ready(Ok(())) => Pin::new(&mut *framed.fuse).poll_close(cx),
        other => other,
    }
}

fn poll_next(
    framed: &mut Lines,
    cx: &mut Context<'_>,
) -> Poll<Option<Result<String, io::Error>>> {
    loop {
        match framed.fuse.decode(&mut framed.read_buffer) {
            Ok(Some(line)) => return Poll::Ready(Some(Ok(line))),
            Ok(None) => {}
            Err(e) => return Poll::Ready(Some(Err(e))),
        }
        let mut chunk = [0u8; 16];
        match Pin::new(&mut *framed.fuse).poll_read(cx, &mut chunk) {
            Poll::Ready(Ok(0)) => return Poll::Ready(None),
            Poll::Ready(Ok(n)) => framed.read_buffer.extend_from_slice(&chunk[..n]),
            Poll::Ready(Err(e)) => return Poll::Ready(Some(Err(e))),
            Poll::Pending => return Poll::Pending,
        }
    }
}

fn told<T>(poll: Poll<T>) -> asynchronous_codec::Poll<T> {
    match poll {
        Poll::Ready(value) => asynchronous_codec::Poll::Ready(value),
        Poll::Pending => asynchronous_codec::Poll::Pending,
    }
}

fn heard<T>(poll: asynchronous_codec::Poll<T>) -> Poll<T> {
    match poll {
        asynchronous_codec::Poll::Ready(value) => Poll::Ready(value),
        asynchronous_codec::Poll::Pending => Poll::Pending,
    }
}

fn meet(
    demand: Demand,
    framed: Option<&mut Lines>,
    cx: &mut Context<'_>,
) -> Outcome<String, io::Error> {
    match (demand, framed) {
        (Demand::Ready, Some(_)) => Outcome::Ready(asynchronous_codec::Poll::Ready(Ok(()))),
        (Demand::Flush, Some(framed)) => Outcome::Flush(told(poll_flush(framed, cx))),
        (Demand::Next, Some(framed)) => Outcome::Next(told(poll_next(framed, cx))),
        (Demand::Close, Some(framed)) => Outcome::Close(told(poll_close(framed, cx))),
        (Demand::Nothing, _) => Outcome::Nothing,
        _ => unreachable!(),
    }
}

type Slot = Arc<Mutex<Shared<String, Waker>>>;

/// The right to respond, with the slot that the response goes through.
struct Answer {
    right: Option<Responder<String>>,
    slot: Slot,
}

impl Answer {
    fn respond(mut self, response: String) {
        let right = self.right.take().unwrap();
        let waker = right.respond(&mut self.slot.lock().unwrap(), response);
        if let Some(waker) = waker {
            waker.wake();
        }
    }
}

impl Drop for Answer {
    fn drop(&mut self) {
        if let Some(right) = self.right.take() {
            let waker = right.release(&mut self.slot.lock().unwrap());
            if let Some(waker) = waker {
                waker.wake();
            }
        }
    }
}

struct Closing {
    pattern: RecvSend<Endpoint, LinesCodec, CloseStream>,
    slot: Slot,
}

impl Closing {
    fn new(client: Endpoint) -> Self {
        Closing {
            pattern: RecvSend::new(client, LinesCodec).close_after_send(),
            slot: Arc::new(Mutex::new(Shared::default())),
        }
    }
}

impl Stream for Closing {
    type Item = Result<(String, Answer), IoError<io::Error>>;

    fn poll_next(self: Pin<&mut Self>, cx: &mut Context<'_>) -> Poll<Option<Self::Item>> {
        let this = self.get_mut();
        loop {
            let demand = this.pattern.demand();
            let outcome = meet(demand, this.pattern.framed(), cx);
            let step = {
                let mut shared = this.slot.lock().unwrap();
                this.pattern.poll_step(&mut shared, cx.waker().clone(), outcome)
            };
            if let Step::Return(poll) = step {
                let slot = this.slot.clone();
                return heard(poll).map(|item| {
                    item.map(|item| {
                        item.map(|(request, right)| {
                            (request, Answer { right: Some(right), slot })
                        })
                    })
                });
            }
        }
    }
}

struct Returning {
    pattern: RecvSend<Endpoint, LinesCodec, ReturnStream>,
    slot: Slot,
}

enum Happening {
    NewRequest { request: String, responder: Answer },
    Completed { stream: Endpoint },
}

impl Stream for Returning {
    type Item = Result<Happening, IoError<io::Error>>;

    fn poll_next(self: Pin<&mut Self>, cx: &mut Context<'_>) -> Poll<Option<Self::Item>> {
        let this = self.get_mut();
        loop {
            let demand = this.pattern.demand();
            let outcome = meet(demand, this.pattern.framed(), cx);
            let step = {
                let mut shared = this.slot.lock().unwrap();
                this.pattern.poll_step(&mut shared, cx.waker().clone(), outcome)
            };
            if let Step::Return(poll) = step {
                let slot = this.slot.clone();
                return heard(poll).map(|item| {
                    item.map(|item| {
                        item.map(|event| match event {
                            Event::NewRequest { request, responder } => Happening::NewRequest {
                                request,
                                responder: Answer { right: Some(responder), slot },
                            },
                            Event::Completed { stream } => Happening::Completed { stream },
                        })
                    })
                });
            }
        }
    }
}

struct Asking {
    pattern: SendRecv<Endpoint, LinesCodec, CloseStream>,
}

impl Asking {
    fn new(client: Endpoint, message: &str) -> Self {
        Asking {
            pattern: SendRecv::new(client, LinesCodec, message.to_owned()).close_after_send(),
        }
    }
}

impl Stream for Asking {
    type Item = Result<String, IoError<io::Error>>;

    fn poll_next(self: Pin<&mut Self>, cx: &mut Context<'_>) -> Poll<Option<Self::Item>> {
        let this = self.get_mut();
        loop {
            let demand = this.pattern.demand();
            let outcome = meet(demand, this.pattern.framed(), cx);
            if let Step::Return(poll) = this.pattern.poll_step(outcome) {
                return heard(poll);
            }
        }
    }
}

#[test]
fn smoke_recv_send() {
    block_on(async {
        let (client, mut server) = Endpoint::pair(100, 100);
        server.write_all(b"hello\n").await.unwrap();

        let mut stream = Closing::new(client);
        let (message, responder) = stream.next().await.unwrap().unwrap();

        assert_eq!(message, "hello\n");

        responder.respond("world\n".to_owned());
        let _ = stream.next().await;

        let mut buffer = Vec::new();
        server.read_to_end(&mut buffer).await.unwrap();

        assert_eq!(buffer, b"world\n");
    });
}

#[test]
fn smoke_send_recv() {
    block_on(async {
        let (client, mut server) = Endpoint::pair(100, 100);

        let mut stream = Asking::new(client, "hello\n");
        server.write_all(b"world\n").await.unwrap();

        let message = stream.next().await.unwrap().unwrap();
        let _ = stream.next().now_or_never().unwrap();

        let mut buffer = Vec::new();
        server.read_to_end(&mut buffer).await.unwrap();

        assert_eq!(buffer, b"hello\n");
        assert_eq!(message, "world\n");
    });
}

#[test]
fn no_response() {
    block_on(async {
        let (client, mut server) = Endpoint::pair(100, 100);
        server.write_all(b"hello\n").await.unwrap();

        let mut stream = Closing::new(client);
        let (message, responder) = stream.next().await.unwrap().unwrap();

        assert_eq!(message, "hello\n");

        // Drop without sending a response.
        drop(responder);
        match stream.next().await.unwrap() {
            Err(e) => assert_eq!(e.kind, ErrorKind::BrokenPipe),
            Ok(_) => panic!(),
        }
    });
}

#[test]
fn runtime_driven() {
    let (client, mut server) = Endpoint::pair(100, 100);
    block_on(server.write_all(b"hello\n")).unwrap();

    let mut stream = Returning {
        pattern: RecvSend::new(client, LinesCodec),
        slot: Arc::new(Mutex::new(Shared::default())),
    };

    let (request, responder) = match block_on(stream.next()).unwrap() {
        Ok(Happening::NewRequest { request, responder }) => (request, responder),
        _ => panic!(),
    };

    assert_eq!(request, "hello\n");

    let (tx, mut rx) = oneshot::channel();

    let mut pool = LocalPool::new();
    pool.spawner()
        .spawn_local(async move {
            match stream.next().await.unwrap() {
                Ok(Happening::Completed { stream }) => assert!(tx.send(stream).is_ok()),
                _ => panic!(),
            }
        })
        .unwrap();

    // The task waits while the response is computed.
    pool.run_until_stalled();
    assert!(rx.try_recv().unwrap().is_none());

    responder.respond("world\n".to_owned());
    let mut returned = pool.run_until(rx).unwrap();
    block_on(returned.close()).unwrap();

    let mut buffer = Vec::new();
    block_on(server.read_to_end(&mut buffer)).unwrap();

    assert_eq!(buffer, b"world\n");
}

#[test]
fn select_all() {
    block_on(async {
        let (client1, mut server1) = Endpoint::pair(100, 100);
        server1.write_all(b"hello1\n").await.unwrap();

        let (client2, mut server2) = Endpoint::pair(100, 100);
        server2.write_all(b"hello2\n").await.unwrap();

        let mut streams = SelectAll::from_iter([Closing::new(client1), Closing::new(client2)]);

        let (_request, responder) = streams.next().await.unwrap().unwrap();
        responder.respond("world1\n".to_owned());
        let (_request, responder) = streams.next().await.unwrap().unwrap();
        responder.respond("world2\n".to_owned());

        streams.next().await;

        drop(streams);

        let mut buffer1 = Vec::new();
        server1.read_to_end(&mut buffer1).await.unwrap();

        let mut buffer2 = Vec::new();
        server2.read_to_end(&mut buffer2).await.unwrap();

        assert_eq!(buffer1, b"world1\n");
        assert_eq!(buffer2, b"world2\n");
    });
}

#[test]
fn select_all_waits_for_late_responses() {
    let (client1, mut server1) = Endpoint::pair(100, 100);
    block_on(server1.write_all(b"hello1\n")).unwrap();

    let (client2, mut server2) = Endpoint::pair(100, 100);
    block_on(server2.write_all(b"hello2\n")).unwrap();

    let mut streams = SelectAll::from_iter([Closing::new(client1), Closing::new(client2)]);

    // Both requests are given before there is a response to either.
    let (request1, responder1) = block_on(streams.next()).unwrap().unwrap();
    let (request2, responder2) = block_on(streams.next()).unwrap().unwrap();
    assert!(streams.next().now_or_never().is_none());

    responder2.respond(request2.replace("hello", "world"));
    assert!(streams.next().now_or_never().is_none());
    responder1.respond(request1.replace("hello", "world"));
    assert!(block_on(streams.next()).is_none());

    let mut buffer1 = Vec::new();
    block_on(server1.read_to_end(&mut buffer1)).unwrap();

    let mut buffer2 = Vec::new();
    block_on(server2.read_to_end(&mut buffer2)).unwrap();

    assert_eq!(buffer1, b"world1\n");
    assert_eq!(buffer2, b"world2\n");
}

#[test]
fn select_all_goes_on_after_errors() {
    let (client1, mut server1) = Endpoint::pair(100, 100);
    block_on(server1.close()).unwrap();

    let (client2, mut server2) = Endpoint::pair(100, 100);
    block_on(server2.write_all(b"hello2\n")).unwrap();

    let mut streams = SelectAll::from_iter([Closing::new(client1), Closing::new(client2)]);

    let mut responders = Vec::new();
    let mut errors = Vec::new();
    for _ in 0..2 {
        match block_on(streams.next()).unwrap() {
            Ok((_, responder)) => responders.push(responder),
            Err(e) => errors.push(e.kind),
        }
    }
    assert_eq!(errors, [ErrorKind::UnexpectedEof]);

    // The responder goes without a response, and the stream is closed all the same.
    assert!(streams.next().now_or_never().is_none());
    drop(responders);
    match block_on(streams.next()).unwrap() {
        Err(e) => assert_eq!(e.kind, ErrorKind::BrokenPipe),
        Ok(_) => panic!(),
    }
    assert!(block_on(streams.next()).is_none());

    let mut buffer2 = Vec::new();
    block_on(server2.read_to_end(&mut buffer2)).unwrap();
    assert!(buffer2.is_empty());
}

#[test]
fn select_all_asks_where_a_stream_ends() {
    let (client1, mut server1) = Endpoint::pair(100, 100);
    block_on(server1.close()).unwrap();

    let (client2, mut server2) = Endpoint::pair(100, 100);
    block_on(server2.write_all(b"world2\n")).unwrap();

    let mut streams =
        SelectAll::from_iter([Asking::new(client1, "hello1\n"), Asking::new(client2, "hello2\n")]);

    let mut failed = 0;
    let mut answers = Vec::new();
    while let Some(item) = block_on(streams.next()) {
        match item {
            Ok(answer) => answers.push(answer),
            Err(_) => failed += 1,
        }
    }
    assert_eq!(failed, 1);
    assert_eq!(answers, ["world2\n"]);
}
