# asynchronous-codec

Message patterns over framed byte streams, verified with Verus.

- `Send` sends one message.
- `SendRecv` sends a request and receives the response.
- `RecvSend` receives a request and sends the response, which a `Responder` puts into a slot.

Each pattern either closes its stream at the end (`CloseStream`) or gives it back (`ReturnStream`).

## Layout

- `src/` is the verified library. The patterns are state machines without input or output: a pattern
  says which call it needs on its framed stream, takes what the call gave, and answers. Each has a
  relation `steps`, which is the contract of its `poll_step`. `src/laws/` states and proves what
  holds of whole runs.
- `app/` drives the patterns over `futures` streams: it makes the calls on the stream and wakes the
  tasks that wait.
- `tests/` runs the patterns step by step, and over in-memory streams.

## What the proofs rely on

- Of the `bytes` crate: that `BytesMut::new` gives an empty buffer. The type is otherwise opaque to
  the proofs, with a name for the bytes that it holds (`src/buffer.rs`).
- Codecs. `Encoder` and `Decoder` are for users to implement, and their contracts say what an
  implementation does to its buffer over relations of its own. A codec that is written without Verus
  is not checked against them.
- Callers. A pattern is to be given the outcome of the call that it demanded, and is not to be
  polled any more once it says so. `app/` looks at the demand before every step to keep to that, but
  is ordinary Rust, which Verus does not read.
