//! Laws of the recv-send pattern.

use crate::buffer::contents;
use crate::decoder::Decoder;
use crate::encoder::Encoder;
use crate::framed::Framed;
use crate::io_error::{Cause, ErrorKind, IoError};
use crate::laws::errors::{says, says_only, says_twice};
use crate::laws::wire::{lemma_sent_once, only_writes, sent};
use crate::message_patterns::{CloseStream, Error, ReturnStream, Sending};
use crate::poll::{Outcome, Poll, Step};
use crate::recvsend::{Event, RecvSend, RecvSendState, Responder, Shared};
use crate::run::{is_run, lemma_entered, lemma_stages_rise, Turn};
use vstd::prelude::*;

verus! {

/// What a step of a [`RecvSend`] is given, with the slot as it leaves it.
pub struct SlotInput<In, E, M, W> {
    /// The slot before the step.
    pub slot: Shared<M, W>,
    /// The waker of the task that polls.
    pub waker: W,
    /// What the call on the framed stream has given.
    pub outcome: Outcome<In, E>,
    /// The slot after the step.
    pub slot_after: Shared<M, W>,
}

/// A turn of a [`RecvSend`] that gives items of type `T`.
pub type RecvSendTurn<S, C, W, T> = Turn<
    RecvSendState<S, C>,
    SlotInput<<C as Decoder>::Item, <C as Encoder>::Error, <C as Encoder>::Item, W>,
    Result<T, IoError<<C as Encoder>::Error>>,
>;

/// A turn of a [`RecvSend`] that closes its stream.
pub type ClosingTurn<S, C, W> = RecvSendTurn<
    S,
    C,
    W,
    (<C as Decoder>::Item, Responder<<C as Encoder>::Item>),
>;

/// A turn of a [`RecvSend`] that returns its stream.
pub type ReturningTurn<S, C, W> = RecvSendTurn<
    S,
    C,
    W,
    Event<<C as Decoder>::Item, <C as Encoder>::Item, S>,
>;

/// How far a state is: receiving, waiting, sending, flushing, closing, done, and then not to be
/// polled any more.
pub open spec fn stage<S, C: Encoder>(state: RecvSendState<S, C>) -> int {
    match state {
        RecvSendState::Receiving { .. } => 0,
        RecvSendState::Waiting(_, _) => 1,
        RecvSendState::Sending(_) => 2,
        RecvSendState::Flushing { .. } => 3,
        RecvSendState::Closing { .. } => 4,
        RecvSendState::Done => 5,
        RecvSendState::Poisoned => 6,
    }
}

/// The [`stage`] of an exchange that returns its stream, which can be aborted at any time.
pub open spec fn return_stage<S, C: Encoder>(state: RecvSendState<S, C>) -> int {
    if state is Poisoned {
        5
    } else {
        stage(state)
    }
}

/// Between two steps only the framed stream may change, through the calls made on it.
pub open spec fn resumes<S, C: Encoder>() -> spec_fn(
    RecvSendState<S, C>,
    RecvSendState<S, C>,
) -> bool {
    |after: RecvSendState<S, C>, before: RecvSendState<S, C>|
        before == after.with_framed(before.framed()->0)
}

/// Between two steps of an exchange that returns its stream, the framed stream may change, or the
/// exchange may be aborted.
pub open spec fn resumes_or_aborts<S, C: Encoder>() -> spec_fn(
    RecvSendState<S, C>,
    RecvSendState<S, C>,
) -> bool {
    |after: RecvSendState<S, C>, before: RecvSendState<S, C>|
        before == after.with_framed(before.framed()->0) || before is Done
}

/// The codec is handed the response in this turn.
pub open spec fn hands_over<S, C, W, T>(turn: RecvSendTurn<S, C, W, T>) -> bool where
    C: Encoder + Decoder<Error = <C as Encoder>::Error>,
 {
    turn.before is Sending && turn.input.outcome matches Outcome::Ready(Poll::Ready(Ok(())))
}

/// All that was handed over has been written in this turn.
pub open spec fn flushes<S, C, W, T>(turn: RecvSendTurn<S, C, W, T>) -> bool where
    C: Encoder + Decoder<Error = <C as Encoder>::Error>,
 {
    turn.before is Flushing && turn.input.outcome matches Outcome::Flush(Poll::Ready(Ok(())))
}

/// The response is taken out of the slot in this turn.
pub open spec fn takes<S, C, W, T>(
    turn: RecvSendTurn<S, C, W, T>,
    response: <C as Encoder>::Item,
) -> bool where
    C: Encoder + Decoder<Error = <C as Encoder>::Error>,
 {
    turn.before is Waiting && turn.input.slot.message == Some(response)
}

/// A request is received in this turn.
pub open spec fn receives<S, C, W, T>(turn: RecvSendTurn<S, C, W, T>) -> bool where
    C: Encoder + Decoder<Error = <C as Encoder>::Error>,
 {
    turn.before is Receiving && turn.input.outcome matches Outcome::Next(
        Poll::Ready(Some(Ok(_))),
    )
}

/// The exchange waits after this turn, with an empty slot in which the waker of this turn is
/// parked.
pub open spec fn parked<S, C, W, T>(turn: RecvSendTurn<S, C, W, T>) -> bool where
    C: Encoder + Decoder<Error = <C as Encoder>::Error>,
 {
    turn.after is Waiting && turn.input.slot_after.message is None
        && turn.input.slot_after.waker == Some(turn.input.waker)
}

/// Up to turn `n`, nobody but the exchange itself touches the slot.
pub open spec fn undisturbed<S, C, W, T>(turns: Seq<RecvSendTurn<S, C, W, T>>, n: int) -> bool where
    C: Encoder + Decoder<Error = <C as Encoder>::Error>,
 {
    forall|i: int, j: int|
        0 <= i && j == i + 1 && j <= n ==> (#[trigger] turns[j]).input.slot == (
        #[trigger] turns[i]).input.slot_after
}

/// The codec is handed `message` in this turn, and takes it.
pub open spec fn took<S, C, W, T>(
    turn: RecvSendTurn<S, C, W, T>,
    message: <C as Encoder>::Item,
) -> bool where
    C: Encoder + Decoder<Error = <C as Encoder>::Error>,
 {
    &&& hands_over(turn)
    &&& turn.before->Sending_0.message == Some(message)
    &&& turn.after is Flushing
    &&& turn.before.framed()->0.accepts(message, Ok(()), turn.after.framed()->0)
}

/// The stream is closed in this turn.
pub open spec fn closes<S, C, W, T>(turn: RecvSendTurn<S, C, W, T>) -> bool where
    C: Encoder + Decoder<Error = <C as Encoder>::Error>,
 {
    turn.before is Closing && turn.input.outcome matches Outcome::Close(Poll::Ready(Ok(())))
}

/// Whether a turn takes the step of a pattern that closes its stream.
pub open spec fn close_steps<S, C, W>() -> spec_fn(ClosingTurn<S, C, W>) -> bool where
    C: Encoder + Decoder<Error = <C as Encoder>::Error>,
 {
    |turn: ClosingTurn<S, C, W>|
        RecvSend::<S, C, CloseStream>::steps(
            turn.before,
            turn.input.slot,
            turn.input.waker,
            turn.input.outcome,
            turn.step,
            turn.after,
            turn.input.slot_after,
        )
}

/// The turns of a [`RecvSend`] that closes its stream.
pub open spec fn close_run<S, C, W>(turns: Seq<ClosingTurn<S, C, W>>) -> bool where
    C: Encoder + Decoder<Error = <C as Encoder>::Error>,
 {
    is_run(turns, close_steps::<S, C, W>(), resumes::<S, C>())
}

/// Whether a turn takes the step of a pattern that returns its stream.
pub open spec fn return_steps<S, C, W>() -> spec_fn(ReturningTurn<S, C, W>) -> bool where
    C: Encoder + Decoder<Error = <C as Encoder>::Error>,
 {
    |turn: ReturningTurn<S, C, W>|
        RecvSend::<S, C, ReturnStream>::steps(
            turn.before,
            turn.input.slot,
            turn.input.waker,
            turn.input.outcome,
            turn.step,
            turn.after,
            turn.input.slot_after,
        )
}

/// The turns of a [`RecvSend`] that returns its stream.
pub open spec fn return_run<S, C, W>(turns: Seq<ReturningTurn<S, C, W>>) -> bool where
    C: Encoder + Decoder<Error = <C as Encoder>::Error>,
 {
    is_run(turns, return_steps::<S, C, W>(), resumes_or_aborts::<S, C>())
}

/// The answer that gives `item`.
pub open spec fn answers<T, F>(item: Result<T, F>) -> Step<Result<T, F>> {
    Step::Return(Poll::Ready(Some(item)))
}

/// A closing exchange gives one request at most, and nothing before it.
pub proof fn close_gives_at_most_one_request<S, C, W>(turns: Seq<ClosingTurn<S, C, W>>) where
    C: Encoder + Decoder<Error = <C as Encoder>::Error>,

    requires
        close_run(turns),
    ensures
        forall|i: int, j: int|
            0 <= i < j < turns.len() && #[trigger] turns[i].gives() ==> !(
            #[trigger] turns[j].succeeds()),
{
    let steps = close_steps::<S, C, W>();
    lemma_stages_rise(turns, steps, resumes(), |state| stage::<S, C>(state));
    assert forall|i: int, j: int|
        0 <= i < j < turns.len() && #[trigger] turns[i].gives() implies !(
    #[trigger] turns[j].succeeds()) by {
        assert(steps(turns[i]) && steps(turns[j]));
    }
}

/// A closing exchange looks for a response only after it has received the request.
pub proof fn close_waits_after_request<S, C, W>(turns: Seq<ClosingTurn<S, C, W>>, j: int) where
    C: Encoder + Decoder<Error = <C as Encoder>::Error>,

    requires
        close_run(turns),
        0 <= j < turns.len(),
        turns[0].before is Receiving,
        turns[j].before is Waiting,
    ensures
        exists|i: int| 0 <= i < j && #[trigger] receives(turns[i]),
{
    let inside = |state: RecvSendState<S, C>| state is Waiting;
    let i = lemma_entered(turns, close_steps(), resumes(), inside, j);
    assert(receives(turns[i]));
}

/// A closing exchange sends only what was put into its slot: the response that waits to be handed
/// over was taken out of the slot in an earlier turn.
pub proof fn close_sends_what_was_given<S, C, W>(
    turns: Seq<ClosingTurn<S, C, W>>,
    j: int,
) where
    C: Encoder + Decoder<Error = <C as Encoder>::Error>,

    requires
        close_run(turns),
        0 <= j < turns.len(),
        turns[0].before is Receiving,
        turns[j].before is Sending,
    ensures
        exists|i: int|
            0 <= i < j && #[trigger] takes(turns[i], turns[j].before->Sending_0.message->0),
        turns[j].before->Sending_0.message is Some,
{
    let message = turns[j].before->Sending_0.message;
    let inside = |state: RecvSendState<S, C>|
        state is Sending && state->Sending_0.message == message;
    let i = lemma_entered(turns, close_steps(), resumes(), inside, j);
    assert(takes(turns[i], message->0));
}

/// In a closing exchange the codec is handed a response once at most.
pub proof fn close_hands_over_once<S, C, W>(turns: Seq<ClosingTurn<S, C, W>>) where
    C: Encoder + Decoder<Error = <C as Encoder>::Error>,

    requires
        close_run(turns),
    ensures
        forall|i: int, j: int|
            0 <= i < j < turns.len() && #[trigger] hands_over(turns[i]) ==> !(
            #[trigger] hands_over(turns[j])),
{
    let steps = close_steps::<S, C, W>();
    lemma_stages_rise(turns, steps, resumes(), |state| stage::<S, C>(state));
    assert forall|i: int, j: int|
        0 <= i < j < turns.len() && #[trigger] hands_over(turns[i]) implies !(
    #[trigger] hands_over(turns[j])) by {
        assert(steps(turns[i]) && steps(turns[j]));
    }
}

/// A poll of a closing exchange ends: it goes on for four steps in a row at most.
pub proof fn close_polls_end<S, C, W>(turns: Seq<ClosingTurn<S, C, W>>, start: int, n: int) where
    C: Encoder + Decoder<Error = <C as Encoder>::Error>,

    requires
        close_run(turns),
        0 <= start,
        0 <= n,
        start + n <= turns.len(),
        forall|i: int| start <= i < start + n ==> (#[trigger] turns[i]).step is Continue,
    ensures
        n <= 4,
{
    if n > 4 {
        assert(close_steps()(turns[start]));
        assert(close_steps()(turns[start + 1]));
        assert(close_steps()(turns[start + 2]));
        assert(close_steps()(turns[start + 3]));
        assert(close_steps()(turns[start + 4]));
        assert(resumes()(turns[start].after, turns[start + 1].before));
        assert(resumes()(turns[start + 1].after, turns[start + 2].before));
        assert(resumes()(turns[start + 2].after, turns[start + 3].before));
        assert(resumes()(turns[start + 3].after, turns[start + 4].before));
    }
}

/// An exchange closes its stream only after the response has been written or after it has given an
/// error.
pub proof fn close_follows_flush_or_error<S, C, W>(
    turns: Seq<ClosingTurn<S, C, W>>,
    j: int,
) where
    C: Encoder + Decoder<Error = <C as Encoder>::Error>,

    requires
        close_run(turns),
        0 <= j < turns.len(),
        turns[0].before is Receiving,
        turns[j].before is Closing,
    ensures
        exists|i: int| 0 <= i < j && (flushes(#[trigger] turns[i]) || turns[i].fails()),
{
    let inside = |state: RecvSendState<S, C>| state is Closing;
    let i = lemma_entered(turns, close_steps(), resumes(), inside, j);
    assert(flushes(turns[i]) || turns[i].fails());
}

/// A closing exchange is over only after the stream has been closed or an error has been given.
pub proof fn close_ends_with_close_or_error<S, C, W>(turns: Seq<ClosingTurn<S, C, W>>, j: int) where
    C: Encoder + Decoder<Error = <C as Encoder>::Error>,

    requires
        close_run(turns),
        0 <= j < turns.len(),
        turns[0].before is Receiving,
        turns[j].before is Done,
    ensures
        exists|i: int| 0 <= i < j && (closes(#[trigger] turns[i]) || turns[i].fails()),
{
    let inside = |state: RecvSendState<S, C>| state is Done;
    let i = lemma_entered(turns, close_steps(), resumes(), inside, j);
    assert(closes(turns[i]) || turns[i].fails());
}

/// A closing exchange that finishes without an error has received the request, taken a response out
/// of the slot, had that response taken by the codec and written, and the stream closed, in this
/// order, however often it was made to wait.
pub proof fn close_finishes_after_all<S, C, W>(
    turns: Seq<ClosingTurn<S, C, W>>,
    j: int,
) where
    C: Encoder + Decoder<Error = <C as Encoder>::Error>,

    requires
        close_run(turns),
        0 <= j < turns.len(),
        turns[0].before is Receiving,
        turns[j].step.finishes(),
        forall|i: int| 0 <= i < j ==> !(#[trigger] turns[i]).fails(),
    ensures
        exists|response: <C as Encoder>::Item, a: int, b: int, c: int, d: int, e: int|
            0 <= a < b < c < d < e < j && #[trigger] receives(turns[a]) && #[trigger] takes(
                turns[b],
                response,
            ) && #[trigger] took(turns[c], response) && #[trigger] flushes(turns[d])
                && #[trigger] closes(turns[e]),
{
    assert(close_steps()(turns[j]));
    close_ends_with_close_or_error(turns, j);
    let e = choose|e: int| 0 <= e < j && (closes(#[trigger] turns[e]) || turns[e].fails());
    close_follows_flush_or_error(turns, e);
    let d = choose|d: int| 0 <= d < e && (flushes(#[trigger] turns[d]) || turns[d].fails());
    let inside = |state: RecvSendState<S, C>| state is Flushing;
    let c = lemma_entered(turns, close_steps(), resumes(), inside, d);
    close_sends_what_was_given(turns, c);
    let response = turns[c].before->Sending_0.message->0;
    let b = choose|b: int| 0 <= b < c && #[trigger] takes(turns[b], response);
    close_waits_after_request(turns, b);
    let a = choose|a: int| 0 <= a < b && #[trigger] receives(turns[a]);
    turns[c].before->Sending_0.lemma_taken(
        turns[c].input.outcome->Ready_0,
        turns[c].after.framed()->0,
    );
    assert(receives(turns[a]) && takes(turns[b], response) && took(turns[c], response) && flushes(
        turns[d],
    ) && closes(turns[e]));
}

/// A closing exchange says once that it has finished, and takes no step after that.
pub proof fn close_finishes_last<S, C, W>(turns: Seq<ClosingTurn<S, C, W>>, i: int) where
    C: Encoder + Decoder<Error = <C as Encoder>::Error>,

    requires
        close_run(turns),
        0 <= i < turns.len(),
        turns[i].step.finishes(),
    ensures
        i == turns.len() - 1,
{
    assert(close_steps()(turns[i]));
    if i + 1 < turns.len() {
        assert(resumes()(turns[i].after, turns[i + 1].before));
        assert(close_steps()(turns[i + 1]));
    }
}

/// A closing exchange can be polled again after every step but the one that reports its end: after
/// every item that it gives, an error too, it goes on or ends in its own time.
pub proof fn close_can_be_polled_again<S, C, W>(turn: ClosingTurn<S, C, W>) where
    C: Encoder + Decoder<Error = <C as Encoder>::Error>,

    requires
        close_steps()(turn),
    ensures
        turn.gives() ==> !(turn.after is Poisoned),
        turn.step is Continue || turn.step.blocks() ==> !(turn.after is Poisoned),
        turn.step.finishes() ==> turn.after is Poisoned,
{
}

/// A closing exchange that fails to receive its request reports its end in the next step.
pub proof fn close_ends_without_request<S, C, W>(turns: Seq<ClosingTurn<S, C, W>>, i: int) where
    C: Encoder + Decoder<Error = <C as Encoder>::Error>,

    requires
        close_run(turns),
        0 <= i < turns.len() - 1,
        turns[i].before is Receiving,
        turns[i].fails(),
    ensures
        turns[i + 1].step.finishes(),
{
    assert(close_steps()(turns[i]));
    assert(close_steps()(turns[i + 1]));
    assert(resumes()(turns[i].after, turns[i + 1].before));
}

/// A step of a closing exchange blocks exactly where its call would have blocked, or where it looks
/// for the response and must wait for it, and then changes no state. Every other step comes closer
/// to the end, or reports it. Every failure of a call is reported as an error, and there is no
/// other error but that the response will never come, and that the codec does not take the
/// response.
pub proof fn close_steps_progress<S, C, W>(turn: ClosingTurn<S, C, W>) where
    C: Encoder + Decoder<Error = <C as Encoder>::Error>,

    requires
        close_steps()(turn),
    ensures
        turn.step.blocks() == (turn.input.outcome.is_pending() || (turn.before is Waiting
            && turn.input.slot.poll() is Pending)),
        turn.step.blocks() ==> turn.after == turn.before,
        !turn.step.blocks() ==> turn.step.finishes() || stage(turn.before) < stage(turn.after),
        turn.fails() == (turn.input.outcome.is_failure() || (turn.before is Waiting
            && turn.input.slot.poll() matches Poll::Ready(Err(_))) || (hands_over(turn) && !(
        turn.step is Continue))),
{
}

/// What a step of a closing exchange answers and leaves is determined by the state and by the slot,
/// the waker and the outcome, but for what the codec makes of the message that it is handed.
pub proof fn close_steps_are_determined<S, C, W>(
    one: ClosingTurn<S, C, W>,
    two: ClosingTurn<S, C, W>,
) where
    C: Encoder + Decoder<Error = <C as Encoder>::Error>,

    requires
        close_steps()(one),
        close_steps()(two),
        one.before == two.before,
        one.input.slot == two.input.slot,
        one.input.waker == two.input.waker,
        one.input.outcome == two.input.outcome,
        !hands_over(one),
    ensures
        one.step == two.step,
        one.after == two.after,
        one.input.slot_after == two.input.slot_after,
{
}

/// A step of a closing exchange leaves the stream as it is for as long as it keeps it, and what was
/// read from it too. Unless it hands over a message, it leaves the whole framed stream as it is:
/// the codec, and what waits to be decoded and to be written.
pub proof fn close_keeps_stream<S, C, W>(turn: ClosingTurn<S, C, W>) where
    C: Encoder + Decoder<Error = <C as Encoder>::Error>,

    requires
        close_steps()(turn),
    ensures
        turn.after.framed() matches Some(framed) ==> framed.io() == turn.before.framed()->0.io(),
        turn.after.framed() is Some ==> turn.before.framed() is Some,
        turn.after.framed() is Some ==> turn.after.framed()->0.read_buffer
            == turn.before.framed()->0.read_buffer,
        turn.after.framed() is Some && !hands_over(turn) ==> turn.after.framed()
            == turn.before.framed(),
{
}

/// Where every call succeeds, the responder responds before the next poll and the codec takes the
/// response, a closing exchange gives the request, writes the response, closes the stream and
/// finishes.
pub proof fn close_completes<S, C, W>(
    turns: Seq<ClosingTurn<S, C, W>>,
    request: <C as Decoder>::Item,
    response: <C as Encoder>::Item,
) where
    C: Encoder + Decoder<Error = <C as Encoder>::Error>,

    requires
        close_run(turns),
        turns.len() == 6,
        turns[0].before is Receiving,
        turns[0].input.outcome == Outcome::<_, <C as Encoder>::Error>::Next(
            Poll::Ready(Some(Ok(request))),
        ),
        turns[1].input.slot == turns[0].input.slot_after.after_respond(response),
        turns[1].input.outcome is Nothing,
        turns[2].input.outcome matches Outcome::Ready(Poll::Ready(Ok(()))),
        turns[2].step is Continue,
        turns[3].input.outcome matches Outcome::Flush(Poll::Ready(Ok(()))),
        turns[4].input.outcome matches Outcome::Close(Poll::Ready(Ok(()))),
        turns[5].input.outcome is Nothing,
    ensures
        turns[0].step.emits(Ok((request, Responder::fresh()))),
        turns[1].step is Continue,
        turns[2].before.framed()->0.accepts(response, Ok(()), turns[2].after.framed()->0),
        turns[3].before is Flushing,
        turns[3].step is Continue,
        turns[4].before is Closing,
        turns[4].step is Continue,
        turns[5].step.finishes(),
{
    let steps = close_steps();
    assert(steps(turns[0]));
    assert(steps(turns[1]));
    assert(steps(turns[2]));
    assert(steps(turns[3]));
    assert(steps(turns[4]));
    assert(steps(turns[5]));
    assert(resumes()(turns[0].after, turns[1].before));
    assert(resumes()(turns[1].after, turns[2].before));
    assert(resumes()(turns[2].after, turns[3].before));
    assert(resumes()(turns[3].after, turns[4].before));
    assert(resumes()(turns[4].after, turns[5].before));
    turns[2].before->Sending_0.lemma_taken(
        turns[2].input.outcome->Ready_0,
        turns[2].after.framed()->0,
    );
}

/// For as long as the responder does nothing, a closing exchange that has given its request waits:
/// every poll blocks, with its own waker parked in the slot.
pub proof fn close_waits_for_response<S, C, W>(turns: Seq<ClosingTurn<S, C, W>>, n: int) where
    C: Encoder + Decoder<Error = <C as Encoder>::Error>,

    requires
        close_run(turns),
        0 <= n < turns.len(),
        receives(turns[0]),
        undisturbed(turns, n),
    ensures
        parked(turns[n]),
        n > 0 ==> turns[n].step.blocks(),
    decreases n,
{
    assert(close_steps()(turns[n]));
    if n > 0 {
        close_waits_for_response(turns, n - 1);
        assert(resumes()(turns[n - 1].after, turns[n].before));
        assert(turns[n].input.slot == turns[n - 1].input.slot_after);
    }
}

/// A closing exchange whose responder goes without a response, after any number of polls, gives a
/// broken pipe in the next poll, and then closes the stream.
pub proof fn close_breaks_without_response<S, C, W>(
    turns: Seq<ClosingTurn<S, C, W>>,
    n: int,
) where
    C: Encoder + Decoder<Error = <C as Encoder>::Error>,

    requires
        close_run(turns),
        0 < n < turns.len(),
        receives(turns[0]),
        undisturbed(turns, n - 1),
        turns[n].input.slot == turns[n - 1].input.slot_after.after_release(),
    ensures
        turns[n].step.emits(Err(IoError::simple(ErrorKind::BrokenPipe))),
        turns[n].after is Closing,
{
    close_waits_for_response(turns, n - 1);
    assert(close_steps()(turns[n]));
    assert(resumes()(turns[n - 1].after, turns[n].before));
}

/// A closing exchange whose responder responds, after any number of polls, takes that response out
/// of the slot in the next poll, and goes on to hand it over.
pub proof fn close_takes_late_response<S, C, W>(
    turns: Seq<ClosingTurn<S, C, W>>,
    response: <C as Encoder>::Item,
    n: int,
) where
    C: Encoder + Decoder<Error = <C as Encoder>::Error>,

    requires
        close_run(turns),
        0 < n < turns.len(),
        receives(turns[0]),
        undisturbed(turns, n - 1),
        turns[n].input.slot == turns[n - 1].input.slot_after.after_respond(response),
    ensures
        takes(turns[n], response),
        turns[n].step is Continue,
        turns[n].after matches RecvSendState::Sending(sending) && sending.message == Some(response),
{
    close_waits_for_response(turns, n - 1);
    assert(close_steps()(turns[n]));
    assert(resumes()(turns[n - 1].after, turns[n].before));
}

/// A closing exchange has no use for the slot but while it receives or waits: any other step
/// neither reads nor changes it, and does not park a waker.
pub proof fn close_leaves_slot_alone<S, C, W>(
    turn: ClosingTurn<S, C, W>,
    slot: Shared<<C as Encoder>::Item, W>,
    waker: W,
) where
    C: Encoder + Decoder<Error = <C as Encoder>::Error>,

    requires
        !(turn.before is Receiving),
        !(turn.before is Waiting),
    ensures
        close_steps()(turn) == (turn.input.slot_after == turn.input.slot && close_steps()(
            Turn { input: SlotInput { slot, waker, slot_after: slot, ..turn.input }, ..turn },
        )),
{
}

/// The request is given in this turn.
pub open spec fn gives_request<S, C, W>(turn: ReturningTurn<S, C, W>) -> bool where
    C: Encoder + Decoder<Error = <C as Encoder>::Error>,
 {
    turn.step matches Step::Return(Poll::Ready(Some(Ok(Event::NewRequest { .. }))))
}

/// The stream is given back in this turn.
pub open spec fn gives_stream<S, C, W>(turn: ReturningTurn<S, C, W>) -> bool where
    C: Encoder + Decoder<Error = <C as Encoder>::Error>,
 {
    turn.step matches Step::Return(Poll::Ready(Some(Ok(Event::Completed { .. }))))
}

/// A returning exchange gives one request at most, with nothing before it, and gives its stream
/// back once at most, with nothing after it.
pub proof fn return_gives_each_event_once<S, C, W>(turns: Seq<ReturningTurn<S, C, W>>) where
    C: Encoder + Decoder<Error = <C as Encoder>::Error>,

    requires
        return_run(turns),
    ensures
        forall|i: int, j: int|
            0 <= i < j < turns.len() && #[trigger] turns[i].gives() ==> !(
            #[trigger] gives_request(turns[j])),
        forall|i: int, j: int|
            0 <= i < j < turns.len() && #[trigger] gives_stream(turns[i]) ==> !(
            #[trigger] turns[j].gives()),
{
    let steps = return_steps::<S, C, W>();
    lemma_stages_rise(turns, steps, resumes_or_aborts(), |state| return_stage::<S, C>(state));
    assert forall|i: int, j: int|
        0 <= i < j < turns.len() && #[trigger] turns[i].gives() implies !(
    #[trigger] gives_request(turns[j])) by {
        assert(steps(turns[i]) && steps(turns[j]));
    }
    assert forall|i: int, j: int|
        0 <= i < j < turns.len() && #[trigger] gives_stream(turns[i]) implies !(
    #[trigger] turns[j].gives()) by {
        assert(steps(turns[i]) && steps(turns[j]));
    }
}

/// A returning exchange looks for a response only after it has received the request.
pub proof fn return_waits_after_request<S, C, W>(turns: Seq<ReturningTurn<S, C, W>>, j: int) where
    C: Encoder + Decoder<Error = <C as Encoder>::Error>,

    requires
        return_run(turns),
        0 <= j < turns.len(),
        turns[0].before is Receiving,
        turns[j].before is Waiting,
    ensures
        exists|i: int| 0 <= i < j && #[trigger] receives(turns[i]),
{
    let inside = |state: RecvSendState<S, C>| state is Waiting;
    let i = lemma_entered(turns, return_steps(), resumes_or_aborts(), inside, j);
    assert(receives(turns[i]));
}

/// A returning exchange sends only what was put into its slot: the response that waits to be handed
/// over was taken out of the slot in an earlier turn.
pub proof fn return_sends_what_was_given<S, C, W>(
    turns: Seq<ReturningTurn<S, C, W>>,
    j: int,
) where
    C: Encoder + Decoder<Error = <C as Encoder>::Error>,

    requires
        return_run(turns),
        0 <= j < turns.len(),
        turns[0].before is Receiving,
        turns[j].before is Sending,
    ensures
        exists|i: int|
            0 <= i < j && #[trigger] takes(turns[i], turns[j].before->Sending_0.message->0),
        turns[j].before->Sending_0.message is Some,
{
    let message = turns[j].before->Sending_0.message;
    let inside = |state: RecvSendState<S, C>|
        state is Sending && state->Sending_0.message == message;
    let i = lemma_entered(turns, return_steps(), resumes_or_aborts(), inside, j);
    assert(takes(turns[i], message->0));
}

/// In a returning exchange the codec is handed a response once at most.
pub proof fn return_hands_over_once<S, C, W>(turns: Seq<ReturningTurn<S, C, W>>) where
    C: Encoder + Decoder<Error = <C as Encoder>::Error>,

    requires
        return_run(turns),
    ensures
        forall|i: int, j: int|
            0 <= i < j < turns.len() && #[trigger] hands_over(turns[i]) ==> !(
            #[trigger] hands_over(turns[j])),
{
    let steps = return_steps::<S, C, W>();
    lemma_stages_rise(turns, steps, resumes_or_aborts(), |state| return_stage::<S, C>(state));
    assert forall|i: int, j: int|
        0 <= i < j < turns.len() && #[trigger] hands_over(turns[i]) implies !(
    #[trigger] hands_over(turns[j])) by {
        assert(steps(turns[i]) && steps(turns[j]));
    }
}

/// A returning exchange gives its stream back only when the response has been written.
pub proof fn return_follows_flush<S, C, W>(turn: ReturningTurn<S, C, W>) where
    C: Encoder + Decoder<Error = <C as Encoder>::Error>,

    requires
        return_steps()(turn),
        gives_stream(turn),
    ensures
        flushes(turn),
        turn.step.emits(Ok(Event::Completed { stream: turn.before.framed()->0.io() })),
{
}

/// A returning exchange gives its stream back only after it has received the request, taken a
/// response out of the slot and had that response taken by the codec, in this order, and when it
/// has been written, however often it was made to wait.
pub proof fn return_succeeds_after_all<S, C, W>(
    turns: Seq<ReturningTurn<S, C, W>>,
    j: int,
) where
    C: Encoder + Decoder<Error = <C as Encoder>::Error>,

    requires
        return_run(turns),
        0 <= j < turns.len(),
        turns[0].before is Receiving,
        gives_stream(turns[j]),
    ensures
        flushes(turns[j]),
        exists|response: <C as Encoder>::Item, a: int, b: int, c: int|
            0 <= a < b < c < j && #[trigger] receives(turns[a]) && #[trigger] takes(
                turns[b],
                response,
            ) && #[trigger] took(turns[c], response),
{
    assert(return_steps()(turns[j]));
    let inside = |state: RecvSendState<S, C>| state is Flushing;
    let c = lemma_entered(turns, return_steps(), resumes_or_aborts(), inside, j);
    return_sends_what_was_given(turns, c);
    let response = turns[c].before->Sending_0.message->0;
    let b = choose|b: int| 0 <= b < c && #[trigger] takes(turns[b], response);
    return_waits_after_request(turns, b);
    let a = choose|a: int| 0 <= a < b && #[trigger] receives(turns[a]);
    turns[c].before->Sending_0.lemma_taken(
        turns[c].input.outcome->Ready_0,
        turns[c].after.framed()->0,
    );
    assert(receives(turns[a]) && takes(turns[b], response) && took(turns[c], response));
}

/// A poll of a returning exchange ends: it goes on for two steps in a row at most.
pub proof fn return_polls_end<S, C, W>(turns: Seq<ReturningTurn<S, C, W>>, start: int, n: int) where
    C: Encoder + Decoder<Error = <C as Encoder>::Error>,

    requires
        return_run(turns),
        0 <= start,
        0 <= n,
        start + n <= turns.len(),
        forall|i: int| start <= i < start + n ==> (#[trigger] turns[i]).step is Continue,
    ensures
        n <= 2,
{
    if n > 2 {
        assert(return_steps()(turns[start]));
        assert(return_steps()(turns[start + 1]));
        assert(return_steps()(turns[start + 2]));
        assert(resumes_or_aborts()(turns[start].after, turns[start + 1].before));
        assert(resumes_or_aborts()(turns[start + 1].after, turns[start + 2].before));
    }
}

/// A returning exchange that has failed, given its stream back, said that it has finished or been
/// aborted says in every later step that it has finished.
pub proof fn return_stays_finished<S, C, W>(
    turns: Seq<ReturningTurn<S, C, W>>,
    i: int,
    j: int,
) where
    C: Encoder + Decoder<Error = <C as Encoder>::Error>,

    requires
        return_run(turns),
        0 <= i < j < turns.len(),
        turns[i].fails() || gives_stream(turns[i]) || turns[i].step.finishes()
            || turns[i].before is Done,
    ensures
        turns[j].step.finishes(),
{
    let steps = return_steps::<S, C, W>();
    lemma_stages_rise(turns, steps, resumes_or_aborts(), |state| return_stage::<S, C>(state));
    assert(steps(turns[i]) && steps(turns[j]));
}

/// A returning exchange never closes its stream and is never poisoned.
pub proof fn return_never_closes<S, C, W>(turns: Seq<ReturningTurn<S, C, W>>) where
    C: Encoder + Decoder<Error = <C as Encoder>::Error>,

    requires
        return_run(turns),
    ensures
        forall|i: int|
            0 <= i < turns.len() ==> !((#[trigger] turns[i]).after is Closing) && !(
            turns[i].after is Poisoned),
{
    assert forall|i: int| 0 <= i < turns.len() implies !((#[trigger] turns[i]).after is Closing)
        && !(turns[i].after is Poisoned) by {
        assert(return_steps()(turns[i]));
    }
}

/// A step of a returning exchange blocks exactly where its call would have blocked, or where it
/// looks for the response and must wait for it, and then changes no state. Every other step comes
/// closer to the end, or reports it. Every failure of a call is reported as an error, and there is
/// no other error but that the response will never come, and that the codec does not take the
/// response.
pub proof fn return_steps_progress<S, C, W>(turn: ReturningTurn<S, C, W>) where
    C: Encoder + Decoder<Error = <C as Encoder>::Error>,

    requires
        return_steps()(turn),
    ensures
        turn.step.blocks() == (turn.input.outcome.is_pending() || (turn.before is Waiting
            && turn.input.slot.poll() is Pending)),
        turn.step.blocks() ==> turn.after == turn.before,
        !turn.step.blocks() ==> turn.step.finishes() || stage(turn.before) < stage(turn.after),
        turn.fails() == (turn.input.outcome.is_failure() || (turn.before is Waiting
            && turn.input.slot.poll() matches Poll::Ready(Err(_))) || (hands_over(turn) && !(
        turn.step is Continue))),
{
}

/// What a step of a returning exchange answers and leaves is determined by the state and by the
/// slot, the waker and the outcome, but for what the codec makes of the message that it is handed.
pub proof fn return_steps_are_determined<S, C, W>(
    one: ReturningTurn<S, C, W>,
    two: ReturningTurn<S, C, W>,
) where
    C: Encoder + Decoder<Error = <C as Encoder>::Error>,

    requires
        return_steps()(one),
        return_steps()(two),
        one.before == two.before,
        one.input.slot == two.input.slot,
        one.input.waker == two.input.waker,
        one.input.outcome == two.input.outcome,
        !hands_over(one),
    ensures
        one.step == two.step,
        one.after == two.after,
        one.input.slot_after == two.input.slot_after,
{
}

/// A step of a returning exchange leaves the stream as it is for as long as it keeps it, and what
/// was read from it too. Unless it hands over a message, it leaves the whole framed stream as it
/// is: the codec, and what waits to be decoded and to be written.
pub proof fn return_keeps_stream<S, C, W>(turn: ReturningTurn<S, C, W>) where
    C: Encoder + Decoder<Error = <C as Encoder>::Error>,

    requires
        return_steps()(turn),
    ensures
        turn.after.framed() matches Some(framed) ==> framed.io() == turn.before.framed()->0.io(),
        turn.after.framed() is Some ==> turn.before.framed() is Some,
        turn.after.framed() is Some ==> turn.after.framed()->0.read_buffer
            == turn.before.framed()->0.read_buffer,
        turn.after.framed() is Some && !hands_over(turn) ==> turn.after.framed()
            == turn.before.framed(),
{
}

/// Where every call succeeds, the responder responds and the codec takes the response, a returning
/// exchange gives the request, writes the response and gives the stream back as the last call left
/// it.
pub proof fn return_completes<S, C, W>(
    turns: Seq<ReturningTurn<S, C, W>>,
    request: <C as Decoder>::Item,
    response: <C as Encoder>::Item,
) where
    C: Encoder + Decoder<Error = <C as Encoder>::Error>,

    requires
        return_run(turns),
        turns.len() == 4,
        turns[0].before is Receiving,
        turns[0].input.outcome == Outcome::<_, <C as Encoder>::Error>::Next(
            Poll::Ready(Some(Ok(request))),
        ),
        turns[1].before is Waiting,
        turns[1].input.slot == turns[0].input.slot_after.after_respond(response),
        turns[1].input.outcome is Nothing,
        turns[2].before is Sending,
        turns[2].input.outcome matches Outcome::Ready(Poll::Ready(Ok(()))),
        turns[2].step is Continue,
        turns[3].before is Flushing,
        turns[3].input.outcome matches Outcome::Flush(Poll::Ready(Ok(()))),
    ensures
        turns[0].step.emits(Ok(Event::NewRequest { request, responder: Responder::fresh() })),
        turns[1].step is Continue,
        turns[2].before.framed()->0.accepts(response, Ok(()), turns[2].after.framed()->0),
        turns[3].step.emits(Ok(Event::Completed { stream: turns[3].before.framed()->0.io() })),
{
    let steps = return_steps();
    assert(steps(turns[0]) && steps(turns[1]) && steps(turns[2]) && steps(turns[3]));
    assert(resumes_or_aborts()(turns[0].after, turns[1].before));
    assert(resumes_or_aborts()(turns[1].after, turns[2].before));
    assert(resumes_or_aborts()(turns[2].after, turns[3].before));
    turns[2].before->Sending_0.lemma_taken(
        turns[2].input.outcome->Ready_0,
        turns[2].after.framed()->0,
    );
}

/// For as long as the responder does nothing, a returning exchange that has given its request and
/// is not aborted waits: every poll blocks, with its own waker parked in the slot.
pub proof fn return_waits_for_response<S, C, W>(turns: Seq<ReturningTurn<S, C, W>>, n: int) where
    C: Encoder + Decoder<Error = <C as Encoder>::Error>,

    requires
        return_run(turns),
        0 <= n < turns.len(),
        receives(turns[0]),
        undisturbed(turns, n),
        forall|i: int| 0 < i <= n ==> !((#[trigger] turns[i]).before is Done),
    ensures
        parked(turns[n]),
        n > 0 ==> turns[n].step.blocks(),
    decreases n,
{
    assert(return_steps()(turns[n]));
    if n > 0 {
        return_waits_for_response(turns, n - 1);
        assert(resumes_or_aborts()(turns[n - 1].after, turns[n].before));
        assert(turns[n].input.slot == turns[n - 1].input.slot_after);
    }
}

/// A returning exchange whose responder goes without a response, after any number of polls, gives a
/// broken pipe in the next poll, and is over.
pub proof fn return_breaks_without_response<S, C, W>(
    turns: Seq<ReturningTurn<S, C, W>>,
    n: int,
) where
    C: Encoder + Decoder<Error = <C as Encoder>::Error>,

    requires
        return_run(turns),
        0 < n < turns.len(),
        receives(turns[0]),
        undisturbed(turns, n - 1),
        forall|i: int| 0 < i <= n ==> !((#[trigger] turns[i]).before is Done),
        turns[n].input.slot == turns[n - 1].input.slot_after.after_release(),
    ensures
        turns[n].step.emits(Err(IoError::simple(ErrorKind::BrokenPipe))),
        turns[n].after is Done,
{
    return_waits_for_response(turns, n - 1);
    assert(return_steps()(turns[n]));
    assert(resumes_or_aborts()(turns[n - 1].after, turns[n].before));
}

/// A returning exchange whose responder responds, after any number of polls, takes that response
/// out of the slot in the next poll, and goes on to hand it over.
pub proof fn return_takes_late_response<S, C, W>(
    turns: Seq<ReturningTurn<S, C, W>>,
    response: <C as Encoder>::Item,
    n: int,
) where
    C: Encoder + Decoder<Error = <C as Encoder>::Error>,

    requires
        return_run(turns),
        0 < n < turns.len(),
        receives(turns[0]),
        undisturbed(turns, n - 1),
        forall|i: int| 0 < i <= n ==> !((#[trigger] turns[i]).before is Done),
        turns[n].input.slot == turns[n - 1].input.slot_after.after_respond(response),
    ensures
        takes(turns[n], response),
        turns[n].step is Continue,
        turns[n].after matches RecvSendState::Sending(sending) && sending.message == Some(response),
{
    return_waits_for_response(turns, n - 1);
    assert(return_steps()(turns[n]));
    assert(resumes_or_aborts()(turns[n - 1].after, turns[n].before));
}

/// A returning exchange has no use for the slot but while it receives or waits: any other step
/// neither reads nor changes it, and does not park a waker.
pub proof fn return_leaves_slot_alone<S, C, W>(
    turn: ReturningTurn<S, C, W>,
    slot: Shared<<C as Encoder>::Item, W>,
    waker: W,
) where
    C: Encoder + Decoder<Error = <C as Encoder>::Error>,

    requires
        !(turn.before is Receiving),
        !(turn.before is Waiting),
    ensures
        return_steps()(turn) == (turn.input.slot_after == turn.input.slot && return_steps()(
            Turn { input: SlotInput { slot, waker, slot_after: slot, ..turn.input }, ..turn },
        )),
{
}

/// Closing instead of returning the stream changes no step that goes on or blocks before the
/// response has been written, nor what is given, but for its form: the same request, and the same
/// errors. Where the response does not come or cannot be handed over, the one still closes the
/// stream where the other is over; once it has been written, the one goes on to close the stream
/// where the other gives it back.
pub proof fn close_after_send_changes_the_end<S, C, W>(
    before: RecvSendState<S, C>,
    input: SlotInput<<C as Decoder>::Item, <C as Encoder>::Error, <C as Encoder>::Item, W>,
    error: IoError<<C as Encoder>::Error>,
    after: RecvSendState<S, C>,
) where
    C: Encoder + Decoder<Error = <C as Encoder>::Error>,

    requires
        before is Receiving || before is Waiting || before is Sending || before is Flushing,
    ensures
        match (before, input.outcome) {
            (RecvSendState::Flushing { framed }, Outcome::Flush(Poll::Ready(Ok(())))) => {
                let input = SlotInput { slot_after: input.slot, ..input };
                &&& close_steps()(
                    Turn {
                        before,
                        input,
                        step: Step::Continue,
                        after: RecvSendState::Closing { framed },
                    },
                )
                &&& return_steps()(
                    Turn {
                        before,
                        input,
                        step: answers(Ok(Event::Completed { stream: framed.io() })),
                        after: RecvSendState::Done,
                    },
                )
            },
            (RecvSendState::Receiving { .. }, Outcome::Next(Poll::Ready(Some(Ok(request))))) => {
                let responder = Responder::fresh();
                close_steps()(
                    Turn { before, input, step: answers(Ok((request, responder))), after },
                ) == return_steps()(
                    Turn {
                        before,
                        input,
                        step: answers(Ok(Event::NewRequest { request, responder })),
                        after,
                    },
                )
            },
            _ => {
                &&& close_steps()(Turn { before, input, step: Step::Continue, after })
                    == return_steps()(Turn { before, input, step: Step::Continue, after })
                &&& close_steps()(
                    Turn { before, input, step: Step::Return(Poll::Pending), after },
                ) == return_steps()(
                    Turn { before, input, step: Step::Return(Poll::Pending), after },
                )
                &&& if before is Receiving || before is Flushing {
                    close_steps()(Turn { before, input, step: answers(Err(error)), after })
                        == return_steps()(Turn { before, input, step: answers(Err(error)), after })
                } else {
                    return_steps()(Turn { before, input, step: answers(Err(error)), after }) == (
                    after is Done && exists|framed: Framed<S, C>|
                        #[trigger] close_steps()(
                            Turn {
                                before,
                                input,
                                step: answers(Err(error)),
                                after: RecvSendState::Closing { framed },
                            },
                        ))
                }
            },
        },
{
    let failed = Turn { before, input, step: answers(Err(error)), after };
    if return_steps()(failed) && (before is Waiting || before is Sending) {
        let framed = if before is Waiting {
            before->Waiting_1
        } else {
            let (handed, framed) = choose|
                handed: Poll<Result<(), <C as Encoder>::Error>>,
                framed: Framed<S, C>,
            |
                #[trigger] before->Sending_0.hands_over(input.outcome->Ready_0, handed, framed)
                    && (handed matches Poll::Ready(Err(e)) && error == IoError::start_send(e));
            framed
        };
        let closing = RecvSendState::Closing { framed };
        assert(close_steps()(
            Turn { before, input, step: answers(Err(error)), after: closing },
        ));
    }
}

/// A response that was put into the slot is what the next poll finds, and that poll takes it out.
pub proof fn response_is_found_once<M, W>(slot: Shared<M, W>, response: M, waker: W)
    ensures
        slot.after_respond(response).poll() == Poll::<Result<M, ErrorKind>>::Ready(Ok(response)),
        slot.after_respond(response).after_poll(waker).message is None,
        slot.after_respond(response).after_poll(waker).poll() == Poll::<
            Result<M, ErrorKind>,
        >::Ready(Err(ErrorKind::BrokenPipe)),
{
}

/// A poll that finds no response parks its waker, and the polls that follow wait until the
/// responder has done something; when it goes without a response, they find that there will be
/// none.
pub proof fn poll_parks_waker<M, W>(slot: Shared<M, W>, waker: W)
    requires
        slot.message is None,
    ensures
        slot.after_poll(waker).waker == Some(waker),
        slot.after_poll(waker).poll() is Pending,
        slot.after_poll(waker).after_release().poll() == Poll::<Result<M, ErrorKind>>::Ready(
            Err(ErrorKind::BrokenPipe),
        ),
{
}

/// Whenever the pattern demands a call on its stream, the very stream that its state holds is there
/// to make it on.
pub proof fn calls_have_their_stream<S, C: Encoder>(state: RecvSendState<S, C>)
    ensures
        state.framed() is None ==> state.demand() is Nothing || state.demand() is Poisoned,
        match state {
            RecvSendState::Receiving { framed } => {
                &&& state.demand() is Next
                &&& state.framed() == Some(framed)
            },
            RecvSendState::Waiting(_, framed) => {
                &&& state.demand() is Nothing
                &&& state.framed() == Some(framed)
            },
            RecvSendState::Sending(sending) => {
                &&& state.demand() is Ready
                &&& state.framed() == Some(sending.framed)
            },
            RecvSendState::Flushing { framed } => {
                &&& state.demand() is Flush
                &&& state.framed() == Some(framed)
            },
            RecvSendState::Closing { framed } => {
                &&& state.demand() is Close
                &&& state.framed() == Some(framed)
            },
            RecvSendState::Done => state.demand() is Nothing && state.framed() is None,
            RecvSendState::Poisoned => state.demand() is Poisoned && state.framed() is None,
        },
{
}

/// A call on the stream changes nothing of the state but the stream: what was there before can be
/// put back, and the last of two changes is the one that stays.
pub proof fn calls_change_only_the_stream<S, C: Encoder>(
    state: RecvSendState<S, C>,
    one: Framed<S, C>,
    two: Framed<S, C>,
)
    ensures
        state.with_framed(one).demand() == state.demand(),
        state.with_framed(one).with_framed(two) == state.with_framed(two),
        match state.framed() {
            Some(framed) => {
                &&& state.with_framed(framed) == state
                &&& state.with_framed(one).framed() == Some(one)
            },
            None => state.with_framed(one) == state,
        },
{
}

/// What a state has in its write buffer.
pub open spec fn pending<S, C: Encoder>() -> spec_fn(RecvSendState<S, C>) -> Seq<u8> {
    |state: RecvSendState<S, C>|
        match state {
            RecvSendState::Receiving { framed } => contents(framed.write_buffer),
            RecvSendState::Waiting(_, framed) => contents(framed.write_buffer),
            RecvSendState::Sending(sending) => contents(sending.framed.write_buffer),
            RecvSendState::Flushing { framed } => contents(framed.write_buffer),
            RecvSendState::Closing { framed } => contents(framed.write_buffer),
            _ => Seq::empty(),
        }
}

/// A step of a closing exchange takes the outcome of the call that was demanded, and of no other.
pub proof fn close_takes_the_call_demanded<S, C, W>(turn: ClosingTurn<S, C, W>) where
    C: Encoder + Decoder<Error = <C as Encoder>::Error>,

    requires
        close_steps()(turn),
    ensures
        turn.before.demand() is Next == turn.input.outcome is Next,
        turn.before.demand() is Ready == turn.input.outcome is Ready,
        turn.before.demand() is Flush == turn.input.outcome is Flush,
        turn.before.demand() is Close == turn.input.outcome is Close,
        turn.before.demand() is Nothing == turn.input.outcome is Nothing,
        !(turn.before.demand() is Poisoned),
        turn.before is Receiving == turn.input.outcome is Next,
        turn.before is Sending == turn.input.outcome is Ready,
        turn.before is Flushing == turn.input.outcome is Flush,
        turn.before is Closing == turn.input.outcome is Close,
        turn.input.outcome.demand() == turn.before.demand(),
{
}

/// In a closing exchange that hands its message over the codec encodes that message once, behind
/// what waits to be written. The stream and what was read from it are left alone, and what the
/// codec answers decides how the exchange goes on.
pub proof fn close_hands_over_one_message<S, C, W>(turn: ClosingTurn<S, C, W>) where
    C: Encoder + Decoder<Error = <C as Encoder>::Error>,

    requires
        close_steps()(turn),
        hands_over(turn),
    ensures
        exists|result: Result<(), <C as Encoder>::Error>, framed: Framed<S, C>|
            {
                &&& #[trigger] turn.before->Sending_0.framed.fuse.u.encodes(
                    turn.before->Sending_0.message->0,
                    contents(turn.before->Sending_0.framed.write_buffer),
                    result,
                    &framed.fuse.u,
                    contents(framed.write_buffer),
                )
                &&& framed.fuse.t == turn.before->Sending_0.framed.fuse.t
                &&& framed.read_buffer == turn.before->Sending_0.framed.read_buffer
                &&& match result {
                    Ok(()) => {
                        &&& turn.step is Continue
                        &&& turn.after == (RecvSendState::Flushing { framed })
                    },
                    Err(e) => {
                        &&& turn.step matches Step::Return(Poll::Ready(Some(Err(failure))))
                        &&& says_twice(failure, e)
                        &&& turn.after == (RecvSendState::Closing { framed })
                    },
                }
            },
{
    assert(turn.input.outcome->Ready_0->Ready_0->Ok_0 == ());
    let held = turn.before->Sending_0;
    let (handed, framed) = choose|
        handed: Poll<Result<(), <C as Encoder>::Error>>,
        framed: Framed<S, C>,
    |
        #[trigger] held.hands_over(turn.input.outcome->Ready_0, handed, framed) && match handed {
            Poll::Ready(Ok(())) => turn.step is Continue && turn.after == (RecvSendState::Flushing {
                framed,
            }),
            Poll::Ready(Err(e)) => {
                &&& turn.step.emits(Err(IoError::start_send(e)))
                &&& turn.after == (RecvSendState::Closing { framed })
            },
            Poll::Pending => turn.step.blocks() && turn.after == turn.before,
        };
    let result = handed->Ready_0;
    assert(held.framed.fuse.u.encodes(
        held.message->0,
        contents(held.framed.write_buffer),
        result,
        &framed.fuse.u,
        contents(framed.write_buffer),
    ));
}

/// A call that fails has a closing exchange give an error that tells the half that failed and holds
/// the error of the call unchanged; the end of the stream where a message is due is an error of its
/// own. Where the response cannot be handed over the stream is closed still; any other failure ends
/// the exchange.
pub proof fn close_failures_say_what_failed<S, C, W>(turn: ClosingTurn<S, C, W>) where
    C: Encoder + Decoder<Error = <C as Encoder>::Error>,

    requires
        close_steps()(turn),
    ensures
        match turn.input.outcome {
            Outcome::Ready(Poll::Ready(Err(e))) => {
                &&& turn.step matches Step::Return(Poll::Ready(Some(Err(failure))))
                &&& says_twice(failure, e)
                &&& turn.after == (RecvSendState::Closing { framed: turn.before->Sending_0.framed })
            },
            Outcome::Flush(Poll::Ready(Err(e))) => {
                &&& turn.step matches Step::Return(Poll::Ready(Some(Err(failure))))
                &&& says(failure, Error::Send(Cause::Codec(e)))
                &&& turn.after is Done
            },
            Outcome::Next(Poll::Ready(Some(Err(e)))) => {
                &&& turn.step matches Step::Return(Poll::Ready(Some(Err(failure))))
                &&& says(failure, Error::Recv(Cause::Codec(e)))
                &&& turn.after is Done
            },
            Outcome::Next(Poll::Ready(None)) => {
                &&& turn.step matches Step::Return(Poll::Ready(Some(Err(failure))))
                &&& says_only(failure, ErrorKind::UnexpectedEof)
                &&& turn.after is Done
            },
            Outcome::Close(Poll::Ready(Err(e))) => {
                &&& turn.step matches Step::Return(Poll::Ready(Some(Err(failure))))
                &&& says(failure, Error::Send(Cause::Codec(e)))
                &&& turn.after is Done
            },
            _ => true,
        },
{
}

/// A call that would block has a closing exchange block and stay as it is; one that succeeds has it
/// go on with its stream unchanged, or give what was received, as the call left it.
pub proof fn close_steps_follow_their_call<S, C, W>(turn: ClosingTurn<S, C, W>) where
    C: Encoder + Decoder<Error = <C as Encoder>::Error>,

    requires
        close_steps()(turn),
    ensures
        match turn.input.outcome {
            Outcome::Ready(Poll::Pending) => {
                &&& turn.step matches Step::Return(Poll::Pending)
                &&& turn.after == turn.before
            },
            Outcome::Flush(Poll::Pending) => {
                &&& turn.step matches Step::Return(Poll::Pending)
                &&& turn.after == turn.before
            },
            Outcome::Next(Poll::Pending) => {
                &&& turn.step matches Step::Return(Poll::Pending)
                &&& turn.after == turn.before
            },
            Outcome::Close(Poll::Pending) => {
                &&& turn.step matches Step::Return(Poll::Pending)
                &&& turn.after == turn.before
            },
            Outcome::Flush(Poll::Ready(Ok(()))) => {
                &&& turn.step is Continue
                &&& turn.after == (RecvSendState::Closing { framed: turn.before->Flushing_framed })
            },
            Outcome::Close(Poll::Ready(Ok(()))) => turn.step is Continue && turn.after is Done,
            Outcome::Next(Poll::Ready(Some(Ok(request)))) => {
                &&& turn.step matches Step::Return(Poll::Ready(Some(Ok(given))))
                &&& given.0 == request
                &&& turn.after matches RecvSendState::Waiting(_, framed)
                &&& framed == turn.before->Receiving_framed
            },
            Outcome::Nothing => {
                &&& turn.before is Done ==> (turn.step matches Step::Return(Poll::Ready(None)))
                &&& turn.before is Done ==> turn.after is Poisoned
            },
            _ => true,
        },
{
}

/// What a closing exchange does with its slot. The slot is emptied, with the waker parked in it,
/// when the request is received. While it waits, the response is taken out if it is there, and that
/// very response is handed over next; if it is not, the waker is parked, and one that was not there
/// tells that the response will never come.
pub proof fn close_slot_passes_the_response<S, C, W>(turn: ClosingTurn<S, C, W>) where
    C: Encoder + Decoder<Error = <C as Encoder>::Error>,

    requires
        close_steps()(turn),
    ensures
        match turn.before {
            RecvSendState::Receiving { .. } => if receives(turn) {
                turn.input.slot_after.message is None && turn.input.slot_after.waker == Some(
                    turn.input.waker,
                )
            } else {
                turn.input.slot_after == turn.input.slot
            },
            RecvSendState::Waiting(_, framed) => match (
                turn.input.slot.message,
                turn.input.slot.waker,
            ) {
                (Some(response), waker) => {
                    &&& turn.input.slot_after.message is None
                    &&& turn.input.slot_after.waker == waker
                    &&& turn.step is Continue
                    &&& turn.after == (RecvSendState::Sending(
                        Sending { framed, message: Some(response) },
                    ))
                },
                (None, None) => {
                    &&& turn.input.slot_after.message is None
                    &&& turn.input.slot_after.waker == Some(turn.input.waker)
                    &&& turn.step matches Step::Return(Poll::Ready(Some(Err(failure))))
                    &&& says_only(failure, ErrorKind::BrokenPipe)
                    &&& turn.after == (RecvSendState::Closing { framed })
                },
                (None, Some(_)) => {
                    &&& turn.input.slot_after.message is None
                    &&& turn.input.slot_after.waker == Some(turn.input.waker)
                    &&& turn.step matches Step::Return(Poll::Pending)
                    &&& turn.after == turn.before
                },
            },
            _ => turn.input.slot_after == turn.input.slot,
        },
{
}

/// The peer of a closing exchange is sent nothing but what the codec makes of the response: until
/// it is handed over nothing is written and nothing waits to be, and from then on what was written
/// and what waits to be are together just what the codec encoded, into an empty buffer.
pub proof fn close_sends_only_what_was_encoded<S, C, W>(
    turns: Seq<ClosingTurn<S, C, W>>,
    j: int,
) where
    C: Encoder + Decoder<Error = <C as Encoder>::Error>,

    requires
        close_run(turns),
        0 <= j < turns.len(),
        pending()(turns[0].before).len() == 0,
        only_writes(turns, pending(), j),
        turns[j].before.framed() is Some,
    ensures
        (forall|i: int| 0 <= i < j ==> !hands_over(#[trigger] turns[i])) ==> sent(
            turns,
            pending(),
            j,
        ) == Seq::<u8>::empty(),
        forall|c: int|
            0 <= c < j && #[trigger] hands_over(turns[c]) ==> exists|
                result: Result<(), <C as Encoder>::Error>,
            |
                #[trigger] turns[c].before->Sending_0.framed.fuse.u.encodes(
                    turns[c].before->Sending_0.message->0,
                    Seq::empty(),
                    result,
                    &turns[c].after.framed()->0.fuse.u,
                    sent(turns, pending(), j),
                ),
{
    let steps = close_steps::<S, C, W>();
    lemma_stages_rise(turns, steps, resumes(), |state| stage::<S, C>(state));
    assert forall|k: int| 0 <= k < j && !hands_over(#[trigger] turns[k]) implies pending()(
        turns[k].after,
    ) == pending()(turns[k].before) by {
        assert(steps(turns[k]) && stage(turns[k].after) <= stage(turns[j].before));
        close_keeps_stream(turns[k]);
    }
    assert forall|i: int, k: int|
        0 <= i < k < j && hands_over(#[trigger] turns[i]) implies !hands_over(
        #[trigger] turns[k],
    ) by {
        assert(steps(turns[i]) && stage(turns[i].after) <= stage(turns[k].before));
    }
    let fills = |turn: ClosingTurn<S, C, W>| hands_over(turn);
    lemma_sent_once(turns, pending(), fills, j);
    assert forall|c: int| 0 <= c < j && #[trigger] hands_over(turns[c]) implies exists|
        result: Result<(), <C as Encoder>::Error>,
    |
        #[trigger] turns[c].before->Sending_0.framed.fuse.u.encodes(
            turns[c].before->Sending_0.message->0,
            Seq::empty(),
            result,
            &turns[c].after.framed()->0.fuse.u,
            sent(turns, pending(), j),
        ) by {
        assert(steps(turns[c]) && stage(turns[c].after) <= stage(turns[j].before));
        close_hands_over_one_message(turns[c]);
        assert(pending()(turns[c].before) == contents(
            turns[c].before->Sending_0.framed.write_buffer,
        ));
        assert(pending()(turns[c].after) == contents(turns[c].after.framed()->0.write_buffer));
        assert(fills(turns[c]));
    }
}

/// A step of a returning exchange takes the outcome of the call that was demanded, and of no other.
pub proof fn return_takes_the_call_demanded<S, C, W>(turn: ReturningTurn<S, C, W>) where
    C: Encoder + Decoder<Error = <C as Encoder>::Error>,

    requires
        return_steps()(turn),
    ensures
        turn.before.demand() is Next == turn.input.outcome is Next,
        turn.before.demand() is Ready == turn.input.outcome is Ready,
        turn.before.demand() is Flush == turn.input.outcome is Flush,
        turn.before.demand() is Nothing == turn.input.outcome is Nothing,
        !(turn.before.demand() is Poisoned),
        !(turn.before.demand() is Close) && !(turn.input.outcome is Close),
        turn.before is Receiving == turn.input.outcome is Next,
        turn.before is Sending == turn.input.outcome is Ready,
        turn.before is Flushing == turn.input.outcome is Flush,
        turn.input.outcome.demand() == turn.before.demand(),
{
}

/// In a returning exchange that hands its message over the codec encodes that message once, behind
/// what waits to be written. The stream and what was read from it are left alone, and what the
/// codec answers decides how the exchange goes on.
pub proof fn return_hands_over_one_message<S, C, W>(turn: ReturningTurn<S, C, W>) where
    C: Encoder + Decoder<Error = <C as Encoder>::Error>,

    requires
        return_steps()(turn),
        hands_over(turn),
    ensures
        exists|result: Result<(), <C as Encoder>::Error>, framed: Framed<S, C>|
            {
                &&& #[trigger] turn.before->Sending_0.framed.fuse.u.encodes(
                    turn.before->Sending_0.message->0,
                    contents(turn.before->Sending_0.framed.write_buffer),
                    result,
                    &framed.fuse.u,
                    contents(framed.write_buffer),
                )
                &&& framed.fuse.t == turn.before->Sending_0.framed.fuse.t
                &&& framed.read_buffer == turn.before->Sending_0.framed.read_buffer
                &&& match result {
                    Ok(()) => {
                        &&& turn.step is Continue
                        &&& turn.after == (RecvSendState::Flushing { framed })
                    },
                    Err(e) => {
                        &&& turn.step matches Step::Return(Poll::Ready(Some(Err(failure))))
                        &&& says_twice(failure, e)
                        &&& turn.after is Done
                    },
                }
            },
{
    assert(turn.input.outcome->Ready_0->Ready_0->Ok_0 == ());
    let held = turn.before->Sending_0;
    let (handed, framed) = choose|
        handed: Poll<Result<(), <C as Encoder>::Error>>,
        framed: Framed<S, C>,
    |
        #[trigger] held.hands_over(turn.input.outcome->Ready_0, handed, framed) && match handed {
            Poll::Ready(Ok(())) => turn.step is Continue && turn.after == (RecvSendState::Flushing {
                framed,
            }),
            Poll::Ready(Err(e)) => {
                &&& turn.step.emits(Err(IoError::start_send(e)))
                &&& turn.after is Done
            },
            Poll::Pending => turn.step.blocks() && turn.after == turn.before,
        };
    let result = handed->Ready_0;
    assert(held.framed.fuse.u.encodes(
        held.message->0,
        contents(held.framed.write_buffer),
        result,
        &framed.fuse.u,
        contents(framed.write_buffer),
    ));
}

/// A call that fails has a returning exchange give an error that tells the half that failed and
/// holds the error of the call unchanged; the end of the stream where a message is due is an error
/// of its own. The exchange is over then.
pub proof fn return_failures_say_what_failed<S, C, W>(turn: ReturningTurn<S, C, W>) where
    C: Encoder + Decoder<Error = <C as Encoder>::Error>,

    requires
        return_steps()(turn),
    ensures
        match turn.input.outcome {
            Outcome::Ready(Poll::Ready(Err(e))) => {
                &&& turn.step matches Step::Return(Poll::Ready(Some(Err(failure))))
                &&& says_twice(failure, e)
                &&& turn.after is Done
            },
            Outcome::Flush(Poll::Ready(Err(e))) => {
                &&& turn.step matches Step::Return(Poll::Ready(Some(Err(failure))))
                &&& says(failure, Error::Send(Cause::Codec(e)))
                &&& turn.after is Done
            },
            Outcome::Next(Poll::Ready(Some(Err(e)))) => {
                &&& turn.step matches Step::Return(Poll::Ready(Some(Err(failure))))
                &&& says(failure, Error::Recv(Cause::Codec(e)))
                &&& turn.after is Done
            },
            Outcome::Next(Poll::Ready(None)) => {
                &&& turn.step matches Step::Return(Poll::Ready(Some(Err(failure))))
                &&& says_only(failure, ErrorKind::UnexpectedEof)
                &&& turn.after is Done
            },
            _ => true,
        },
{
}

/// A call that would block has a returning exchange block and stay as it is; one that succeeds has
/// it go on with its stream unchanged, or give what was received and the stream, as the call left
/// it.
pub proof fn return_steps_follow_their_call<S, C, W>(turn: ReturningTurn<S, C, W>) where
    C: Encoder + Decoder<Error = <C as Encoder>::Error>,

    requires
        return_steps()(turn),
    ensures
        match turn.input.outcome {
            Outcome::Ready(Poll::Pending) => {
                &&& turn.step matches Step::Return(Poll::Pending)
                &&& turn.after == turn.before
            },
            Outcome::Flush(Poll::Pending) => {
                &&& turn.step matches Step::Return(Poll::Pending)
                &&& turn.after == turn.before
            },
            Outcome::Next(Poll::Pending) => {
                &&& turn.step matches Step::Return(Poll::Pending)
                &&& turn.after == turn.before
            },
            Outcome::Flush(Poll::Ready(Ok(()))) => {
                &&& turn.step matches Step::Return(Poll::Ready(Some(Ok(given))))
                &&& given matches Event::Completed { stream }
                &&& stream == turn.before->Flushing_framed.fuse.t
                &&& turn.after is Done
            },
            Outcome::Next(Poll::Ready(Some(Ok(request)))) => {
                &&& turn.step matches Step::Return(Poll::Ready(Some(Ok(given))))
                &&& given matches Event::NewRequest { request: received, .. }
                &&& received == request
                &&& turn.after matches RecvSendState::Waiting(_, framed)
                &&& framed == turn.before->Receiving_framed
            },
            Outcome::Nothing => {
                &&& turn.before is Done ==> (turn.step matches Step::Return(Poll::Ready(None)))
                &&& turn.before is Done ==> turn.after is Done
            },
            _ => true,
        },
{
}

/// What a returning exchange does with its slot. The slot is emptied, with the waker parked in it,
/// when the request is received. While it waits, the response is taken out if it is there, and that
/// very response is handed over next; if it is not, the waker is parked, and one that was not there
/// tells that the response will never come.
pub proof fn return_slot_passes_the_response<S, C, W>(turn: ReturningTurn<S, C, W>) where
    C: Encoder + Decoder<Error = <C as Encoder>::Error>,

    requires
        return_steps()(turn),
    ensures
        match turn.before {
            RecvSendState::Receiving { .. } => if receives(turn) {
                turn.input.slot_after.message is None && turn.input.slot_after.waker == Some(
                    turn.input.waker,
                )
            } else {
                turn.input.slot_after == turn.input.slot
            },
            RecvSendState::Waiting(_, framed) => match (
                turn.input.slot.message,
                turn.input.slot.waker,
            ) {
                (Some(response), waker) => {
                    &&& turn.input.slot_after.message is None
                    &&& turn.input.slot_after.waker == waker
                    &&& turn.step is Continue
                    &&& turn.after == (RecvSendState::Sending(
                        Sending { framed, message: Some(response) },
                    ))
                },
                (None, None) => {
                    &&& turn.input.slot_after.message is None
                    &&& turn.input.slot_after.waker == Some(turn.input.waker)
                    &&& turn.step matches Step::Return(Poll::Ready(Some(Err(failure))))
                    &&& says_only(failure, ErrorKind::BrokenPipe)
                    &&& turn.after is Done
                },
                (None, Some(_)) => {
                    &&& turn.input.slot_after.message is None
                    &&& turn.input.slot_after.waker == Some(turn.input.waker)
                    &&& turn.step matches Step::Return(Poll::Pending)
                    &&& turn.after == turn.before
                },
            },
            _ => turn.input.slot_after == turn.input.slot,
        },
{
}

/// The peer of a returning exchange is sent nothing but what the codec makes of the response: until
/// it is handed over nothing is written and nothing waits to be, and from then on what was written
/// and what waits to be are together just what the codec encoded, into an empty buffer.
pub proof fn return_sends_only_what_was_encoded<S, C, W>(
    turns: Seq<ReturningTurn<S, C, W>>,
    j: int,
) where
    C: Encoder + Decoder<Error = <C as Encoder>::Error>,

    requires
        return_run(turns),
        0 <= j < turns.len(),
        pending()(turns[0].before).len() == 0,
        only_writes(turns, pending(), j),
        turns[j].before.framed() is Some,
    ensures
        (forall|i: int| 0 <= i < j ==> !hands_over(#[trigger] turns[i])) ==> sent(
            turns,
            pending(),
            j,
        ) == Seq::<u8>::empty(),
        forall|c: int|
            0 <= c < j && #[trigger] hands_over(turns[c]) ==> exists|
                result: Result<(), <C as Encoder>::Error>,
            |
                #[trigger] turns[c].before->Sending_0.framed.fuse.u.encodes(
                    turns[c].before->Sending_0.message->0,
                    Seq::empty(),
                    result,
                    &turns[c].after.framed()->0.fuse.u,
                    sent(turns, pending(), j),
                ),
{
    let steps = return_steps::<S, C, W>();
    lemma_stages_rise(turns, steps, resumes_or_aborts(), |state| return_stage::<S, C>(state));
    assert forall|k: int| 0 <= k < j && !hands_over(#[trigger] turns[k]) implies pending()(
        turns[k].after,
    ) == pending()(turns[k].before) by {
        assert(steps(turns[k]) && return_stage(turns[k].after) <= return_stage(turns[j].before));
        return_keeps_stream(turns[k]);
    }
    assert forall|i: int, k: int|
        0 <= i < k < j && hands_over(#[trigger] turns[i]) implies !hands_over(
        #[trigger] turns[k],
    ) by {
        assert(steps(turns[i]) && return_stage(turns[i].after) <= return_stage(turns[k].before));
    }
    let fills = |turn: ReturningTurn<S, C, W>| hands_over(turn);
    lemma_sent_once(turns, pending(), fills, j);
    assert forall|c: int| 0 <= c < j && #[trigger] hands_over(turns[c]) implies exists|
        result: Result<(), <C as Encoder>::Error>,
    |
        #[trigger] turns[c].before->Sending_0.framed.fuse.u.encodes(
            turns[c].before->Sending_0.message->0,
            Seq::empty(),
            result,
            &turns[c].after.framed()->0.fuse.u,
            sent(turns, pending(), j),
        ) by {
        assert(steps(turns[c]) && return_stage(turns[c].after) <= return_stage(turns[j].before));
        return_hands_over_one_message(turns[c]);
        assert(pending()(turns[c].before) == contents(
            turns[c].before->Sending_0.framed.write_buffer,
        ));
        assert(pending()(turns[c].after) == contents(turns[c].after.framed()->0.write_buffer));
        assert(fills(turns[c]));
    }
}

/// To respond puts the response into the slot, and to go takes nothing out of it; either way the
/// waker is taken, which tells that the responder has gone. A poll takes the response out and
/// leaves the waker, or parks its own.
pub proof fn slot_holds_what_was_put_there<M, W>(slot: Shared<M, W>, response: M, waker: W)
    ensures
        slot.after_respond(response).message == Some(response),
        slot.after_respond(response).waker is None,
        slot.after_release().message == slot.message,
        slot.after_release().waker is None,
        slot.after_poll(waker).message is None,
        slot.message is Some ==> slot.after_poll(waker).waker == slot.waker,
        slot.message is None ==> slot.after_poll(waker).waker == Some(waker),
        match slot.poll() {
            Poll::Ready(Ok(found)) => slot.message == Some(found),
            Poll::Ready(Err(kind)) => slot.message is None && slot.waker is None && kind
                == ErrorKind::BrokenPipe,
            Poll::Pending => slot.message is None && slot.waker is Some,
        },
{
}

} // verus!
