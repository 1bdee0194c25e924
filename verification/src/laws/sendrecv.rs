//! Laws of the send-recv pattern.

use crate::buffer::contents;
use crate::decoder::Decoder;
use crate::encoder::Encoder;
use crate::framed::Framed;
use crate::io_error::{Cause, ErrorKind, IoError};
use crate::laws::errors::{says, says_only, says_twice};
use crate::laws::wire::{lemma_sent_once, only_writes, sent};
use crate::message_patterns::{CloseStream, Error, ReturnStream};
use crate::poll::{Outcome, Poll, Step};
use crate::run::{is_run, lemma_entered, lemma_invariant, lemma_stages_rise, Turn};
use crate::sendrecv::{SendRecv, SendRecvState};
use vstd::prelude::*;

verus! {

/// A turn of a [`SendRecv`] that gives items of type `T`.
pub type SendRecvTurn<S, C, T> = Turn<
    SendRecvState<S, C>,
    Outcome<<C as Decoder>::Item, <C as Encoder>::Error>,
    Result<T, IoError<<C as Encoder>::Error>>,
>;

/// A turn of a [`SendRecv`] that closes its stream.
pub type ClosingTurn<S, C> = SendRecvTurn<S, C, <C as Decoder>::Item>;

/// A turn of a [`SendRecv`] that returns its stream.
pub type ReturningTurn<S, C> = SendRecvTurn<S, C, (<C as Decoder>::Item, S)>;

/// How far a state is: sending, flushing, receiving, closing, done, and then not to be polled any
/// more.
pub open spec fn stage<S, C: Encoder>(state: SendRecvState<S, C>) -> int {
    match state {
        SendRecvState::Sending(_) => 0,
        SendRecvState::Flushing { .. } => 1,
        SendRecvState::Receiving { .. } => 2,
        SendRecvState::Closing { .. } => 3,
        SendRecvState::Done => 4,
        SendRecvState::Poisoned => 5,
    }
}

/// Between two steps only the framed stream may change, through the calls made on it.
pub open spec fn resumes<S, C: Encoder>() -> spec_fn(
    SendRecvState<S, C>,
    SendRecvState<S, C>,
) -> bool {
    |after: SendRecvState<S, C>, before: SendRecvState<S, C>|
        before == after.with_framed(before.framed()->0)
}

/// The state waits to hand over `message`.
pub open spec fn begins_with<S, C: Encoder>(state: SendRecvState<S, C>, message: C::Item) -> bool {
    state matches SendRecvState::Sending(sending) && sending.message == Some(message)
}

/// The codec is handed the message in this turn.
pub open spec fn hands_over<S, C, T>(turn: SendRecvTurn<S, C, T>) -> bool where
    C: Encoder + Decoder<Error = <C as Encoder>::Error>,
 {
    turn.before is Sending && turn.input matches Outcome::Ready(Poll::Ready(Ok(())))
}

/// All that was handed over has been written in this turn.
pub open spec fn flushes<S, C, T>(turn: SendRecvTurn<S, C, T>) -> bool where
    C: Encoder + Decoder<Error = <C as Encoder>::Error>,
 {
    turn.before is Flushing && turn.input matches Outcome::Flush(Poll::Ready(Ok(())))
}

/// The codec is handed `message` in this turn, and takes it.
pub open spec fn took<S, C, T>(
    turn: SendRecvTurn<S, C, T>,
    message: <C as Encoder>::Item,
) -> bool where
    C: Encoder + Decoder<Error = <C as Encoder>::Error>,
 {
    &&& hands_over(turn)
    &&& turn.before->Sending_0.message == Some(message)
    &&& turn.after is Flushing
    &&& turn.before.framed()->0.accepts(message, Ok(()), turn.after.framed()->0)
}

/// The stream is closed in this turn.
pub open spec fn closes<S, C, T>(turn: SendRecvTurn<S, C, T>) -> bool where
    C: Encoder + Decoder<Error = <C as Encoder>::Error>,
 {
    turn.before is Closing && turn.input matches Outcome::Close(Poll::Ready(Ok(())))
}

/// Whether a turn takes the step of a pattern that closes its stream.
pub open spec fn close_steps<S, C>() -> spec_fn(ClosingTurn<S, C>) -> bool where
    C: Encoder + Decoder<Error = <C as Encoder>::Error>,
 {
    |turn: ClosingTurn<S, C>|
        SendRecv::<S, C, CloseStream>::steps(turn.before, turn.input, turn.step, turn.after)
}

/// The turns of a [`SendRecv`] that closes its stream.
pub open spec fn close_run<S, C>(turns: Seq<ClosingTurn<S, C>>) -> bool where
    C: Encoder + Decoder<Error = <C as Encoder>::Error>,
 {
    is_run(turns, close_steps::<S, C>(), resumes::<S, C>())
}

/// Whether a turn takes the step of a pattern that returns its stream.
pub open spec fn return_steps<S, C>() -> spec_fn(ReturningTurn<S, C>) -> bool where
    C: Encoder + Decoder<Error = <C as Encoder>::Error>,
 {
    |turn: ReturningTurn<S, C>|
        SendRecv::<S, C, ReturnStream>::steps(turn.before, turn.input, turn.step, turn.after)
}

/// The turns of a [`SendRecv`] that returns its stream.
pub open spec fn return_run<S, C>(turns: Seq<ReturningTurn<S, C>>) -> bool where
    C: Encoder + Decoder<Error = <C as Encoder>::Error>,
 {
    is_run(turns, return_steps::<S, C>(), resumes::<S, C>())
}

/// The stream fails to close in this turn.
pub open spec fn fails_to_close<S, C, T>(turn: SendRecvTurn<S, C, T>) -> bool where
    C: Encoder + Decoder<Error = <C as Encoder>::Error>,
 {
    turn.before is Closing && turn.input matches Outcome::Close(Poll::Ready(Err(_)))
}

/// A closing exchange that gives one item after another gives first the response, and then the
/// error of a stream that fails to close.
pub proof fn close_gives_more_only_where_closing_fails<S, C>(turns: Seq<ClosingTurn<S, C>>) where
    C: Encoder + Decoder<Error = <C as Encoder>::Error>,

    requires
        close_run(turns),
    ensures
        forall|i: int, j: int|
            0 <= i < j < turns.len() && #[trigger] turns[i].gives() && #[trigger] turns[j].gives()
                ==> turns[i].succeeds() && turns[j].fails() && fails_to_close(turns[j]),
{
    let steps = close_steps::<S, C>();
    lemma_stages_rise(turns, steps, resumes(), |state| stage::<S, C>(state));
    assert forall|i: int, j: int|
        0 <= i < j < turns.len() && #[trigger] turns[i].gives()
            && #[trigger] turns[j].gives() implies turns[i].succeeds() && turns[j].fails()
        && fails_to_close(turns[j]) by {
        assert(steps(turns[i]) && steps(turns[j]));
    }
}

/// A closing exchange gives one item in all at most, unless its stream fails to close.
pub proof fn close_gives_at_most_one_item<S, C>(turns: Seq<ClosingTurn<S, C>>) where
    C: Encoder + Decoder<Error = <C as Encoder>::Error>,

    requires
        close_run(turns),
        forall|i: int| 0 <= i < turns.len() ==> !fails_to_close(#[trigger] turns[i]),
    ensures
        forall|i: int, j: int|
            0 <= i < j < turns.len() && #[trigger] turns[i].gives() ==> !(
            #[trigger] turns[j].gives()),
{
    close_gives_more_only_where_closing_fails(turns);
}

/// A closing exchange gives one response at most.
pub proof fn close_gives_at_most_one_response<S, C>(turns: Seq<ClosingTurn<S, C>>) where
    C: Encoder + Decoder<Error = <C as Encoder>::Error>,

    requires
        close_run(turns),
    ensures
        forall|i: int, j: int|
            0 <= i < j < turns.len() && #[trigger] turns[i].succeeds() ==> !(
            #[trigger] turns[j].succeeds()),
{
    close_gives_more_only_where_closing_fails(turns);
    assert forall|i: int, j: int|
        0 <= i < j < turns.len() && #[trigger] turns[i].succeeds() implies !(
    #[trigger] turns[j].succeeds()) by {
        assert(turns[i].gives() && (turns[j].succeeds() ==> turns[j].gives()));
    }
}

/// A closing exchange gives nothing after an error.
pub proof fn close_fails_last<S, C>(turns: Seq<ClosingTurn<S, C>>) where
    C: Encoder + Decoder<Error = <C as Encoder>::Error>,

    requires
        close_run(turns),
    ensures
        forall|i: int, j: int|
            0 <= i < j < turns.len() && #[trigger] turns[i].fails() ==> !(
            #[trigger] turns[j].gives()),
{
    close_gives_more_only_where_closing_fails(turns);
    assert forall|i: int, j: int|
        0 <= i < j < turns.len() && #[trigger] turns[i].fails() implies !(
    #[trigger] turns[j].gives()) by {
        assert(turns[i].gives());
    }
}

/// In a closing exchange the codec is handed a message once at most, and it is the message that the
/// exchange began with.
pub proof fn close_hands_over_once<S, C>(
    turns: Seq<ClosingTurn<S, C>>,
    message: <C as Encoder>::Item,
) where
    C: Encoder + Decoder<Error = <C as Encoder>::Error>,

    requires
        close_run(turns),
        turns.len() > 0 ==> begins_with(turns[0].before, message),
    ensures
        forall|i: int, j: int|
            0 <= i < j < turns.len() && #[trigger] hands_over(turns[i]) ==> !(#[trigger] hands_over(
                turns[j],
            )),
        forall|i: int|
            0 <= i < turns.len() && #[trigger] hands_over(turns[i]) ==> begins_with(
                turns[i].before,
                message,
            ),
{
    let steps = close_steps::<S, C>();
    lemma_stages_rise(turns, steps, resumes(), |state| stage::<S, C>(state));
    lemma_invariant(
        turns,
        steps,
        resumes(),
        |state: SendRecvState<S, C>| state is Sending ==> begins_with(state, message),
    );
    assert forall|i: int| 0 <= i < turns.len() && #[trigger] hands_over(turns[i]) implies stage(
        turns[i].after,
    ) > 0 by {
        assert(steps(turns[i]));
    }
}

/// A poll of a closing exchange ends: it goes on for two steps in a row at most.
pub proof fn close_polls_end<S, C>(turns: Seq<ClosingTurn<S, C>>, start: int, n: int) where
    C: Encoder + Decoder<Error = <C as Encoder>::Error>,

    requires
        close_run(turns),
        0 <= start,
        0 <= n,
        start + n <= turns.len(),
        forall|i: int| start <= i < start + n ==> (#[trigger] turns[i]).step is Continue,
    ensures
        n <= 2,
{
    if n > 2 {
        assert(close_steps()(turns[start]));
        assert(close_steps()(turns[start + 1]));
        assert(close_steps()(turns[start + 2]));
        assert(resumes()(turns[start].after, turns[start + 1].before));
        assert(resumes()(turns[start + 1].after, turns[start + 2].before));
    }
}

/// A closing exchange waits for the response only after the message has been written.
pub proof fn close_receives_after_flush<S, C>(turns: Seq<ClosingTurn<S, C>>, j: int) where
    C: Encoder + Decoder<Error = <C as Encoder>::Error>,

    requires
        close_run(turns),
        0 <= j < turns.len(),
        turns[0].before is Sending,
        turns[j].before is Receiving,
    ensures
        exists|i: int| 0 <= i < j && #[trigger] flushes(turns[i]),
{
    let inside = |state: SendRecvState<S, C>| state is Receiving;
    let i = lemma_entered(turns, close_steps(), resumes(), inside, j);
    assert(flushes(turns[i]));
}

/// An exchange closes its stream only after it has given the response.
pub proof fn close_follows_response<S, C>(turns: Seq<ClosingTurn<S, C>>, j: int) where
    C: Encoder + Decoder<Error = <C as Encoder>::Error>,

    requires
        close_run(turns),
        0 <= j < turns.len(),
        turns[0].before is Sending,
        turns[j].before is Closing,
    ensures
        exists|i: int| 0 <= i < j && #[trigger] turns[i].succeeds(),
{
    let inside = |state: SendRecvState<S, C>| state is Closing;
    let i = lemma_entered(turns, close_steps(), resumes(), inside, j);
    assert(turns[i].succeeds());
}

/// A closing exchange is over only after the stream has been closed or an error has been given.
pub proof fn close_ends_with_close_or_error<S, C>(turns: Seq<ClosingTurn<S, C>>, j: int) where
    C: Encoder + Decoder<Error = <C as Encoder>::Error>,

    requires
        close_run(turns),
        0 <= j < turns.len(),
        turns[0].before is Sending,
        turns[j].before is Done,
    ensures
        exists|i: int| 0 <= i < j && (closes(#[trigger] turns[i]) || turns[i].fails()),
{
    let inside = |state: SendRecvState<S, C>| state is Done;
    let i = lemma_entered(turns, close_steps(), resumes(), inside, j);
    assert(closes(turns[i]) || turns[i].fails());
}

/// A closing exchange that finishes without an error has had its message taken by the codec and
/// written, has given the response, and has had the stream closed, in this order, however often it
/// was made to wait.
pub proof fn close_finishes_after_all<S, C>(
    turns: Seq<ClosingTurn<S, C>>,
    message: <C as Encoder>::Item,
    j: int,
) where
    C: Encoder + Decoder<Error = <C as Encoder>::Error>,

    requires
        close_run(turns),
        0 <= j < turns.len(),
        begins_with(turns[0].before, message),
        turns[j].step.finishes(),
        forall|i: int| 0 <= i < j ==> !(#[trigger] turns[i]).fails(),
    ensures
        exists|a: int, b: int, c: int, d: int|
            0 <= a < b < c < d < j && #[trigger] took(turns[a], message)
                && #[trigger] flushes(turns[b]) && #[trigger] turns[c].succeeds()
                && #[trigger] closes(turns[d]),
{
    assert(close_steps()(turns[j]));
    close_ends_with_close_or_error(turns, j);
    let d = choose|d: int| 0 <= d < j && (closes(#[trigger] turns[d]) || turns[d].fails());
    close_follows_response(turns, d);
    let c = choose|c: int| 0 <= c < d && #[trigger] turns[c].succeeds();
    assert(close_steps()(turns[c]));
    close_receives_after_flush(turns, c);
    let b = choose|b: int| 0 <= b < c && #[trigger] flushes(turns[b]);
    let inside = |state: SendRecvState<S, C>| state is Flushing;
    let a = lemma_entered(turns, close_steps(), resumes(), inside, b);
    lemma_invariant(
        turns,
        close_steps(),
        resumes(),
        |state: SendRecvState<S, C>| state is Sending ==> begins_with(state, message),
    );
    turns[a].before->Sending_0.lemma_taken(
        turns[a].input->Ready_0,
        turns[a].after.framed()->0,
    );
    assert(took(turns[a], message) && flushes(turns[b]) && turns[c].succeeds() && closes(turns[d]));
}

/// A closing exchange can be polled again after every step but the one that reports its end: after
/// every item that it gives, an error too, it goes on or ends in its own time.
pub proof fn close_can_be_polled_again<S, C>(turn: ClosingTurn<S, C>) where
    C: Encoder + Decoder<Error = <C as Encoder>::Error>,

    requires
        close_steps()(turn),
    ensures
        turn.gives() ==> !(turn.after is Poisoned),
        turn.step is Continue || turn.step.blocks() ==> !(turn.after is Poisoned),
        turn.step.finishes() ==> turn.after is Poisoned,
{
}

/// A closing exchange that has given an error reports its end in the next step.
pub proof fn close_ends_after_error<S, C>(turns: Seq<ClosingTurn<S, C>>, i: int) where
    C: Encoder + Decoder<Error = <C as Encoder>::Error>,

    requires
        close_run(turns),
        0 <= i < turns.len() - 1,
        turns[i].fails(),
    ensures
        turns[i + 1].step.finishes(),
{
    assert(close_steps()(turns[i]));
    assert(close_steps()(turns[i + 1]));
    assert(resumes()(turns[i].after, turns[i + 1].before));
}

/// A closing exchange says once that it has finished, and takes no step after that.
pub proof fn close_finishes_last<S, C>(turns: Seq<ClosingTurn<S, C>>, i: int) where
    C: Encoder + Decoder<Error = <C as Encoder>::Error>,

    requires
        close_run(turns),
        0 <= i < turns.len(),
        turns[i].step.finishes(),
    ensures
        i == turns.len() - 1,
{
    assert(close_steps()(turns[i]));
    if i + 1 < turns.len() {
        assert(resumes()(turns[i].after, turns[i + 1].before));
        assert(close_steps()(turns[i + 1]));
    }
}

/// A step of a closing exchange blocks exactly where its call would have blocked, and then changes
/// no state. Every other step comes closer to the end, or reports it. Every failure of a call is
/// reported as an error, and there is no other error but that the codec does not take the message.
pub proof fn close_steps_progress<S, C>(turn: ClosingTurn<S, C>) where
    C: Encoder + Decoder<Error = <C as Encoder>::Error>,

    requires
        close_steps()(turn),
    ensures
        turn.step.blocks() == turn.input.is_pending(),
        turn.step.blocks() ==> turn.after == turn.before,
        !turn.step.blocks() ==> turn.step.finishes() || stage(turn.before) < stage(turn.after),
        turn.fails() == (turn.input.is_failure() || (hands_over(turn) && !(turn.step is Continue))),
{
}

/// What a step of a closing exchange answers and leaves is determined by the state and by the
/// outcome, but for what the codec makes of the message that it is handed.
pub proof fn close_steps_are_determined<S, C>(
    one: ClosingTurn<S, C>,
    two: ClosingTurn<S, C>,
) where
    C: Encoder + Decoder<Error = <C as Encoder>::Error>,

    requires
        close_steps()(one),
        close_steps()(two),
        one.before == two.before,
        one.input == two.input,
        !hands_over(one),
    ensures
        one.step == two.step,
        one.after == two.after,
{
}

/// A step of a closing exchange leaves the stream as it is for as long as it keeps it, and what was
/// read from it too. Unless it hands over a message, it leaves the whole framed stream as it is:
/// the codec, and what waits to be decoded and to be written.
pub proof fn close_keeps_stream<S, C>(turn: ClosingTurn<S, C>) where
    C: Encoder + Decoder<Error = <C as Encoder>::Error>,

    requires
        close_steps()(turn),
    ensures
        turn.after.framed() matches Some(framed) ==> framed.io() == turn.before.framed()->0.io(),
        turn.after.framed() is Some ==> turn.before.framed() is Some,
        turn.after.framed() is Some ==> turn.after.framed()->0.read_buffer
            == turn.before.framed()->0.read_buffer,
        turn.after.framed() is Some && !hands_over(turn) ==> turn.after.framed()
            == turn.before.framed(),
{
}

/// Where every call succeeds and the codec takes the message, a closing exchange writes the
/// message, gives the response that is received, closes the stream and finishes.
pub proof fn close_completes<S, C>(
    turns: Seq<ClosingTurn<S, C>>,
    message: <C as Encoder>::Item,
    response: <C as Decoder>::Item,
) where
    C: Encoder + Decoder<Error = <C as Encoder>::Error>,

    requires
        close_run(turns),
        turns.len() == 5,
        begins_with(turns[0].before, message),
        turns[0].input matches Outcome::Ready(Poll::Ready(Ok(()))),
        turns[0].step is Continue,
        turns[1].input matches Outcome::Flush(Poll::Ready(Ok(()))),
        turns[2].input == Outcome::<_, <C as Encoder>::Error>::Next(
            Poll::Ready(Some(Ok(response))),
        ),
        turns[3].input matches Outcome::Close(Poll::Ready(Ok(()))),
        turns[4].input is Nothing,
    ensures
        turns[0].before.framed()->0.accepts(message, Ok(()), turns[0].after.framed()->0),
        turns[1].before is Flushing,
        turns[1].step is Continue,
        turns[2].step.emits(Ok(response)),
        turns[3].before is Closing,
        turns[3].step is Continue,
        turns[4].step.finishes(),
{
    let steps = close_steps();
    assert(steps(turns[0]));
    assert(steps(turns[1]));
    assert(steps(turns[2]));
    assert(steps(turns[3]));
    assert(steps(turns[4]));
    assert(resumes()(turns[0].after, turns[1].before));
    assert(resumes()(turns[1].after, turns[2].before));
    assert(resumes()(turns[2].after, turns[3].before));
    assert(resumes()(turns[3].after, turns[4].before));
    turns[0].before->Sending_0.lemma_taken(
        turns[0].input->Ready_0,
        turns[0].after.framed()->0,
    );
}

/// A returning exchange gives one item in all at most: the response with its stream, or the error
/// that ended it.
pub proof fn return_gives_at_most_one_item<S, C>(turns: Seq<ReturningTurn<S, C>>) where
    C: Encoder + Decoder<Error = <C as Encoder>::Error>,

    requires
        return_run(turns),
    ensures
        forall|i: int, j: int|
            0 <= i < j < turns.len() && #[trigger] turns[i].gives() ==> !(
            #[trigger] turns[j].gives()),
{
    let steps = return_steps::<S, C>();
    lemma_stages_rise(turns, steps, resumes(), |state| stage::<S, C>(state));
    assert forall|i: int| 0 <= i < turns.len() && #[trigger] turns[i].gives() implies stage(
        turns[i].before,
    ) < 4 <= stage(turns[i].after) by {
        assert(steps(turns[i]));
    }
}

/// In a returning exchange the codec is handed a message once at most, and it is the message that
/// the exchange began with.
pub proof fn return_hands_over_once<S, C>(
    turns: Seq<ReturningTurn<S, C>>,
    message: <C as Encoder>::Item,
) where
    C: Encoder + Decoder<Error = <C as Encoder>::Error>,

    requires
        return_run(turns),
        turns.len() > 0 ==> begins_with(turns[0].before, message),
    ensures
        forall|i: int, j: int|
            0 <= i < j < turns.len() && #[trigger] hands_over(turns[i]) ==> !(#[trigger] hands_over(
                turns[j],
            )),
        forall|i: int|
            0 <= i < turns.len() && #[trigger] hands_over(turns[i]) ==> begins_with(
                turns[i].before,
                message,
            ),
{
    let steps = return_steps::<S, C>();
    lemma_stages_rise(turns, steps, resumes(), |state| stage::<S, C>(state));
    lemma_invariant(
        turns,
        steps,
        resumes(),
        |state: SendRecvState<S, C>| state is Sending ==> begins_with(state, message),
    );
    assert forall|i: int| 0 <= i < turns.len() && #[trigger] hands_over(turns[i]) implies stage(
        turns[i].after,
    ) > 0 by {
        assert(steps(turns[i]));
    }
}

/// A poll of a returning exchange ends: it goes on for two steps in a row at most.
pub proof fn return_polls_end<S, C>(turns: Seq<ReturningTurn<S, C>>, start: int, n: int) where
    C: Encoder + Decoder<Error = <C as Encoder>::Error>,

    requires
        return_run(turns),
        0 <= start,
        0 <= n,
        start + n <= turns.len(),
        forall|i: int| start <= i < start + n ==> (#[trigger] turns[i]).step is Continue,
    ensures
        n <= 2,
{
    if n > 2 {
        assert(return_steps()(turns[start]));
        assert(return_steps()(turns[start + 1]));
        assert(return_steps()(turns[start + 2]));
        assert(resumes()(turns[start].after, turns[start + 1].before));
        assert(resumes()(turns[start + 1].after, turns[start + 2].before));
    }
}

/// A returning exchange waits for the response only after the message has been written.
pub proof fn return_receives_after_flush<S, C>(turns: Seq<ReturningTurn<S, C>>, j: int) where
    C: Encoder + Decoder<Error = <C as Encoder>::Error>,

    requires
        return_run(turns),
        0 <= j < turns.len(),
        turns[0].before is Sending,
        turns[j].before is Receiving,
    ensures
        exists|i: int| 0 <= i < j && #[trigger] flushes(turns[i]),
{
    let inside = |state: SendRecvState<S, C>| state is Receiving;
    let i = lemma_entered(turns, return_steps(), resumes(), inside, j);
    assert(flushes(turns[i]));
}

/// A returning exchange gives the response only after its message has been taken by the codec and
/// written, in this order, however often it was made to wait.
pub proof fn return_succeeds_after_all<S, C>(
    turns: Seq<ReturningTurn<S, C>>,
    message: <C as Encoder>::Item,
    j: int,
) where
    C: Encoder + Decoder<Error = <C as Encoder>::Error>,

    requires
        return_run(turns),
        0 <= j < turns.len(),
        begins_with(turns[0].before, message),
        turns[j].succeeds(),
    ensures
        exists|a: int, b: int|
            0 <= a < b < j && #[trigger] took(turns[a], message) && #[trigger] flushes(turns[b]),
{
    assert(return_steps()(turns[j]));
    return_receives_after_flush(turns, j);
    let b = choose|b: int| 0 <= b < j && #[trigger] flushes(turns[b]);
    let inside = |state: SendRecvState<S, C>| state is Flushing;
    let a = lemma_entered(turns, return_steps(), resumes(), inside, b);
    lemma_invariant(
        turns,
        return_steps(),
        resumes(),
        |state: SendRecvState<S, C>| state is Sending ==> begins_with(state, message),
    );
    turns[a].before->Sending_0.lemma_taken(
        turns[a].input->Ready_0,
        turns[a].after.framed()->0,
    );
    assert(took(turns[a], message) && flushes(turns[b]));
}

/// A returning exchange that has given its item, or has said that it has finished, says so in every
/// later step.
pub proof fn return_stays_finished<S, C>(turns: Seq<ReturningTurn<S, C>>, i: int, j: int) where
    C: Encoder + Decoder<Error = <C as Encoder>::Error>,

    requires
        return_run(turns),
        0 <= i < j < turns.len(),
        turns[i].gives() || turns[i].step.finishes(),
    ensures
        turns[j].step.finishes(),
{
    let steps = return_steps::<S, C>();
    lemma_stages_rise(turns, steps, resumes(), |state| stage::<S, C>(state));
    assert(steps(turns[i]) && steps(turns[j]));
}

/// A returning exchange never closes its stream and is never poisoned.
pub proof fn return_never_closes<S, C>(turns: Seq<ReturningTurn<S, C>>) where
    C: Encoder + Decoder<Error = <C as Encoder>::Error>,

    requires
        return_run(turns),
    ensures
        forall|i: int|
            0 <= i < turns.len() ==> !((#[trigger] turns[i]).after is Closing) && !(
            turns[i].after is Poisoned),
{
    assert forall|i: int| 0 <= i < turns.len() implies !((#[trigger] turns[i]).after is Closing)
        && !(turns[i].after is Poisoned) by {
        assert(return_steps()(turns[i]));
    }
}

/// A step of a returning exchange blocks exactly where its call would have blocked, and then
/// changes no state. Every other step comes closer to the end, or reports it. Every failure of a
/// call is reported as an error, and there is no other error but that the codec does not take the
/// message.
pub proof fn return_steps_progress<S, C>(turn: ReturningTurn<S, C>) where
    C: Encoder + Decoder<Error = <C as Encoder>::Error>,

    requires
        return_steps()(turn),
    ensures
        turn.step.blocks() == turn.input.is_pending(),
        turn.step.blocks() ==> turn.after == turn.before,
        !turn.step.blocks() ==> turn.step.finishes() || stage(turn.before) < stage(turn.after),
        turn.fails() == (turn.input.is_failure() || (hands_over(turn) && !(turn.step is Continue))),
{
}

/// What a step of a returning exchange answers and leaves is determined by the state and by the
/// outcome, but for what the codec makes of the message that it is handed.
pub proof fn return_steps_are_determined<S, C>(
    one: ReturningTurn<S, C>,
    two: ReturningTurn<S, C>,
) where
    C: Encoder + Decoder<Error = <C as Encoder>::Error>,

    requires
        return_steps()(one),
        return_steps()(two),
        one.before == two.before,
        one.input == two.input,
        !hands_over(one),
    ensures
        one.step == two.step,
        one.after == two.after,
{
}

/// A step of a returning exchange leaves the stream as it is for as long as it keeps it, and what
/// was read from it too. Unless it hands over a message, it leaves the whole framed stream as it
/// is: the codec, and what waits to be decoded and to be written.
pub proof fn return_keeps_stream<S, C>(turn: ReturningTurn<S, C>) where
    C: Encoder + Decoder<Error = <C as Encoder>::Error>,

    requires
        return_steps()(turn),
    ensures
        turn.after.framed() matches Some(framed) ==> framed.io() == turn.before.framed()->0.io(),
        turn.after.framed() is Some ==> turn.before.framed() is Some,
        turn.after.framed() is Some ==> turn.after.framed()->0.read_buffer
            == turn.before.framed()->0.read_buffer,
        turn.after.framed() is Some && !hands_over(turn) ==> turn.after.framed()
            == turn.before.framed(),
{
}

/// Where every call succeeds and the codec takes the message, a returning exchange writes the
/// message and gives the response that is received, with the stream as the last call left it.
pub proof fn return_completes<S, C>(
    turns: Seq<ReturningTurn<S, C>>,
    message: <C as Encoder>::Item,
    response: <C as Decoder>::Item,
) where
    C: Encoder + Decoder<Error = <C as Encoder>::Error>,

    requires
        return_run(turns),
        turns.len() == 3,
        begins_with(turns[0].before, message),
        turns[0].input matches Outcome::Ready(Poll::Ready(Ok(()))),
        turns[0].step is Continue,
        turns[1].input matches Outcome::Flush(Poll::Ready(Ok(()))),
        turns[2].input == Outcome::<_, <C as Encoder>::Error>::Next(
            Poll::Ready(Some(Ok(response))),
        ),
    ensures
        turns[0].before.framed()->0.accepts(message, Ok(()), turns[0].after.framed()->0),
        turns[1].before is Flushing,
        turns[1].step is Continue,
        turns[2].step.emits(Ok((response, turns[2].before.framed()->0.io()))),
{
    let steps = return_steps();
    assert(steps(turns[0]) && steps(turns[1]) && steps(turns[2]));
    assert(resumes()(turns[0].after, turns[1].before));
    assert(resumes()(turns[1].after, turns[2].before));
    turns[0].before->Sending_0.lemma_taken(
        turns[0].input->Ready_0,
        turns[0].after.framed()->0,
    );
}

/// Closing instead of returning the stream changes nothing before the response is due: up to there
/// the same steps go on, block and fail, into the same states and with the same errors. Once the
/// response has come the one goes on to close the stream where the other gives it back.
pub proof fn close_after_send_changes_the_end<S, C>(
    before: SendRecvState<S, C>,
    outcome: Outcome<<C as Decoder>::Item, <C as Encoder>::Error>,
    error: IoError<<C as Encoder>::Error>,
    after: SendRecvState<S, C>,
) where
    C: Encoder + Decoder<Error = <C as Encoder>::Error>,

    requires
        before is Sending || before is Flushing || before is Receiving,
    ensures
        match (before, outcome) {
            (
                SendRecvState::Receiving { framed },
                Outcome::Next(Poll::Ready(Some(Ok(response)))),
            ) => {
                &&& SendRecv::<S, C, CloseStream>::steps(
                    before,
                    outcome,
                    Step::Return(Poll::Ready(Some(Ok(response)))),
                    SendRecvState::Closing { framed },
                )
                &&& SendRecv::<S, C, ReturnStream>::steps(
                    before,
                    outcome,
                    Step::Return(Poll::Ready(Some(Ok((response, framed.io()))))),
                    SendRecvState::Done,
                )
            },
            _ => {
                &&& SendRecv::<S, C, CloseStream>::steps(before, outcome, Step::Continue, after)
                    == SendRecv::<S, C, ReturnStream>::steps(
                    before,
                    outcome,
                    Step::Continue,
                    after,
                )
                &&& SendRecv::<S, C, CloseStream>::steps(
                    before,
                    outcome,
                    Step::Return(Poll::Pending),
                    after,
                ) == SendRecv::<S, C, ReturnStream>::steps(
                    before,
                    outcome,
                    Step::Return(Poll::Pending),
                    after,
                )
                &&& SendRecv::<S, C, CloseStream>::steps(
                    before,
                    outcome,
                    Step::Return(Poll::Ready(Some(Err(error)))),
                    after,
                ) == SendRecv::<S, C, ReturnStream>::steps(
                    before,
                    outcome,
                    Step::Return(Poll::Ready(Some(Err(error)))),
                    after,
                )
            },
        },
{
}

/// Whenever the pattern demands a call on its stream, the very stream that its state holds is there
/// to make it on.
pub proof fn calls_have_their_stream<S, C: Encoder>(state: SendRecvState<S, C>)
    ensures
        state.framed() is None ==> state.demand() is Nothing || state.demand() is Poisoned,
        match state {
            SendRecvState::Sending(sending) => {
                &&& state.demand() is Ready
                &&& state.framed() == Some(sending.framed)
            },
            SendRecvState::Flushing { framed } => {
                &&& state.demand() is Flush
                &&& state.framed() == Some(framed)
            },
            SendRecvState::Receiving { framed } => {
                &&& state.demand() is Next
                &&& state.framed() == Some(framed)
            },
            SendRecvState::Closing { framed } => {
                &&& state.demand() is Close
                &&& state.framed() == Some(framed)
            },
            SendRecvState::Done => state.demand() is Nothing && state.framed() is None,
            SendRecvState::Poisoned => state.demand() is Poisoned && state.framed() is None,
        },
{
}

/// A call on the stream changes nothing of the state but the stream: what was there before can be
/// put back, and the last of two changes is the one that stays.
pub proof fn calls_change_only_the_stream<S, C: Encoder>(
    state: SendRecvState<S, C>,
    one: Framed<S, C>,
    two: Framed<S, C>,
)
    ensures
        state.with_framed(one).demand() == state.demand(),
        state.with_framed(one).with_framed(two) == state.with_framed(two),
        match state.framed() {
            Some(framed) => {
                &&& state.with_framed(framed) == state
                &&& state.with_framed(one).framed() == Some(one)
            },
            None => state.with_framed(one) == state,
        },
{
}

/// What a state has in its write buffer.
pub open spec fn pending<S, C: Encoder>() -> spec_fn(SendRecvState<S, C>) -> Seq<u8> {
    |state: SendRecvState<S, C>|
        match state {
            SendRecvState::Sending(sending) => contents(sending.framed.write_buffer),
            SendRecvState::Flushing { framed } => contents(framed.write_buffer),
            SendRecvState::Receiving { framed } => contents(framed.write_buffer),
            SendRecvState::Closing { framed } => contents(framed.write_buffer),
            _ => Seq::empty(),
        }
}

/// A step of a closing exchange takes the outcome of the call that was demanded, and of no other.
pub proof fn close_takes_the_call_demanded<S, C>(turn: ClosingTurn<S, C>) where
    C: Encoder + Decoder<Error = <C as Encoder>::Error>,

    requires
        close_steps()(turn),
    ensures
        turn.before.demand() is Ready == turn.input is Ready,
        turn.before.demand() is Flush == turn.input is Flush,
        turn.before.demand() is Next == turn.input is Next,
        turn.before.demand() is Close == turn.input is Close,
        turn.before.demand() is Nothing == turn.input is Nothing,
        !(turn.before.demand() is Poisoned),
        turn.before is Sending == turn.input is Ready,
        turn.before is Flushing == turn.input is Flush,
        turn.before is Receiving == turn.input is Next,
        turn.before is Closing == turn.input is Close,
        turn.input.demand() == turn.before.demand(),
{
}

/// In a closing exchange that hands its message over the codec encodes that message once, behind
/// what waits to be written. The stream and what was read from it are left alone, and what the
/// codec answers decides how the exchange goes on.
pub proof fn close_hands_over_one_message<S, C>(turn: ClosingTurn<S, C>) where
    C: Encoder + Decoder<Error = <C as Encoder>::Error>,

    requires
        close_steps()(turn),
        hands_over(turn),
    ensures
        exists|result: Result<(), <C as Encoder>::Error>, framed: Framed<S, C>|
            {
                &&& #[trigger] turn.before->Sending_0.framed.fuse.u.encodes(
                    turn.before->Sending_0.message->0,
                    contents(turn.before->Sending_0.framed.write_buffer),
                    result,
                    &framed.fuse.u,
                    contents(framed.write_buffer),
                )
                &&& framed.fuse.t == turn.before->Sending_0.framed.fuse.t
                &&& framed.read_buffer == turn.before->Sending_0.framed.read_buffer
                &&& match result {
                    Ok(()) => {
                        &&& turn.step is Continue
                        &&& turn.after == (SendRecvState::Flushing { framed })
                    },
                    Err(e) => {
                        &&& turn.step matches Step::Return(Poll::Ready(Some(Err(failure))))
                        &&& says_twice(failure, e)
                        &&& turn.after is Done
                    },
                }
            },
{
    assert(turn.input->Ready_0->Ready_0->Ok_0 == ());
    let held = turn.before->Sending_0;
    let (handed, framed) = choose|
        handed: Poll<Result<(), <C as Encoder>::Error>>,
        framed: Framed<S, C>,
    |
        #[trigger] held.hands_over(turn.input->Ready_0, handed, framed) && match handed {
            Poll::Ready(Ok(())) => turn.step is Continue && turn.after == (SendRecvState::Flushing {
                framed,
            }),
            Poll::Ready(Err(e)) => {
                &&& turn.step.emits(Err(IoError::start_send(e)))
                &&& turn.after is Done
            },
            Poll::Pending => turn.step.blocks() && turn.after == turn.before,
        };
    let result = handed->Ready_0;
    assert(held.framed.fuse.u.encodes(
        held.message->0,
        contents(held.framed.write_buffer),
        result,
        &framed.fuse.u,
        contents(framed.write_buffer),
    ));
}

/// A call that fails has a closing exchange give an error that tells the half that failed and holds
/// the error of the call unchanged; the end of the stream where a message is due is an error of its
/// own. The exchange is over then.
pub proof fn close_failures_say_what_failed<S, C>(turn: ClosingTurn<S, C>) where
    C: Encoder + Decoder<Error = <C as Encoder>::Error>,

    requires
        close_steps()(turn),
    ensures
        match turn.input {
            Outcome::Ready(Poll::Ready(Err(e))) => {
                &&& turn.step matches Step::Return(Poll::Ready(Some(Err(failure))))
                &&& says_twice(failure, e)
                &&& turn.after is Done
            },
            Outcome::Flush(Poll::Ready(Err(e))) => {
                &&& turn.step matches Step::Return(Poll::Ready(Some(Err(failure))))
                &&& says(failure, Error::Send(Cause::Codec(e)))
                &&& turn.after is Done
            },
            Outcome::Next(Poll::Ready(Some(Err(e)))) => {
                &&& turn.step matches Step::Return(Poll::Ready(Some(Err(failure))))
                &&& says(failure, Error::Recv(Cause::Codec(e)))
                &&& turn.after is Done
            },
            Outcome::Next(Poll::Ready(None)) => {
                &&& turn.step matches Step::Return(Poll::Ready(Some(Err(failure))))
                &&& says_only(failure, ErrorKind::UnexpectedEof)
                &&& turn.after is Done
            },
            Outcome::Close(Poll::Ready(Err(e))) => {
                &&& turn.step matches Step::Return(Poll::Ready(Some(Err(failure))))
                &&& says(failure, Error::Recv(Cause::Codec(e)))
                &&& turn.after is Done
            },
            _ => true,
        },
{
}

/// A call that would block has a closing exchange block and stay as it is; one that succeeds has it
/// go on with its stream unchanged, or give what was received, as the call left it.
pub proof fn close_steps_follow_their_call<S, C>(turn: ClosingTurn<S, C>) where
    C: Encoder + Decoder<Error = <C as Encoder>::Error>,

    requires
        close_steps()(turn),
    ensures
        match turn.input {
            Outcome::Ready(Poll::Pending) => {
                &&& turn.step matches Step::Return(Poll::Pending)
                &&& turn.after == turn.before
            },
            Outcome::Flush(Poll::Pending) => {
                &&& turn.step matches Step::Return(Poll::Pending)
                &&& turn.after == turn.before
            },
            Outcome::Next(Poll::Pending) => {
                &&& turn.step matches Step::Return(Poll::Pending)
                &&& turn.after == turn.before
            },
            Outcome::Close(Poll::Pending) => {
                &&& turn.step matches Step::Return(Poll::Pending)
                &&& turn.after == turn.before
            },
            Outcome::Flush(Poll::Ready(Ok(()))) => {
                &&& turn.step is Continue
                &&& turn.after == (SendRecvState::Receiving {
                    framed: turn.before->Flushing_framed,
                })
            },
            Outcome::Close(Poll::Ready(Ok(()))) => turn.step is Continue && turn.after is Done,
            Outcome::Next(Poll::Ready(Some(Ok(response)))) => {
                &&& turn.step matches Step::Return(Poll::Ready(Some(Ok(given))))
                &&& given == response
                &&& turn.after == (SendRecvState::Closing { framed: turn.before->Receiving_framed })
            },
            Outcome::Nothing => {
                &&& turn.step matches Step::Return(Poll::Ready(None))
                &&& turn.after is Poisoned
            },
            _ => true,
        },
{
}

/// The peer of a closing exchange is sent nothing but what the codec makes of the message: until it
/// is handed over nothing is written and nothing waits to be, and from then on what was written and
/// what waits to be are together just what the codec encoded, into an empty buffer.
pub proof fn close_sends_only_what_was_encoded<S, C>(
    turns: Seq<ClosingTurn<S, C>>,
    j: int,
) where
    C: Encoder + Decoder<Error = <C as Encoder>::Error>,

    requires
        close_run(turns),
        0 <= j < turns.len(),
        pending()(turns[0].before).len() == 0,
        only_writes(turns, pending(), j),
        turns[j].before.framed() is Some,
    ensures
        (forall|i: int| 0 <= i < j ==> !hands_over(#[trigger] turns[i])) ==> sent(
            turns,
            pending(),
            j,
        ) == Seq::<u8>::empty(),
        forall|c: int|
            0 <= c < j && #[trigger] hands_over(turns[c]) ==> exists|
                result: Result<(), <C as Encoder>::Error>,
            |
                #[trigger] turns[c].before->Sending_0.framed.fuse.u.encodes(
                    turns[c].before->Sending_0.message->0,
                    Seq::empty(),
                    result,
                    &turns[c].after.framed()->0.fuse.u,
                    sent(turns, pending(), j),
                ),
{
    let steps = close_steps::<S, C>();
    lemma_stages_rise(turns, steps, resumes(), |state| stage::<S, C>(state));
    assert forall|k: int| 0 <= k < j && !hands_over(#[trigger] turns[k]) implies pending()(
        turns[k].after,
    ) == pending()(turns[k].before) by {
        assert(steps(turns[k]) && stage(turns[k].after) <= stage(turns[j].before));
        close_keeps_stream(turns[k]);
    }
    assert forall|i: int, k: int|
        0 <= i < k < j && hands_over(#[trigger] turns[i]) implies !hands_over(
        #[trigger] turns[k],
    ) by {
        assert(steps(turns[i]) && stage(turns[i].after) <= stage(turns[k].before));
    }
    let fills = |turn: ClosingTurn<S, C>| hands_over(turn);
    lemma_sent_once(turns, pending(), fills, j);
    assert forall|c: int| 0 <= c < j && #[trigger] hands_over(turns[c]) implies exists|
        result: Result<(), <C as Encoder>::Error>,
    |
        #[trigger] turns[c].before->Sending_0.framed.fuse.u.encodes(
            turns[c].before->Sending_0.message->0,
            Seq::empty(),
            result,
            &turns[c].after.framed()->0.fuse.u,
            sent(turns, pending(), j),
        ) by {
        assert(steps(turns[c]) && stage(turns[c].after) <= stage(turns[j].before));
        close_hands_over_one_message(turns[c]);
        assert(pending()(turns[c].before) == contents(
            turns[c].before->Sending_0.framed.write_buffer,
        ));
        assert(pending()(turns[c].after) == contents(turns[c].after.framed()->0.write_buffer));
        assert(fills(turns[c]));
    }
}

/// A step of a returning exchange takes the outcome of the call that was demanded, and of no other.
pub proof fn return_takes_the_call_demanded<S, C>(turn: ReturningTurn<S, C>) where
    C: Encoder + Decoder<Error = <C as Encoder>::Error>,

    requires
        return_steps()(turn),
    ensures
        turn.before.demand() is Ready == turn.input is Ready,
        turn.before.demand() is Flush == turn.input is Flush,
        turn.before.demand() is Next == turn.input is Next,
        turn.before.demand() is Nothing == turn.input is Nothing,
        !(turn.before.demand() is Poisoned),
        !(turn.before.demand() is Close) && !(turn.input is Close),
        turn.before is Sending == turn.input is Ready,
        turn.before is Flushing == turn.input is Flush,
        turn.before is Receiving == turn.input is Next,
        turn.input.demand() == turn.before.demand(),
{
}

/// In a returning exchange that hands its message over the codec encodes that message once, behind
/// what waits to be written. The stream and what was read from it are left alone, and what the
/// codec answers decides how the exchange goes on.
pub proof fn return_hands_over_one_message<S, C>(turn: ReturningTurn<S, C>) where
    C: Encoder + Decoder<Error = <C as Encoder>::Error>,

    requires
        return_steps()(turn),
        hands_over(turn),
    ensures
        exists|result: Result<(), <C as Encoder>::Error>, framed: Framed<S, C>|
            {
                &&& #[trigger] turn.before->Sending_0.framed.fuse.u.encodes(
                    turn.before->Sending_0.message->0,
                    contents(turn.before->Sending_0.framed.write_buffer),
                    result,
                    &framed.fuse.u,
                    contents(framed.write_buffer),
                )
                &&& framed.fuse.t == turn.before->Sending_0.framed.fuse.t
                &&& framed.read_buffer == turn.before->Sending_0.framed.read_buffer
                &&& match result {
                    Ok(()) => {
                        &&& turn.step is Continue
                        &&& turn.after == (SendRecvState::Flushing { framed })
                    },
                    Err(e) => {
                        &&& turn.step matches Step::Return(Poll::Ready(Some(Err(failure))))
                        &&& says_twice(failure, e)
                        &&& turn.after is Done
                    },
                }
            },
{
    assert(turn.input->Ready_0->Ready_0->Ok_0 == ());
    let held = turn.before->Sending_0;
    let (handed, framed) = choose|
        handed: Poll<Result<(), <C as Encoder>::Error>>,
        framed: Framed<S, C>,
    |
        #[trigger] held.hands_over(turn.input->Ready_0, handed, framed) && match handed {
            Poll::Ready(Ok(())) => turn.step is Continue && turn.after == (SendRecvState::Flushing {
                framed,
            }),
            Poll::Ready(Err(e)) => {
                &&& turn.step.emits(Err(IoError::start_send(e)))
                &&& turn.after is Done
            },
            Poll::Pending => turn.step.blocks() && turn.after == turn.before,
        };
    let result = handed->Ready_0;
    assert(held.framed.fuse.u.encodes(
        held.message->0,
        contents(held.framed.write_buffer),
        result,
        &framed.fuse.u,
        contents(framed.write_buffer),
    ));
}

/// A call that fails has a returning exchange give an error that tells the half that failed and
/// holds the error of the call unchanged; the end of the stream where a message is due is an error
/// of its own. The exchange is over then.
pub proof fn return_failures_say_what_failed<S, C>(turn: ReturningTurn<S, C>) where
    C: Encoder + Decoder<Error = <C as Encoder>::Error>,

    requires
        return_steps()(turn),
    ensures
        match turn.input {
            Outcome::Ready(Poll::Ready(Err(e))) => {
                &&& turn.step matches Step::Return(Poll::Ready(Some(Err(failure))))
                &&& says_twice(failure, e)
                &&& turn.after is Done
            },
            Outcome::Flush(Poll::Ready(Err(e))) => {
                &&& turn.step matches Step::Return(Poll::Ready(Some(Err(failure))))
                &&& says(failure, Error::Send(Cause::Codec(e)))
                &&& turn.after is Done
            },
            Outcome::Next(Poll::Ready(Some(Err(e)))) => {
                &&& turn.step matches Step::Return(Poll::Ready(Some(Err(failure))))
                &&& says(failure, Error::Recv(Cause::Codec(e)))
                &&& turn.after is Done
            },
            Outcome::Next(Poll::Ready(None)) => {
                &&& turn.step matches Step::Return(Poll::Ready(Some(Err(failure))))
                &&& says_only(failure, ErrorKind::UnexpectedEof)
                &&& turn.after is Done
            },
            _ => true,
        },
{
}

/// A call that would block has a returning exchange block and stay as it is; one that succeeds has
/// it go on with its stream unchanged, or give what was received and the stream, as the call left
/// it.
pub proof fn return_steps_follow_their_call<S, C>(turn: ReturningTurn<S, C>) where
    C: Encoder + Decoder<Error = <C as Encoder>::Error>,

    requires
        return_steps()(turn),
    ensures
        match turn.input {
            Outcome::Ready(Poll::Pending) => {
                &&& turn.step matches Step::Return(Poll::Pending)
                &&& turn.after == turn.before
            },
            Outcome::Flush(Poll::Pending) => {
                &&& turn.step matches Step::Return(Poll::Pending)
                &&& turn.after == turn.before
            },
            Outcome::Next(Poll::Pending) => {
                &&& turn.step matches Step::Return(Poll::Pending)
                &&& turn.after == turn.before
            },
            Outcome::Flush(Poll::Ready(Ok(()))) => {
                &&& turn.step is Continue
                &&& turn.after == (SendRecvState::Receiving {
                    framed: turn.before->Flushing_framed,
                })
            },
            Outcome::Next(Poll::Ready(Some(Ok(response)))) => {
                &&& turn.step matches Step::Return(Poll::Ready(Some(Ok(given))))
                &&& given == (response, turn.before->Receiving_framed.fuse.t)
                &&& turn.after is Done
            },
            Outcome::Nothing => {
                &&& turn.step matches Step::Return(Poll::Ready(None))
                &&& turn.after is Done
            },
            _ => true,
        },
{
}

/// The peer of a returning exchange is sent nothing but what the codec makes of the message: until
/// it is handed over nothing is written and nothing waits to be, and from then on what was written
/// and what waits to be are together just what the codec encoded, into an empty buffer.
pub proof fn return_sends_only_what_was_encoded<S, C>(
    turns: Seq<ReturningTurn<S, C>>,
    j: int,
) where
    C: Encoder + Decoder<Error = <C as Encoder>::Error>,

    requires
        return_run(turns),
        0 <= j < turns.len(),
        pending()(turns[0].before).len() == 0,
        only_writes(turns, pending(), j),
        turns[j].before.framed() is Some,
    ensures
        (forall|i: int| 0 <= i < j ==> !hands_over(#[trigger] turns[i])) ==> sent(
            turns,
            pending(),
            j,
        ) == Seq::<u8>::empty(),
        forall|c: int|
            0 <= c < j && #[trigger] hands_over(turns[c]) ==> exists|
                result: Result<(), <C as Encoder>::Error>,
            |
                #[trigger] turns[c].before->Sending_0.framed.fuse.u.encodes(
                    turns[c].before->Sending_0.message->0,
                    Seq::empty(),
                    result,
                    &turns[c].after.framed()->0.fuse.u,
                    sent(turns, pending(), j),
                ),
{
    let steps = return_steps::<S, C>();
    lemma_stages_rise(turns, steps, resumes(), |state| stage::<S, C>(state));
    assert forall|k: int| 0 <= k < j && !hands_over(#[trigger] turns[k]) implies pending()(
        turns[k].after,
    ) == pending()(turns[k].before) by {
        assert(steps(turns[k]) && stage(turns[k].after) <= stage(turns[j].before));
        return_keeps_stream(turns[k]);
    }
    assert forall|i: int, k: int|
        0 <= i < k < j && hands_over(#[trigger] turns[i]) implies !hands_over(
        #[trigger] turns[k],
    ) by {
        assert(steps(turns[i]) && stage(turns[i].after) <= stage(turns[k].before));
    }
    let fills = |turn: ReturningTurn<S, C>| hands_over(turn);
    lemma_sent_once(turns, pending(), fills, j);
    assert forall|c: int| 0 <= c < j && #[trigger] hands_over(turns[c]) implies exists|
        result: Result<(), <C as Encoder>::Error>,
    |
        #[trigger] turns[c].before->Sending_0.framed.fuse.u.encodes(
            turns[c].before->Sending_0.message->0,
            Seq::empty(),
            result,
            &turns[c].after.framed()->0.fuse.u,
            sent(turns, pending(), j),
        ) by {
        assert(steps(turns[c]) && stage(turns[c].after) <= stage(turns[j].before));
        return_hands_over_one_message(turns[c]);
        assert(pending()(turns[c].before) == contents(
            turns[c].before->Sending_0.framed.write_buffer,
        ));
        assert(pending()(turns[c].after) == contents(turns[c].after.framed()->0.write_buffer));
        assert(fills(turns[c]));
    }
}

} // verus!
