//! What goes over the wire in a run: the bytes that are written to the stream between steps.

use crate::run::Turn;
use vstd::prelude::*;

verus! {

/// Bytes were at most taken off the front of a buffer that held `before`: it holds `after` now.
pub open spec fn drains(before: Seq<u8>, after: Seq<u8>) -> bool {
    after.len() <= before.len() && after == before.skip(before.len() - after.len())
}

/// Up to turn `n` the write buffer changes between steps only by writing: bytes are taken off its
/// front. `pending` tells what a state has in its write buffer.
pub open spec fn only_writes<St, In, T>(
    turns: Seq<Turn<St, In, T>>,
    pending: spec_fn(St) -> Seq<u8>,
    n: int,
) -> bool {
    forall|i: int, j: int|
        0 <= i && j == i + 1 && j <= n ==> drains(
            pending((#[trigger] turns[i]).after),
            pending((#[trigger] turns[j]).before),
        )
}

/// All that was written before turn `n`.
pub open spec fn written<St, In, T>(
    turns: Seq<Turn<St, In, T>>,
    pending: spec_fn(St) -> Seq<u8>,
    n: int,
) -> Seq<u8>
    decreases n,
{
    if n <= 0 {
        Seq::empty()
    } else {
        let held = pending(turns[n - 1].after);
        written(turns, pending, n - 1) + held.take(held.len() - pending(turns[n].before).len())
    }
}

/// All that the run has had for the peer before turn `n`: what was written, and what waits to be.
pub open spec fn sent<St, In, T>(
    turns: Seq<Turn<St, In, T>>,
    pending: spec_fn(St) -> Seq<u8>,
    n: int,
) -> Seq<u8> {
    written(turns, pending, n) + pending(turns[n].before)
}

/// From one turn to the next the run has for the peer what the step left in the write buffer,
/// behind what was written before.
proof fn lemma_sent_next<St, In, T>(
    turns: Seq<Turn<St, In, T>>,
    pending: spec_fn(St) -> Seq<u8>,
    n: int,
)
    requires
        0 < n < turns.len(),
        only_writes(turns, pending, n),
    ensures
        sent(turns, pending, n) == written(turns, pending, n - 1) + pending(turns[n - 1].after),
{
    let held = pending(turns[n - 1].after);
    let next = pending(turns[n].before);
    assert(drains(held, next));
    assert(held.take(held.len() - next.len()) + next =~= held);
    assert(sent(turns, pending, n) =~= written(turns, pending, n - 1) + held);
}

/// Turns that leave the write buffer alone send nothing.
proof fn lemma_sent_same<St, In, T>(
    turns: Seq<Turn<St, In, T>>,
    pending: spec_fn(St) -> Seq<u8>,
    i: int,
    n: int,
)
    requires
        0 <= i <= n < turns.len(),
        only_writes(turns, pending, n),
        forall|k: int|
            i <= k < n ==> pending((#[trigger] turns[k]).after) == pending(turns[k].before),
    ensures
        sent(turns, pending, n) == sent(turns, pending, i),
    decreases n - i,
{
    if i < n {
        lemma_sent_same(turns, pending, i, n - 1);
        lemma_sent_next(turns, pending, n);
        assert(pending(turns[n - 1].after) == pending(turns[n - 1].before));
    }
}

/// In a run that begins with an empty write buffer, and in which one turn at most puts anything
/// into it, the peer is sent nothing before that turn, and after it just what it put there.
pub proof fn lemma_sent_once<St, In, T>(
    turns: Seq<Turn<St, In, T>>,
    pending: spec_fn(St) -> Seq<u8>,
    fills: spec_fn(Turn<St, In, T>) -> bool,
    n: int,
)
    requires
        0 <= n < turns.len(),
        only_writes(turns, pending, n),
        pending(turns[0].before).len() == 0,
        forall|k: int|
            0 <= k < n && !fills(#[trigger] turns[k]) ==> pending(turns[k].after) == pending(
                turns[k].before,
            ),
        forall|i: int, j: int|
            0 <= i < j < n && fills(#[trigger] turns[i]) ==> !fills(#[trigger] turns[j]),
    ensures
        (forall|k: int| 0 <= k < n ==> !fills(#[trigger] turns[k])) ==> sent(turns, pending, n)
            == Seq::<u8>::empty(),
        forall|c: int|
            0 <= c < n && fills(#[trigger] turns[c]) ==> pending(turns[c].before) == Seq::<
                u8,
            >::empty() && sent(turns, pending, n) == pending(turns[c].after),
{
    assert(sent(turns, pending, 0) =~= Seq::<u8>::empty());
    if forall|k: int| 0 <= k < n ==> !fills(#[trigger] turns[k]) {
        lemma_sent_same(turns, pending, 0, n);
    }
    assert forall|c: int| 0 <= c < n && fills(#[trigger] turns[c]) implies pending(turns[c].before)
        == Seq::<u8>::empty() && sent(turns, pending, n) == pending(turns[c].after) by {
        assert forall|k: int| 0 <= k < n && k != c implies !fills(#[trigger] turns[k]) by {
            if k > c {
                assert(fills(turns[c]));
            }
        }
        lemma_sent_same(turns, pending, 0, c);
        assert(sent(turns, pending, c).len() == 0);
        assert(pending(turns[c].before) =~= Seq::<u8>::empty());
        assert(written(turns, pending, c) =~= Seq::<u8>::empty());
        lemma_sent_next(turns, pending, c + 1);
        lemma_sent_same(turns, pending, c + 1, n);
        assert(sent(turns, pending, n) =~= pending(turns[c].after));
    }
}

} // verus!
