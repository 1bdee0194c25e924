//! Runs of a message pattern: steps taken one after another, with calls on the framed stream made
//! in between.

use crate::poll::{Poll, Step};
use vstd::prelude::*;

verus! {

/// One step of a run: from the state `before`, on `input`, to the state `after`.
pub struct Turn<St, In, T> {
    /// The state before the step.
    pub before: St,
    /// What the step was given.
    pub input: In,
    /// What the step answered.
    pub step: Step<T>,
    /// The state after the step.
    pub after: St,
}

impl<St, In, T, F> Turn<St, In, Result<T, F>> {
    /// The step gives an item.
    pub open spec fn gives(self) -> bool {
        self.step matches Step::Return(Poll::Ready(Some(_)))
    }

    /// The step gives an item that is not an error.
    pub open spec fn succeeds(self) -> bool {
        self.step matches Step::Return(Poll::Ready(Some(Ok(_))))
    }

    /// The step gives an error.
    pub open spec fn fails(self) -> bool {
        self.step matches Step::Return(Poll::Ready(Some(Err(_))))
    }
}

/// Whether `turns` is a run: every turn is one that `steps` allows, and begins in a state that
/// `resumes` allows after the state that the turn before it ended in.
pub open spec fn is_run<St, In, T>(
    turns: Seq<Turn<St, In, T>>,
    steps: spec_fn(Turn<St, In, T>) -> bool,
    resumes: spec_fn(St, St) -> bool,
) -> bool {
    &&& forall|i: int| 0 <= i < turns.len() ==> #[trigger] steps(turns[i])
    &&& forall|i: int, j: int|
        0 <= i && j == i + 1 && j < turns.len() ==> #[trigger] resumes(
            turns[i].after,
            turns[j].before,
        )
}

/// What holds of the first state, and is kept by every step and between steps, holds all along.
pub proof fn lemma_invariant<St, In, T>(
    turns: Seq<Turn<St, In, T>>,
    steps: spec_fn(Turn<St, In, T>) -> bool,
    resumes: spec_fn(St, St) -> bool,
    holds: spec_fn(St) -> bool,
)
    requires
        is_run(turns, steps, resumes),
        turns.len() > 0 ==> holds(turns[0].before),
        forall|turn: Turn<St, In, T>|
            #[trigger] steps(turn) && holds(turn.before) ==> holds(turn.after),
        forall|a: St, b: St| #[trigger] resumes(a, b) && holds(a) ==> holds(b),
    ensures
        forall|i: int|
            0 <= i < turns.len() ==> holds((#[trigger] turns[i]).before) && holds(turns[i].after),
    decreases turns.len(),
{
    if turns.len() > 0 {
        let init = turns.drop_last();
        let last = turns.len() - 1;
        assert forall|i: int| 0 <= i < init.len() implies #[trigger] steps(init[i]) by {
            assert(steps(turns[i]));
        }
        assert forall|i: int, j: int|
            0 <= i && j == i + 1 && j < init.len() implies #[trigger] resumes(
            init[i].after,
            init[j].before,
        ) by {
            assert(resumes(turns[i].after, turns[j].before));
        }
        lemma_invariant(init, steps, resumes, holds);
        assert(holds(turns[last].before)) by {
            if last > 0 {
                assert(init[last - 1] == turns[last - 1]);
                assert(resumes(turns[last - 1].after, turns[last].before));
            }
        }
        assert(steps(turns[last]));
        assert forall|i: int| 0 <= i < turns.len() implies holds((#[trigger] turns[i]).before)
            && holds(turns[i].after) by {
            if i < last {
                assert(init[i] == turns[i]);
            }
        }
    }
}

/// A stage that no step and nothing between steps lowers only rises.
pub proof fn lemma_stages_rise<St, In, T>(
    turns: Seq<Turn<St, In, T>>,
    steps: spec_fn(Turn<St, In, T>) -> bool,
    resumes: spec_fn(St, St) -> bool,
    stage: spec_fn(St) -> int,
)
    requires
        is_run(turns, steps, resumes),
        forall|turn: Turn<St, In, T>|
            #[trigger] steps(turn) ==> stage(turn.before) <= stage(turn.after),
        forall|a: St, b: St| #[trigger] resumes(a, b) ==> stage(a) <= stage(b),
    ensures
        forall|i: int, j: int|
            0 <= i < j < turns.len() ==> stage((#[trigger] turns[i]).after) <= stage(
                (#[trigger] turns[j]).before,
            ),
{
    assert forall|i: int, j: int| 0 <= i < j < turns.len() implies stage(
        (#[trigger] turns[i]).after,
    ) <= stage((#[trigger] turns[j]).before) by {
        lemma_stage_rises(turns, steps, resumes, stage, i, j);
    }
}

/// [`lemma_stages_rise`] for two given turns.
proof fn lemma_stage_rises<St, In, T>(
    turns: Seq<Turn<St, In, T>>,
    steps: spec_fn(Turn<St, In, T>) -> bool,
    resumes: spec_fn(St, St) -> bool,
    stage: spec_fn(St) -> int,
    i: int,
    j: int,
)
    requires
        is_run(turns, steps, resumes),
        forall|turn: Turn<St, In, T>|
            #[trigger] steps(turn) ==> stage(turn.before) <= stage(turn.after),
        forall|a: St, b: St| #[trigger] resumes(a, b) ==> stage(a) <= stage(b),
        0 <= i < j < turns.len(),
    ensures
        stage(turns[i].after) <= stage(turns[j].before),
    decreases j - i,
{
    assert(resumes(turns[j - 1].after, turns[j].before));
    if i < j - 1 {
        lemma_stage_rises(turns, steps, resumes, stage, i, j - 1);
        assert(steps(turns[j - 1]));
    }
}

/// A run that begins outside some states and is inside them before turn `j` has entered them in an
/// earlier turn, where nothing between steps enters them.
pub proof fn lemma_entered<St, In, T>(
    turns: Seq<Turn<St, In, T>>,
    steps: spec_fn(Turn<St, In, T>) -> bool,
    resumes: spec_fn(St, St) -> bool,
    inside: spec_fn(St) -> bool,
    j: int,
) -> (i: int)
    requires
        is_run(turns, steps, resumes),
        forall|a: St, b: St| #[trigger] resumes(a, b) && inside(b) ==> inside(a),
        0 <= j < turns.len(),
        !inside(turns[0].before),
        inside(turns[j].before),
    ensures
        0 <= i < j,
        steps(turns[i]),
        !inside(turns[i].before),
        inside(turns[i].after),
    decreases j,
{
    assert(resumes(turns[j - 1].after, turns[j].before));
    assert(steps(turns[j - 1]));
    if inside(turns[j - 1].before) {
        lemma_entered(turns, steps, resumes, inside, j - 1)
    } else {
        j - 1
    }
}

} // verus!
