//! The worker's behaviour over whole runs: any interleaving of polls (with
//! whatever the outcome channel held) and device reports.
use vstd::prelude::*;

use crate::transition::{
    final_frame, poll_step, sent_step, start_spec, Action, Frame, Machine, Msg, Phase, TransitionError,
    TransitionView,
};

verus! {

/// One event in the worker's life.
pub enum Input {
    /// A poll, with what the outcome channel held at that moment.
    Poll(Option<Msg>),
    /// The driver's report of whether the device took the last frame.
    Sent(bool),
}

/// The worker's next state on an input, and the action a poll yields.
pub open spec fn apply(m: Machine, input: Input) -> (Machine, Option<Action>) {
    match input {
        Input::Poll(incoming) => (poll_step(m, incoming).0, Some(poll_step(m, incoming).1)),
        Input::Sent(ok) => (sent_step(m, ok), None),
    }
}

/// The actions of a run, one entry per input (`None` for a report).
pub open spec fn run(m: Machine, inputs: Seq<Input>) -> Seq<Option<Action>>
    decreases inputs.len(),
{
    if inputs.len() == 0 {
        Seq::empty()
    } else {
        seq![apply(m, inputs[0]).1] + run(apply(m, inputs[0]).0, inputs.drop_first())
    }
}

/// The worker's state after a run.
pub open spec fn after(m: Machine, inputs: Seq<Input>) -> Machine
    decreases inputs.len(),
{
    if inputs.len() == 0 {
        m
    } else {
        after(apply(m, inputs[0]).0, inputs.drop_first())
    }
}

/// A poll that found an outcome in the channel.
pub open spec fn brings_outcome(input: Input) -> bool {
    input matches Input::Poll(Some(_))
}

/// An entry of a run that sends nothing to the device.
pub open spec fn quiet(a: Option<Action>) -> bool {
    a is None || a == Some(Action::Stop)
}

proof fn lemma_run_len(m: Machine, inputs: Seq<Input>)
    ensures
        run(m, inputs).len() == inputs.len(),
    decreases inputs.len(),
{
    if inputs.len() > 0 {
        lemma_run_len(apply(m, inputs[0]).0, inputs.drop_first());
    }
}

proof fn lemma_run_split(m: Machine, inputs: Seq<Input>, j: int)
    requires
        0 <= j <= inputs.len(),
    ensures
        run(m, inputs) == run(m, inputs.take(j)) + run(after(m, inputs.take(j)), inputs.skip(j)),
    decreases j,
{
    if j == 0 {
        assert(inputs.take(0) =~= Seq::<Input>::empty());
        assert(inputs.skip(0) =~= inputs);
        assert(run(m, inputs.take(0)) + run(m, inputs) =~= run(m, inputs));
    } else {
        let m1 = apply(m, inputs[0]).0;
        let rest = inputs.drop_first();
        lemma_run_split(m1, rest, j - 1);
        assert(inputs.take(j).drop_first() =~= rest.take(j - 1));
        assert(inputs.take(j)[0] == inputs[0]);
        assert(inputs.skip(j) =~= rest.skip(j - 1));
        let tail = run(after(m1, rest.take(j - 1)), rest.skip(j - 1));
        assert(seq![apply(m, inputs[0]).1] + (run(m1, rest.take(j - 1)) + tail)
            =~= (seq![apply(m, inputs[0]).1] + run(m1, rest.take(j - 1))) + tail);
    }
}

/// Once the worker has left the animation, it never sends another frame.
pub proof fn lemma_settled_stays_quiet(m: Machine, inputs: Seq<Input>)
    requires
        m.phase != Phase::Animating,
    ensures
        forall|k: int| 0 <= k < inputs.len() ==> quiet(#[trigger] run(m, inputs)[k]),
        after(m, inputs).phase != Phase::Animating,
    decreases inputs.len(),
{
    lemma_run_len(m, inputs);
    if inputs.len() > 0 {
        let m1 = apply(m, inputs[0]).0;
        let rest = inputs.drop_first();
        lemma_settled_stays_quiet(m1, rest);
        assert forall|k: int| 0 <= k < inputs.len() implies quiet(#[trigger] run(m, inputs)[k]) by {
            if k > 0 {
                assert(run(m, inputs)[k] == run(m1, rest)[k - 1]);
            }
        }
    }
}

/// While no poll has found an outcome, the worker keeps animating with the
/// same final frames.
proof fn lemma_quiet_prefix(m: Machine, inputs: Seq<Input>)
    requires
        m.phase == Phase::Animating,
        forall|j: int| 0 <= j < inputs.len() ==> !brings_outcome(#[trigger] inputs[j]),
    ensures
        after(m, inputs).phase == Phase::Animating,
        after(m, inputs).success == m.success,
        after(m, inputs).failure == m.failure,
    decreases inputs.len(),
{
    if inputs.len() > 0 {
        let rest = inputs.drop_first();
        assert(!brings_outcome(inputs[0]));
        assert forall|j: int| 0 <= j < rest.len() implies !brings_outcome(#[trigger] rest[j]) by {
            assert(rest[j] == inputs[j + 1]);
        }
        lemma_quiet_prefix(apply(m, inputs[0]).0, rest);
    }
}

/// Bounded latency and the right final color: from the animation, the first
/// poll that finds an outcome yields that outcome's final frame at once, with
/// no further animation frame first, whatever frames the device dropped
/// before; and from then on nothing more is sent to the device.
pub proof fn lemma_outcome_answered_at_next_poll(m: Machine, inputs: Seq<Input>, i: int, msg: Msg)
    requires
        m.phase == Phase::Animating,
        0 <= i < inputs.len(),
        inputs[i] == Input::Poll(Some(msg)),
        forall|j: int| 0 <= j < i ==> !brings_outcome(#[trigger] inputs[j]),
    ensures
        run(m, inputs)[i] == Some(Action::Resolve(final_frame(m, msg))),
        forall|k: int| i < k < inputs.len() ==> quiet(#[trigger] run(m, inputs)[k]),
{
    let pre = inputs.take(i);
    let mi = after(m, pre);
    assert forall|j: int| 0 <= j < pre.len() implies !brings_outcome(#[trigger] pre[j]) by {
        assert(pre[j] == inputs[j]);
    }
    lemma_quiet_prefix(m, pre);
    lemma_run_split(m, inputs, i);
    lemma_run_len(m, pre);
    let suffix = inputs.skip(i);
    assert(suffix[0] == inputs[i]);
    let m2 = apply(mi, suffix[0]).0;
    assert(m2.phase == Phase::Resolving(msg));
    lemma_settled_stays_quiet(m2, suffix.drop_first());
    lemma_run_len(m2, suffix.drop_first());
    assert(run(m, inputs)[i] == run(mi, suffix)[0]);
    assert forall|k: int| i < k < inputs.len() implies quiet(#[trigger] run(m, inputs)[k]) by {
        assert(run(m, inputs)[k] == run(mi, suffix)[k - i]);
        assert(run(mi, suffix)[k - i] == run(m2, suffix.drop_first())[k - i - 1]);
    }
}

/// Exactly once: over any run, from any state, at most one final frame is
/// sent, and no animation frame follows it.
pub proof fn lemma_final_frame_at_most_once(m: Machine, inputs: Seq<Input>, j: int, k: int, f: Frame)
    requires
        0 <= j < k < inputs.len(),
        run(m, inputs)[j] == Some(Action::Resolve(f)),
    ensures
        quiet(run(m, inputs)[k]),
{
    let pre = inputs.take(j);
    let mj = after(m, pre);
    lemma_run_split(m, inputs, j);
    lemma_run_len(m, pre);
    let suffix = inputs.skip(j);
    assert(run(m, inputs)[j] == run(mj, suffix)[0]);
    let m2 = apply(mj, suffix[0]).0;
    assert(m2.phase != Phase::Animating);
    lemma_settled_stays_quiet(m2, suffix.drop_first());
    lemma_run_len(m2, suffix.drop_first());
    assert(run(m, inputs)[k] == run(mj, suffix)[k - j]);
    assert(run(mj, suffix)[k - j] == run(m2, suffix.drop_first())[k - j - 1]);
}

/// Starting twice: once a controller has started, starting it again is
/// refused with `AlreadyStarted` and leaves it as it was.
pub proof fn lemma_second_start_refused(t: TransitionView)
    requires
        !t.started,
    ensures
        start_spec(start_spec(t).0) == (start_spec(t).0, Err::<Machine, TransitionError>(TransitionError::AlreadyStarted)),
{
}

} // verus!
