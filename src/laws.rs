//! What holds of every run of the connection state machine.
use vstd::prelude::*;
use crate::net::{BACKOFF_MS, Frame, Outcome, Readiness, Signal, Snapshot, failed_attempt, run, transition, well_formed};

verus! {

/// The events that a sequence of steps publishes, in order.
pub open spec fn emitted(outs: Seq<Outcome>) -> Seq<Signal>
    decreases outs.len(),
{
    if outs.len() == 0 {
        Seq::empty()
    } else {
        let rest = emitted(outs.drop_first());
        match outs[0].signal {
            Some(sig) => seq![sig] + rest,
            None => rest,
        }
    }
}

/// Inbound text frames carrying `texts`, in order.
pub open spec fn text_frames(texts: Seq<String>) -> Seq<Readiness> {
    texts.map_values(|t: String| Readiness::Inbound(Frame::Text(t)))
}

/// A run has one step per input; each step starts where the previous one
/// ended, the first where the run starts, and follows `transition`.
pub proof fn lemma_run_steps(s: Snapshot, inputs: Seq<Readiness>)
    ensures
        run(s, inputs).len() == inputs.len(),
        inputs.len() > 0 ==> run(s, inputs)[0].prior == s,
        forall|i: int| 0 <= i < inputs.len() ==> #[trigger] run(s, inputs)[i] == transition(run(s, inputs)[i].prior, inputs[i]),
        forall|i: int| 0 <= i < inputs.len() - 1 ==> #[trigger] run(s, inputs)[i + 1].prior == run(s, inputs)[i].next,
    decreases inputs.len(),
{
    if inputs.len() > 0 {
        let o = transition(s, inputs[0]);
        let rest = inputs.drop_first();
        lemma_run_steps(o.next, rest);
        let outs = run(s, inputs);
        assert(outs == seq![o] + run(o.next, rest));
        assert forall|i: int| 0 <= i < inputs.len() implies #[trigger] outs[i] == transition(outs[i].prior, inputs[i]) by {
            if i > 0 {
                assert(outs[i] == run(o.next, rest)[i - 1]);
                assert(inputs[i] == rest[i - 1]);
            }
        }
        assert forall|i: int| 0 <= i < inputs.len() - 1 implies #[trigger] outs[i + 1].prior == outs[i].next by {
            assert(outs[i + 1] == run(o.next, rest)[i]);
            if i > 0 {
                assert(outs[i] == run(o.next, rest)[i - 1]);
            }
        }
    }
}

/// Every state that a run from a well-formed state reaches is well-formed.
pub proof fn lemma_run_well_formed(s: Snapshot, inputs: Seq<Readiness>)
    requires
        well_formed(s),
    ensures
        forall|i: int| 0 <= i < run(s, inputs).len() ==> well_formed(#[trigger] run(s, inputs)[i].next),
    decreases inputs.len(),
{
    if inputs.len() > 0 {
        let o = transition(s, inputs[0]);
        lemma_run_well_formed(o.next, inputs.drop_first());
        assert forall|i: int| 0 <= i < run(s, inputs).len() implies well_formed(#[trigger] run(s, inputs)[i].next) by {
            if i > 0 {
                assert(run(s, inputs)[i] == run(o.next, inputs.drop_first())[i - 1]);
            }
        }
    }
}

/// Each step publishes at most one event: a run never publishes more events
/// than it has steps.
pub proof fn lemma_at_most_one_event_per_step(s: Snapshot, inputs: Seq<Readiness>)
    ensures
        emitted(run(s, inputs)).len() <= inputs.len(),
    decreases inputs.len(),
{
    lemma_run_steps(s, inputs);
    if inputs.len() > 0 {
        let o = transition(s, inputs[0]);
        lemma_at_most_one_event_per_step(o.next, inputs.drop_first());
        let outs = run(s, inputs);
        assert(outs.drop_first() == run(o.next, inputs.drop_first()));
    }
}

/// A step enters a session exactly when it publishes `Connected`, whose handle
/// names the session entered; a step publishes `Disconnected` exactly when it
/// leaves a session or fails to open one.
pub proof fn lemma_state_event_pairing(s: Snapshot, input: Readiness)
    requires
        well_formed(s),
    ensures
        ({
            let o = transition(s, input);
            &&& (s.live is None && o.next.live is Some) <==> (o.signal matches Some(Signal::Connected(_)))
            &&& (o.signal matches Some(Signal::Connected(id)) ==> o.next.live == Some(id) && id == s.opened)
            &&& (o.signal == Some(Signal::Disconnected)) <==> (o.next.live is None && (s.live is Some
                || input is OpenFailed))
            &&& well_formed(o.next)
        }),
{
}

/// Session numbers are never reused: once a session has ended, no later step
/// hands out a handle for it or makes it live again, so nothing sent through
/// one of its handles is taken up by a later session.
pub proof fn lemma_sessions_never_reused(s: Snapshot, inputs: Seq<Readiness>, id: nat)
    requires
        well_formed(s),
        id < s.opened,
        s.live != Some(id),
    ensures
        forall|i: int| 0 <= i < run(s, inputs).len() ==> {
            &&& (#[trigger] run(s, inputs)[i]).next.live != Some(id)
            &&& run(s, inputs)[i].signal != Some(Signal::Connected(id))
        },
    decreases inputs.len(),
{
    if inputs.len() > 0 {
        let o = transition(s, inputs[0]);
        lemma_sessions_never_reused(o.next, inputs.drop_first(), id);
        assert forall|i: int| 0 <= i < run(s, inputs).len() implies {
            &&& (#[trigger] run(s, inputs)[i]).next.live != Some(id)
            &&& run(s, inputs)[i].signal != Some(Signal::Connected(id))
        } by {
            if i > 0 {
                assert(run(s, inputs)[i] == run(o.next, inputs.drop_first())[i - 1]);
            }
        }
    }
}

/// Time spent waiting by steps `i` up to, not including, `j`.
pub open spec fn waited(outs: Seq<Outcome>, i: int, j: int) -> nat
    decreases j - i,
{
    if i >= j {
        0
    } else {
        outs[i].delay + waited(outs, i + 1, j)
    }
}

/// After a failed connection attempt at step `i`, every later step `j`
/// (the next attempt among them) starts at least the backoff later; a step
/// that is not a failed attempt does not wait at all.
pub proof fn lemma_backoff_floor(s: Snapshot, inputs: Seq<Readiness>)
    ensures
        forall|i: int, j: int|
            0 <= i < j <= inputs.len() && failed_attempt(run(s, inputs)[i].prior, inputs[i]) ==> #[trigger] waited(
                run(s, inputs),
                i,
                j,
            ) >= BACKOFF_MS,
        forall|i: int|
            0 <= i < inputs.len() && !failed_attempt(run(s, inputs)[i].prior, inputs[i]) ==> #[trigger] run(
                s,
                inputs,
            )[i].delay == 0,
{
    lemma_run_steps(s, inputs);
    let outs = run(s, inputs);
    assert forall|i: int, j: int|
        0 <= i < j <= inputs.len() && failed_attempt(outs[i].prior, inputs[i]) implies #[trigger] waited(
        outs,
        i,
        j,
    ) >= BACKOFF_MS by {
        assert(outs[i] == transition(outs[i].prior, inputs[i]));
        assert(waited(outs, i, j) == outs[i].delay + waited(outs, i + 1, j));
    }
}

/// While connected, inbound text frames come out as `MessageReceived` events
/// in the order they arrived, and the session stays live.
pub proof fn lemma_inbound_fifo(s: Snapshot, texts: Seq<String>)
    requires
        s.live is Some,
    ensures
        run(s, text_frames(texts)).len() == texts.len(),
        emitted(run(s, text_frames(texts))) == texts.map_values(|t: String| Signal::Message(t@)),
        forall|i: int| 0 <= i < texts.len() ==> (#[trigger] run(s, text_frames(texts))[i]).next == s,
    decreases texts.len(),
{
    let ins = text_frames(texts);
    lemma_run_steps(s, ins);
    if texts.len() > 0 {
        let rest = texts.drop_first();
        assert(ins.drop_first() == text_frames(rest));
        lemma_inbound_fifo(s, rest);
        let o = transition(s, ins[0]);
        assert(o.next == s);
        let outs = run(s, ins);
        assert(outs.drop_first() == run(s, text_frames(rest)));
        assert(emitted(outs) == seq![Signal::Message(texts[0]@)] + emitted(run(s, text_frames(rest))));
        assert(emitted(outs) == texts.map_values(|t: String| Signal::Message(t@)));
        assert forall|i: int| 0 <= i < texts.len() implies (#[trigger] outs[i]).next == s by {
            if i > 0 {
                assert(outs[i] == run(s, text_frames(rest))[i - 1]);
            }
        }
    }
}

} // verus!
