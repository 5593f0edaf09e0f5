//! Whole runs of the bridge: the effects of a sequence of events, and the
//! laws that hold of every run.

use vstd::prelude::*;
use crate::bridge::{greeting_bytes, next, Effect, Event, PanicStrategy, State};

verus! {

/// The state of the bridge once `events` have been handled in order,
/// starting from `state`.
pub open spec fn state_after(strategy: PanicStrategy, state: State, events: Seq<Event>) -> State
    decreases events.len(),
{
    if events.len() == 0 {
        state
    } else {
        state_after(strategy, next(strategy, state, events.first()).0, events.drop_first())
    }
}

/// The effects, in order, of handling `events` one after the other, starting
/// from `state`.
pub open spec fn trace(strategy: PanicStrategy, state: State, events: Seq<Event>) -> Seq<Effect>
    decreases events.len(),
{
    if events.len() == 0 {
        Seq::empty()
    } else {
        let (then, effect) = next(strategy, state, events.first());
        let rest = trace(strategy, then, events.drop_first());
        match effect {
            Some(effect) => seq![effect] + rest,
            None => rest,
        }
    }
}

/// A halted bridge stays halted and has no effect, whatever happens to it.
pub proof fn lemma_halted_is_terminal(strategy: PanicStrategy, events: Seq<Event>)
    ensures
        state_after(strategy, State::Halted, events) == State::Halted,
        trace(strategy, State::Halted, events) == Seq::<Effect>::empty(),
    decreases events.len(),
{
    if events.len() > 0 {
        lemma_halted_is_terminal(strategy, events.drop_first());
    }
}

/// While no fault occurs, every call of the entry point prints the greeting,
/// once, and the bridge keeps running.
pub proof fn lemma_each_hello_prints_once(strategy: PanicStrategy, events: Seq<Event>)
    requires
        forall|k: int| 0 <= k < events.len() ==> events[k] is Hello,
    ensures
        state_after(strategy, State::Running, events) == State::Running,
        trace(strategy, State::Running, events) == Seq::new(
            events.len(),
            |k: int| Effect::Print(greeting_bytes()),
        ),
    decreases events.len(),
{
    if events.len() > 0 {
        assert(events.first() is Hello);
        lemma_each_hello_prints_once(strategy, events.drop_first());
    }
}

/// A fault ends the run. Once a fault is among the events the bridge is
/// halted, and whatever comes after the fault adds no effect.
pub proof fn lemma_fault_ends_run(
    strategy: PanicStrategy,
    state: State,
    events: Seq<Event>,
    k: int,
)
    requires
        0 <= k < events.len(),
        events[k] is Fault,
    ensures
        state_after(strategy, state, events) == State::Halted,
        trace(strategy, state, events) == trace(strategy, state, events.take(k + 1)),
    decreases events.len(),
{
    let rest = events.drop_first();
    let upto = events.take(k + 1);
    match state {
        State::Halted => {
            lemma_halted_is_terminal(strategy, events);
            lemma_halted_is_terminal(strategy, upto);
        },
        State::Running => match events.first() {
            Event::Fault(_) => {
                lemma_halted_is_terminal(strategy, rest);
                lemma_halted_is_terminal(strategy, upto.drop_first());
            },
            Event::Hello => {
                assert(upto.drop_first() == rest.take(k));
                lemma_fault_ends_run(strategy, State::Running, rest, k - 1);
            },
        },
    }
}

/// Nothing follows an abort. Where the host's fault routine is called at
/// all, that call is the last effect of the run, and the bridge is halted
/// from then on.
pub proof fn lemma_nothing_follows_abort(
    strategy: PanicStrategy,
    state: State,
    events: Seq<Event>,
    i: int,
)
    requires
        0 <= i < trace(strategy, state, events).len(),
        trace(strategy, state, events)[i] is AbortWith,
    ensures
        i == trace(strategy, state, events).len() - 1,
        state_after(strategy, state, events) == State::Halted,
    decreases events.len(),
{
    match state {
        State::Halted => {
            lemma_halted_is_terminal(strategy, events);
        },
        State::Running => match events.first() {
            Event::Fault(_) => {
                lemma_halted_is_terminal(strategy, events.drop_first());
            },
            Event::Hello => {
                lemma_nothing_follows_abort(strategy, State::Running, events.drop_first(), i - 1);
            },
        },
    }
}

/// Under [`PanicStrategy::Freeze`] the host's fault routine is never called,
/// and the freeze, where there is one, is the last effect of the run.
pub proof fn lemma_freeze_never_aborts(state: State, events: Seq<Event>, i: int)
    requires
        0 <= i < trace(PanicStrategy::Freeze, state, events).len(),
    ensures
        !(trace(PanicStrategy::Freeze, state, events)[i] is AbortWith),
        trace(PanicStrategy::Freeze, state, events)[i] is Freeze ==> i == trace(
            PanicStrategy::Freeze,
            state,
            events,
        ).len() - 1,
    decreases events.len(),
{
    match state {
        State::Halted => {
            lemma_halted_is_terminal(PanicStrategy::Freeze, events);
        },
        State::Running => match events.first() {
            Event::Fault(_) => {
                lemma_halted_is_terminal(PanicStrategy::Freeze, events.drop_first());
            },
            Event::Hello => {
                if i > 0 {
                    lemma_freeze_never_aborts(State::Running, events.drop_first(), i - 1);
                }
            },
        },
    }
}

/// Under [`PanicStrategy::Freeze`] a fault ends all activity. Once a fault
/// is among the events the bridge is halted, whatever comes after the fault
/// adds no effect, and no effect of the whole run is a call of the host's
/// fault routine.
pub proof fn lemma_freeze_ends_all_activity(state: State, events: Seq<Event>, k: int)
    requires
        0 <= k < events.len(),
        events[k] is Fault,
    ensures
        state_after(PanicStrategy::Freeze, state, events) == State::Halted,
        trace(PanicStrategy::Freeze, state, events) == trace(
            PanicStrategy::Freeze,
            state,
            events.take(k + 1),
        ),
        forall|i: int|
            0 <= i < trace(PanicStrategy::Freeze, state, events).len() ==> !(#[trigger] trace(
                PanicStrategy::Freeze,
                state,
                events,
            )[i] is AbortWith),
{
    lemma_fault_ends_run(PanicStrategy::Freeze, state, events, k);
    assert forall|i: int| 0 <= i < trace(PanicStrategy::Freeze, state, events).len() implies !(
    #[trigger] trace(PanicStrategy::Freeze, state, events)[i] is AbortWith) by {
        lemma_freeze_never_aborts(state, events, i);
    }
}

} // verus!
