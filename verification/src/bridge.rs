//! The bridge itself: its entry point, its fault hook, and the two-state
//! machine that joins them.
//!
//! Nothing here touches the host. Every function returns the [`Action`] that
//! the caller must perform, so that what the host will observe is a value
//! that contracts can speak of.

use vstd::prelude::*;
use vstd::string::*;
use crate::fault::FaultPayload;
use crate::message::{terminated, Message};

verus! {

/// The text that the entry point prints.
pub const GREETING_TEXT: &'static str = "Hello from Rust!";

/// The greeting as the host receives it: the text, then the terminator.
pub open spec fn greeting_bytes() -> Seq<u8> {
    terminated(GREETING_TEXT.spec_bytes())
}

/// The greeting, byte by byte.
pub proof fn lemma_greeting_bytes()
    ensures
        greeting_bytes() == seq![
            72u8, 101, 108, 108, 111, 32, 102, 114, 111, 109, 32, 82, 117, 115, 116, 33, 0,
        ],
{
    reveal_strlit("Hello from Rust!");
    is_ascii_spec_bytes(GREETING_TEXT);
}

/// What the bridge does with a fault.
#[derive(Clone, Copy, Debug, PartialEq, Eq)]
pub enum PanicStrategy {
    /// Stop locally and silently: idle forever, report nothing.
    Freeze,
    /// Hand a diagnostic message to the host's fault routine.
    ForwardToHost,
}

/// Whether the bridge still reacts to events.
#[derive(Clone, Copy, Debug, PartialEq, Eq)]
pub enum State {
    Running,
    /// Terminal: a halted bridge never acts again.
    Halted,
}

/// What can happen to the bridge.
#[derive(Clone, Copy, Debug, PartialEq, Eq)]
pub enum Event<'a> {
    /// The host calls the entry point.
    Hello,
    /// The runtime reports an unrecoverable fault.
    Fault(FaultPayload<'a>),
}

/// What the caller must do on the bridge's behalf.
#[derive(Debug, PartialEq, Eq)]
pub enum Action {
    /// Call the host's text output routine with this message.
    Print(Message),
    /// Call the host's fault routine with this message. It does not return.
    AbortWith(Message),
    /// Idle forever without calling the host.
    Freeze,
}

/// What an [`Action`] amounts to: the same choice, with each message as its
/// sequence of bytes.
pub enum Effect {
    Print(Seq<u8>),
    AbortWith(Seq<u8>),
    Freeze,
}

impl View for Action {
    type V = Effect;

    open spec fn view(&self) -> Effect {
        match self {
            Action::Print(message) => Effect::Print(message@),
            Action::AbortWith(message) => Effect::AbortWith(message@),
            Action::Freeze => Effect::Freeze,
        }
    }
}

/// The effect of an optional action.
pub open spec fn effect_of(action: Option<Action>) -> Option<Effect> {
    match action {
        Some(action) => Some(action@),
        None => None,
    }
}

/// The effect of a fault on a running bridge.
pub open spec fn fault_effect(strategy: PanicStrategy, payload: FaultPayload) -> Effect {
    match strategy {
        PanicStrategy::ForwardToHost => Effect::AbortWith(payload.message_bytes()),
        PanicStrategy::Freeze => Effect::Freeze,
    }
}

/// The transition relation: the state after `event` and the effect, if any,
/// that handling it has.
pub open spec fn next(strategy: PanicStrategy, state: State, event: Event) -> (State, Option<Effect>) {
    match state {
        State::Halted => (State::Halted, None),
        State::Running => match event {
            Event::Hello => (State::Running, Some(Effect::Print(greeting_bytes()))),
            Event::Fault(payload) => (State::Halted, Some(fault_effect(strategy, payload))),
        },
    }
}

/// The entry point: print the greeting, once, and nothing else.
pub fn hello_rust() -> (action: Action)
    ensures
        action@ == Effect::Print(greeting_bytes()),
{
    Action::Print(Message::from_text(GREETING_TEXT))
}

/// The fault hook: report the payload's message to the host, or freeze.
pub fn on_fault(strategy: PanicStrategy, payload: FaultPayload) -> (action: Action)
    ensures
        action@ == fault_effect(strategy, payload),
{
    match strategy {
        PanicStrategy::ForwardToHost => Action::AbortWith(payload.message()),
        PanicStrategy::Freeze => Action::Freeze,
    }
}

/// Handles one event: returns the next state and what to do, if anything.
pub fn step(strategy: PanicStrategy, state: State, event: Event) -> (outcome: (State, Option<Action>))
    ensures
        (outcome.0, effect_of(outcome.1)) == next(strategy, state, event),
{
    match state {
        State::Halted => (State::Halted, None),
        State::Running => match event {
            Event::Hello => (State::Running, Some(hello_rust())),
            Event::Fault(payload) => (State::Halted, Some(on_fault(strategy, payload))),
        },
    }
}

} // verus!
