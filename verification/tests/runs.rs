use rosec::bridge::{step, Action, Event, PanicStrategy, State};
use rosec::fault::FaultPayload;
use rosec::message::Message;

fn run(strategy: PanicStrategy, events: &[Event]) -> (State, Vec<Action>) {
    let mut state = State::Running;
    let mut actions = Vec::new();
    for event in events {
        let (next, action) = step(strategy, state, *event);
        state = next;
        actions.extend(action);
    }
    (state, actions)
}

fn greeting() -> Action {
    Action::Print(Message::from_text("Hello from Rust!"))
}

#[test]
fn run_without_events_does_nothing() {
    let (state, actions) = run(PanicStrategy::ForwardToHost, &[]);
    assert_eq!(state, State::Running);
    assert_eq!(actions, vec![]);
}

#[test]
fn each_hello_prints_once() {
    let (state, actions) = run(PanicStrategy::ForwardToHost, &[Event::Hello; 3]);
    assert_eq!(state, State::Running);
    assert_eq!(actions, vec![greeting(), greeting(), greeting()]);
}

#[test]
fn nothing_follows_an_abort() {
    let events = [
        Event::Hello,
        Event::Fault(FaultPayload::Text("bad index")),
        Event::Hello,
        Event::Fault(FaultPayload::Opaque),
        Event::Hello,
    ];
    let (state, actions) = run(PanicStrategy::ForwardToHost, &events);
    assert_eq!(state, State::Halted);
    assert_eq!(
        actions,
        vec![greeting(), Action::AbortWith(Message::from_text("bad index"))]
    );
}

#[test]
fn first_fault_is_the_one_reported() {
    let events = [
        Event::Fault(FaultPayload::Opaque),
        Event::Fault(FaultPayload::Text("too late")),
    ];
    let (state, actions) = run(PanicStrategy::ForwardToHost, &events);
    assert_eq!(state, State::Halted);
    assert_eq!(actions, vec![Action::AbortWith(Message::from_text("Rust panic"))]);
}

#[test]
fn freeze_ends_all_activity() {
    let events = [
        Event::Hello,
        Event::Hello,
        Event::Fault(FaultPayload::Text("bad index")),
        Event::Hello,
        Event::Fault(FaultPayload::Opaque),
    ];
    let (state, actions) = run(PanicStrategy::Freeze, &events);
    assert_eq!(state, State::Halted);
    assert_eq!(actions, vec![greeting(), greeting(), Action::Freeze]);
    assert!(actions.iter().all(|action| !matches!(action, Action::AbortWith(_))));
}

#[test]
fn events_after_a_fault_change_nothing() {
    let fault = Event::Fault(FaultPayload::Text("bad index"));
    for strategy in [PanicStrategy::Freeze, PanicStrategy::ForwardToHost] {
        let short = run(strategy, &[Event::Hello, fault]);
        let long = run(strategy, &[Event::Hello, fault, Event::Hello, fault, Event::Hello]);
        assert_eq!(short, long);
    }
}
