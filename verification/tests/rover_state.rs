use maker_firmware::rover::state::{Event, State, StateMachine};

#[test]
fn state_machine_starts_idle() {
    let machine = StateMachine::default();
    assert_eq!(machine.current(), State::Idle);
}

#[test]
fn state_machine_follows_each_event() {
    let mut machine = StateMachine::default();
    machine.next(Event::Forward);
    assert_eq!(machine.current(), State::Forward);
    machine.next(Event::Reverse);
    assert_eq!(machine.current(), State::Reverse);
    machine.next(Event::Left);
    assert_eq!(machine.current(), State::Left);
    machine.next(Event::Right);
    assert_eq!(machine.current(), State::Right);
    machine.next(Event::Stop);
    assert_eq!(machine.current(), State::Idle);
}

#[test]
fn state_machine_forgets_history() {
    let mut a = StateMachine::default();
    let mut b = StateMachine::default();
    a.next(Event::Left);
    a.next(Event::Forward);
    b.next(Event::Reverse);
    b.next(Event::Forward);
    assert_eq!(a.current(), b.current());
    a.next(Event::Forward);
    assert_eq!(a.current(), State::Forward);
}
