use vstd::prelude::*;

verus! {

/// What the rover is currently doing.
#[derive(Debug, Clone, Copy, PartialEq, Eq, Structural)]
pub enum State {
    Forward,
    Reverse,
    Left,
    Right,
    Idle,
}

/// An input to the drive state machine.
#[derive(Debug, Clone, Copy, PartialEq, Eq, Structural)]
pub enum Event {
    Forward,
    Reverse,
    Left,
    Right,
    Stop,
}

/// The state that an event leads to. The machine has no memory beyond the
/// last event: every event names its target state outright.
pub open spec fn target(event: Event) -> State {
    match event {
        Event::Forward => State::Forward,
        Event::Reverse => State::Reverse,
        Event::Left => State::Left,
        Event::Right => State::Right,
        Event::Stop => State::Idle,
    }
}

/// The rover's drive state machine.
pub struct StateMachine {
    state: State,
}

impl Default for StateMachine {
    /// A machine at rest.
    fn default() -> (m: StateMachine)
        ensures
            m.spec_state() == State::Idle,
    {
        StateMachine { state: State::Idle }
    }
}

impl StateMachine {
    /// The state the machine is in.
    pub closed spec fn spec_state(&self) -> State {
        self.state
    }

    /// Moves the machine to the state that `event` names.
    pub fn next(&mut self, event: Event)
        ensures
            final(self).spec_state() == target(event),
    {
        self.state = match event {
            Event::Forward => State::Forward,
            Event::Reverse => State::Reverse,
            Event::Left => State::Left,
            Event::Right => State::Right,
            Event::Stop => State::Idle,
        }
    }

    /// The state the machine is in.
    pub fn current(&self) -> (s: State)
        ensures
            s == self.spec_state(),
    {
        self.state
    }
}

/// The machine is at rest exactly after a stop event, and each event leads to
/// its own state whatever the machine did before.
pub proof fn law_only_stop_rests(event: Event)
    ensures
        (target(event) == State::Idle) == (event == Event::Stop),
        forall|other: Event| target(other) == target(event) ==> other == event,
{
}

} // verus!
