use vstd::prelude::*;

use super::board::Board;
use super::config::Config;
use super::error::Error;
use super::motor::{drive_levels, is_safe, stopped, Direction, Motor, PinLevels};
use super::state::{target, Event, State, StateMachine};
use super::transport::{Command, SerialTransport};

verus! {

/// The event that a remote command raises.
pub open spec fn command_event(command: Command) -> Event {
    match command {
        Command::Forward => Event::Forward,
        Command::Reverse => Event::Reverse,
        Command::Left => Event::Left,
        Command::Right => Event::Right,
        Command::Stop => Event::Stop,
    }
}

/// The event that one answer of the transport raises: the command's event,
/// or stop when no command arrived or the transport failed. The rover keeps
/// moving only while commands keep arriving.
pub open spec fn received_event(received: Result<Option<Command>, Error>) -> Event {
    match received {
        Ok(Some(command)) => command_event(command),
        _ => Event::Stop,
    }
}

/// The motor levels that a drive state calls for.
pub open spec fn state_levels(state: State) -> PinLevels {
    match state {
        State::Forward => drive_levels(Direction::Forward),
        State::Reverse => drive_levels(Direction::Reverse),
        State::Left => drive_levels(Direction::Left),
        State::Right => drive_levels(Direction::Right),
        State::Idle => stopped(),
    }
}

/// Milliseconds from `last` to `now` on a clock that wraps around at 2^32.
pub open spec fn elapsed_ms(now: u32, last: u32) -> int {
    if now >= last {
        now - last
    } else {
        now - last + 0x1_0000_0000
    }
}

/// The rover's controller, typed by its stage: `Uninit` before setup,
/// `Ready` after.
pub struct Controller<S> {
    inner: S,
}

/// A controller that still holds the whole board.
pub struct Uninit<B> {
    board: B,
}

/// A controller that runs: its drive state, its motor, and the status LED's
/// blink timing.
pub struct Ready {
    state_machine: StateMachine,
    motor: Motor,
    blink_interval: u32,
    last_toggle_time: u32,
}

impl<B> Controller<Uninit<B>> {
    /// The board the controller holds.
    pub closed spec fn board(&self) -> B {
        self.inner.board
    }

    pub fn new(board: B) -> (c: Controller<Uninit<B>>)
        ensures
            c.board() == board,
    {
        Controller { inner: Uninit { board } }
    }
}

/// The peripherals that setup takes out of the board and hands to the
/// hardware side: the command transport on the serial receiver, the serial
/// transmitter for the log, the status LED, the millisecond timer and the
/// motor pins D4..D7.
pub struct Peripherals<Rx, Tx, Led, Timer, D4, D5, D6, D7> {
    pub command_transport: SerialTransport<Rx>,
    pub serial_tx: Tx,
    pub led_pin: Led,
    pub millis_timer: Timer,
    pub motor_pins: (D4, D5, D6, D7),
}

impl<Rx, Tx, Led, Timer, D4, D5, D6, D7> Controller<Uninit<Board<Rx, Tx, Led, Timer, D4, D5, D6, D7>>> {
    /// Readies the controller: it takes every peripheral out of the board,
    /// leaving the board empty, and starts at rest with every motor input
    /// low (the caller puts these levels on the pins before the loop),
    /// blinking at the configured interval, with the LED last changed at
    /// time 0. Every peripheral must still be on the board.
    pub fn setup(&mut self, cfg: &Config) -> (r: Result<
        (Controller<Ready>, Peripherals<Rx, Tx, Led, Timer, D4, D5, D6, D7>),
        Error,
    >)
        requires
            old(self).board().is_complete(),
        ensures
            final(self).board().is_emptied(),
            r matches Ok((c, p)) && {
                &&& c.state() == State::Idle
                &&& c.motor_levels() == stopped()
                &&& c.blink_interval() == cfg.spec_blink_interval()
                &&& c.last_toggle_time() == 0
                &&& Some(p.command_transport.serial()) == old(self).board().serial_rx()
                &&& Some(p.serial_tx) == old(self).board().serial_tx()
                &&& Some(p.led_pin) == old(self).board().led_pin()
                &&& Some(p.millis_timer) == old(self).board().millis_timer()
                &&& (
                    Some(p.motor_pins.0),
                    Some(p.motor_pins.1),
                    Some(p.motor_pins.2),
                    Some(p.motor_pins.3),
                ) == old(self).board().motor_pins()
            },
    {
        let millis_timer = self.inner.board.take_millis_timer().unwrap();
        let serial_tx = self.inner.board.take_serial_tx().unwrap();
        let command_transport = SerialTransport::new(self.inner.board.take_serial_rx().unwrap());
        let led_pin = self.inner.board.take_led().unwrap();
        let motor_pins = self.inner.board.take_motor_pins().unwrap();
        let ready = Controller {
            inner: Ready {
                blink_interval: cfg.blink_interval(),
                state_machine: StateMachine::default(),
                last_toggle_time: 0,
                motor: Motor::new(false, false, false, false),
            },
        };
        Ok((ready, Peripherals { command_transport, serial_tx, led_pin, millis_timer, motor_pins }))
    }
}

impl Controller<Ready> {
    /// The drive state.
    pub closed spec fn state(&self) -> State {
        self.inner.state_machine.spec_state()
    }

    /// The levels on the motor's inputs.
    pub closed spec fn motor_levels(&self) -> PinLevels {
        self.inner.motor@
    }

    /// How long the status LED stays in one state, in milliseconds.
    pub closed spec fn blink_interval(&self) -> u32 {
        self.inner.blink_interval
    }

    /// When the status LED last changed, in milliseconds.
    pub closed spec fn last_toggle_time(&self) -> u32 {
        self.inner.last_toggle_time
    }

    /// The drive state.
    pub fn current_state(&self) -> (s: State)
        ensures
            s == self.state(),
    {
        self.inner.state_machine.current()
    }

    /// The levels to put on the motor's inputs.
    pub fn levels(&self) -> (l: PinLevels)
        ensures
            l == self.motor_levels(),
    {
        self.inner.motor.levels()
    }

    /// One pass of the control loop at time `now` (milliseconds), given what
    /// the transport answered. Returns whether the status LED is to change:
    /// it does once a blink interval has passed since its last change. The
    /// answer moves the drive state machine, and the motor follows the new
    /// state.
    pub fn tick(&mut self, now: u32, received: Result<Option<Command>, Error>) -> (toggle_led: bool)
        ensures
            toggle_led == (elapsed_ms(now, old(self).last_toggle_time()) >= old(self).blink_interval()),
            final(self).last_toggle_time() == (if toggle_led {
                now
            } else {
                old(self).last_toggle_time()
            }),
            final(self).blink_interval() == old(self).blink_interval(),
            final(self).state() == target(received_event(received)),
            final(self).motor_levels() == state_levels(final(self).state()),
    {
        let mut toggle_led = false;
        if now.wrapping_sub(self.inner.last_toggle_time) >= self.inner.blink_interval {
            toggle_led = true;
            self.inner.last_toggle_time = now;
        }
        let event = match received {
            Ok(Some(command)) => match command {
                Command::Forward => Event::Forward,
                Command::Reverse => Event::Reverse,
                Command::Left => Event::Left,
                Command::Right => Event::Right,
                Command::Stop => Event::Stop,
            },
            _ => Event::Stop,
        };
        self.inner.state_machine.next(event);
        match self.inner.state_machine.current() {
            State::Forward => {
                let _ = self.inner.motor.drive(Direction::Forward);
            },
            State::Reverse => {
                let _ = self.inner.motor.drive(Direction::Reverse);
            },
            State::Left => {
                let _ = self.inner.motor.drive(Direction::Left);
            },
            State::Right => {
                let _ = self.inner.motor.drive(Direction::Right);
            },
            State::Idle => self.inner.motor.stop(),
        }
        toggle_led
    }
}

/// A pass of the loop in which no command arrived (or the transport failed)
/// leaves the rover at rest with every motor input low.
pub proof fn law_silence_stops_the_rover(received: Result<Option<Command>, Error>)
    requires
        !(received matches Ok(Some(_))),
    ensures
        target(received_event(received)) == State::Idle,
        state_levels(target(received_event(received))) == stopped(),
{
}

/// After every pass of the loop the motor's inputs are safe: no side is
/// driven forward and in reverse at once.
pub proof fn law_tick_keeps_motor_safe(state: State)
    ensures
        is_safe(state_levels(state)),
{
}

/// The rover drives the way the last command says: a received command leads
/// to the state of the same name and to that direction's motor levels.
pub proof fn law_command_drives(command: Command)
    ensures
        command != Command::Stop ==> state_levels(target(received_event(Ok(Some(command))))) == drive_levels(
            match command {
                Command::Forward => Direction::Forward,
                Command::Reverse => Direction::Reverse,
                Command::Left => Direction::Left,
                _ => Direction::Right,
            },
        ),
        command == Command::Stop ==> state_levels(target(received_event(Ok(Some(command))))) == stopped(),
{
}

} // verus!
