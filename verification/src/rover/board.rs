use vstd::prelude::*;

use super::error::Error;

verus! {

/// The rover's peripherals, each of which can be taken out once: the two
/// halves of the serial port, the status LED, the timer that keeps the
/// millisecond clock, and the four motor pins D4..D7.
pub struct Board<Rx, Tx, Led, Timer, D4, D5, D6, D7> {
    serial_rx: Option<Rx>,
    serial_tx: Option<Tx>,
    led_pin: Option<Led>,
    millis_timer: Option<Timer>,
    motor_d4: Option<D4>,
    motor_d5: Option<D5>,
    motor_d6: Option<D6>,
    motor_d7: Option<D7>,
}

impl<Rx, Tx, Led, Timer, D4, D5, D6, D7> Board<Rx, Tx, Led, Timer, D4, D5, D6, D7> {
    pub closed spec fn serial_rx(&self) -> Option<Rx> {
        self.serial_rx
    }

    pub closed spec fn serial_tx(&self) -> Option<Tx> {
        self.serial_tx
    }

    pub closed spec fn led_pin(&self) -> Option<Led> {
        self.led_pin
    }

    pub closed spec fn millis_timer(&self) -> Option<Timer> {
        self.millis_timer
    }

    pub closed spec fn motor_pins(&self) -> (Option<D4>, Option<D5>, Option<D6>, Option<D7>) {
        (self.motor_d4, self.motor_d5, self.motor_d6, self.motor_d7)
    }

    /// Every peripheral is still on the board.
    pub open spec fn is_complete(&self) -> bool {
        &&& self.serial_rx() is Some
        &&& self.serial_tx() is Some
        &&& self.led_pin() is Some
        &&& self.millis_timer() is Some
        &&& self.motor_pins().0 is Some
        &&& self.motor_pins().1 is Some
        &&& self.motor_pins().2 is Some
        &&& self.motor_pins().3 is Some
    }

    /// Every peripheral has been taken.
    pub open spec fn is_emptied(&self) -> bool {
        &&& self.serial_rx() is None
        &&& self.serial_tx() is None
        &&& self.led_pin() is None
        &&& self.millis_timer() is None
        &&& self.motor_pins().0 is None
        &&& self.motor_pins().1 is None
        &&& self.motor_pins().2 is None
        &&& self.motor_pins().3 is None
    }

    /// Whether every peripheral is still on the board.
    pub fn has_all(&self) -> (b: bool)
        ensures
            b == self.is_complete(),
    {
        self.serial_rx.is_some() && self.serial_tx.is_some() && self.led_pin.is_some()
            && self.millis_timer.is_some() && self.motor_d4.is_some() && self.motor_d5.is_some()
            && self.motor_d6.is_some() && self.motor_d7.is_some()
    }

    /// A board holding every peripheral: the serial port's receiver and
    /// transmitter, the LED, the timer and the motor pins D4..D7.
    pub fn new(
        serial_rx: Rx,
        serial_tx: Tx,
        led_pin: Led,
        millis_timer: Timer,
        motor_pins: (D4, D5, D6, D7),
    ) -> (r: Result<Self, Error>)
        ensures
            r matches Ok(b) && {
                &&& b.serial_rx() == Some(serial_rx)
                &&& b.serial_tx() == Some(serial_tx)
                &&& b.led_pin() == Some(led_pin)
                &&& b.millis_timer() == Some(millis_timer)
                &&& b.motor_pins() == (
                    Some(motor_pins.0),
                    Some(motor_pins.1),
                    Some(motor_pins.2),
                    Some(motor_pins.3),
                )
            },
    {
        let (d4, d5, d6, d7) = motor_pins;
        Ok(
            Board {
                serial_rx: Some(serial_rx),
                serial_tx: Some(serial_tx),
                led_pin: Some(led_pin),
                millis_timer: Some(millis_timer),
                motor_d4: Some(d4),
                motor_d5: Some(d5),
                motor_d6: Some(d6),
                motor_d7: Some(d7),
            },
        )
    }

    /// Takes the serial receiver, if it is still there.
    pub fn take_serial_rx(&mut self) -> (r: Option<Rx>)
        ensures
            r == old(self).serial_rx(),
            final(self).serial_rx() is None,
            final(self).serial_tx() == old(self).serial_tx(),
            final(self).led_pin() == old(self).led_pin(),
            final(self).millis_timer() == old(self).millis_timer(),
            final(self).motor_pins() == old(self).motor_pins(),
    {
        self.serial_rx.take()
    }

    /// Takes the serial transmitter, if it is still there.
    pub fn take_serial_tx(&mut self) -> (r: Option<Tx>)
        ensures
            r == old(self).serial_tx(),
            final(self).serial_tx() is None,
            final(self).serial_rx() == old(self).serial_rx(),
            final(self).led_pin() == old(self).led_pin(),
            final(self).millis_timer() == old(self).millis_timer(),
            final(self).motor_pins() == old(self).motor_pins(),
    {
        self.serial_tx.take()
    }

    /// Takes the LED pin, if it is still there.
    pub fn take_led(&mut self) -> (r: Option<Led>)
        ensures
            r == old(self).led_pin(),
            final(self).led_pin() is None,
            final(self).serial_rx() == old(self).serial_rx(),
            final(self).serial_tx() == old(self).serial_tx(),
            final(self).millis_timer() == old(self).millis_timer(),
            final(self).motor_pins() == old(self).motor_pins(),
    {
        self.led_pin.take()
    }

    /// Takes the timer, if it is still there.
    pub fn take_millis_timer(&mut self) -> (r: Option<Timer>)
        ensures
            r == old(self).millis_timer(),
            final(self).millis_timer() is None,
            final(self).serial_rx() == old(self).serial_rx(),
            final(self).serial_tx() == old(self).serial_tx(),
            final(self).led_pin() == old(self).led_pin(),
            final(self).motor_pins() == old(self).motor_pins(),
    {
        self.millis_timer.take()
    }

    /// Takes the four motor pins together. The pins are taken in the order
    /// D4, D5, D6, D7 and the first missing one ends the attempt: the pins
    /// taken before it are dropped with the attempt, the ones after it stay.
    pub fn take_motor_pins(&mut self) -> (r: Option<(D4, D5, D6, D7)>)
        ensures
            ({
                let (d4, d5, d6, d7) = old(self).motor_pins();
                let (n4, n5, n6, n7) = final(self).motor_pins();
                &&& r is Some <==> (d4 is Some && d5 is Some && d6 is Some && d7 is Some)
                &&& r matches Some(pins) ==> pins == (d4->Some_0, d5->Some_0, d6->Some_0, d7->Some_0)
                &&& n4 is None
                &&& n5 == (if d4 is Some { None } else { d5 })
                &&& n6 == (if d4 is Some && d5 is Some { None } else { d6 })
                &&& n7 == (if d4 is Some && d5 is Some && d6 is Some { None } else { d7 })
            }),
            final(self).serial_rx() == old(self).serial_rx(),
            final(self).serial_tx() == old(self).serial_tx(),
            final(self).led_pin() == old(self).led_pin(),
            final(self).millis_timer() == old(self).millis_timer(),
    {
        Some((self.motor_d4.take()?, self.motor_d5.take()?, self.motor_d6.take()?, self.motor_d7.take()?))
    }
}

} // verus!
