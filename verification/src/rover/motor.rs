use vstd::prelude::*;

use super::error::Error;

verus! {

/// A direction the motor can drive in.
#[derive(Debug, Clone, Copy, PartialEq, Eq, Structural)]
pub enum Direction {
    Forward,
    Reverse,
    Left,
    Right,
}

/// The output levels of the four H-bridge inputs (`true` is high).
/// IN1 drives the left side forward, IN2 the left side in reverse,
/// IN3 the right side forward and IN4 the right side in reverse.
#[derive(Debug, Clone, Copy, PartialEq, Eq, Structural)]
pub struct PinLevels {
    pub left_forward: bool,
    pub left_reverse: bool,
    pub right_forward: bool,
    pub right_reverse: bool,
}

/// Every input low: both sides coast.
pub open spec fn stopped() -> PinLevels {
    PinLevels { left_forward: false, left_reverse: false, right_forward: false, right_reverse: false }
}

/// The levels that drive the rover in `direction`: forward and reverse turn
/// both sides the same way; a left skid runs the left side back and the right
/// side forward, a right skid the other way round.
pub open spec fn drive_levels(direction: Direction) -> PinLevels {
    match direction {
        Direction::Forward => PinLevels {
            left_forward: true,
            left_reverse: false,
            right_forward: true,
            right_reverse: false,
        },
        Direction::Reverse => PinLevels {
            left_forward: false,
            left_reverse: true,
            right_forward: false,
            right_reverse: true,
        },
        Direction::Left => PinLevels {
            left_forward: false,
            left_reverse: true,
            right_forward: true,
            right_reverse: false,
        },
        Direction::Right => PinLevels {
            left_forward: true,
            left_reverse: false,
            right_forward: false,
            right_reverse: true,
        },
    }
}

/// No side of the bridge has its forward and its reverse input high at
/// once (which would short that half of the bridge).
pub open spec fn is_safe(levels: PinLevels) -> bool {
    &&& !(levels.left_forward && levels.left_reverse)
    &&& !(levels.right_forward && levels.right_reverse)
}

/// The rover's two-sided motor, as the levels it holds on its four inputs.
pub struct Motor {
    left_forward: bool,
    left_reverse: bool,
    right_forward: bool,
    right_reverse: bool,
}

impl View for Motor {
    type V = PinLevels;

    closed spec fn view(&self) -> PinLevels {
        PinLevels {
            left_forward: self.left_forward,
            left_reverse: self.left_reverse,
            right_forward: self.right_forward,
            right_reverse: self.right_reverse,
        }
    }
}

impl Motor {
    /// Takes over the four output pins D4..D7, given at their current levels.
    /// D7 is wired to the left forward input, D6 to left reverse, D5 to
    /// right forward and D4 to right reverse.
    pub fn new(d4: bool, d5: bool, d6: bool, d7: bool) -> (m: Motor)
        ensures
            m@ == (PinLevels {
                left_forward: d7,
                left_reverse: d6,
                right_forward: d5,
                right_reverse: d4,
            }),
    {
        Motor { left_forward: d7, left_reverse: d6, right_forward: d5, right_reverse: d4 }
    }

    /// The levels the motor holds on its inputs.
    pub fn levels(&self) -> (l: PinLevels)
        ensures
            l == self@,
    {
        PinLevels {
            left_forward: self.left_forward,
            left_reverse: self.left_reverse,
            right_forward: self.right_forward,
            right_reverse: self.right_reverse,
        }
    }

    /// Drives in `direction`. It never fails.
    pub fn drive(&mut self, direction: Direction) -> (r: Result<(), Error>)
        ensures
            r is Ok,
            final(self)@ == drive_levels(direction),
            is_safe(final(self)@),
    {
        match direction {
            Direction::Forward => self.forward(),
            Direction::Reverse => self.reverse(),
            Direction::Left => self.skid_left(),
            Direction::Right => self.skid_right(),
        }
        Ok(())
    }

    /// Sets every input low.
    pub fn stop(&mut self)
        ensures
            final(self)@ == stopped(),
            is_safe(final(self)@),
    {
        self.left_forward = false;
        self.left_reverse = false;
        self.right_forward = false;
        self.right_reverse = false;
    }

    fn forward(&mut self)
        ensures
            final(self)@ == drive_levels(Direction::Forward),
    {
        self.left_forward = true;
        self.left_reverse = false;
        self.right_forward = true;
        self.right_reverse = false;
    }

    fn reverse(&mut self)
        ensures
            final(self)@ == drive_levels(Direction::Reverse),
    {
        self.left_forward = false;
        self.left_reverse = true;
        self.right_forward = false;
        self.right_reverse = true;
    }

    fn skid_left(&mut self)
        ensures
            final(self)@ == drive_levels(Direction::Left),
    {
        self.left_forward = false;
        self.left_reverse = true;
        self.right_forward = true;
        self.right_reverse = false;
    }

    fn skid_right(&mut self)
        ensures
            final(self)@ == drive_levels(Direction::Right),
    {
        self.left_forward = true;
        self.left_reverse = false;
        self.right_forward = false;
        self.right_reverse = true;
    }
}

/// Whatever the motor is told, it never drives one side forward and in
/// reverse at once.
pub proof fn law_motor_levels_are_safe(direction: Direction)
    ensures
        is_safe(drive_levels(direction)),
        is_safe(stopped()),
{
}

/// A left skid is a right skid with the sides swapped, and reverse is forward
/// with every side turned round.
pub proof fn law_directions_mirror()
    ensures
        drive_levels(Direction::Left).left_forward == drive_levels(Direction::Right).right_forward,
        drive_levels(Direction::Left).left_reverse == drive_levels(Direction::Right).right_reverse,
        drive_levels(Direction::Left).right_forward == drive_levels(Direction::Right).left_forward,
        drive_levels(Direction::Left).right_reverse == drive_levels(Direction::Right).left_reverse,
        drive_levels(Direction::Reverse).left_forward == drive_levels(Direction::Forward).left_reverse,
        drive_levels(Direction::Reverse).left_reverse == drive_levels(Direction::Forward).left_forward,
        drive_levels(Direction::Reverse).right_forward == drive_levels(Direction::Forward).right_reverse,
        drive_levels(Direction::Reverse).right_reverse == drive_levels(Direction::Forward).right_forward,
{
}

} // verus!
