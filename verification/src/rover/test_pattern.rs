use vstd::prelude::*;

use super::motor::{drive_levels, is_safe, stopped, Direction, PinLevels};

verus! {

/// One step of the motor bench test: the levels to put on IN1..IN4 (wired to
/// D4..D7; IN1/IN2 are the left side's forward/reverse inputs, IN3/IN4 the
/// right side's) and how long to hold them, in milliseconds.
#[derive(Debug, Clone, Copy, PartialEq, Eq, Structural)]
pub struct PatternStep {
    pub levels: PinLevels,
    pub hold_ms: u32,
}

/// The number of steps before the bench test repeats.
pub const PATTERN_LEN: u32 = 8;

/// How long each direction is driven, in milliseconds.
pub const DRIVE_MS: u32 = 2000;

/// How long the motor rests between directions, in milliseconds.
pub const REST_MS: u32 = 1000;

/// The bench test drives forward, reverse, left and right in turn, two
/// seconds each, resting one second with every input low after each.
pub open spec fn pattern_step_spec(step: u32) -> PatternStep {
    let phase = step % 8;
    if phase % 2 == 1 {
        PatternStep { levels: stopped(), hold_ms: REST_MS }
    } else {
        PatternStep {
            levels: drive_levels(
                if phase == 0 {
                    Direction::Forward
                } else if phase == 2 {
                    Direction::Reverse
                } else if phase == 4 {
                    Direction::Left
                } else {
                    Direction::Right
                },
            ),
            hold_ms: DRIVE_MS,
        }
    }
}

/// The `step`-th step of the endlessly repeating bench test.
pub fn pattern_step(step: u32) -> (s: PatternStep)
    ensures
        s == pattern_step_spec(step),
{
    let rest = PatternStep {
        levels: PinLevels {
            left_forward: false,
            left_reverse: false,
            right_forward: false,
            right_reverse: false,
        },
        hold_ms: REST_MS,
    };
    match step % PATTERN_LEN {
        0 => PatternStep {
            levels: PinLevels {
                left_forward: true,
                left_reverse: false,
                right_forward: true,
                right_reverse: false,
            },
            hold_ms: DRIVE_MS,
        },
        2 => PatternStep {
            levels: PinLevels {
                left_forward: false,
                left_reverse: true,
                right_forward: false,
                right_reverse: true,
            },
            hold_ms: DRIVE_MS,
        },
        4 => PatternStep {
            levels: PinLevels {
                left_forward: false,
                left_reverse: true,
                right_forward: true,
                right_reverse: false,
            },
            hold_ms: DRIVE_MS,
        },
        6 => PatternStep {
            levels: PinLevels {
                left_forward: true,
                left_reverse: false,
                right_forward: false,
                right_reverse: true,
            },
            hold_ms: DRIVE_MS,
        },
        _ => rest,
    }
}

/// Every step of the bench test is safe for the bridge, every drive step is
/// followed by a rest with all inputs low, and the pattern repeats every
/// `PATTERN_LEN` steps.
pub proof fn law_pattern_rests_between_drives(step: u32)
    requires
        step < u32::MAX,
    ensures
        is_safe(pattern_step_spec(step).levels),
        pattern_step_spec(step).hold_ms == DRIVE_MS ==> pattern_step_spec((step + 1) as u32).levels == stopped(),
        step + PATTERN_LEN <= u32::MAX ==> pattern_step_spec(step) == pattern_step_spec((step + PATTERN_LEN) as u32),
{
}

} // verus!
