use maker_firmware::rover::motor::PinLevels;
use maker_firmware::rover::test_pattern::{pattern_step, PATTERN_LEN};

fn l(in1: bool, in2: bool, in3: bool, in4: bool) -> PinLevels {
    PinLevels { left_forward: in1, left_reverse: in2, right_forward: in3, right_reverse: in4 }
}

#[test]
fn pattern_runs_the_four_directions_with_rests() {
    let expected = [
        (l(true, false, true, false), 2000),
        (l(false, false, false, false), 1000),
        (l(false, true, false, true), 2000),
        (l(false, false, false, false), 1000),
        (l(false, true, true, false), 2000),
        (l(false, false, false, false), 1000),
        (l(true, false, false, true), 2000),
        (l(false, false, false, false), 1000),
    ];
    for (i, (levels, hold)) in expected.iter().enumerate() {
        let step = pattern_step(i as u32);
        assert_eq!(step.levels, *levels);
        assert_eq!(step.hold_ms, *hold);
    }
}

#[test]
fn pattern_repeats() {
    assert_eq!(PATTERN_LEN, 8);
    for i in 0..40u32 {
        assert_eq!(pattern_step(i), pattern_step(i + PATTERN_LEN));
    }
    assert_eq!(pattern_step(u32::MAX), pattern_step(7));
}
