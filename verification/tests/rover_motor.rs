use maker_firmware::rover::motor::{Direction, Motor, PinLevels};

fn levels(lf: bool, lr: bool, rf: bool, rr: bool) -> PinLevels {
    PinLevels { left_forward: lf, left_reverse: lr, right_forward: rf, right_reverse: rr }
}

#[test]
fn motor_new_wires_d7_to_left_forward() {
    let motor = Motor::new(true, false, false, false);
    assert_eq!(motor.levels(), levels(false, false, false, true));
    let motor = Motor::new(false, false, false, true);
    assert_eq!(motor.levels(), levels(true, false, false, false));
    let motor = Motor::new(false, true, true, false);
    assert_eq!(motor.levels(), levels(false, true, true, false));
}

#[test]
fn motor_drives_each_direction() {
    let mut motor = Motor::new(false, false, false, false);
    assert_eq!(motor.drive(Direction::Forward), Ok(()));
    assert_eq!(motor.levels(), levels(true, false, true, false));
    assert_eq!(motor.drive(Direction::Reverse), Ok(()));
    assert_eq!(motor.levels(), levels(false, true, false, true));
    assert_eq!(motor.drive(Direction::Left), Ok(()));
    assert_eq!(motor.levels(), levels(false, true, true, false));
    assert_eq!(motor.drive(Direction::Right), Ok(()));
    assert_eq!(motor.levels(), levels(true, false, false, true));
}

#[test]
fn motor_stop_clears_every_input() {
    let mut motor = Motor::new(true, true, true, true);
    motor.stop();
    assert_eq!(motor.levels(), levels(false, false, false, false));
    motor.drive(Direction::Forward).unwrap();
    motor.stop();
    assert_eq!(motor.levels(), levels(false, false, false, false));
}

#[test]
fn motor_never_shorts_a_side() {
    for direction in [Direction::Forward, Direction::Reverse, Direction::Left, Direction::Right] {
        let mut motor = Motor::new(true, true, true, true);
        motor.drive(direction).unwrap();
        let l = motor.levels();
        assert!(!(l.left_forward && l.left_reverse));
        assert!(!(l.right_forward && l.right_reverse));
    }
}
