use maker_firmware::rover::board::Board;
use maker_firmware::rover::config::Config;
use maker_firmware::rover::controller::Controller;
use maker_firmware::rover::error::Error;
use maker_firmware::rover::motor::PinLevels;
use maker_firmware::rover::state::State;
use maker_firmware::rover::transport::Command;

type TestBoard = Board<&'static str, &'static str, &'static str, &'static str, u8, u8, u8, u8>;

fn board() -> TestBoard {
    Board::new("rx", "tx", "led", "timer", (4, 5, 6, 7)).unwrap()
}

fn ready() -> Controller<maker_firmware::rover::controller::Ready> {
    let mut uninit = Controller::new(board());
    uninit.setup(&Config::default()).unwrap().0
}

const STOPPED: PinLevels =
    PinLevels { left_forward: false, left_reverse: false, right_forward: false, right_reverse: false };

#[test]
fn controller_setup_starts_at_rest() {
    let c = ready();
    assert_eq!(c.current_state(), State::Idle);
    assert_eq!(c.levels(), STOPPED);
}

#[test]
fn controller_setup_hands_out_the_peripherals() {
    let mut uninit = Controller::new(board());
    let (_, p) = uninit.setup(&Config::default()).unwrap();
    assert_eq!(p.serial_tx, "tx");
    assert_eq!(p.led_pin, "led");
    assert_eq!(p.millis_timer, "timer");
    assert_eq!(p.motor_pins, (4, 5, 6, 7));
}

#[test]
fn board_is_complete_until_taken() {
    let mut b = board();
    assert!(b.has_all());
    b.take_led();
    assert!(!b.has_all());
}

#[test]
fn controller_follows_commands() {
    let mut c = ready();
    c.tick(10, Ok(Some(Command::Forward)));
    assert_eq!(c.current_state(), State::Forward);
    assert_eq!(
        c.levels(),
        PinLevels { left_forward: true, left_reverse: false, right_forward: true, right_reverse: false }
    );
    c.tick(20, Ok(Some(Command::Left)));
    assert_eq!(c.current_state(), State::Left);
    assert_eq!(
        c.levels(),
        PinLevels { left_forward: false, left_reverse: true, right_forward: true, right_reverse: false }
    );
    c.tick(30, Ok(Some(Command::Stop)));
    assert_eq!(c.current_state(), State::Idle);
    assert_eq!(c.levels(), STOPPED);
}

#[test]
fn controller_stops_without_a_command() {
    let mut c = ready();
    c.tick(10, Ok(Some(Command::Reverse)));
    assert_eq!(c.current_state(), State::Reverse);
    c.tick(11, Ok(None));
    assert_eq!(c.current_state(), State::Idle);
    assert_eq!(c.levels(), STOPPED);
    c.tick(12, Ok(Some(Command::Right)));
    c.tick(13, Err(Error::Parsing));
    assert_eq!(c.current_state(), State::Idle);
    assert_eq!(c.levels(), STOPPED);
}

#[test]
fn controller_blinks_once_an_interval() {
    let mut c = ready();
    assert!(!c.tick(999, Ok(None)));
    assert!(c.tick(1000, Ok(None)));
    assert!(!c.tick(1500, Ok(None)));
    assert!(!c.tick(1999, Ok(None)));
    assert!(c.tick(2000, Ok(None)));
    assert!(c.tick(5000, Ok(None)));
    assert!(!c.tick(5001, Ok(None)));
}

#[test]
fn controller_blink_survives_clock_wrap() {
    let mut c = ready();
    assert!(c.tick(u32::MAX - 100, Ok(None)));
    assert!(!c.tick(u32::MAX, Ok(None)));
    assert!(!c.tick(800, Ok(None)));
    assert!(c.tick(899, Ok(None)));
}
