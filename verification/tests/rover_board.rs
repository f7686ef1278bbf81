use maker_firmware::rover::board::Board;

fn board() -> Board<&'static str, &'static str, &'static str, &'static str, u8, u8, u8, u8> {
    Board::new("rx", "tx", "led", "timer", (4, 5, 6, 7)).unwrap()
}

#[test]
fn board_hands_out_each_peripheral_once() {
    let mut b = board();
    assert_eq!(b.take_serial_rx(), Some("rx"));
    assert_eq!(b.take_serial_rx(), None);
    assert_eq!(b.take_serial_tx(), Some("tx"));
    assert_eq!(b.take_serial_tx(), None);
    assert_eq!(b.take_led(), Some("led"));
    assert_eq!(b.take_led(), None);
    assert_eq!(b.take_millis_timer(), Some("timer"));
    assert_eq!(b.take_millis_timer(), None);
}

#[test]
fn board_motor_pins_come_in_order() {
    let mut b = board();
    assert_eq!(b.take_motor_pins(), Some((4, 5, 6, 7)));
    assert_eq!(b.take_motor_pins(), None);
}

#[test]
fn board_takes_are_independent() {
    let mut b = board();
    assert_eq!(b.take_motor_pins(), Some((4, 5, 6, 7)));
    assert_eq!(b.take_led(), Some("led"));
    assert_eq!(b.take_serial_rx(), Some("rx"));
}
