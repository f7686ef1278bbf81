use std::collections::VecDeque;

use maker_firmware::rover::error::Error;
use maker_firmware::rover::transport::{
    decode_dabble_message, decode_serial_byte, read_frame_rest, Command, DabbleBTTransport, SerialRead,
    SerialTransport, Transport,
};

/// A receiver fed from a script: `None` entries stand for reads that find
/// no byte waiting.
struct Script {
    reads: VecDeque<Option<u8>>,
}

impl Script {
    fn new(reads: &[Option<u8>]) -> Script {
        Script { reads: reads.iter().copied().collect() }
    }
}

impl SerialRead for Script {
    fn read(&mut self) -> Option<u8> {
        self.reads.pop_front().unwrap_or(None)
    }

    fn read_blocking(&mut self) -> u8 {
        loop {
            if let Some(byte) = self.read() {
                return byte;
            }
        }
    }
}

fn frame(byte5: u8, byte6: u8) -> Vec<Option<u8>> {
    [0xff, 0x01, 0x01, 0x01, 0x02, byte5, byte6, 0x00].iter().map(|b| Some(*b)).collect()
}

#[test]
fn serial_keys_in_both_cases() {
    assert_eq!(decode_serial_byte(b'K'), Some(Command::Forward));
    assert_eq!(decode_serial_byte(b'k'), Some(Command::Forward));
    assert_eq!(decode_serial_byte(b'J'), Some(Command::Reverse));
    assert_eq!(decode_serial_byte(b'j'), Some(Command::Reverse));
    assert_eq!(decode_serial_byte(b'H'), Some(Command::Left));
    assert_eq!(decode_serial_byte(b'h'), Some(Command::Left));
    assert_eq!(decode_serial_byte(b'L'), Some(Command::Right));
    assert_eq!(decode_serial_byte(b'l'), Some(Command::Right));
}

#[test]
fn serial_other_bytes_carry_no_command() {
    assert_eq!(decode_serial_byte(b'\n'), None);
    assert_eq!(decode_serial_byte(b'\r'), None);
    assert_eq!(decode_serial_byte(b'x'), None);
    assert_eq!(decode_serial_byte(0), None);
    assert_eq!(decode_serial_byte(0xff), None);
}

#[test]
fn serial_case_does_not_matter_for_any_letter() {
    for upper in b'A'..=b'Z' {
        assert_eq!(decode_serial_byte(upper), decode_serial_byte(upper + 0x20));
    }
}

#[test]
fn serial_transport_reads_one_byte_per_receive() {
    let mut transport = SerialTransport::new(Script::new(&[Some(b'k'), None, Some(b'\n'), Some(b'L')]));
    assert_eq!(transport.receive(), Ok(Some(Command::Forward)));
    assert_eq!(transport.receive(), Ok(None));
    assert_eq!(transport.receive(), Ok(None));
    assert_eq!(transport.receive(), Ok(Some(Command::Right)));
    assert_eq!(transport.receive(), Ok(None));
}

#[test]
fn dabble_decodes_directions() {
    assert_eq!(decode_dabble_message(&[0xff, 1, 1, 1, 2, 0, 0x01, 0]), Ok(Some(Command::Forward)));
    assert_eq!(decode_dabble_message(&[0xff, 1, 1, 1, 2, 0, 0x02, 0]), Ok(Some(Command::Reverse)));
    assert_eq!(decode_dabble_message(&[0xff, 1, 1, 1, 2, 0, 0x04, 0]), Ok(Some(Command::Left)));
    assert_eq!(decode_dabble_message(&[0xff, 1, 1, 1, 2, 0, 0x08, 0]), Ok(Some(Command::Right)));
}

#[test]
fn dabble_nonzero_byte5_means_stop() {
    assert_eq!(decode_dabble_message(&[0xff, 1, 1, 1, 2, 0x20, 0x01, 0]), Ok(Some(Command::Stop)));
    assert_eq!(decode_dabble_message(&[0, 0, 0, 0, 0, 1, 0, 0]), Ok(Some(Command::Stop)));
}

#[test]
fn dabble_release_and_unknown_codes_are_parsing_errors() {
    assert_eq!(decode_dabble_message(&[0xff, 1, 1, 1, 2, 0, 0x00, 0]), Err(Error::Parsing));
    assert_eq!(decode_dabble_message(&[0xff, 1, 1, 1, 2, 0, 0x03, 0]), Err(Error::Parsing));
    assert_eq!(decode_dabble_message(&[0xff, 1, 1, 1, 2, 0, 0x10, 0]), Err(Error::Parsing));
}

#[test]
fn dabble_transport_reads_a_whole_frame() {
    let mut transport = DabbleBTTransport::new(Script::new(&frame(0, 0x04)));
    assert_eq!(transport.receive(), Ok(Some(Command::Left)));
    assert_eq!(transport.receive(), Ok(None));
}

#[test]
fn dabble_transport_waits_for_late_bytes() {
    let mut reads = frame(0, 0x08);
    reads.insert(3, None);
    reads.insert(6, None);
    let mut transport = DabbleBTTransport::new(Script::new(&reads));
    assert_eq!(transport.receive(), Ok(Some(Command::Right)));
}

#[test]
fn dabble_transport_ignores_missing_header() {
    let mut transport = DabbleBTTransport::new(Script::new(&[Some(0x01), Some(0xff)]));
    assert_eq!(transport.receive(), Ok(None));
    let mut empty = DabbleBTTransport::new(Script::new(&[None]));
    assert_eq!(empty.receive(), Ok(None));
}

#[test]
fn dabble_transport_swallows_parsing_errors() {
    let mut transport = DabbleBTTransport::new(Script::new(&frame(0, 0x00)));
    assert_eq!(transport.receive(), Ok(None));
}

#[test]
fn dabble_transport_reports_stop() {
    let mut transport = DabbleBTTransport::new(Script::new(&frame(1, 0x01)));
    assert_eq!(transport.receive(), Ok(Some(Command::Stop)));
}

#[test]
fn frame_rest_waits_for_seven_bytes() {
    let mut script = Script::new(&[Some(1), None, Some(2), Some(3), None, None, Some(4), Some(5), Some(6), Some(7), Some(8)]);
    assert_eq!(read_frame_rest(&mut script), [1, 2, 3, 4, 5, 6, 7]);
    assert_eq!(script.read(), Some(8));
}
