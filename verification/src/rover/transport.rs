use vstd::prelude::*;

use super::error::Error;

verus! {

/// A command from the remote.
#[derive(Debug, Clone, Copy, PartialEq, Eq, Structural)]
pub enum Command {
    Forward,
    Reverse,
    Left,
    Right,
    Stop,
}

/// A byte-wide serial receiver.
pub trait SerialRead {
    /// Takes one received byte if one is waiting; `None` if none is (or the
    /// read failed).
    fn read(&mut self) -> Option<u8>;

    /// Waits until a byte is received and takes it.
    fn read_blocking(&mut self) -> u8;
}

/// A source of remote commands.
pub trait Transport {
    /// Takes the next command, if one has arrived.
    fn receive(&mut self) -> Result<Option<Command>, Error>;
}

/// The command that one byte of the plain serial protocol carries: the
/// vi-style keys `k`, `j`, `h` and `l` (in either case) mean forward,
/// reverse, left and right; any other byte (line ends included) carries none.
pub open spec fn serial_command(byte: u8) -> Option<Command> {
    if byte == 0x4b || byte == 0x6b {
        Some(Command::Forward)
    } else if byte == 0x4a || byte == 0x6a {
        Some(Command::Reverse)
    } else if byte == 0x48 || byte == 0x68 {
        Some(Command::Left)
    } else if byte == 0x4c || byte == 0x6c {
        Some(Command::Right)
    } else {
        None
    }
}

/// What the plain serial protocol answers for one read: the command of the
/// byte, if a byte was read.
pub open spec fn serial_reply(read: Option<u8>) -> Result<Option<Command>, Error> {
    match read {
        Some(byte) => Ok(serial_command(byte)),
        None => Ok(None),
    }
}

/// The first byte of every Dabble frame.
pub const DABBLE_HEADER: u8 = 0xff;

/// The length of a Dabble frame.
pub const DABBLE_FRAME_LEN: usize = 8;

/// The meaning of an 8-byte Dabble gamepad frame: a non-zero byte 5 means
/// stop; otherwise byte 6 holds one direction bit (1 up, 2 down, 4 left,
/// 8 right); any other byte 6 (the release code 0 among them) is a parsing
/// error.
pub open spec fn dabble_decode(frame: Seq<u8>) -> Result<Option<Command>, Error>
    recommends
        frame.len() == 8,
{
    if frame[5] != 0 {
        Ok(Some(Command::Stop))
    } else if frame[6] == 0x01 {
        Ok(Some(Command::Forward))
    } else if frame[6] == 0x02 {
        Ok(Some(Command::Reverse))
    } else if frame[6] == 0x04 {
        Ok(Some(Command::Left))
    } else if frame[6] == 0x08 {
        Ok(Some(Command::Right))
    } else {
        Err(Error::Parsing)
    }
}

/// What the Dabble transport answers for a complete frame: the decoded
/// command, with a frame that does not decode ignored.
pub open spec fn dabble_reply(frame: Seq<u8>) -> Result<Option<Command>, Error> {
    match dabble_decode(frame) {
        Ok(Some(command)) => Ok(Some(command)),
        _ => Ok(None),
    }
}

/// Decodes one byte of the plain serial protocol.
pub fn decode_serial_byte(byte: u8) -> (c: Option<Command>)
    ensures
        c == serial_command(byte),
{
    match byte {
        0x4b | 0x6b => Some(Command::Forward),  // 'K' | 'k'
        0x4a | 0x6a => Some(Command::Reverse),  // 'J' | 'j'
        0x48 | 0x68 => Some(Command::Left),  // 'H' | 'h'
        0x4c | 0x6c => Some(Command::Right),  // 'L' | 'l'
        // Line ends and every other byte carry no command.
        _ => None,
    }
}

/// Decodes an 8-byte Dabble gamepad frame.
pub fn decode_dabble_message(bytes: &[u8; 8]) -> (r: Result<Option<Command>, Error>)
    ensures
        r == dabble_decode(bytes@),
{
    if bytes[5] != 0 {
        return Ok(Some(Command::Stop));
    }
    Ok(Some(
        match bytes[6] {
            0x01 => Command::Forward,
            0x02 => Command::Reverse,
            0x04 => Command::Left,
            0x08 => Command::Right,
            _ => {
                return Err(Error::Parsing);
            },
        },
    ))
}

/// The answer of the Dabble transport for a frame it has read in full.
pub fn dabble_frame_reply(frame: &[u8; 8]) -> (r: Result<Option<Command>, Error>)
    ensures
        r == dabble_reply(frame@),
{
    match decode_dabble_message(frame) {
        Ok(Some(command)) => Ok(Some(command)),
        _ => Ok(None),
    }
}

/// Commands sent one byte each over a plain serial line.
pub struct SerialTransport<S> {
    serial: S,
}

impl<S> SerialTransport<S> {
    /// The receiver this transport reads from.
    pub closed spec fn serial(&self) -> S {
        self.serial
    }

    pub fn new(serial: S) -> (t: Self)
        ensures
            t.serial() == serial,
    {
        SerialTransport { serial }
    }

    /// The answer to one read of the line.
    pub fn reply(read: Option<u8>) -> (r: Result<Option<Command>, Error>)
        ensures
            r == serial_reply(read),
    {
        match read {
            Some(byte) => Ok(decode_serial_byte(byte)),
            None => Ok(None),
        }
    }
}

impl<S: SerialRead> Transport for SerialTransport<S> {
    /// Reads at most one byte and answers with its command: `read` is what
    /// the call of `read` on the receiver as it was gave back.
    fn receive(&mut self) -> (r: Result<Option<Command>, Error>)
        ensures
            r is Ok,
            exists|m: &mut S, read: Option<u8>|
                {
                    &&& *m == old(self).serial()
                    &&& #[trigger] call_ensures(S::read, (m,), read)
                    &&& final(self).serial() == *final(m)
                    &&& r == serial_reply(read)
                },
    {
        let read = self.serial.read();
        Self::reply(read)
    }
}

/// Commands sent as 8-byte frames by the Dabble gamepad app over Bluetooth
/// serial.
pub struct DabbleBTTransport<S> {
    serial: S,
}

impl<S> DabbleBTTransport<S> {
    /// The receiver this transport reads from.
    pub closed spec fn serial(&self) -> S {
        self.serial
    }

    pub fn new(serial: S) -> (t: Self)
        ensures
            t.serial() == serial,
    {
        DabbleBTTransport { serial }
    }
}

impl<S: SerialRead> Transport for DabbleBTTransport<S> {
    /// Reads one byte; unless it is the frame header, answers with no
    /// command. After a header it waits for the seven remaining bytes of the
    /// frame and answers with the frame's command, ignoring a frame that does
    /// not decode.
    ///
    /// The contract follows the receiver through each call: `first` is what
    /// the call of `read` on the receiver as it was gave back, and `rest` is
    /// what `read_frame_rest` then read from the receiver as that call left
    /// it.
    fn receive(&mut self) -> (r: Result<Option<Command>, Error>)
        ensures
            r is Ok,
            exists|m0: &mut S, first: Option<u8>|
                {
                    &&& *m0 == old(self).serial()
                    &&& #[trigger] call_ensures(S::read, (m0,), first)
                    &&& first != Some(DABBLE_HEADER) ==> {
                        &&& r == Ok::<Option<Command>, Error>(None)
                        &&& final(self).serial() == *final(m0)
                    }
                    &&& first == Some(DABBLE_HEADER) ==> exists|m: &mut S, rest: [u8; 7]|
                        {
                            &&& *m == *final(m0)
                            &&& #[trigger] call_ensures(read_frame_rest::<S>, (m,), rest)
                            &&& final(self).serial() == *final(m)
                            &&& r == dabble_reply(seq![DABBLE_HEADER].add(rest@))
                        }
                },
    {
        match self.serial.read() {
            Some(DABBLE_HEADER) => {},
            _ => {
                return Ok(None);
            },
        }
        let rest = read_frame_rest(&mut self.serial);
        let frame: [u8; 8] = [DABBLE_HEADER, rest[0], rest[1], rest[2], rest[3], rest[4], rest[5], rest[6]];
        assert(frame@ =~= seq![DABBLE_HEADER].add(rest@));
        dabble_frame_reply(&frame)
    }
}

/// Waits for the seven bytes that follow a Dabble frame's header, one call of
/// `read_blocking` each, and gives them back in order: each call is made on
/// the receiver as the call before left it.
pub fn read_frame_rest<S: SerialRead>(serial: &mut S) -> (rest: [u8; 7])
    ensures
        exists|m1: &mut S, m2: &mut S, m3: &mut S, m4: &mut S, m5: &mut S, m6: &mut S, m7: &mut S|
            {
                &&& *m1 == *old(serial)
                &&& #[trigger] call_ensures(S::read_blocking, (m1,), rest[0])
                &&& *m2 == *final(m1)
                &&& #[trigger] call_ensures(S::read_blocking, (m2,), rest[1])
                &&& *m3 == *final(m2)
                &&& #[trigger] call_ensures(S::read_blocking, (m3,), rest[2])
                &&& *m4 == *final(m3)
                &&& #[trigger] call_ensures(S::read_blocking, (m4,), rest[3])
                &&& *m5 == *final(m4)
                &&& #[trigger] call_ensures(S::read_blocking, (m5,), rest[4])
                &&& *m6 == *final(m5)
                &&& #[trigger] call_ensures(S::read_blocking, (m6,), rest[5])
                &&& *m7 == *final(m6)
                &&& #[trigger] call_ensures(S::read_blocking, (m7,), rest[6])
                &&& *final(m7) == *final(serial)
            },
{
    let b1 = serial.read_blocking();
    let b2 = serial.read_blocking();
    let b3 = serial.read_blocking();
    let b4 = serial.read_blocking();
    let b5 = serial.read_blocking();
    let b6 = serial.read_blocking();
    let b7 = serial.read_blocking();
    [b1, b2, b3, b4, b5, b6, b7]
}

/// The plain serial protocol does not care about case: an upper-case letter
/// carries the same command as its lower-case form.
pub proof fn law_serial_keys_ignore_case(upper: u8)
    requires
        0x41 <= upper <= 0x5a,
    ensures
        serial_command(upper) == serial_command((upper + 0x20) as u8),
{
}

/// No byte of the plain serial protocol means stop: the rover stops there
/// only when no command arrives.
pub proof fn law_serial_never_stops(read: Option<u8>)
    ensures
        serial_reply(read) is Ok,
        serial_reply(read) != Ok::<Option<Command>, Error>(Some(Command::Stop)),
{
}

/// A Dabble frame either decodes to a command or is a parsing error; it never
/// decodes to "no command". The Dabble transport itself never fails.
pub proof fn law_dabble_frame_decodes_or_fails(frame: Seq<u8>)
    requires
        frame.len() == 8,
    ensures
        dabble_decode(frame) is Ok ==> dabble_decode(frame)->Ok_0 is Some,
        dabble_reply(frame) is Ok,
        dabble_decode(frame) is Err ==> dabble_reply(frame) == Ok::<Option<Command>, Error>(None),
{
}

/// What each frame means to the rover: a non-zero byte 5 stops it; otherwise
/// byte 6 = 0x01 (up) drives forward, 0x02 (down) reverses, 0x04 turns left,
/// 0x08 turns right, and any other byte 6 is answered with no command. The
/// transport hands on a decoded command unchanged.
pub proof fn law_dabble_reply_commands(frame: Seq<u8>)
    requires
        frame.len() == 8,
    ensures
        forall|c: Command| dabble_decode(frame) == Ok::<Option<Command>, Error>(Some(c)) ==> dabble_reply(frame)
            == Ok::<Option<Command>, Error>(Some(c)),
        frame[5] != 0 ==> dabble_reply(frame) == Ok::<Option<Command>, Error>(Some(Command::Stop)),
        frame[5] == 0 && frame[6] == 0x01 ==> dabble_reply(frame) == Ok::<Option<Command>, Error>(Some(Command::Forward)),
        frame[5] == 0 && frame[6] == 0x02 ==> dabble_reply(frame) == Ok::<Option<Command>, Error>(Some(Command::Reverse)),
        frame[5] == 0 && frame[6] == 0x04 ==> dabble_reply(frame) == Ok::<Option<Command>, Error>(Some(Command::Left)),
        frame[5] == 0 && frame[6] == 0x08 ==> dabble_reply(frame) == Ok::<Option<Command>, Error>(Some(Command::Right)),
        frame[5] == 0 && frame[6] != 0x01 && frame[6] != 0x02 && frame[6] != 0x04 && frame[6] != 0x08
            ==> dabble_reply(frame) == Ok::<Option<Command>, Error>(None),
{
}

/// What each byte of the plain serial line means to the rover: `k`/`K`
/// forward, `j`/`J` reverse, `h`/`H` left, `l`/`L` right; any other byte, or
/// no byte, is answered with no command. The answer to a byte is its decoded
/// command, unchanged.
pub proof fn law_serial_reply_commands(byte: u8)
    ensures
        serial_reply(Some(byte)) == Ok::<Option<Command>, Error>(serial_command(byte)),
        serial_reply(None) == Ok::<Option<Command>, Error>(None),
        (byte == 0x6b || byte == 0x4b) ==> serial_reply(Some(byte)) == Ok::<Option<Command>, Error>(Some(Command::Forward)),
        (byte == 0x6a || byte == 0x4a) ==> serial_reply(Some(byte)) == Ok::<Option<Command>, Error>(Some(Command::Reverse)),
        (byte == 0x68 || byte == 0x48) ==> serial_reply(Some(byte)) == Ok::<Option<Command>, Error>(Some(Command::Left)),
        (byte == 0x6c || byte == 0x4c) ==> serial_reply(Some(byte)) == Ok::<Option<Command>, Error>(Some(Command::Right)),
        !(byte == 0x6b || byte == 0x4b || byte == 0x6a || byte == 0x4a || byte == 0x68 || byte == 0x48 || byte == 0x6c
            || byte == 0x4c) ==> serial_reply(Some(byte)) == Ok::<Option<Command>, Error>(None),
{
}

} // verus!
