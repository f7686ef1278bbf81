use vstd::prelude::*;

verus! {

/// The rover's settings.
pub struct Config {
    serial_baud_rate: u32,
    blink_interval: u32,
}

impl Config {
    pub closed spec fn spec_baud_rate(&self) -> u32 {
        self.serial_baud_rate
    }

    pub closed spec fn spec_blink_interval(&self) -> u32 {
        self.blink_interval
    }

    /// The settings the rover runs with: 9600 baud on the serial line and a
    /// status LED that changes every 1000 ms.
    pub fn default() -> (c: Config)
        ensures
            c.spec_baud_rate() == 9600,
            c.spec_blink_interval() == 1000,
    {
        Config { serial_baud_rate: 9600, blink_interval: 1000 }
    }

    /// The serial line's speed, in baud.
    pub fn baud_rate(&self) -> (b: u32)
        ensures
            b == self.spec_baud_rate(),
    {
        self.serial_baud_rate
    }

    /// How long the status LED stays in one state, in milliseconds.
    pub fn blink_interval(&self) -> (ms: u32)
        ensures
            ms == self.spec_blink_interval(),
    {
        self.blink_interval
    }
}

} // verus!
