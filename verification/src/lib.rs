//! Verified decision logic for three small embedded programs: a serial- or
//! Bluetooth-driven rover, a periodic task scheduler, and an e-paper quote
//! display.

pub mod rover;
pub mod scheduler;
pub mod marginilia;
