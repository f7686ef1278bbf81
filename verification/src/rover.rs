//! The rover: its board of peripherals, the remote command transports, a
//! drive state machine, a four-input H-bridge motor model, the controller
//! step that ties them together, and the motor bench test's pattern.

pub mod board;
pub mod config;
pub mod controller;
pub mod error;
pub mod motor;
pub mod state;
pub mod test_pattern;
pub mod transport;
