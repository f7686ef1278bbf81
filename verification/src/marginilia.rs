//! The e-paper quote display: what each screen shows, drawn into the
//! panel's frame buffer, and the display's error type.

pub mod error;
pub mod render;
