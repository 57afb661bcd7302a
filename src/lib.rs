//! Encoding of the command frames understood by the blink(1) USB notification light.
//!
//! The library turns lighting commands into the 8-byte HID feature report that the
//! device reads, resolves color names to RGB triples, and holds the small decisions
//! around transmission (which devices to address, the report value of a frame).

pub mod color;
pub mod constants;
pub mod device;
pub mod error;
pub mod laws;
pub mod message;

pub use color::Color;
pub use error::BlinkError;
pub use message::LedNum;
pub use message::Message;
pub use message::Millis;

