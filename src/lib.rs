//! Decoding and encoding of the serial protocol spoken by Insteon modems.
//!
//! Notifications (`message::Message`) and command acknowledgements
//! (`message::Response`) are decoded from the byte stream by the scanners of
//! `frame`; commands (`command::Command`) are encoded to, and decoded from,
//! their two-byte wire form; X10 messages carried inside some frames are
//! handled by `x10`.
pub mod button;
pub mod command;
pub mod device;
pub mod frame;
pub mod link;
pub mod message;
pub mod x10;

pub use self::frame::{decode_message, decode_response, UnsupportedOpcode};
