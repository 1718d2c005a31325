//! Framing encoder for device-control commands carried as MIDI System
//! Exclusive messages.
//!
//! A command yields a payload (an opcode followed by its fields). The payload
//! gets an XOR checksum byte appended, every byte is split into its high and
//! low nibble, and the nibble stream is wrapped in a fixed header and footer.
pub mod command;
pub mod frame;
pub mod laws;

pub use command::{Command, Ping, Quit, Read, Verify, Write};
