//! The commands of the protocol and the encoder they share.
use vstd::prelude::*;

use crate::frame::{encode_frame, frame, nibbles, split_nibbles};

verus! {

/// Opcode of [`Ping`].
pub const PING_OPCODE: u8 = 0x10;

/// Opcode of [`Write`].
pub const WRITE_OPCODE: u8 = 0x11;

/// Opcode of [`Read`].
pub const READ_OPCODE: u8 = 0x12;

/// Opcode of [`Verify`].
pub const VERIFY_OPCODE: u8 = 0x13;

/// Opcode of [`Quit`].
pub const QUIT_OPCODE: u8 = 0x14;

/// A command that can be sent to the device.
///
/// Each command only says what its payload is; checksumming, nibble
/// splitting and framing are the same for all of them.
pub trait Command {
    /// The payload of this command: its opcode followed by its fields.
    spec fn spec_payload(&self) -> Seq<u8>;

    /// The complete message for this command, ready to be sent.
    fn to_sysex(&self) -> (r: Vec<u8>)
        requires
            2 * self.spec_payload().len() + 7 <= usize::MAX,
        ensures
            r@ == frame(self.spec_payload()),
    {
        encode_frame(self.payload())
    }

    /// Each byte of `vec` split into its high nibble, then its low nibble.
    fn to_nibbles(&self, vec: Vec<u8>) -> (r: Vec<u8>)
        requires
            2 * vec@.len() <= usize::MAX,
        ensures
            r@ == nibbles(vec@),
    {
        split_nibbles(&vec)
    }

    /// The payload of this command, as bytes.
    fn payload(&self) -> (r: Vec<u8>)
        requires
            self.spec_payload().len() <= usize::MAX,
        ensures
            r@ == self.spec_payload(),
    ;
}

/// Checks that the device is there.
pub struct Ping {}

impl Command for Ping {
    open spec fn spec_payload(&self) -> Seq<u8> {
        seq![PING_OPCODE]
    }

    fn payload(&self) -> (r: Vec<u8>) {
        vec![PING_OPCODE]
    }
}

/// Writes `page_data` to page `page_no`.
pub struct Write {
    pub page_no: u8,
    pub page_data: Vec<u8>,
}

impl Command for Write {
    open spec fn spec_payload(&self) -> Seq<u8> {
        seq![WRITE_OPCODE, self.page_no] + self.page_data@
    }

    fn payload(&self) -> (r: Vec<u8>) {
        let mut payload: Vec<u8> = vec![WRITE_OPCODE, self.page_no];
        payload.extend_from_slice(self.page_data.as_slice());
        payload
    }
}

/// Reads page `page_no`.
pub struct Read {
    pub page_no: u8,
}

impl Command for Read {
    open spec fn spec_payload(&self) -> Seq<u8> {
        seq![READ_OPCODE, self.page_no]
    }

    fn payload(&self) -> (r: Vec<u8>) {
        vec![READ_OPCODE, self.page_no]
    }
}

/// Verifies page `page_no`.
pub struct Verify {
    pub page_no: u8,
}

impl Command for Verify {
    open spec fn spec_payload(&self) -> Seq<u8> {
        seq![VERIFY_OPCODE, self.page_no]
    }

    fn payload(&self) -> (r: Vec<u8>) {
        vec![VERIFY_OPCODE, self.page_no]
    }
}

/// Ends the session with the device.
pub struct Quit {}

impl Command for Quit {
    open spec fn spec_payload(&self) -> Seq<u8> {
        seq![QUIT_OPCODE]
    }

    fn payload(&self) -> (r: Vec<u8>) {
        vec![QUIT_OPCODE]
    }
}

} // verus!
