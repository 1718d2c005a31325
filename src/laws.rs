//! Properties that hold of the message of every command.
use vstd::prelude::*;

use crate::command::Command;
use crate::frame::{
    checksummed,
    frame,
    frame_body,
    header,
    join_nibbles,
    lemma_frame_parts,
    lemma_join_nibbles,
    lemma_nibbles_bounded,
    xor_fold,
};

verus! {

/// The message of a command has four header bytes, two bytes for each
/// payload byte and for the checksum byte, and one footer byte.
pub proof fn lemma_encoded_length<C: Command>(c: &C)
    ensures
        frame(c.spec_payload()).len() == 4 + 2 * (c.spec_payload().len() + 1) + 1,
{
    lemma_frame_parts(c.spec_payload());
}

/// The message of a command starts with `F0 00 70 01` and ends with `F7`.
pub proof fn lemma_encoded_delimiters<C: Command>(c: &C)
    ensures
        frame(c.spec_payload()).subrange(0, 4) == seq![0xf0u8, 0x00u8, 0x70u8, 0x01u8],
        frame(c.spec_payload()).last() == 0xf7u8,
{
    lemma_frame_parts(c.spec_payload());
    assert(header() =~= seq![0xf0u8, 0x00u8, 0x70u8, 0x01u8]);
}

/// Every byte between the header and the footer of a command's message is a
/// nibble: a value from 0 to 15.
pub proof fn lemma_encoded_body_nibbles<C: Command>(c: &C)
    ensures
        forall|k: int|
            4 <= k < frame(c.spec_payload()).len() - 1 ==> #[trigger] frame(c.spec_payload())[k]
                <= 15,
{
    let p = c.spec_payload();
    lemma_frame_parts(p);
    lemma_nibbles_bounded(checksummed(p));
    assert forall|k: int| 4 <= k < frame(p).len() - 1 implies #[trigger] frame(p)[k] <= 15 by {
        assert(frame(p)[k] == frame_body(frame(p))[k - 4]);
    }
}

/// Rejoining the nibble pairs of a command's message body and dropping the
/// last rejoined byte gives back the command's payload.
pub proof fn lemma_encoded_round_trip<C: Command>(c: &C)
    ensures
        join_nibbles(frame_body(frame(c.spec_payload()))).drop_last() == c.spec_payload(),
{
    let p = c.spec_payload();
    lemma_frame_parts(p);
    lemma_join_nibbles(checksummed(p));
}

/// The last rejoined byte of a command's message body is the XOR of all the
/// rejoined bytes before it.
pub proof fn lemma_encoded_checksum<C: Command>(c: &C)
    ensures
        ({
            let joined = join_nibbles(frame_body(frame(c.spec_payload())));
            joined.last() == xor_fold(joined.drop_last())
        }),
{
    let p = c.spec_payload();
    let with_sum = checksummed(p);
    lemma_frame_parts(p);
    lemma_join_nibbles(with_sum);
    let joined = join_nibbles(frame_body(frame(p)));
    assert(joined == with_sum);
    assert(with_sum.drop_last() =~= p);
    assert(with_sum.last() == xor_fold(p));
}

} // verus!
