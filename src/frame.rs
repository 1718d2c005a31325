//! The wire format shared by every command: checksum, nibble splitting and
//! framing, stated as spec functions together with their executable parts.
use vstd::prelude::*;

verus! {

/// First byte of every message: the System Exclusive start marker.
pub const SYSEX_START: u8 = 0xf0;

/// Protocol version carried in the last header byte.
pub const VERSION: u8 = 0x01;

/// Last byte of every message: the System Exclusive end marker.
pub const SYSEX_END: u8 = 0xf7;

/// The four header bytes that open every message.
pub open spec fn header() -> Seq<u8> {
    seq![SYSEX_START, 0x00u8, 0x70u8, VERSION]
}

/// The single footer byte that closes every message.
pub open spec fn footer() -> Seq<u8> {
    seq![SYSEX_END]
}

/// Running XOR of the bytes of `s`, from the first to the last, starting at 0.
pub open spec fn xor_fold(s: Seq<u8>) -> u8
    decreases s.len(),
{
    if s.len() == 0 {
        0
    } else {
        xor_fold(s.drop_last()) ^ s.last()
    }
}

/// The payload followed by its checksum byte.
pub open spec fn checksummed(payload: Seq<u8>) -> Seq<u8> {
    payload.push(xor_fold(payload))
}

/// Each byte of `s` replaced by its high nibble, then its low nibble.
pub open spec fn nibbles(s: Seq<u8>) -> Seq<u8> {
    Seq::new(
        2 * s.len(),
        |k: int|
            if k % 2 == 0 {
                s[k / 2] >> 4u8
            } else {
                s[k / 2] & 0x0fu8
            },
    )
}

/// Rejoins consecutive nibble pairs into bytes: `high << 4 | low` for each
/// pair, in order.
pub open spec fn join_nibbles(s: Seq<u8>) -> Seq<u8> {
    Seq::new(s.len() / 2, |i: int| ((s[2 * i] << 4u8) | s[2 * i + 1]) as u8)
}

/// The part of a message between its header and its footer.
pub open spec fn frame_body(message: Seq<u8>) -> Seq<u8> {
    message.subrange(4, message.len() - 1)
}

/// The complete message for a payload: header, nibbles of the checksummed
/// payload, footer.
pub open spec fn frame(payload: Seq<u8>) -> Seq<u8> {
    header() + nibbles(checksummed(payload)) + footer()
}

/// Rejoining the nibbles of a byte gives the byte back.
proof fn lemma_join_byte(b: u8)
    ensures
        (((b >> 4u8) << 4u8) | (b & 0x0fu8)) as u8 == b,
        b >> 4u8 <= 15,
        b & 0x0fu8 <= 15,
{
    assert((((b >> 4u8) << 4u8) | (b & 0x0fu8)) as u8 == b) by (bit_vector);
    assert(b >> 4u8 <= 15) by (bit_vector);
    assert(b & 0x0fu8 <= 15) by (bit_vector);
}

/// Rejoining split nibbles gives the bytes back.
pub proof fn lemma_join_nibbles(s: Seq<u8>)
    ensures
        join_nibbles(nibbles(s)) == s,
{
    let n = nibbles(s);
    assert forall|i: int| 0 <= i < s.len() implies #[trigger] join_nibbles(n)[i] == s[i] by {
        assert((2 * i) % 2 == 0 && (2 * i) / 2 == i);
        assert((2 * i + 1) % 2 == 1 && (2 * i + 1) / 2 == i);
        lemma_join_byte(s[i]);
    }
    assert(join_nibbles(n) =~= s);
}

/// Every split nibble is at most 15.
pub proof fn lemma_nibbles_bounded(s: Seq<u8>)
    ensures
        forall|k: int| 0 <= k < nibbles(s).len() ==> #[trigger] nibbles(s)[k] <= 15,
{
    assert forall|k: int| 0 <= k < nibbles(s).len() implies #[trigger] nibbles(s)[k] <= 15 by {
        lemma_join_byte(s[k / 2]);
    }
}

/// A message is its header, the split checksummed payload and its footer,
/// so its body is exactly that nibble stream.
pub proof fn lemma_frame_parts(payload: Seq<u8>)
    ensures
        frame(payload).len() == 4 + 2 * (payload.len() + 1) + 1,
        frame(payload).subrange(0, 4) == header(),
        frame(payload).last() == SYSEX_END,
        frame_body(frame(payload)) == nibbles(checksummed(payload)),
{
    let m = frame(payload);
    assert(m.subrange(0, 4) =~= header());
    assert(frame_body(m) =~= nibbles(checksummed(payload)));
}

/// Checksum of a payload: the XOR of all its bytes.
pub fn xor_checksum(payload: &Vec<u8>) -> (r: u8)
    ensures
        r == xor_fold(payload@),
{
    let mut acc: u8 = 0;
    let mut i: usize = 0;
    while i < payload.len()
        invariant
            i <= payload@.len(),
            acc == xor_fold(payload@.subrange(0, i as int)),
        decreases payload@.len() - i,
    {
        assert(payload@.subrange(0, i + 1).drop_last() =~= payload@.subrange(0, i as int));
        acc = acc ^ payload[i];
        i = i + 1;
    }
    assert(payload@.subrange(0, i as int) =~= payload@);
    acc
}

/// Splits every byte into two output bytes, high nibble first.
pub fn split_nibbles(bytes: &Vec<u8>) -> (r: Vec<u8>)
    requires
        2 * bytes@.len() <= usize::MAX,
    ensures
        r@ == nibbles(bytes@),
{
    let mut out: Vec<u8> = Vec::with_capacity(2 * bytes.len());
    let mut i: usize = 0;
    while i < bytes.len()
        invariant
            i <= bytes@.len(),
            out@ =~= nibbles(bytes@.subrange(0, i as int)),
        decreases bytes@.len() - i,
    {
        let b: u8 = bytes[i];
        out.push(b >> 4u8);
        out.push(b & 0x0fu8);
        i = i + 1;
        assert(out@ =~= nibbles(bytes@.subrange(0, i as int)));
    }
    assert(bytes@.subrange(0, i as int) =~= bytes@);
    out
}

/// Builds the complete message for a payload: header, the nibbles of the
/// payload followed by its checksum, footer.
pub fn encode_frame(payload: Vec<u8>) -> (r: Vec<u8>)
    requires
        2 * payload@.len() + 7 <= usize::MAX,
    ensures
        r@ == frame(payload@),
{
    let ghost original = payload@;
    let mut payload = payload;
    let checksum: u8 = xor_checksum(&payload);
    payload.push(checksum);
    let mut message: Vec<u8> = Vec::with_capacity(2 * payload.len() + 5);
    message.push(SYSEX_START);
    message.push(0x00u8);
    message.push(0x70u8);
    message.push(VERSION);
    let mut body: Vec<u8> = split_nibbles(&payload);
    message.append(&mut body);
    message.push(SYSEX_END);
    assert(payload@ == checksummed(original));
    assert(message@ =~= header() + nibbles(payload@) + footer());
    message
}

} // verus!
