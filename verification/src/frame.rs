//! Transport frames of an interkernel message.
//!
//! A message travels as one or more frames. The first frame carries the tag
//! count in byte 0, the first tag in byte 1 and payload from byte 2 on; every
//! later frame is payload only.

use vstd::prelude::*;

verus! {

/// Tag count announced by the first frame of a message.
pub open spec fn first_count(frame: Seq<u8>) -> u8
    recommends
        frame.len() >= 2,
{
    frame[0]
}

/// First tag announced by the first frame of a message.
pub open spec fn first_tag(frame: Seq<u8>) -> u8
    recommends
        frame.len() >= 2,
{
    frame[1]
}

/// Payload carried by the first frame of a message.
pub open spec fn first_payload(frame: Seq<u8>) -> Seq<u8>
    recommends
        frame.len() >= 2,
{
    frame.subrange(2, frame.len() as int)
}

/// The wire form of an outgoing message: the encoder's output without its
/// three leading bytes of service framing, and with the tag count written over
/// what is then byte 0.
pub open spec fn wire_bytes(count: u8, encoded: Seq<u8>) -> Seq<u8>
    recommends
        encoded.len() > 3,
{
    encoded.subrange(3, encoded.len() as int).update(0, count)
}

/// Appends `src[from..to]` to `dst`.
pub fn append_range<const N: usize>(dst: &mut Vec<u8>, src: &[u8; N], from: usize, to: usize)
    requires
        from <= to <= N,
    ensures
        final(dst)@ == old(dst)@ + src@.subrange(from as int, to as int),
{
    let mut i: usize = from;
    while i < to
        invariant
            from <= i <= to <= N,
            dst@ == old(dst)@ + src@.subrange(from as int, i as int),
        decreases to - i,
    {
        dst.push(src[i]);
        i += 1;
    }
}

/// Builds the wire form of an outgoing message from the encoder's output.
pub fn to_wire(count: u8, encoded: Vec<u8>) -> (wire: Vec<u8>)
    requires
        encoded@.len() > 3,
    ensures
        wire@ == wire_bytes(count, encoded@),
{
    let mut encoded = encoded;
    let mut wire = encoded.split_off(3);
    wire[0] = count;
    wire
}

} // verus!
