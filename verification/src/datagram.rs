//! Reading the conversation id out of a raw datagram.
//!
//! Every segment the engine emits starts with a fixed header whose first four
//! bytes hold the conversation id, least significant byte first. The adapter
//! reads only this field; everything else in the header belongs to the engine.

use vstd::prelude::*;
use crate::config::HEADER_LEN;

verus! {

/// The conversation id carried by a datagram: its first four bytes read as a
/// 32-bit integer, least significant byte first.
pub open spec fn spec_conv_of(d: Seq<u8>) -> u32
    recommends
        d.len() >= 4,
{
    ((d[0] as int) + (d[1] as int) * 0x100 + (d[2] as int) * 0x10000 + (d[3] as int) * 0x1000000)
        as u32
}

/// A datagram can carry a segment only if it is at least one header long.
pub open spec fn spec_carries_segment(d: Seq<u8>) -> bool {
    d.len() >= HEADER_LEN
}

/// Reads the conversation id from the head of a datagram.
pub fn conv_of(d: &Vec<u8>) -> (r: u32)
    requires
        spec_carries_segment(d@),
    ensures
        r == spec_conv_of(d@),
{
    let b0 = d[0] as u32;
    let b1 = d[1] as u32;
    let b2 = d[2] as u32;
    let b3 = d[3] as u32;
    assert(b0 + b1 * 0x100 + b2 * 0x10000 + b3 * 0x1000000 <= 0xFFFFFFFF);
    b0 + b1 * 0x100 + b2 * 0x10000 + b3 * 0x1000000
}

/// Whether a datagram is long enough to carry a segment.
pub fn carries_segment(d: &Vec<u8>) -> (r: bool)
    ensures
        r == spec_carries_segment(d@),
{
    d.len() >= HEADER_LEN
}

} // verus!
