//! Binary framing and integrity layer for a point-to-point link to an
//! embedded device's boot ROM / flashing programmer.
//!
//! The library turns a raw byte stream into discrete, checksum-verified
//! messages and encodes outgoing messages into the wire byte layout:
//! sync-byte acquisition, type-dependent frame-length resolution, checksum
//! computation and verification, and message encode/decode. Transport I/O
//! (the serial port itself) lives outside this crate; callers feed bytes in
//! and take frames out.

use vstd::prelude::*;

pub mod checksum;
pub mod errors;
pub mod length;
pub mod message;
pub mod reader;

verus! {

/// Fixed leading marker identifying the start of a frame.
pub const BES_SYNC: u8 = 0xBE;

/// Copies the bytes of `v` at positions `start..end` into a fresh vector.
pub(crate) fn bytes_range(v: &Vec<u8>, start: usize, end: usize) -> (r: Vec<u8>)
    requires
        start <= end <= v@.len(),
    ensures
        r@ == v@.subrange(start as int, end as int),
{
    let mut r: Vec<u8> = Vec::new();
    proof {
        assert(r@ =~= v@.subrange(start as int, start as int));
    }
    let mut i: usize = start;
    while i < end
        invariant
            start <= i <= end <= v@.len(),
            r@ == v@.subrange(start as int, i as int),
        decreases end - i,
    {
        r.push(v[i]);
        proof {
            assert(r@ =~= v@.subrange(start as int, i as int + 1));
        }
        i = i + 1;
    }
    r
}

} // verus!
