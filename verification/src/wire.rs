//! Little-endian byte-level helpers shared by the frame codec.
//!
//! All multibyte integers on the wire are little-endian; these helpers
//! connect executable reads and writes to the byte-sequence specifications
//! in `vstd::bytes`.

use vstd::prelude::*;
use vstd::bytes::{
    spec_u16_from_le_bytes, spec_u16_to_le_bytes, spec_u32_from_le_bytes, spec_u32_to_le_bytes,
    u16_from_le_bytes, u16_to_le_bytes, u32_from_le_bytes, u32_to_le_bytes,
    lemma_auto_spec_u16_to_from_le_bytes, lemma_auto_spec_u32_to_from_le_bytes,
};
use vstd::slice::slice_subrange;

verus! {

/// Read the little-endian `u16` stored at `buf[i..i+2]`.
pub fn u16_le_at(buf: &[u8], i: usize) -> (x: u16)
    requires
        i + 2 <= buf@.len(),
    ensures
        x == spec_u16_from_le_bytes(buf@.subrange(i as int, i as int + 2)),
{
    let _len: usize = buf.len();
    let s = slice_subrange(buf, i, i + 2);
    u16_from_le_bytes(s)
}

/// Read the little-endian `u32` stored at `buf[i..i+4]`.
pub fn u32_le_at(buf: &[u8], i: usize) -> (x: u32)
    requires
        i + 4 <= buf@.len(),
    ensures
        x == spec_u32_from_le_bytes(buf@.subrange(i as int, i as int + 4)),
{
    let _len: usize = buf.len();
    let s = slice_subrange(buf, i, i + 4);
    u32_from_le_bytes(s)
}

/// Append the two little-endian bytes of `x` to `buf`.
pub fn push_u16_le(buf: &mut Vec<u8>, x: u16)
    ensures
        final(buf)@ == old(buf)@ + spec_u16_to_le_bytes(x),
{
    proof {
        lemma_auto_spec_u16_to_from_le_bytes();
    }
    let bytes = u16_to_le_bytes(x);
    buf.push(bytes[0]);
    buf.push(bytes[1]);
    assert(buf@ =~= old(buf)@ + spec_u16_to_le_bytes(x));
}

/// Append the four little-endian bytes of `x` to `buf`.
pub fn push_u32_le(buf: &mut Vec<u8>, x: u32)
    ensures
        final(buf)@ == old(buf)@ + spec_u32_to_le_bytes(x),
{
    proof {
        lemma_auto_spec_u32_to_from_le_bytes();
    }
    let bytes = u32_to_le_bytes(x);
    buf.push(bytes[0]);
    buf.push(bytes[1]);
    buf.push(bytes[2]);
    buf.push(bytes[3]);
    assert(buf@ =~= old(buf)@ + spec_u32_to_le_bytes(x));
}

/// Round trip of the 16-bit little-endian encoding.
pub proof fn lemma_u16_le_round_trip(x: u16)
    ensures
        spec_u16_to_le_bytes(x).len() == 2,
        spec_u16_from_le_bytes(spec_u16_to_le_bytes(x)) == x,
{
    lemma_auto_spec_u16_to_from_le_bytes();
    assert(spec_u16_to_le_bytes(x).len() == 2);
}

/// Round trip of the 32-bit little-endian encoding.
pub proof fn lemma_u32_le_round_trip(x: u32)
    ensures
        spec_u32_to_le_bytes(x).len() == 4,
        spec_u32_from_le_bytes(spec_u32_to_le_bytes(x)) == x,
{
    lemma_auto_spec_u32_to_from_le_bytes();
    assert(spec_u32_to_le_bytes(x).len() == 4);
}


/// Read the little-endian `u64` stored at `buf[i..i+8]`.
pub fn u64_le_at(buf: &[u8], i: usize) -> (x: u64)
    requires
        i + 8 <= buf@.len(),
    ensures
        x == vstd::bytes::spec_u64_from_le_bytes(buf@.subrange(i as int, i as int + 8)),
{
    let _len: usize = buf.len();
    let s = vstd::slice::slice_subrange(buf, i, i + 8);
    vstd::bytes::u64_from_le_bytes(s)
}

} // verus!
