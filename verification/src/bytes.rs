//! Little-endian views of byte sequences, and little-endian encoders.
//!
//! Every multi-byte field of the archive format is little-endian. The spec
//! functions here define what a field at a given position means, and the
//! executable helpers read or write such fields with contracts stated over
//! those spec functions.

use vstd::prelude::*;

verus! {

/// The unsigned 16-bit value stored little-endian at position `p` of `d`.
pub open spec fn le_u16_at(d: Seq<u8>, p: int) -> u16 {
    (d[p] + d[p + 1] * 0x100) as u16
}

/// The unsigned 32-bit value stored little-endian at position `p` of `d`.
pub open spec fn le_u32_at(d: Seq<u8>, p: int) -> u32 {
    (d[p] + d[p + 1] * 0x100 + d[p + 2] * 0x10000 + d[p + 3] * 0x1000000) as u32
}

/// The signed 16-bit value stored little-endian at position `p` of `d`,
/// as a mathematical integer in `-0x8000 .. 0x8000`.
pub open spec fn le_i16_at(d: Seq<u8>, p: int) -> int {
    if le_u16_at(d, p) < 0x8000 {
        le_u16_at(d, p) as int
    } else {
        le_u16_at(d, p) - 0x10000
    }
}

/// The two little-endian bytes of `x`.
pub open spec fn u16_le_bytes(x: u16) -> Seq<u8> {
    seq![(x % 0x100) as u8, (x / 0x100) as u8]
}

/// The four little-endian bytes of `x`.
pub open spec fn u32_le_bytes(x: u32) -> Seq<u8> {
    seq![
        (x % 0x100) as u8,
        ((x / 0x100) % 0x100) as u8,
        ((x / 0x10000) % 0x100) as u8,
        (x / 0x1000000) as u8,
    ]
}

/// The four little-endian bytes of `x`, two's complement.
pub open spec fn i32_le_bytes(x: i32) -> Seq<u8> {
    u32_le_bytes(x as u32)
}

/// Appends the two little-endian bytes of `x` to `out`.
pub fn push_u16_le(out: &mut Vec<u8>, x: u16)
    ensures
        final(out)@ == old(out)@ + u16_le_bytes(x),
{
    out.push((x % 0x100) as u8);
    out.push((x / 0x100) as u8);
    assert(final(out)@ =~= old(out)@ + u16_le_bytes(x));
}

/// Appends the four little-endian bytes of `x` to `out`.
pub fn push_u32_le(out: &mut Vec<u8>, x: u32)
    ensures
        final(out)@ == old(out)@ + u32_le_bytes(x),
{
    assert(x / 0x1000000 < 0x100) by (nonlinear_arith)
        requires x < 0x100000000,
    ;
    out.push((x % 0x100) as u8);
    out.push(((x / 0x100) % 0x100) as u8);
    out.push(((x / 0x10000) % 0x100) as u8);
    out.push((x / 0x1000000) as u8);
    assert(final(out)@ =~= old(out)@ + u32_le_bytes(x));
}

/// Appends the four little-endian two's-complement bytes of `x` to `out`.
pub fn push_i32_le(out: &mut Vec<u8>, x: i32)
    ensures
        final(out)@ == old(out)@ + i32_le_bytes(x),
{
    push_u32_le(out, #[verifier::truncate] (x as u32));
}

} // verus!
