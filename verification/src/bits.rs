use vstd::prelude::*;

verus! {

/// Bit pattern of the single-precision value `1.0`.
pub const ONE_BITS: u32 = 0x3F80_0000;

/// Bit pattern of the single-precision value `+0.0`.
pub const ZERO_BITS: u32 = 0;

/// Bit pattern of the single-precision value `-0.0`.
pub const NEG_ZERO_BITS: u32 = 0x8000_0000;

/// A single-precision value compares equal to `0.0` exactly when its bit
/// pattern is one of the two IEEE 754 zeros.
pub open spec fn is_zero_bits(b: u32) -> bool {
    b == ZERO_BITS || b == NEG_ZERO_BITS
}

/// Runtime test for `is_zero_bits`.
pub fn scalar_is_zero(b: u32) -> (r: bool)
    ensures
        r == is_zero_bits(b),
{
    b == ZERO_BITS || b == NEG_ZERO_BITS
}

/// The four little-endian bytes of a 32-bit value, least significant first.
pub open spec fn le_bytes(x: u32) -> Seq<u8> {
    seq![
        (x & 0xff) as u8,
        ((x >> 8) & 0xff) as u8,
        ((x >> 16) & 0xff) as u8,
        ((x >> 24) & 0xff) as u8,
    ]
}

/// Appends the four little-endian bytes of `x` to `out`.
pub fn push_le_bytes(out: &mut Vec<u8>, x: u32)
    ensures
        final(out)@ == old(out)@ + le_bytes(x),
{
    out.push((x & 0xff) as u8);
    out.push(((x >> 8) & 0xff) as u8);
    out.push(((x >> 16) & 0xff) as u8);
    out.push(((x >> 24) & 0xff) as u8);
    proof {
        assert(out@ =~= old(out)@ + le_bytes(x));
    }
}

/// A three-component vector of single-precision values, held as bit patterns.
#[derive(Clone, Copy, PartialEq, Eq, Structural, Debug)]
pub struct Vec3 {
    pub x: u32,
    pub y: u32,
    pub z: u32,
}

} // verus!
