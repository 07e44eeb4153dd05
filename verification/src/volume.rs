use vstd::prelude::*;

verus! {

/// Bit pattern of the 32-bit IEEE 754 float `1.0`, the full-volume setting.
pub const VOLUME_ONE_BITS: u32 = 0x3F80_0000;

/// Bit pattern of the 32-bit IEEE 754 float `0.0`, the mute setting.
pub const VOLUME_ZERO_BITS: u32 = 0;

/// Volume is a 32-bit float in `[0.0, 1.0]`, stored as its raw bit pattern in
/// a 32-bit atomic so the output callback can read it without locks. The
/// clamp below works on the bit pattern directly:
///
/// * a pattern with the sign bit set encodes a negative value (or a negative
///   NaN); every such setting clamps to `0.0`;
/// * for non-negative IEEE 754 floats, numeric order agrees with the order of
///   the bit patterns, so a pattern above the pattern of `1.0` encodes a value
///   greater than `1.0` (or a positive infinity or NaN); every such setting
///   clamps to `1.0`;
/// * every other pattern encodes a value already in `[0.0, 1.0]` and is kept.
pub open spec fn spec_clamp_volume_bits(bits: u32) -> u32 {
    if bits >= 0x8000_0000 {
        VOLUME_ZERO_BITS
    } else if bits > VOLUME_ONE_BITS {
        VOLUME_ONE_BITS
    } else {
        bits
    }
}

/// Clamp a requested volume setting to `[0.0, 1.0]`, acting on the raw bit
/// pattern of the requested float. Out-of-range requests, infinities and NaNs
/// all land on the nearest endpoint, so the effective multiplier in the
/// callback never leaves `[0.0, 1.0]`.
pub fn clamp_volume_bits(bits: u32) -> (r: u32)
    ensures
        r == spec_clamp_volume_bits(bits),
        r <= VOLUME_ONE_BITS,
        VOLUME_ZERO_BITS <= bits <= VOLUME_ONE_BITS ==> r == bits,
{
    if bits >= 0x8000_0000 {
        VOLUME_ZERO_BITS
    } else if bits > VOLUME_ONE_BITS {
        VOLUME_ONE_BITS
    } else {
        bits
    }
}

/// A stored volume is always the clamp of some request, hence always a
/// pattern encoding a value in `[0.0, 1.0]`.
pub proof fn lemma_clamp_volume_bits_idempotent(bits: u32)
    ensures
        spec_clamp_volume_bits(spec_clamp_volume_bits(bits)) == spec_clamp_volume_bits(bits),
{
}

} // verus!
