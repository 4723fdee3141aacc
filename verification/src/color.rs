//! Output pixel color and channel conversion.

use vstd::prelude::*;

verus! {

/// One raster pixel: 8-bit red, green and blue channels.
#[derive(Clone, Copy, PartialEq, Eq, Structural, Debug)]
pub struct Rgb8 {
    pub red: u8,
    pub green: u8,
    pub blue: u8,
}

/// Fixed-point scale for light channels: this many units stand for a channel
/// value of one (full brightness). The embedding program scales its floating
/// channels by this constant before asking for a byte.
pub const CHANNEL_ONE: i64 = 65536;

/// A channel value clamped into the displayable range `[0, CHANNEL_ONE]`.
pub open spec fn clamped_channel(v: int) -> int {
    if v < 0 {
        0
    } else if v > CHANNEL_ONE {
        CHANNEL_ONE as int
    } else {
        v
    }
}

/// The byte a channel value maps to: clamp to the displayable range, scale to
/// `[0, 255]`, and round to the nearest integer.
pub open spec fn byte_of_channel(v: int) -> int {
    (clamped_channel(v) * 255 + CHANNEL_ONE / 2) / (CHANNEL_ONE as int)
}

/// Convert one accumulated light channel (in `CHANNEL_ONE` fixed point) to an
/// 8-bit output channel. Over-bright and negative values saturate instead of
/// wrapping, and scaling rounds to nearest instead of truncating.
pub fn channel_to_byte(v: i64) -> (r: u8)
    ensures
        r as int == byte_of_channel(v as int),
{
    let c: i64 = if v < 0 {
        0
    } else if v > CHANNEL_ONE {
        CHANNEL_ONE
    } else {
        v
    };
    let scaled: u64 = ((c as u64) * 255 + 32768) / 65536;
    assert(scaled <= 255) by {
        assert(c as int * 255 + 32768 <= 16746496);
        vstd::arithmetic::div_mod::lemma_div_is_ordered(c as int * 255 + 32768, 16746496, 65536);
        assert(16746496int / 65536int == 255);
    };
    scaled as u8
}

} // verus!
