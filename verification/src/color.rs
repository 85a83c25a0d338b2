//! Integer color encodings.

use vstd::prelude::*;

verus! {

/// The 8-bit red, green, blue and alpha channels of the color `0xRRGGBB`:
/// the three low bytes of `hex` from high to low, and an opaque alpha. The
/// high byte of `hex` is ignored.
pub fn color_hex_channels(hex: u32) -> (r: (u8, u8, u8, u8))
    ensures
        r.0 == (hex / 0x10000) % 0x100,
        r.1 == (hex / 0x100) % 0x100,
        r.2 == hex % 0x100,
        r.3 == 255,
{
    let red = ((hex >> 16) & 0xff) as u8;
    let green = ((hex >> 8) & 0xff) as u8;
    let blue = (hex & 0xff) as u8;
    assert(((hex >> 16) & 0xff) == (hex / 0x10000) % 0x100) by (bit_vector);
    assert(((hex >> 8) & 0xff) == (hex / 0x100) % 0x100) by (bit_vector);
    assert((hex & 0xff) == hex % 0x100) by (bit_vector);
    (red, green, blue, 255)
}

} // verus!
