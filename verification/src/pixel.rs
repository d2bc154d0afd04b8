//! One RGBA pixel and the fixed 75% / 25% channel blend.

use vstd::prelude::*;

verus! {

/// An 8-bit RGBA pixel.
#[derive(Clone, Copy, Debug, PartialEq, Eq, Structural)]
pub struct Pixel {
    pub red: u8,
    pub green: u8,
    pub blue: u8,
    pub alpha: u8,
}

/// The blend of one colour channel: three quarters of the block's value plus
/// a quarter of the overlay's, each share rounded down before the addition.
pub open spec fn blend_channel(block: u8, overlay: u8) -> u8 {
    (block * 3 / 4 + overlay / 4) as u8
}

/// The blend of a whole pixel: every colour channel is blended, the alpha
/// channel is the block's alone, whatever the overlay's transparency.
pub open spec fn blend_pixel(block: Pixel, overlay: Pixel) -> Pixel {
    Pixel {
        red: blend_channel(block.red, overlay.red),
        green: blend_channel(block.green, overlay.green),
        blue: blend_channel(block.blue, overlay.blue),
        alpha: block.alpha,
    }
}

/// Blends two pixels with the fixed 75% / 25% weighting.
pub fn average_pixel(block: Pixel, overlay: Pixel) -> (r: Pixel)
    ensures
        r == blend_pixel(block, overlay),
        r.red == block.red * 3 / 4 + overlay.red / 4,
        r.green == block.green * 3 / 4 + overlay.green / 4,
        r.blue == block.blue * 3 / 4 + overlay.blue / 4,
        r.alpha == block.alpha,
{
    Pixel {
        red: average_channel(block.red, overlay.red),
        green: average_channel(block.green, overlay.green),
        blue: average_channel(block.blue, overlay.blue),
        alpha: block.alpha,
    }
}

/// Blends one colour channel with the fixed 75% / 25% weighting.
pub fn average_channel(block: u8, overlay: u8) -> (r: u8)
    ensures
        r == blend_channel(block, overlay),
        r == block * 3 / 4 + overlay / 4,
{
    let three_quarters: u16 = (block as u16) * 3 / 4;
    let quarter: u16 = (overlay as u16) / 4;
    (three_quarters + quarter) as u8
}

} // verus!
