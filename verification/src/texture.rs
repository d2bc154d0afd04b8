//! An in-memory RGBA image and the pixel-by-pixel blend of two of them.

use vstd::prelude::*;
use crate::pixel::{Pixel, average_pixel, blend_pixel};

verus! {

/// The side length, in pixels, that every texture and the overlay picture are
/// brought to before blending.
pub const CANONICAL_SIDE: u32 = 128;

/// An image held as a flat buffer of RGBA bytes, row-major, four bytes per
/// pixel.
#[derive(Debug)]
pub struct Texture {
    pub width: u32,
    pub height: u32,
    pub data: Vec<u8>,
}

impl Texture {
    /// The buffer holds exactly four bytes for every pixel of the stated
    /// dimensions.
    pub open spec fn wf(&self) -> bool {
        self.data@.len() == self.width * self.height * 4
    }

    /// The texture has the canonical 128 by 128 dimensions.
    pub open spec fn is_canonical(&self) -> bool {
        &&& self.wf()
        &&& self.width == CANONICAL_SIDE
        &&& self.height == CANONICAL_SIDE
    }

    /// The pixel whose four bytes start at offset `4 * i` of the buffer.
    pub open spec fn pixel_at(&self, i: int) -> Pixel {
        Pixel {
            red: self.data@[4 * i],
            green: self.data@[4 * i + 1],
            blue: self.data@[4 * i + 2],
            alpha: self.data@[4 * i + 3],
        }
    }
}

/// The byte buffer of the blend of two equally long RGBA buffers: colour
/// bytes are blended with the fixed weighting, every fourth byte (the alpha)
/// is the block's alone.
pub open spec fn blend_bytes(block: Seq<u8>, overlay: Seq<u8>) -> Seq<u8> {
    Seq::new(block.len(), |i: int| if i % 4 == 3 {
        block[i]
    } else {
        (block[i] * 3 / 4 + overlay[i] / 4) as u8
    })
}

/// Blends a block texture with the overlay picture, pixel by pixel.
///
/// Both must already have the canonical dimensions; the result has them too,
/// and each of its pixels is the fixed-weight blend of the pixels at the same
/// coordinate of the two inputs.
pub fn blend_texture(block: &Texture, overlay: &Texture) -> (r: Texture)
    requires
        block.is_canonical(),
        overlay.is_canonical(),
    ensures
        r.is_canonical(),
        r.data@ == blend_bytes(block.data@, overlay.data@),
        forall|i: int| 0 <= i < CANONICAL_SIDE * CANONICAL_SIDE ==>
            r.pixel_at(i) == blend_pixel(block.pixel_at(i), overlay.pixel_at(i)),
{
    let len: usize = block.data.len();
    let mut out: Vec<u8> = Vec::new();
    let mut p: usize = 0;
    while p * 4 < len
        invariant
            block.is_canonical(),
            overlay.is_canonical(),
            len == block.data@.len(),
            p * 4 <= len,
            out@.len() == p * 4,
            out@ == blend_bytes(block.data@, overlay.data@).take(4 * p),
        decreases len - p * 4,
    {
        let b = Pixel {
            red: block.data[p * 4],
            green: block.data[p * 4 + 1],
            blue: block.data[p * 4 + 2],
            alpha: block.data[p * 4 + 3],
        };
        let o = Pixel {
            red: overlay.data[p * 4],
            green: overlay.data[p * 4 + 1],
            blue: overlay.data[p * 4 + 2],
            alpha: overlay.data[p * 4 + 3],
        };
        let m = average_pixel(b, o);
        out.push(m.red);
        out.push(m.green);
        out.push(m.blue);
        out.push(m.alpha);
        p = p + 1;
        proof {
            assert(out@ =~= blend_bytes(block.data@, overlay.data@).take(4 * p));
        }
    }
    proof {
        assert(p * 4 == len);
        assert(out@ =~= blend_bytes(block.data@, overlay.data@));
    }
    let r = Texture { width: block.width, height: block.height, data: out };
    proof {
        assert forall|i: int| 0 <= i < CANONICAL_SIDE * CANONICAL_SIDE implies
            r.pixel_at(i) == blend_pixel(block.pixel_at(i), overlay.pixel_at(i)) by {
            assert((4 * i) % 4 == 0 && (4 * i + 1) % 4 == 1 && (4 * i + 2) % 4 == 2
                && (4 * i + 3) % 4 == 3) by (nonlinear_arith);
        }
    }
    r
}

} // verus!
