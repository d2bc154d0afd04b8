//! Trusted wrappers over the `image` crate: decoding bytes to RGBA,
//! resampling to the canonical resolution, and PNG encoding.
//!
//! Each result is a function of the wrapper's arguments alone, so it is
//! given a name that the callers' contracts speak of exactly.

use vstd::prelude::*;
use crate::texture::Texture;

verus! {

/// The `image` crate's error type, carried through opaquely.
#[verifier::external_type_specification]
#[verifier::external_body]
pub struct ExImageError(image::ImageError);

/// What decoding a byte buffer to an RGBA image yields: `None` when the
/// bytes are no readable raster image, otherwise the width, the height and
/// the flat RGBA buffer.
pub uninterp spec fn image_rgba(bytes: Seq<u8>) -> Option<(u32, u32, Seq<u8>)>;

/// What resampling an RGBA buffer of the given dimensions to 128 by 128
/// with the nearest-neighbour filter yields.
pub uninterp spec fn nearest128(width: u32, height: u32, data: Seq<u8>) -> Seq<u8>;

/// What resampling an RGBA buffer of the given dimensions to 128 by 128
/// with the smooth box filter yields.
pub uninterp spec fn smooth128(width: u32, height: u32, data: Seq<u8>) -> Seq<u8>;

/// What PNG-encoding a 128 by 128 RGBA buffer yields.
pub uninterp spec fn png128(data: Seq<u8>) -> Seq<u8>;

/// Relies on `image::load_from_memory` and `DynamicImage::to_rgba8`: the
/// guessed-format decode of a byte buffer, converted to RGBA, depends on
/// the bytes alone; the buffer of an RGBA image holds four bytes per pixel.
#[verifier::external_body]
pub(crate) fn decode_rgba(bytes: &Vec<u8>) -> (r: Result<Texture, image::ImageError>)
    ensures
        r is Ok <==> image_rgba(bytes@) is Some,
        r matches Ok(t) ==> {
            &&& t.width == (image_rgba(bytes@)->Some_0).0
            &&& t.height == (image_rgba(bytes@)->Some_0).1
            &&& t.data@ == (image_rgba(bytes@)->Some_0).2
            &&& t.wf()
        },
{
    match image::load_from_memory(bytes.as_slice()) {
        Ok(img) => {
            let rgba = img.to_rgba8();
            let width = rgba.width();
            let height = rgba.height();
            Ok(Texture { width, height, data: rgba.into_raw() })
        },
        Err(e) => Err(e),
    }
}

/// Relies on `image::imageops::resize` with the nearest-neighbour filter:
/// the result has exactly the requested dimensions and depends on the
/// source buffer and dimensions alone.
#[verifier::external_body]
pub(crate) fn resample_nearest_128(t: &Texture) -> (r: Texture)
    requires
        t.wf(),
        t.width > 0,
        t.height > 0,
    ensures
        r.is_canonical(),
        r.data@ == nearest128(t.width, t.height, t.data@),
{
    let img = image::RgbaImage::from_raw(t.width, t.height, t.data.clone()).unwrap();
    let out = image::imageops::resize(&img, 128, 128, image::imageops::FilterType::Nearest);
    Texture { width: 128, height: 128, data: out.into_raw() }
}

/// Relies on `image::imageops::thumbnail`, the fast integer box filter that
/// the `image` crate uses for smooth exact-size thumbnails: the result has
/// exactly the requested dimensions and depends on the source buffer and
/// dimensions alone.
#[verifier::external_body]
pub(crate) fn resample_smooth_128(t: &Texture) -> (r: Texture)
    requires
        t.wf(),
        t.width > 0,
        t.height > 0,
    ensures
        r.is_canonical(),
        r.data@ == smooth128(t.width, t.height, t.data@),
{
    let img = image::RgbaImage::from_raw(t.width, t.height, t.data.clone()).unwrap();
    let out = image::imageops::thumbnail(&img, 128, 128);
    Texture { width: 128, height: 128, data: out.into_raw() }
}

/// Relies on `ImageBuffer::write_to` with the PNG format: encoding a
/// well-formed RGBA buffer to an in-memory PNG depends on the buffer alone
/// and does not fail for the fixed 128 by 128 dimensions.
#[verifier::external_body]
pub(crate) fn encode_png_128(t: &Texture) -> (r: Vec<u8>)
    requires
        t.is_canonical(),
    ensures
        r@ == png128(t.data@),
{
    let img = image::RgbaImage::from_raw(t.width, t.height, t.data.clone()).unwrap();
    let mut cursor = std::io::Cursor::new(Vec::new());
    img.write_to(&mut cursor, image::ImageFormat::Png).unwrap();
    cursor.into_inner()
}

} // verus!
