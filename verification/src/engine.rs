//! The texture overlay engine: one blended output image per block texture
//! of the archive, all against the one resampled overlay picture.

use vstd::prelude::*;
use crate::archive::{ArchiveEntry, EntryModel, archive_ok, models_of, read_archive, zip_parse};
use crate::errors::PackError;
use crate::layout::{entry_selected, file_name_of, is_selected, suffix_bytes, texture_dir_prefix,
    texture_dir_prefix_bytes};
use crate::manifest::{manifest_text, pack_manifest};
use crate::raster::{decode_rgba, encode_png_128, image_rgba, nearest128, png128,
    resample_nearest_128, resample_smooth_128, smooth128};
use crate::texture::{Texture, blend_bytes, blend_texture};

verus! {

/// One output image: the source texture's bare file name and the blended
/// picture as PNG bytes.
#[derive(Debug)]
pub struct BlendedAsset {
    pub name: Vec<u8>,
    pub png: Vec<u8>,
}

/// The views of a sequence of blended assets.
pub open spec fn asset_views(s: Seq<BlendedAsset>) -> Seq<(Seq<u8>, Seq<u8>)> {
    Seq::new(s.len(), |i: int| (s[i].name@, s[i].png@))
}

/// The bytes decode to a usable raster image: a readable format with
/// positive dimensions.
pub open spec fn decodes_to_texture(bytes: Seq<u8>) -> bool {
    &&& image_rgba(bytes) is Some
    &&& (image_rgba(bytes)->Some_0).0 > 0
    &&& (image_rgba(bytes)->Some_0).1 > 0
}

/// The PNG bytes of one blended texture: the source decoded, brought to the
/// canonical size with the nearest-neighbour filter, and blended against
/// the already-resampled overlay buffer.
pub open spec fn blended_png(data: Seq<u8>, overlay128: Seq<u8>) -> Seq<u8> {
    png128(blend_bytes(
        nearest128((image_rgba(data)->Some_0).0, (image_rgba(data)->Some_0).1,
            (image_rgba(data)->Some_0).2),
        overlay128,
    ))
}

/// The outputs of a run over the given entries: one named PNG per selected
/// entry, in entry order; `None` when some selected entry does not decode.
pub open spec fn outputs_spec(es: Seq<EntryModel>, overlay128: Seq<u8>) -> Option<Seq<(Seq<u8>, Seq<u8>)>>
    decreases es.len(),
{
    if es.len() == 0 {
        Some(Seq::empty())
    } else {
        let rest = outputs_spec(es.drop_last(), overlay128);
        let last = es.last();
        if !is_selected(last.0, last.2) {
            rest
        } else if !decodes_to_texture(last.1->Some_0) {
            None::<Seq<(Seq<u8>, Seq<u8>)>>
        } else {
            match rest {
                Some(s) => Some(s.push((file_name_of(last.0), blended_png(last.1->Some_0, overlay128)))),
                None => None,
            }
        }
    }
}

/// If some selected entry of `es` does not decode, the run over `es` has no
/// outputs.
proof fn lemma_outputs_none(es: Seq<EntryModel>, overlay128: Seq<u8>, i: int)
    requires
        0 <= i < es.len(),
        is_selected(es[i].0, es[i].2),
        !decodes_to_texture(es[i].1->Some_0),
    ensures
        outputs_spec(es, overlay128) is None,
    decreases es.len(),
{
    if i == es.len() - 1 {
    } else {
        lemma_outputs_none(es.drop_last(), overlay128, i);
    }
}

/// Decodes the overlay picture and brings it to the canonical size with the
/// smooth filter, once for the whole run.
///
/// Succeeds exactly when the bytes are a usable raster image; the failure
/// is a decode error.
pub fn prepare_overlay(image_bytes: &Vec<u8>) -> (r: Result<Texture, PackError>)
    ensures
        r is Ok <==> decodes_to_texture(image_bytes@),
        r matches Ok(t) ==> {
            &&& t.is_canonical()
            &&& t.data@ == smooth128((image_rgba(image_bytes@)->Some_0).0,
                (image_rgba(image_bytes@)->Some_0).1, (image_rgba(image_bytes@)->Some_0).2)
        },
        r matches Err(e) ==> e == PackError::ImageDecode,
{
    let decoded = match decode_rgba(image_bytes) {
        Ok(t) => t,
        Err(_) => {
            return Err(PackError::ImageDecode);
        },
    };
    if decoded.width == 0 || decoded.height == 0 {
        return Err(PackError::ImageDecode);
    }
    Ok(resample_smooth_128(&decoded))
}

/// Blends one block texture against the already-resampled overlay.
///
/// The source is decoded, brought to the canonical size with the
/// nearest-neighbour filter, and blended pixel by pixel; the result always
/// has the canonical 128 by 128 dimensions, whatever the source's were.
/// Succeeds exactly when the source bytes are a usable raster image.
pub fn blend_block_texture(data: &Vec<u8>, overlay: &Texture) -> (r: Result<Texture, PackError>)
    requires
        overlay.is_canonical(),
    ensures
        r is Ok <==> decodes_to_texture(data@),
        r matches Ok(t) ==> {
            &&& t.is_canonical()
            &&& t.data@ == blend_bytes(
                nearest128((image_rgba(data@)->Some_0).0, (image_rgba(data@)->Some_0).1,
                    (image_rgba(data@)->Some_0).2),
                overlay.data@,
            )
        },
        r matches Err(e) ==> e == PackError::ImageDecode,
{
    let decoded = match decode_rgba(data) {
        Ok(t) => t,
        Err(_) => {
            return Err(PackError::ImageDecode);
        },
    };
    if decoded.width == 0 || decoded.height == 0 {
        return Err(PackError::ImageDecode);
    }
    let resized = resample_nearest_128(&decoded);
    Ok(blend_texture(&resized, overlay))
}

/// Blends every selected entry, in entry order, against the one overlay.
///
/// Succeeds exactly when every selected entry decodes; the failure is a
/// decode error, as the first undecodable texture aborts the run.
pub fn blend_textures(entries: &Vec<ArchiveEntry>, overlay: &Texture) -> (r: Result<Vec<BlendedAsset>, PackError>)
    requires
        overlay.is_canonical(),
    ensures
        r is Ok <==> outputs_spec(models_of(entries@), overlay.data@) is Some,
        r matches Ok(assets) ==> asset_views(assets@) == outputs_spec(models_of(entries@), overlay.data@)->Some_0,
        r matches Err(e) ==> e == PackError::ImageDecode,
{
    let prefix = texture_dir_prefix_bytes();
    let mut out: Vec<BlendedAsset> = Vec::new();
    let mut i: usize = 0;
    let n = entries.len();
    while i < n
        invariant
            overlay.is_canonical(),
            n == entries@.len(),
            i <= n,
            prefix@ == texture_dir_prefix(),
            outputs_spec(models_of(entries@).take(i as int), overlay.data@)
                == Some(asset_views(out@)),
        decreases n - i,
    {
        let ghost pre = models_of(entries@).take(i as int);
        let ghost cur = models_of(entries@).take(i + 1);
        proof {
            assert(cur.drop_last() =~= pre);
            assert(cur.last() == entry_model_at(entries@, i as int));
        }
        let e = &entries[i];
        if entry_selected(&e.name, e.is_dir) {
            match blend_block_texture(&e.data, overlay) {
                Ok(blended) => {
                    let png = encode_png_128(&blended);
                    let name = suffix_bytes(&e.name, prefix.len());
                    out.push(BlendedAsset { name, png });
                    proof {
                        assert(asset_views(out@) =~= outputs_spec(cur, overlay.data@)->Some_0);
                    }
                },
                Err(_) => {
                    proof {
                        lemma_outputs_none(models_of(entries@), overlay.data@, i as int);
                    }
                    return Err(PackError::ImageDecode);
                },
            }
        }
        i = i + 1;
    }
    proof {
        assert(models_of(entries@).take(n as int) =~= models_of(entries@));
    }
    Ok(out)
}

/// The model of entry `i` of a read archive.
pub open spec fn entry_model_at(es: Seq<ArchiveEntry>, i: int) -> EntryModel {
    (es[i].name@, Some(es[i].data@), es[i].is_dir)
}

/// Everything a successful run writes: the fixed manifest and the blended
/// assets.
#[derive(Debug)]
pub struct PackOutput {
    pub manifest: String,
    pub assets: Vec<BlendedAsset>,
}

/// The overlay buffer a run uses: the picture decoded and brought to the
/// canonical size with the smooth filter, once per run.
pub open spec fn overlay_ready(image_bytes: Seq<u8>) -> Seq<u8> {
    smooth128((image_rgba(image_bytes)->Some_0).0, (image_rgba(image_bytes)->Some_0).1,
        (image_rgba(image_bytes)->Some_0).2)
}

/// Everything `run_pack` promises of its result, as one relation over the
/// two inputs.
pub open spec fn pack_post(ab: Seq<u8>, ib: Seq<u8>, r: Result<PackOutput, PackError>) -> bool {
    &&& !archive_ok(ab) ==> r == Result::<PackOutput, PackError>::Err(PackError::Archive)
    &&& archive_ok(ab) && !decodes_to_texture(ib)
        ==> r == Result::<PackOutput, PackError>::Err(PackError::ImageDecode)
    &&& archive_ok(ab) && decodes_to_texture(ib)
        && outputs_spec(zip_parse(ab)->Some_0, overlay_ready(ib)) is None
        ==> r == Result::<PackOutput, PackError>::Err(PackError::ImageDecode)
    &&& archive_ok(ab) && decodes_to_texture(ib)
        && outputs_spec(zip_parse(ab)->Some_0, overlay_ready(ib)) is Some
        ==> (r matches Ok(o) && {
            &&& o.manifest@ == manifest_text()
            &&& asset_views(o.assets@) == outputs_spec(zip_parse(ab)->Some_0, overlay_ready(ib))->Some_0
        })
}

/// Runs the whole compute of a pack over in-memory inputs: reads the
/// archive, prepares the overlay once, blends every selected texture, and
/// yields the manifest beside the assets.
///
/// An invalid archive is an archive error whatever the picture; then an
/// unusable picture, or an undecodable selected texture, is a decode error.
pub fn run_pack(archive_bytes: &Vec<u8>, image_bytes: &Vec<u8>) -> (r: Result<PackOutput, PackError>)
    ensures
        pack_post(archive_bytes@, image_bytes@, r),
{
    let entries = match read_archive(archive_bytes) {
        Ok(es) => es,
        Err(_) => {
            return Err(PackError::Archive);
        },
    };
    let overlay = match prepare_overlay(image_bytes) {
        Ok(t) => t,
        Err(_) => {
            return Err(PackError::ImageDecode);
        },
    };
    let assets = match blend_textures(&entries, &overlay) {
        Ok(a) => a,
        Err(_) => {
            return Err(PackError::ImageDecode);
        },
    };
    let manifest = pack_manifest();
    Ok(PackOutput { manifest, assets })
}

/// Two runs over the same archive and picture agree: they fail alike, or
/// both succeed with the same manifest text and byte-identical assets.
pub proof fn lemma_run_deterministic(
    ab: Seq<u8>,
    ib: Seq<u8>,
    r1: Result<PackOutput, PackError>,
    r2: Result<PackOutput, PackError>,
)
    requires
        pack_post(ab, ib, r1),
        pack_post(ab, ib, r2),
    ensures
        r1 is Ok <==> r2 is Ok,
        r1 matches Err(e1) ==> r2 matches Err(e2) && e1 == e2,
        r1 matches Ok(o1) ==> r2 matches Ok(o2) && {
            &&& o1.manifest@ == o2.manifest@
            &&& asset_views(o1.assets@) == asset_views(o2.assets@)
        },
{
}

} // verus!
