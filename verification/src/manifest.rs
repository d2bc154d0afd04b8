//! The fixed pack manifest.

use vstd::prelude::*;

verus! {

/// The exact text of the manifest file: a pack-format number and a short
/// description, in the shape the target format expects.
pub open spec fn manifest_text() -> Seq<char> {
    "{\n    \"pack\": {\n        \"pack_format\": 7,\n        \"description\": \"Automatically generated pack\"\n    }\n}"@
}

/// Returns the manifest file's content, always the same fixed text.
pub fn pack_manifest() -> (r: String)
    ensures
        r@ == manifest_text(),
{
    String::from_str("{\n    \"pack\": {\n        \"pack_format\": 7,\n        \"description\": \"Automatically generated pack\"\n    }\n}")
}

} // verus!
