//! The error taxonomy of the pipeline.

use vstd::prelude::*;

verus! {

/// What can go wrong in the library's part of a run.
///
/// `Archive` covers an unreadable or corrupt archive (open, or an entry
/// that does not decompress); `ImageDecode` covers an unreadable raster
/// input, whether the overlay picture or a block texture.  Filesystem
/// failures and a cancelled dialog belong to the front end, which reports
/// them to the orchestration machine as a failed step or a cancellation.
#[derive(Clone, Copy, Debug, PartialEq, Eq, Structural)]
pub enum PackError {
    Archive,
    ImageDecode,
}

} // verus!
