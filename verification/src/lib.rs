//! A verified core for a block-texture overlay tool.
//!
//! The library turns a zip-format resource archive and a user-chosen picture
//! into a set of blended block textures plus a fixed pack manifest.  All
//! decisions and arithmetic live here, verified; decoding, resampling and
//! encoding of images and the parsing of the archive go through small trusted
//! wrappers over the `image` and `zip` crates.  Dialogs and file I/O are left
//! to an unverified front end, which drives the orchestration state machine
//! in [`pipeline`].

pub mod archive;
pub mod engine;
pub mod errors;
pub mod hints;
pub mod layout;
pub mod manifest;
pub mod pipeline;
pub mod pixel;
pub mod raster;
pub mod texture;
