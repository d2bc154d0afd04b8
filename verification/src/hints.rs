//! Best-guess default directories used only to pre-seed the file dialogs.
//!
//! Which subdirectory the game keeps its versions in depends on the
//! platform; the front end supplies the platform and the user's base
//! directories as plain bytes, and a missing base yields an empty hint,
//! never an error.

use vstd::prelude::*;
use vstd::utf8::encode_utf8;

verus! {

/// The platforms the directory guesses distinguish.
#[derive(Clone, Copy, Debug, PartialEq, Eq, Structural)]
pub enum Platform {
    Windows,
    Linux,
    MacOs,
    Other,
}

/// The view of an optional byte path.
pub open spec fn opt_bytes(o: Option<Vec<u8>>) -> Option<Seq<u8>> {
    match o {
        Some(v) => Some(v@),
        None => None,
    }
}

/// The guessed game-versions directory: the platform's base directory with
/// the platform's version-folder suffix appended, or empty when the base is
/// unknown.
pub open spec fn minecraft_dir_hint_spec(
    platform: Platform,
    config_dir: Option<Seq<u8>>,
    home_dir: Option<Seq<u8>>,
) -> Seq<u8> {
    match platform {
        Platform::Windows => match config_dir {
            Some(c) => c + encode_utf8("\\.minecraft\\versions"@),
            None => Seq::empty(),
        },
        Platform::Linux => match home_dir {
            Some(h) => h + encode_utf8("/.minecraft/versions"@),
            None => Seq::empty(),
        },
        Platform::MacOs => match config_dir {
            Some(c) => c + encode_utf8("/minecraft/versions"@),
            None => Seq::empty(),
        },
        Platform::Other => Seq::empty(),
    }
}

/// Guesses where the game keeps its version folders on the given platform,
/// from the user's configuration and home directories.
pub fn minecraft_dir_hint(
    platform: Platform,
    config_dir: Option<Vec<u8>>,
    home_dir: Option<Vec<u8>>,
) -> (r: Vec<u8>)
    ensures
        r@ == minecraft_dir_hint_spec(platform, opt_bytes(config_dir), opt_bytes(home_dir)),
{
    match platform {
        Platform::Windows => match config_dir {
            Some(mut c) => {
                c.extend_from_slice("\\.minecraft\\versions".as_bytes());
                c
            },
            None => Vec::new(),
        },
        Platform::Linux => match home_dir {
            Some(mut h) => {
                h.extend_from_slice("/.minecraft/versions".as_bytes());
                h
            },
            None => Vec::new(),
        },
        Platform::MacOs => match config_dir {
            Some(mut c) => {
                c.extend_from_slice("/minecraft/versions".as_bytes());
                c
            },
            None => Vec::new(),
        },
        Platform::Other => Vec::new(),
    }
}

/// The guessed pictures directory: the user's pictures directory as it was
/// given, or empty when it is unknown.
pub open spec fn pictures_dir_hint_spec(pictures_dir: Option<Seq<u8>>) -> Seq<u8> {
    match pictures_dir {
        Some(p) => p,
        None => Seq::empty(),
    }
}

/// Guesses where the user's pictures live; absence is an empty hint.
pub fn pictures_dir_hint(pictures_dir: Option<Vec<u8>>) -> (r: Vec<u8>)
    ensures
        r@ == pictures_dir_hint_spec(opt_bytes(pictures_dir)),
{
    match pictures_dir {
        Some(p) => p,
        None => Vec::new(),
    }
}

} // verus!
