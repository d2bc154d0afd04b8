//! Which archive entries are block textures, and which are metadata
//! sidecars.
//!
//! A block texture is a regular file directly inside the fixed texture
//! directory; deeper files and subdirectories are not traversed.  A file
//! whose name holds the sidecar marker is skipped.

use vstd::prelude::*;
use vstd::utf8::encode_utf8;

verus! {

/// The fixed directory, inside the archive, that block textures live in.
pub open spec fn texture_dir_prefix() -> Seq<u8> {
    encode_utf8("assets/minecraft/textures/block/"@)
}

/// The marker that names a metadata sidecar rather than an image.
pub open spec fn sidecar_marker() -> Seq<u8> {
    encode_utf8(".mcmeta"@)
}

/// `pat` occurs in `s` starting at position `i`.
pub open spec fn matches_at(s: Seq<u8>, i: int, pat: Seq<u8>) -> bool {
    &&& 0 <= i
    &&& i + pat.len() <= s.len()
    &&& s.subrange(i, i + pat.len()) == pat
}

/// `pat` occurs somewhere in `s`.
pub open spec fn contains_seq(s: Seq<u8>, pat: Seq<u8>) -> bool {
    exists|i: int| matches_at(s, i, pat)
}

/// The entry's file name: what follows the fixed directory prefix.
pub open spec fn file_name_of(name: Seq<u8>) -> Seq<u8> {
    name.skip(texture_dir_prefix().len() as int)
}

/// The entry is a regular file directly inside the texture directory: it
/// carries the prefix, has a non-empty remainder, and the remainder holds
/// no further path separator.
pub open spec fn in_texture_dir(name: Seq<u8>, is_dir: bool) -> bool {
    &&& !is_dir
    &&& name.len() > texture_dir_prefix().len()
    &&& name.take(texture_dir_prefix().len() as int) == texture_dir_prefix()
    &&& forall|i: int| texture_dir_prefix().len() <= i < name.len() ==> name[i] != ('/' as u8)
}

/// The entry is a block texture to be blended: directly inside the texture
/// directory, and no metadata sidecar.
pub open spec fn is_selected(name: Seq<u8>, is_dir: bool) -> bool {
    &&& in_texture_dir(name, is_dir)
    &&& !contains_seq(file_name_of(name), sidecar_marker())
}

/// Returns the fixed texture directory prefix as bytes.
pub fn texture_dir_prefix_bytes() -> (r: Vec<u8>)
    ensures
        r@ == texture_dir_prefix(),
{
    let mut v: Vec<u8> = Vec::new();
    v.extend_from_slice("assets/minecraft/textures/block/".as_bytes());
    v
}

/// Returns the sidecar marker as bytes.
pub fn sidecar_marker_bytes() -> (r: Vec<u8>)
    ensures
        r@ == sidecar_marker(),
{
    let mut v: Vec<u8> = Vec::new();
    v.extend_from_slice(".mcmeta".as_bytes());
    v
}

/// Whether `pat` occurs in `hay` starting at `i`.
fn matches_at_exec(hay: &Vec<u8>, i: usize, pat: &Vec<u8>) -> (r: bool)
    requires
        i + pat@.len() <= hay@.len(),
    ensures
        r == matches_at(hay@, i as int, pat@),
{
    let hay_len = hay.len();
    let mut k: usize = 0;
    while k < pat.len()
        invariant
            i + pat@.len() <= hay@.len(),
            hay_len == hay@.len(),
            k <= pat@.len(),
            forall|m: int| 0 <= m < k ==> hay@[i + m] == pat@[m],
        decreases pat@.len() - k,
    {
        if hay[i + k] != pat[k] {
            proof {
                assert(hay@.subrange(i as int, i + pat@.len())[k as int] != pat@[k as int]);
            }
            return false;
        }
        k = k + 1;
    }
    proof {
        assert(hay@.subrange(i as int, i + pat@.len()) =~= pat@);
    }
    true
}

/// Whether `pat` occurs anywhere in `hay`.
pub fn contains_bytes(hay: &Vec<u8>, pat: &Vec<u8>) -> (r: bool)
    ensures
        r == contains_seq(hay@, pat@),
{
    if pat.len() > hay.len() {
        return false;
    }
    if pat.len() == 0 {
        proof {
            assert(matches_at(hay@, 0, pat@)) by {
                assert(hay@.subrange(0, 0) =~= pat@);
            }
        }
        return true;
    }
    let count: usize = hay.len() - pat.len() + 1;
    let mut i: usize = 0;
    while i < count
        invariant
            1 <= pat@.len() <= hay@.len(),
            count == hay@.len() - pat@.len() + 1,
            i <= count,
            forall|j: int| 0 <= j < i ==> !matches_at(hay@, j, pat@),
        decreases count - i,
    {
        if matches_at_exec(hay, i, pat) {
            proof {
                assert(matches_at(hay@, i as int, pat@));
            }
            return true;
        }
        i = i + 1;
    }
    proof {
        assert forall|j: int| !matches_at(hay@, j, pat@) by {
            if 0 <= j < count {
                assert(!matches_at(hay@, j, pat@));
            }
        }
    }
    false
}

/// Copies the bytes of `v` from `start` on.
pub fn suffix_bytes(v: &Vec<u8>, start: usize) -> (r: Vec<u8>)
    requires
        start <= v@.len(),
    ensures
        r@ == v@.skip(start as int),
{
    let mut out: Vec<u8> = Vec::new();
    let mut k: usize = start;
    while k < v.len()
        invariant
            start <= k <= v@.len(),
            out@ == v@.subrange(start as int, k as int),
        decreases v@.len() - k,
    {
        out.push(v[k]);
        k = k + 1;
        proof {
            assert(out@ =~= v@.subrange(start as int, k as int));
        }
    }
    proof {
        assert(out@ =~= v@.skip(start as int));
    }
    out
}

/// Whether the named entry is a block texture to be blended.
pub fn entry_selected(name: &Vec<u8>, is_dir: bool) -> (r: bool)
    ensures
        r == is_selected(name@, is_dir),
{
    if is_dir {
        return false;
    }
    let prefix = texture_dir_prefix_bytes();
    if name.len() <= prefix.len() {
        return false;
    }
    if !matches_at_exec(name, 0, &prefix) {
        proof {
            assert(name@.take(prefix@.len() as int) =~= name@.subrange(0, prefix@.len() as int));
        }
        return false;
    }
    proof {
        assert(name@.take(prefix@.len() as int) =~= name@.subrange(0, prefix@.len() as int));
    }
    let mut i: usize = prefix.len();
    while i < name.len()
        invariant
            prefix@ == texture_dir_prefix(),
            prefix@.len() <= i <= name@.len(),
            forall|j: int| prefix@.len() <= j < i ==> name@[j] != ('/' as u8),
        decreases name@.len() - i,
    {
        if name[i] == ('/' as u8) {
            return false;
        }
        i = i + 1;
    }
    let rest = suffix_bytes(name, prefix.len());
    let marker = sidecar_marker_bytes();
    !contains_bytes(&rest, &marker)
}

} // verus!
