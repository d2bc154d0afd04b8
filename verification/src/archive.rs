//! Reading a zip-format archive held in memory into plain entries.
//!
//! The parse itself goes through trusted wrappers over the `zip` crate;
//! the loop that collects the entries, and everything said about when
//! reading succeeds, is verified.

use vstd::prelude::*;
use crate::errors::PackError;

verus! {

/// A cursor over an owned byte buffer, the reader the archive is opened on.
#[verifier::external_type_specification]
#[verifier::external_body]
#[verifier::reject_recursive_types(T)]
pub struct ExCursor<T>(std::io::Cursor<T>);

/// The `zip` crate's parsed archive.
#[verifier::external_type_specification]
#[verifier::external_body]
#[verifier::reject_recursive_types(R)]
pub struct ExZipArchive<R>(zip::ZipArchive<R>);

/// The `zip` crate's error type, carried through opaquely.
#[verifier::external_type_specification]
#[verifier::external_body]
pub struct ExZipError(zip::result::ZipError);

/// The model of one archive entry: its path as bytes, its decompressed
/// bytes (`None` for an entry that cannot be decompressed), and whether it
/// is a directory entry.
pub type EntryModel = (Seq<u8>, Option<Seq<u8>>, bool);

/// What parsing a byte buffer as a zip archive yields: `None` when the
/// central directory is no valid archive, otherwise the entries in
/// directory order.
pub uninterp spec fn zip_parse(bytes: Seq<u8>) -> Option<Seq<EntryModel>>;

/// The entries a parsed archive holds.
pub uninterp spec fn archive_entries(a: zip::ZipArchive<std::io::Cursor<Vec<u8>>>) -> Seq<EntryModel>;

/// One extracted entry as plain values.
#[derive(Debug)]
pub struct ArchiveEntry {
    pub name: Vec<u8>,
    pub data: Vec<u8>,
    pub is_dir: bool,
}

/// The model of an entry that was read in full.
pub open spec fn entry_model(e: ArchiveEntry) -> EntryModel {
    (e.name@, Some(e.data@), e.is_dir)
}

/// The models of a sequence of read entries.
pub open spec fn models_of(es: Seq<ArchiveEntry>) -> Seq<EntryModel> {
    Seq::new(es.len(), |j: int| entry_model(es[j]))
}

/// Every entry of the parsed archive can be decompressed.
pub open spec fn all_entries_readable(es: Seq<EntryModel>) -> bool {
    forall|j: int| 0 <= j < es.len() ==> es[j].1 is Some
}

/// The bytes are a well-formed archive whose every entry can be read.
pub open spec fn archive_ok(bytes: Seq<u8>) -> bool {
    &&& zip_parse(bytes) is Some
    &&& all_entries_readable(zip_parse(bytes)->Some_0)
}

/// Relies on `zip::ZipArchive::new`: reading the central directory of an
/// in-memory buffer succeeds exactly when the buffer is a valid archive,
/// and what the archive then holds depends on the bytes alone.
#[verifier::external_body]
fn open_archive(bytes: &Vec<u8>) -> (r: Result<zip::ZipArchive<std::io::Cursor<Vec<u8>>>, zip::result::ZipError>)
    ensures
        r is Ok <==> zip_parse(bytes@) is Some,
        r matches Ok(a) ==> archive_entries(a) == zip_parse(bytes@)->Some_0,
{
    zip::ZipArchive::new(std::io::Cursor::new(bytes.clone()))
}

/// Relies on `zip::ZipArchive::len`: the number of entries of the archive.
#[verifier::external_body]
fn archive_len(a: &zip::ZipArchive<std::io::Cursor<Vec<u8>>>) -> (n: usize)
    ensures
        n == archive_entries(*a).len(),
{
    a.len()
}

/// Relies on `zip::ZipArchive::by_index` and the entry's `name`, `is_dir`
/// and `Read::read_to_end`: reading entry `i` yields its path, its
/// decompressed bytes and its directory flag, succeeds exactly when the
/// entry decompresses, and leaves the archive's contents as they were.
#[verifier::external_body]
fn read_entry(a: &mut zip::ZipArchive<std::io::Cursor<Vec<u8>>>, i: usize) -> (r: Result<ArchiveEntry, zip::result::ZipError>)
    requires
        i < archive_entries(*old(a)).len(),
    ensures
        archive_entries(*final(a)) == archive_entries(*old(a)),
        r is Ok <==> archive_entries(*old(a))[i as int].1 is Some,
        r matches Ok(e) ==> {
            &&& e.name@ == archive_entries(*old(a))[i as int].0
            &&& Some(e.data@) == archive_entries(*old(a))[i as int].1
            &&& e.is_dir == archive_entries(*old(a))[i as int].2
        },
{
    let mut file = a.by_index(i)?;
    let name = file.name().as_bytes().to_vec();
    let is_dir = file.is_dir();
    let mut data = Vec::new();
    std::io::Read::read_to_end(&mut file, &mut data).map_err(zip::result::ZipError::from)?;
    Ok(ArchiveEntry { name, data, is_dir })
}

/// Reads every entry of the archive held in `bytes`.
///
/// Succeeds exactly when the bytes are a valid archive whose every entry
/// decompresses; the result then models the archive's entries in order.
/// Any failure, of the open or of an entry, is an archive error.
pub fn read_archive(bytes: &Vec<u8>) -> (r: Result<Vec<ArchiveEntry>, PackError>)
    ensures
        r is Ok <==> archive_ok(bytes@),
        r matches Ok(es) ==> models_of(es@) == zip_parse(bytes@)->Some_0,
        r matches Err(e) ==> e == PackError::Archive,
{
    let mut archive = match open_archive(bytes) {
        Ok(a) => a,
        Err(_) => {
            return Err(PackError::Archive);
        },
    };
    let n = archive_len(&archive);
    let mut out: Vec<ArchiveEntry> = Vec::new();
    let mut i: usize = 0;
    while i < n
        invariant
            archive_entries(archive) == zip_parse(bytes@)->Some_0,
            n == archive_entries(archive).len(),
            i <= n,
            out@.len() == i,
            models_of(out@) == (zip_parse(bytes@)->Some_0).take(i as int),
        decreases n - i,
    {
        match read_entry(&mut archive, i) {
            Ok(e) => {
                out.push(e);
            },
            Err(_) => {
                proof {
                    assert(!all_entries_readable(zip_parse(bytes@)->Some_0));
                }
                return Err(PackError::Archive);
            },
        }
        i = i + 1;
        proof {
            assert(models_of(out@) =~= (zip_parse(bytes@)->Some_0).take(i as int));
        }
    }
    proof {
        assert(models_of(out@) =~= zip_parse(bytes@)->Some_0);
        assert forall|j: int| 0 <= j < (zip_parse(bytes@)->Some_0).len()
            implies (zip_parse(bytes@)->Some_0)[j].1 is Some by {
            assert((zip_parse(bytes@)->Some_0)[j] == entry_model(out@[j]));
        }
    }
    Ok(out)
}

} // verus!
