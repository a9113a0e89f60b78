//! Reads the bundled wrapper distribution, a zip archive held in memory.

use vstd::prelude::*;

verus! {

/// `zip::ZipArchive`, an opened archive. Nothing inside it is visible here.
#[verifier::external_type_specification]
#[verifier::external_body]
#[verifier::reject_recursive_types(R)]
pub struct ExZipArchive<R>(zip::ZipArchive<R>);

/// `std::io::Cursor`, the in-memory reader the archive is opened on.
#[verifier::external_type_specification]
#[verifier::external_body]
#[verifier::reject_recursive_types(T)]
pub struct ExCursor<T>(std::io::Cursor<T>);

/// `zip::result::ZipError`, carried from the archive reader to where it is
/// mapped to an `ArchiveError`.
#[verifier::external_type_specification]
#[verifier::external_body]
pub struct ExZipError(zip::result::ZipError);

/// What an opened archive holds, entry by entry in directory order: the name
/// and the decompressed data of an entry, or `None` for an entry that cannot
/// be read.
pub uninterp spec fn archive_entries(
    archive: zip::ZipArchive<std::io::Cursor<Vec<u8>>>,
) -> Seq<Option<(Seq<char>, Seq<u8>)>>;

/// What `zip::ZipArchive::new` makes of the given bytes: the entries of the
/// archive, or `None` where the bytes are no zip archive.
pub uninterp spec fn zip_directory(bytes: Seq<u8>) -> Option<Seq<Option<(Seq<char>, Seq<u8>)>>>;

/// Calls `zip::ZipArchive::new` on an in-memory reader. The contract only
/// names the outcome: the entries of the opened archive are those that
/// `zip_directory` gives for the bytes, and opening fails exactly where
/// `zip_directory` is `None`.
#[verifier::external_body]
fn open_archive(bytes: Vec<u8>) -> (r: Result<
    zip::ZipArchive<std::io::Cursor<Vec<u8>>>,
    zip::result::ZipError,
>)
    ensures
        match r {
            Ok(archive) => zip_directory(bytes@) == Some(archive_entries(archive)),
            Err(_) => zip_directory(bytes@) is None,
        },
{
    zip::ZipArchive::new(std::io::Cursor::new(bytes))
}

/// Calls `zip::ZipArchive::len`: the number of entries in the archive.
#[verifier::external_body]
fn archive_len(archive: &zip::ZipArchive<std::io::Cursor<Vec<u8>>>) -> (n: usize)
    ensures
        n == archive_entries(*archive).len(),
{
    archive.len()
}

/// Calls `zip::ZipArchive::by_index`, then `ZipFile::name` and `read_to_end`
/// on the entry it returns, which borrows the archive and so cannot leave
/// this function. The contract claims that reading leaves the archive's
/// contents as they were, that a successful read yields the name and data
/// recorded for that index, and that a failure means the entry at that index
/// is one that cannot be read (or that the index is past the end).
#[verifier::external_body]
fn read_entry(archive: &mut zip::ZipArchive<std::io::Cursor<Vec<u8>>>, index: usize) -> (r: Result<
    (String, Vec<u8>),
    zip::result::ZipError,
>)
    ensures
        archive_entries(*final(archive)) == archive_entries(*old(archive)),
        match r {
            Ok((name, data)) => index < archive_entries(*old(archive)).len()
                && archive_entries(*old(archive))[index as int] == Some((name@, data@)),
            Err(_) => index < archive_entries(*old(archive)).len() ==> archive_entries(
                *old(archive),
            )[index as int] is None,
        },
{
    let mut file = archive.by_index(index)?;
    let mut data = Vec::new();
    std::io::Read::read_to_end(&mut file, &mut data)?;
    Ok((file.name().to_string(), data))
}

/// One entry of the distribution: its path inside the archive and its data.
#[derive(Debug, Clone, PartialEq, Eq)]
pub struct ArchiveEntry {
    pub name: String,
    pub data: Vec<u8>,
}

/// Why a distribution could not be read.
#[derive(Debug, Clone, Copy, PartialEq, Eq)]
pub enum ArchiveError {
    /// The bytes are not a zip archive.
    Invalid,
    /// The entry at this index is the first one that could not be read.
    Unreadable { index: usize },
}

impl View for ArchiveEntry {
    type V = (Seq<char>, Seq<u8>);

    open spec fn view(&self) -> (Seq<char>, Seq<u8>) {
        (self.name@, self.data@)
    }
}

/// The entries as plain values.
pub open spec fn entry_views(entries: Seq<ArchiveEntry>) -> Seq<(Seq<char>, Seq<u8>)> {
    entries.map_values(|e: ArchiveEntry| e@)
}

/// Whether every entry of a directory can be read.
pub open spec fn all_readable(dir: Seq<Option<(Seq<char>, Seq<u8>)>>) -> bool {
    forall|i: int| 0 <= i < dir.len() ==> (#[trigger] dir[i]) is Some
}

/// The names and data of a directory whose entries can all be read.
pub open spec fn contents(dir: Seq<Option<(Seq<char>, Seq<u8>)>>) -> Seq<(Seq<char>, Seq<u8>)> {
    dir.map_values(|e: Option<(Seq<char>, Seq<u8>)>| e->0)
}

/// Whether `index` is the first entry of a directory that cannot be read.
pub open spec fn first_unreadable(dir: Seq<Option<(Seq<char>, Seq<u8>)>>, index: int) -> bool {
    &&& 0 <= index < dir.len()
    &&& dir[index] is None
    &&& forall|j: int| 0 <= j < index ==> (#[trigger] dir[j]) is Some
}

/// Reads every entry of a zip archive held in memory, in directory order.
/// Succeeds exactly when the bytes are an archive whose entries can all be
/// read; otherwise says whether the archive or which entry was at fault.
pub fn read_archive(bytes: Vec<u8>) -> (r: Result<Vec<ArchiveEntry>, ArchiveError>)
    ensures
        match r {
            Ok(entries) => zip_directory(bytes@) matches Some(dir) && all_readable(dir)
                && entry_views(entries@) == contents(dir),
            Err(ArchiveError::Invalid) => zip_directory(bytes@) is None,
            Err(ArchiveError::Unreadable { index }) => zip_directory(bytes@) matches Some(dir)
                && first_unreadable(dir, index as int),
        },
{
    let mut archive = match open_archive(bytes) {
        Ok(archive) => archive,
        Err(_) => {
            return Err(ArchiveError::Invalid);
        },
    };
    let ghost dir = archive_entries(archive);
    let count = archive_len(&archive);
    let mut entries: Vec<ArchiveEntry> = Vec::new();
    let mut index: usize = 0;
    while index < count
        invariant
            zip_directory(bytes@) == Some(dir),
            archive_entries(archive) == dir,
            count == dir.len(),
            index <= count,
            entries@.len() == index,
            forall|j: int| 0 <= j < index ==> (#[trigger] dir[j]) == Some(entries@[j]@),
        decreases count - index,
    {
        match read_entry(&mut archive, index) {
            Ok((name, data)) => {
                entries.push(ArchiveEntry { name, data });
            },
            Err(_) => {
                return Err(ArchiveError::Unreadable { index });
            },
        }
        index += 1;
    }
    assert(entry_views(entries@) =~= contents(dir));
    Ok(entries)
}

} // verus!
