//! Archive installation: reading a downloaded zip archive and planning
//! the filesystem actions that extract every entry under a destination
//! root.
//!
//! The zip crate parses the archive's bytes; the library turns each
//! entry into exactly one action — create a directory, or create the
//! parent directories and write a file — in the archive's own order.
//! The binary performs the actions.

use vstd::prelude::*;
use std::io::Cursor;
use crate::bytes_util::append_bytes;
use crate::bytes_util::prefix_bytes;

verus! {

/// Why an archive could not be read.
#[derive(Clone, Copy, PartialEq, Eq, Structural, Debug)]
pub enum ArchiveError {
    /// The bytes could not be opened as a zip archive.
    NotAnArchive,
    /// An entry could not be read or decompressed.
    EntryUnreadable,
}

/// Relies on the zip crate's archive reader type; its values are
/// opaque here and are read only through the functions below.
#[verifier::external_type_specification]
#[verifier::external_body]
#[verifier::reject_recursive_types(R)]
pub struct ExZipArchive<R>(zip::read::ZipArchive<R>);

/// Relies on std::io::Cursor, the in-memory reader the archive is
/// opened over.
#[verifier::external_type_specification]
#[verifier::external_body]
#[verifier::reject_recursive_types(T)]
pub struct ExCursor<T>(Cursor<T>);

/// The entries a zip archive's bytes encode, in the archive's internal
/// order, or nothing when the bytes do not open as a zip archive.  Each
/// entry is its name (as UTF-8 bytes) and its decompressed contents, or
/// nothing when the entry cannot be read (encrypted, an unsupported
/// method, corrupt data).  Both are functions of the bytes alone; what
/// they are for given bytes only the zip format fixes, and the
/// contracts below state everything callers rely on.
pub uninterp spec fn zip_entries(bytes: Seq<u8>) -> Option<Seq<Option<(Seq<u8>, Seq<u8>)>>>;

/// What an opened archive holds: for each entry its name and its
/// decompressed contents, in the archive's internal order, or nothing
/// for an entry that cannot be read.
pub uninterp spec fn zip_contents(a: zip::read::ZipArchive<Cursor<Vec<u8>>>) -> Seq<Option<(Seq<u8>, Seq<u8>)>>;

/// Whether every entry of a parsed archive is readable.
pub open spec fn all_entries_readable(entries: Seq<Option<(Seq<u8>, Seq<u8>)>>) -> bool {
    forall|i: int| 0 <= i < entries.len() ==> entries[i] is Some
}

/// Relies on zip::read::ZipArchive::new: opening an in-memory reader
/// over the given bytes parses deterministically, succeeds exactly when
/// the bytes encode a zip archive, and yields an archive holding the
/// entries those bytes encode.
#[verifier::external_body]
fn open_zip(bytes: Vec<u8>) -> (r: Result<zip::read::ZipArchive<Cursor<Vec<u8>>>, ArchiveError>)
    ensures
        r is Ok <==> zip_entries(bytes@) is Some,
        r matches Ok(a) ==> Some(zip_contents(a)) == zip_entries(bytes@),
        r matches Err(e) ==> e == ArchiveError::NotAnArchive,
{
    match zip::read::ZipArchive::new(Cursor::new(bytes)) {
        Ok(a) => Ok(a),
        Err(_) => Err(ArchiveError::NotAnArchive),
    }
}

/// Relies on zip::read::ZipArchive::len: the number of files in the
/// archive's central directory.
#[verifier::external_body]
fn zip_len(a: &zip::read::ZipArchive<Cursor<Vec<u8>>>) -> (n: usize)
    ensures
        n == zip_contents(*a).len(),
{
    a.len()
}

/// Relies on zip::read::ZipArchive::by_index, ZipFile::name and
/// std::io::Read::read_to_end: reading the entry at the index succeeds
/// exactly when the entry is readable (its failures — encryption, an
/// unsupported method, corrupt data — are fixed by the archive's
/// bytes), and then yields the entry's name and decompressed bytes;
/// reading moves only the reader's position, never the entry list.
#[verifier::external_body]
fn zip_entry(a: &mut zip::read::ZipArchive<Cursor<Vec<u8>>>, i: usize) -> (r: Result<
    (Vec<u8>, Vec<u8>),
    ArchiveError,
>)
    requires
        i < zip_contents(*old(a)).len(),
    ensures
        zip_contents(*final(a)) == zip_contents(*old(a)),
        r is Ok <==> zip_contents(*old(a))[i as int] is Some,
        r matches Ok(e) ==> zip_contents(*old(a))[i as int] == Some((e.0@, e.1@)),
        r matches Err(e) ==> e == ArchiveError::EntryUnreadable,
{
    match a.by_index(i) {
        Ok(mut f) => {
            let name: Vec<u8> = f.name().to_string().into_bytes();
            let mut data: Vec<u8> = Vec::new();
            match std::io::Read::read_to_end(&mut f, &mut data) {
                Ok(_) => Ok((name, data)),
                Err(_) => Err(ArchiveError::EntryUnreadable),
            }
        },
        Err(_) => Err(ArchiveError::EntryUnreadable),
    }
}

/// One filesystem action the extraction calls for.
#[derive(Clone, PartialEq, Eq, Debug)]
pub enum FsAction {
    /// Create this directory, with its missing parents.
    MakeDir { path: Vec<u8> },
    /// Create the parent directory with its missing parents, then write
    /// the file at the path with exactly these bytes, overwriting any
    /// existing file.
    WriteFile { path: Vec<u8>, parent: Vec<u8>, data: Vec<u8> },
}

/// Whether an entry name denotes a directory: it ends with the zip
/// format's separator.
pub open spec fn spec_is_dir_name(name: Seq<u8>) -> bool {
    name.len() > 0 && name.last() == 47u8
}

/// The destination of an entry: the root, a separator, then the entry's
/// name.
pub open spec fn spec_dest_path(root: Seq<u8>, name: Seq<u8>) -> Seq<u8> {
    root + seq![47u8] + name
}

/// The position of the last separator of a path, or a negative value
/// when it has none.
pub open spec fn spec_last_slash(path: Seq<u8>) -> int
    decreases path.len(),
{
    if path.len() == 0 {
        -1
    } else if path.last() == 47u8 {
        path.len() - 1
    } else {
        spec_last_slash(path.drop_last())
    }
}

/// The parent of a path: everything before its last separator, or empty
/// when it has none.
pub open spec fn spec_parent(path: Seq<u8>) -> Seq<u8> {
    if spec_last_slash(path) < 0 {
        Seq::empty()
    } else {
        path.take(spec_last_slash(path))
    }
}

/// Whether an action is the one the entry calls for under the root: a
/// directory entry becomes the creation of its destination directory; a
/// file entry becomes a write of its bytes to its destination, below
/// the destination's parent directory.
pub open spec fn action_matches_entry(act: FsAction, root: Seq<u8>, entry: (Seq<u8>, Seq<u8>)) -> bool {
    match act {
        FsAction::MakeDir { path } => spec_is_dir_name(entry.0) && path@ == spec_dest_path(
            root,
            entry.0,
        ),
        FsAction::WriteFile { path, parent, data } => !spec_is_dir_name(entry.0) && path@
            == spec_dest_path(root, entry.0) && parent@ == spec_parent(
            spec_dest_path(root, entry.0),
        ) && data@ == entry.1,
    }
}

/// The position of the last separator of a path, or nothing when it has
/// none.
fn last_slash(path: &Vec<u8>) -> (r: Option<usize>)
    ensures
        r matches Some(k) ==> k == spec_last_slash(path@) && k < path@.len(),
        r is None ==> spec_last_slash(path@) < 0,
{
    let mut j: usize = path.len();
    proof {
        assert(path@.take(j as int) =~= path@);
    }
    while j > 0
        invariant
            0 <= j <= path@.len(),
            spec_last_slash(path@) == spec_last_slash(path@.take(j as int)),
        decreases j,
    {
        if path[j - 1] == 47 {
            proof {
                assert(path@.take(j as int).last() == path@[j - 1]);
            }
            return Some(j - 1);
        }
        proof {
            assert(path@.take(j as int).drop_last() =~= path@.take(j - 1));
        }
        j -= 1;
    }
    proof {
        assert(path@.take(0).len() == 0);
    }
    None
}

/// Turn one archive entry into the filesystem action that extracts it
/// under the root: a directory entry into the creation of its
/// destination, any other entry into a write of its bytes there.
pub fn entry_action(root: &[u8], name: Vec<u8>, data: Vec<u8>) -> (act: FsAction)
    ensures
        action_matches_entry(act, root@, (name@, data@)),
{
    let mut path: Vec<u8> = Vec::new();
    append_bytes(&mut path, root);
    path.push(47);
    append_bytes(&mut path, name.as_slice());
    proof {
        assert(path@ =~= spec_dest_path(root@, name@));
    }
    let is_dir = name.len() > 0 && name[name.len() - 1] == 47;
    if is_dir {
        FsAction::MakeDir { path }
    } else {
        let parent: Vec<u8> = match last_slash(&path) {
            Some(k) => prefix_bytes(&path, k),
            None => Vec::new(),
        };
        proof {
            assert(parent@ == spec_parent(path@));
        }
        FsAction::WriteFile { path, parent, data }
    }
}

/// Plan the extraction of a downloaded archive: for the bytes of a zip
/// file, the filesystem actions that reproduce, under the destination
/// root, exactly the tree the archive encodes — one action per entry,
/// in the archive's order.  The plan succeeds exactly when the bytes
/// open as a zip archive and every entry is readable; bytes that do
/// not open are reported as no archive, an entry that cannot be read
/// as unreadable.
pub fn plan_archive_install(bytes: Vec<u8>, root: &[u8]) -> (r: Result<Vec<FsAction>, ArchiveError>)
    ensures
        r is Ok <==> (zip_entries(bytes@) is Some && all_entries_readable(
            zip_entries(bytes@).unwrap(),
        )),
        r matches Ok(acts) ==> {
            let entries = zip_entries(bytes@).unwrap();
            acts@.len() == entries.len() && forall|i: int|
                0 <= i < acts@.len() ==> action_matches_entry(
                    acts@[i],
                    root@,
                    entries[i].unwrap(),
                )
        },
        r matches Err(e) ==> {
            &&& zip_entries(bytes@) is None ==> e == ArchiveError::NotAnArchive
            &&& zip_entries(bytes@) is Some ==> e == ArchiveError::EntryUnreadable
        },
{
    let ghost entries = zip_entries(bytes@);
    let mut archive = match open_zip(bytes) {
        Ok(a) => a,
        Err(e) => {
            return Err(e);
        },
    };
    let n = zip_len(&archive);
    let mut acts: Vec<FsAction> = Vec::new();
    let mut i: usize = 0;
    while i < n
        invariant
            entries == zip_entries(bytes@),
            Some(zip_contents(archive)) == entries,
            n == entries.unwrap().len(),
            acts@.len() == i,
            0 <= i <= n,
            forall|j: int| 0 <= j < i ==> entries.unwrap()[j] is Some,
            forall|j: int|
                0 <= j < i ==> action_matches_entry(
                    acts@[j],
                    root@,
                    entries.unwrap()[j].unwrap(),
                ),
        decreases n - i,
    {
        let entry = match zip_entry(&mut archive, i) {
            Ok(e) => e,
            Err(e) => {
                proof {
                    assert(entries.unwrap() == zip_contents(archive));
                    assert(entries.unwrap()[i as int] is None);
                    assert(!all_entries_readable(entries.unwrap()));
                }
                return Err(e);
            },
        };
        let act = entry_action(root, entry.0, entry.1);
        acts.push(act);
        i += 1;
    }
    proof {
        assert(all_entries_readable(entries.unwrap()));
    }
    Ok(acts)
}

} // verus!
