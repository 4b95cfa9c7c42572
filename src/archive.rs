//! Finding the caption in a subtitle archive held in memory.
use std::io::Cursor;
use vstd::prelude::*;
use zip::result::ZipError;
use zip::ZipArchive;
use crate::popup::{caption_name, is_caption_name, lower_of, lowercase};
use crate::text::chars_of;

verus! {

#[verifier::external_type_specification]
#[verifier::external_body]
#[verifier::reject_recursive_types(T)]
pub struct ExCursor<T>(Cursor<T>);

#[verifier::external_type_specification]
#[verifier::external_body]
#[verifier::reject_recursive_types(R)]
pub struct ExZipArchive<R>(ZipArchive<R>);

#[verifier::external_type_specification]
#[verifier::external_body]
pub struct ExZipError(ZipError);

/// The names of an archive's entries, in the archive's order, as `zip`
/// decodes them.
pub uninterp spec fn archive_names(a: ZipArchive<Cursor<Vec<u8>>>) -> Seq<Seq<char>>;

/// Whether `zip` can read the central directory of an archive made of these
/// bytes.
pub uninterp spec fn zip_readable(data: Seq<u8>) -> bool;

/// Relies on `zip::ZipArchive::new`: reads the central directory of an
/// archive held in memory, or fails; which of the two depends on the bytes
/// alone.
#[verifier::external_body]
fn open_archive(data: Vec<u8>) -> (r: Result<ZipArchive<Cursor<Vec<u8>>>, ZipError>)
    ensures
        r is Ok <==> zip_readable(data@),
{
    ZipArchive::new(Cursor::new(data))
}

/// Relies on `zip::ZipArchive::len`: the number of entries.
#[verifier::external_body]
fn entry_count(a: &ZipArchive<Cursor<Vec<u8>>>) -> (r: usize)
    ensures
        r == archive_names(*a).len(),
{
    a.len()
}

/// Relies on `zip::ZipArchive::name_for_index`: for an index below the number
/// of entries it gives that entry's name, decoded as UTF-8 or else as CP437,
/// a decoding that does not fail.
#[verifier::external_body]
fn entry_name(a: &ZipArchive<Cursor<Vec<u8>>>, i: usize) -> (r: Option<Result<String, ZipError>>)
    requires
        i < archive_names(*a).len(),
    ensures
        r is Some,
        r->0 is Ok,
        r->0->Ok_0@ == archive_names(*a)[i as int],
{
    a.name_for_index(i).map(|n| n.map(|n| n.into_owned()))
}

/// An archive that cannot be read.
#[derive(Debug)]
pub enum ArchiveError {
    /// Its directory is damaged or of a kind that cannot be read.
    Unreadable(ZipError),
}

/// Zip marks a directory by a name that ends in a slash or a backslash.
pub open spec fn is_dir_name(name: Seq<char>) -> bool {
    name.len() > 0 && (name.last() == '/' || name.last() == '\\')
}

/// An entry holds a caption when it is a file whose name, lowercased, ends
/// in `.srt`.
pub open spec fn holds_caption(name: Seq<char>) -> bool {
    !is_dir_name(name) && is_caption_name(lower_of(name))
}

/// Whether an entry name marks a directory.
pub fn dir_name(name: &str) -> (r: bool)
    ensures
        r == is_dir_name(name@),
{
    let c = chars_of(name);
    let n = c.len();
    n > 0 && (c[n - 1] == '/' || c[n - 1] == '\\')
}

/// The first of an archive's entry names that holds a caption.
pub fn first_caption(names: &Vec<String>) -> (r: Option<usize>)
    ensures
        match r {
            Some(i) => i < names@.len() && holds_caption(names@[i as int]@) && forall|j: int|
                0 <= j < i ==> !holds_caption(#[trigger] names@[j]@),
            None => forall|j: int| 0 <= j < names@.len() ==> !holds_caption(#[trigger] names@[j]@),
        },
{
    let mut i: usize = 0;
    while i < names.len()
        invariant
            i <= names@.len(),
            forall|j: int| 0 <= j < i ==> !holds_caption(#[trigger] names@[j]@),
        decreases names@.len() - i,
    {
        let name = names[i].as_str();
        if !dir_name(name) && caption_name(lowercase(name).as_str()) {
            return Some(i);
        }
        i = i + 1;
    }
    None
}

/// Reads an archive held in memory and finds its first entry that holds a
/// caption, if any; the archive comes back to be read from. Fails exactly
/// when `zip` cannot read the archive.
pub fn find_caption(data: Vec<u8>) -> (r: Result<
    (ZipArchive<Cursor<Vec<u8>>>, Option<usize>),
    ArchiveError,
>)
    ensures
        r is Ok <==> zip_readable(data@),
        r matches Ok((a, found)) ==> match found {
            Some(i) => i < archive_names(a).len() && holds_caption(archive_names(a)[i as int])
                && forall|j: int| 0 <= j < i ==> !holds_caption(#[trigger] archive_names(a)[j]),
            None => forall|j: int|
                0 <= j < archive_names(a).len() ==> !holds_caption(#[trigger] archive_names(a)[j]),
        },
{
    let archive = match open_archive(data) {
        Ok(a) => a,
        Err(e) => return Err(ArchiveError::Unreadable(e)),
    };
    let n = entry_count(&archive);
    let mut names: Vec<String> = Vec::new();
    let mut i: usize = 0;
    while i < n
        invariant
            n == archive_names(archive).len(),
            i <= n,
            names@.len() == i,
            forall|j: int| 0 <= j < i ==> #[trigger] names@[j]@ == archive_names(archive)[j],
        decreases n - i,
    {
        match entry_name(&archive, i) {
            Some(Ok(name)) => names.push(name),
            _ => {},
        }
        i = i + 1;
    }
    let found = first_caption(&names);
    proof {
        assert forall|j: int| 0 <= j < n implies names@[j]@ == archive_names(archive)[j] by {}
    }
    Ok((archive, found))
}

} // verus!
