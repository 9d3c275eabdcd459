//! Path arithmetic on UTF-8 path strings.
//!
//! Paths are held as plain strings. What a path's parent, final component,
//! join or difference is follows the platform's path grammar, which `camino`
//! and `pathdiff` implement; this module gives each of those results a name
//! and keeps the calls behind small wrappers.

use camino::{Utf8Path, Utf8PathBuf};
use vstd::prelude::*;

verus! {

/// The path without its final component, as `camino::Utf8Path::parent`
/// computes it: `None` when the path ends in a root or is empty.
pub uninterp spec fn parent_of(path: Seq<char>) -> Option<Seq<char>>;

/// The final component of the path, as `camino::Utf8Path::file_name`
/// computes it: `None` when the path ends in `..` or has no component.
pub uninterp spec fn file_name_of(path: Seq<char>) -> Option<Seq<char>>;

/// `path` adjoined to `base`, as `camino::Utf8Path::join` computes it.
pub uninterp spec fn joined(base: Seq<char>, path: Seq<char>) -> Seq<char>;

/// The relative path that leads from `base` to `path`, as
/// `pathdiff::diff_utf8_paths` computes it: `None` when no such path can be
/// built from the two texts alone.
pub uninterp spec fn difference_of(path: Seq<char>, base: Seq<char>) -> Option<Seq<char>>;

/// Calls `camino::Utf8Path::parent`. The contract only names the result: it
/// is the value that `parent_of` stands for.
#[verifier::external_body]
pub(crate) fn parent<'a>(path: &'a str) -> (r: Option<&'a str>)
    ensures
        match r {
            Some(parent) => parent_of(path@) == Some(parent@),
            None => parent_of(path@) == None::<Seq<char>>,
        },
{
    Utf8Path::new(path).parent().map(Utf8Path::as_str)
}

/// Calls `camino::Utf8Path::file_name`. The contract only names the result:
/// it is the value that `file_name_of` stands for.
#[verifier::external_body]
pub(crate) fn file_name<'a>(path: &'a str) -> (r: Option<&'a str>)
    ensures
        match r {
            Some(name) => file_name_of(path@) == Some(name@),
            None => file_name_of(path@) == None::<Seq<char>>,
        },
{
    Utf8Path::new(path).file_name()
}

/// Calls `camino::Utf8Path::join` and takes the text of the result. The
/// contract only names the result: it is the value that `joined` stands for.
#[verifier::external_body]
pub(crate) fn join(base: &str, path: &str) -> (r: String)
    ensures
        r@ == joined(base@, path@),
{
    Utf8Path::new(base).join(path).into_string()
}

/// Calls `pathdiff::diff_utf8_paths` and takes the text of the result. The
/// contract only names the result: it is the value that `difference_of`
/// stands for.
#[verifier::external_body]
pub(crate) fn difference(path: &str, base: &str) -> (r: Option<String>)
    ensures
        match r {
            Some(relative) => difference_of(path@, base@) == Some(relative@),
            None => difference_of(path@, base@) == None::<Seq<char>>,
        },
{
    pathdiff::diff_utf8_paths(path, base).map(Utf8PathBuf::into_string)
}

/// The directory that holds a file, given the parent of the file's path:
/// the parent, or the path itself where it has none.
pub open spec fn directory_for(file_path: Seq<char>, parent: Option<Seq<char>>) -> Seq<char> {
    match parent {
        Some(parent) => parent,
        None => file_path,
    }
}

/// The directory of `file_path` expressed relative to `scan_root`: the
/// difference between the directory that holds the file and the scan root.
pub open spec fn relative_directory_of(scan_root: Seq<char>, file_path: Seq<char>) -> Option<
    Seq<char>,
> {
    difference_of(directory_for(file_path, parent_of(file_path)), scan_root)
}

/// Picks the directory that holds a file: the parent of the file's path, or
/// the path itself where it has none.
pub fn containing_directory<'a>(file_path: &'a str, parent: Option<&'a str>) -> (directory: &'a str)
    ensures
        directory@ == directory_for(
            file_path@,
            match parent {
                Some(parent) => Some(parent@),
                None => None,
            },
        ),
{
    match parent {
        Some(parent) => parent,
        None => file_path,
    }
}

/// Computes the directory of `file_path` relative to `scan_root`, or `None`
/// where the two paths admit no relative path between them.
pub fn relative_directory(scan_root: &str, file_path: &str) -> (r: Option<String>)
    ensures
        match r {
            Some(relative) => relative_directory_of(scan_root@, file_path@) == Some(relative@),
            None => relative_directory_of(scan_root@, file_path@) == None::<Seq<char>>,
        },
{
    let directory = containing_directory(file_path, parent(file_path));
    difference(directory, scan_root)
}

} // verus!
