//! What discovery does with one entry of the tree below the scan root.

use crate::error::{DiscoveryError, DiscoveryErrorView};
use crate::paths::{file_name, file_name_of};
use crate::text::same_text;
use vstd::prelude::*;

verus! {

/// Name of the file in which the hosting environment records the input of
/// a run; never a URL list.
pub const INPUT_META: &'static str = "input.meta.json";

/// Name of the file in which the hosting environment records the output of
/// a run; never a URL list.
pub const OUTPUT_META: &'static str = "output.meta.json";

/// Number of files that discovery reads at the same time.
pub const READ_CONCURRENCY: usize = 8;

/// `name` is, letter for letter, one of the two reserved file names.
pub open spec fn is_reserved(name: Seq<char>) -> bool {
    name == INPUT_META@ || name == OUTPUT_META@
}

/// The final component of `path` is one of the two reserved file names.
pub open spec fn has_reserved_name(path: Seq<char>) -> bool {
    file_name_of(path) matches Some(name) && is_reserved(name)
}

/// What to do with an entry of the tree.
#[derive(Debug, PartialEq, Eq)]
pub enum EntryAction {
    /// Leave the entry out: it is no regular file, or a reserved one.
    Skip,
    /// Read the file at this path and keep its text.
    Read(String),
    /// Give up discovery with this error.
    Abort(DiscoveryError),
}

/// The mathematical value of an [`EntryAction`].
pub enum EntryActionView {
    Skip,
    Read(Seq<char>),
    Abort(DiscoveryErrorView),
}

impl View for EntryAction {
    type V = EntryActionView;

    open spec fn view(&self) -> EntryActionView {
        match self {
            EntryAction::Skip => EntryActionView::Skip,
            EntryAction::Read(path) => EntryActionView::Read(path@),
            EntryAction::Abort(error) => EntryActionView::Abort(error@),
        }
    }
}

/// The mathematical value of a path as the traversal reports it: the path's
/// text, or a rendering of a path that is not UTF-8.
pub open spec fn reported_path_view(path: Result<String, String>) -> Result<Seq<char>, Seq<char>> {
    match path {
        Ok(text) => Ok(text@),
        Err(shown) => Err(shown@),
    }
}

/// The action for an entry, given whether its path bears a reserved name:
/// entries that are no regular files are skipped; a regular file whose path
/// is not UTF-8 aborts discovery; a regular file with a reserved name is
/// skipped; every other regular file is read.
pub open spec fn action_for(
    is_file: bool,
    path: Result<Seq<char>, Seq<char>>,
    reserved: bool,
) -> EntryActionView {
    if !is_file {
        EntryActionView::Skip
    } else {
        match path {
            Err(shown) => EntryActionView::Abort(DiscoveryErrorView::PathEncoding(shown)),
            Ok(text) => if reserved {
                EntryActionView::Skip
            } else {
                EntryActionView::Read(text)
            },
        }
    }
}

/// The action for an entry, with the reserved names told by the final
/// component of the path.
pub open spec fn action_of(is_file: bool, path: Result<Seq<char>, Seq<char>>) -> EntryActionView {
    action_for(is_file, path, path matches Ok(text) && has_reserved_name(text))
}

/// Tells whether `name` is one of the two reserved file names. The match is
/// exact and case-sensitive.
pub fn is_reserved_name(name: &str) -> (reserved: bool)
    ensures
        reserved == is_reserved(name@),
{
    same_text(name, INPUT_META) || same_text(name, OUTPUT_META)
}

/// Tells whether the final component of `path` is a reserved file name.
pub fn is_reserved_file(path: &str) -> (reserved: bool)
    ensures
        reserved == has_reserved_name(path@),
{
    match file_name(path) {
        Some(name) => is_reserved_name(name),
        None => false,
    }
}

/// Decides what discovery does with one entry of the tree, given whether
/// the entry's path bears a reserved name.
pub fn decide_entry(is_file: bool, path: Result<String, String>, reserved: bool) -> (action:
    EntryAction)
    ensures
        action@ == action_for(is_file, reported_path_view(path), reserved),
{
    if !is_file {
        return EntryAction::Skip;
    }
    match path {
        Err(shown) => EntryAction::Abort(DiscoveryError::PathEncoding(shown)),
        Ok(text) => {
            if reserved {
                EntryAction::Skip
            } else {
                EntryAction::Read(text)
            }
        },
    }
}

/// Decides what discovery does with one entry of the tree.
///
/// `is_file` tells whether the entry is a regular file. `path` is the
/// entry's path, or, where the path is not UTF-8, a rendering of it for the
/// error message.
pub fn entry_action(is_file: bool, path: Result<String, String>) -> (action: EntryAction)
    ensures
        action@ == action_of(is_file, reported_path_view(path)),
        path matches Ok(text) && has_reserved_name(text@) ==> action is Skip,
{
    let reserved = is_file && match &path {
        Ok(text) => is_reserved_file(text.as_str()),
        Err(_) => false,
    };
    decide_entry(is_file, path, reserved)
}

/// An entry that bears a reserved name is never read, whatever directory it
/// lies in and whatever it holds: discovery skips it, so that it contributes
/// no download.
pub proof fn lemma_reserved_files_are_skipped(is_file: bool, path: Seq<char>)
    requires
        file_name_of(path) == Some(INPUT_META@) || file_name_of(path) == Some(OUTPUT_META@),
    ensures
        action_of(is_file, Ok(path)) == EntryActionView::Skip,
{
}

} // verus!
