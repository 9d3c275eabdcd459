//! From the text of one file to its download descriptors.

use crate::download::{parse_download, parsed_download, Download, DownloadView};
use crate::error::{DiscoveryError, DiscoveryErrorView};
use crate::paths::{join, joined, relative_directory, relative_directory_of};
use crate::text::{split_ascii_whitespace, texts, tokens_of};
use vstd::prelude::*;

verus! {

/// One outcome of extraction, as a mathematical value.
pub type EntryView = Result<DownloadView, DiscoveryErrorView>;

/// The mathematical value of one outcome of extraction.
pub open spec fn entry_view(entry: Result<Download, DiscoveryError>) -> EntryView {
    match entry {
        Ok(download) => Ok(download@),
        Err(error) => Err(error@),
    }
}

/// The mathematical values of a list of outcomes.
pub open spec fn entry_views(entries: Seq<Result<Download, DiscoveryError>>) -> Seq<EntryView> {
    entries.map_values(|entry: Result<Download, DiscoveryError>| entry_view(entry))
}

/// The mathematical values of a list of descriptors.
pub open spec fn download_views(downloads: Seq<Download>) -> Seq<DownloadView> {
    downloads.map_values(|download: Download| download@)
}

/// The mathematical value of a list of descriptors, or of the error in its
/// place.
pub open spec fn outcome_view(outcome: Result<Vec<Download>, DiscoveryError>) -> Result<
    Seq<DownloadView>,
    DiscoveryErrorView,
> {
    match outcome {
        Ok(downloads) => Ok(download_views(downloads@)),
        Err(error) => Err(error@),
    }
}

/// The descriptor `found` with its file name joined onto `relative_dir`.
pub open spec fn prefixed(relative_dir: Seq<char>, found: DownloadView) -> DownloadView {
    DownloadView { url: found.url, filename: joined(relative_dir, found.filename) }
}

/// The mathematical value of what parsing a token gave: the descriptor, or
/// the message of the error.
pub open spec fn parsed_view(parsed: Result<Download, String>) -> Result<DownloadView, Seq<char>> {
    match parsed {
        Ok(found) => Ok(found@),
        Err(message) => Err(message@),
    }
}

/// What becomes of a parsed token in a file found in `relative_dir`: a
/// descriptor has its file name joined onto `relative_dir`, an error says
/// that the URL is malformed.
pub open spec fn placed(
    relative_dir: Seq<char>,
    parsed: Result<DownloadView, Seq<char>>,
) -> EntryView {
    match parsed {
        Ok(found) => Ok(prefixed(relative_dir, found)),
        Err(message) => Err(DiscoveryErrorView::MalformedUrl(message)),
    }
}

/// What one token of a file found in `relative_dir` yields: the
/// descriptor of the URL it holds, its file name joined onto
/// `relative_dir`, or the error that rejects the token.
pub open spec fn extracted(relative_dir: Seq<char>, token: Seq<char>) -> EntryView {
    placed(relative_dir, parsed_download(token))
}

/// What the text of a file found in `relative_dir` yields: one outcome
/// for each of its tokens, in the order of the text.
pub open spec fn entries_of(relative_dir: Seq<char>, content: Seq<char>) -> Seq<EntryView> {
    tokens_of(content).map_values(|token: Seq<char>| extracted(relative_dir, token))
}

/// Joins the file name of `found` onto `relative_dir`; the URL stays.
pub fn prefix_filename(relative_dir: &str, found: Download) -> (download: Download)
    ensures
        download@ == prefixed(relative_dir@, found@),
{
    let filename = join(relative_dir, found.filename.as_str());
    Download { url: found.url, filename }
}

/// Turns what parsing a token gave into the token's entry: a descriptor
/// has its file name joined onto `relative_dir`, an error message becomes a
/// malformed-URL error.
pub fn place(relative_dir: &str, parsed: Result<Download, String>) -> (entry: Result<
    Download,
    DiscoveryError,
>)
    ensures
        entry_view(entry) == placed(relative_dir@, parsed_view(parsed)),
{
    match parsed {
        Ok(found) => Ok(prefix_filename(relative_dir, found)),
        Err(message) => Err(DiscoveryError::MalformedUrl(message)),
    }
}

/// Reads one token of a file found in `relative_dir`.
pub fn extract(relative_dir: &str, token: &str) -> (entry: Result<Download, DiscoveryError>)
    ensures
        entry_view(entry) == extracted(relative_dir@, token@),
{
    place(relative_dir, parse_download(token))
}

/// Reads the whitespace-separated URLs of one file.
///
/// Every token of `file_content` gives one entry, in the order of the text:
/// a descriptor whose file name is the name taken from the URL, joined onto
/// the file's directory relative to `input_dir`, or the error that rejects
/// the token. The file's directory must have a path relative to `input_dir`.
pub fn downloads_from_file(input_dir: &str, file_path: &str, file_content: &str) -> (entries: Vec<
    Result<Download, DiscoveryError>,
>)
    requires
        relative_directory_of(input_dir@, file_path@) is Some,
    ensures
        entry_views(entries@) == entries_of(
            relative_directory_of(input_dir@, file_path@)->0,
            file_content@,
        ),
{
    let relative_dir = relative_directory(input_dir, file_path).unwrap();
    let tokens = split_ascii_whitespace(file_content);
    let mut entries: Vec<Result<Download, DiscoveryError>> = Vec::new();
    let mut i: usize = 0;
    while i < tokens.len()
        invariant
            i <= tokens.len(),
            texts(tokens@) == tokens_of(file_content@),
            entry_views(entries@) == entries_of(relative_dir@, file_content@).take(i as int),
        decreases tokens.len() - i,
    {
        let ghost before = entry_views(entries@);
        let entry = extract(relative_dir.as_str(), tokens[i].as_str());
        entries.push(entry);
        i += 1;
        assert(entry_views(entries@) == before.push(entry_view(entry)));
    }
    entries
}

} // verus!
