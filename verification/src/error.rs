//! The ways in which discovery can fail.

use vstd::prelude::*;
use vstd::string::StringExecFns;

verus! {

/// A failure that aborts discovery as a whole. Each variant carries the text
/// that is shown to the user.
#[derive(Debug, PartialEq, Eq)]
pub enum DiscoveryError {
    /// The path of an entry is not valid UTF-8; holds a rendering of the path.
    PathEncoding(String),
    /// A retained file could not be read; holds the reader's message.
    FileRead(String),
    /// A token of a file is not a usable URL; holds the parser's message.
    MalformedUrl(String),
    /// The directory of a file cannot be expressed relative to the scan
    /// root; holds the file's path.
    NoRelativePath(String),
}

/// The mathematical value of a [`DiscoveryError`].
pub enum DiscoveryErrorView {
    PathEncoding(Seq<char>),
    FileRead(Seq<char>),
    MalformedUrl(Seq<char>),
    NoRelativePath(Seq<char>),
}

impl View for DiscoveryError {
    type V = DiscoveryErrorView;

    open spec fn view(&self) -> DiscoveryErrorView {
        match self {
            DiscoveryError::PathEncoding(shown) => DiscoveryErrorView::PathEncoding(shown@),
            DiscoveryError::FileRead(message) => DiscoveryErrorView::FileRead(message@),
            DiscoveryError::MalformedUrl(message) => DiscoveryErrorView::MalformedUrl(message@),
            DiscoveryError::NoRelativePath(path) => DiscoveryErrorView::NoRelativePath(path@),
        }
    }
}

impl Clone for DiscoveryError {
    fn clone(&self) -> (copy: DiscoveryError)
        ensures
            copy@ == self@,
    {
        match self {
            DiscoveryError::PathEncoding(shown) => DiscoveryError::PathEncoding(shown.clone()),
            DiscoveryError::FileRead(message) => DiscoveryError::FileRead(message.clone()),
            DiscoveryError::MalformedUrl(message) => DiscoveryError::MalformedUrl(message.clone()),
            DiscoveryError::NoRelativePath(path) => DiscoveryError::NoRelativePath(path.clone()),
        }
    }
}

/// Text that precedes the rendering of a path that is not UTF-8.
pub const PATH_ENCODING_PREFIX: &'static str = "Path contains non-UTF8: ";

/// Text that precedes the path of a file outside the scan root's reach.
pub const NO_RELATIVE_PATH_PREFIX: &'static str = "No relative path from the scan root to: ";

impl DiscoveryErrorView {
    /// The line that reports this error.
    pub open spec fn message(self) -> Seq<char> {
        match self {
            DiscoveryErrorView::PathEncoding(shown) => PATH_ENCODING_PREFIX@ + shown,
            DiscoveryErrorView::FileRead(message) => message,
            DiscoveryErrorView::MalformedUrl(message) => message,
            DiscoveryErrorView::NoRelativePath(path) => NO_RELATIVE_PATH_PREFIX@ + path,
        }
    }
}

impl DiscoveryError {
    /// Renders the error as the line that reports it.
    pub fn message(&self) -> (line: String)
        ensures
            line@ == self@.message(),
    {
        match self {
            DiscoveryError::PathEncoding(shown) => {
                String::from_str(PATH_ENCODING_PREFIX).concat(shown.as_str())
            },
            DiscoveryError::FileRead(message) => message.clone(),
            DiscoveryError::MalformedUrl(message) => message.clone(),
            DiscoveryError::NoRelativePath(path) => {
                String::from_str(NO_RELATIVE_PATH_PREFIX).concat(path.as_str())
            },
        }
    }
}

} // verus!
