//! Discovery of downloads and the report of a run.
//!
//! A run downloads either one URL or every URL listed in the text files
//! below a directory. This library holds the rules of such a run: how a
//! text is split into URLs, where each download is saved so that the output
//! mirrors the tree scanned, which entries of the tree are read, how one
//! malformed URL fails discovery as a whole, which mode a configuration
//! selects, and how the outcomes of the downloads add up to a report and an
//! exit code. Walking the tree, reading files and transferring data are
//! left to the caller.

pub mod concat;
pub mod discover;
pub mod download;
pub mod entry;
pub mod error;
pub mod extract;
pub mod gather;
pub mod mode;
pub mod paths;
pub mod report;
pub mod text;
