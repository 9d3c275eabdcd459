//! Download descriptors and how one is read from a URL text.

use vstd::prelude::*;

verus! {

/// A resource to fetch: where it comes from and where it is saved, the
/// latter relative to the output directory.
#[derive(Debug, PartialEq, Eq)]
pub struct Download {
    /// The source URL, in its normalised text form.
    pub url: String,
    /// The file name under which the resource is saved.
    pub filename: String,
}

/// The mathematical value of a [`Download`].
pub struct DownloadView {
    pub url: Seq<char>,
    pub filename: Seq<char>,
}

impl View for Download {
    type V = DownloadView;

    open spec fn view(&self) -> DownloadView {
        DownloadView { url: self.url@, filename: self.filename@ }
    }
}

impl Clone for Download {
    fn clone(&self) -> (copy: Download)
        ensures
            copy@ == self@,
    {
        Download { url: self.url.clone(), filename: self.filename.clone() }
    }
}

/// What `trauma::download::Download::try_from` makes of a URL text: the
/// descriptor, holding the parsed URL's text and the file name taken from
/// the URL's last path segment, or the message of the error that rejects the
/// text.
pub uninterp spec fn parsed_download(text: Seq<char>) -> Result<DownloadView, Seq<char>>;

/// Calls `trauma::download::Download::try_from` on the text and copies the
/// outcome into this library's types: the URL as text, the file name as it
/// is, an error as its message. The contract only names the outcome: it is
/// the value that `parsed_download` stands for.
#[verifier::external_body]
pub(crate) fn parse_download(text: &str) -> (r: Result<Download, String>)
    ensures
        match r {
            Ok(download) => parsed_download(text@) == Ok::<DownloadView, Seq<char>>(download@),
            Err(message) => parsed_download(text@) == Err::<DownloadView, Seq<char>>(message@),
        },
{
    match trauma::download::Download::try_from(text) {
        Ok(found) => Ok(Download { url: String::from(found.url), filename: found.filename }),
        Err(error) => Err(error.to_string()),
    }
}

} // verus!
