//! The run's configuration and the mode it selects.

use crate::download::{parse_download, parsed_download, Download, DownloadView};
use crate::error::{DiscoveryError, DiscoveryErrorView};
use crate::extract::{download_views, outcome_view, parsed_view};
use vstd::prelude::*;

verus! {

/// Retries per download where none is configured.
pub const DEFAULT_RETRIES: u32 = 3;

/// Bound on simultaneous downloads where none is configured.
pub const DEFAULT_CONCURRENCY: usize = 32;

/// What the command line configures, fixed once at startup.
#[derive(Debug, PartialEq, Eq)]
pub struct Config {
    /// How often a failed download is tried again.
    pub retries: u32,
    /// How many downloads may run at the same time.
    pub concurrency: usize,
    /// The one URL to download; its presence selects single mode.
    pub url: Option<String>,
    /// The data directory: scan root in bulk mode, output directory in
    /// single mode.
    pub dir: String,
    /// The output directory of bulk mode, where it is not the scan root.
    pub output_dir: Option<String>,
}

/// The mathematical value of a [`Config`].
pub struct ConfigView {
    pub retries: u32,
    pub concurrency: usize,
    pub url: Option<Seq<char>>,
    pub dir: Seq<char>,
    pub output_dir: Option<Seq<char>>,
}

/// The mathematical value of an optional text.
pub open spec fn optional_text(text: Option<String>) -> Option<Seq<char>> {
    match text {
        Some(text) => Some(text@),
        None => None,
    }
}

impl View for Config {
    type V = ConfigView;

    open spec fn view(&self) -> ConfigView {
        ConfigView {
            retries: self.retries,
            concurrency: self.concurrency,
            url: optional_text(self.url),
            dir: self.dir@,
            output_dir: optional_text(self.output_dir),
        }
    }
}

/// Where the downloads of a run come from and where they go.
#[derive(Debug, PartialEq, Eq)]
pub enum Mode {
    /// One download, of the URL given, saved in `output_dir`.
    Single { url: String, output_dir: String },
    /// The downloads that the files below `scan_root` list, saved in
    /// `output_dir`.
    Bulk { scan_root: String, output_dir: String },
}

/// The mathematical value of a [`Mode`].
pub enum ModeView {
    Single { url: Seq<char>, output_dir: Seq<char> },
    Bulk { scan_root: Seq<char>, output_dir: Seq<char> },
}

impl View for Mode {
    type V = ModeView;

    open spec fn view(&self) -> ModeView {
        match self {
            Mode::Single { url, output_dir } => ModeView::Single {
                url: url@,
                output_dir: output_dir@,
            },
            Mode::Bulk { scan_root, output_dir } => ModeView::Bulk {
                scan_root: scan_root@,
                output_dir: output_dir@,
            },
        }
    }
}

impl ConfigView {
    /// The mode that the configuration selects. A URL selects single mode,
    /// which saves into the data directory. Without one the data directory
    /// is scanned, and the downloads are saved in the output directory
    /// given, or else in the data directory itself.
    pub open spec fn mode(self) -> ModeView {
        match self.url {
            Some(url) => ModeView::Single { url, output_dir: self.dir },
            None => ModeView::Bulk {
                scan_root: self.dir,
                output_dir: match self.output_dir {
                    Some(output_dir) => output_dir,
                    None => self.dir,
                },
            },
        }
    }
}

impl ModeView {
    /// The directory below which the run saves its downloads.
    pub open spec fn output_dir(self) -> Seq<char> {
        match self {
            ModeView::Single { url, output_dir } => output_dir,
            ModeView::Bulk { scan_root, output_dir } => output_dir,
        }
    }
}

impl Config {
    /// A configuration for the data directory `dir` with the default retry
    /// count and concurrency bound, no URL and no output directory.
    pub fn new(dir: String) -> (config: Config)
        ensures
            config@ == (ConfigView {
                retries: DEFAULT_RETRIES,
                concurrency: DEFAULT_CONCURRENCY,
                url: None,
                dir: dir@,
                output_dir: None,
            }),
    {
        Config {
            retries: DEFAULT_RETRIES,
            concurrency: DEFAULT_CONCURRENCY,
            url: None,
            dir,
            output_dir: None,
        }
    }
}

impl Mode {
    /// The directory below which the run saves its downloads.
    pub fn output_dir(&self) -> (dir: &String)
        ensures
            dir@ == self@.output_dir(),
    {
        match self {
            Mode::Single { url, output_dir } => output_dir,
            Mode::Bulk { scan_root, output_dir } => output_dir,
        }
    }
}

/// Selects the mode of a run, by the presence of a URL alone.
pub fn select_mode(config: &Config) -> (mode: Mode)
    ensures
        mode@ == config@.mode(),
{
    match &config.url {
        Some(url) => Mode::Single { url: url.clone(), output_dir: config.dir.clone() },
        None => {
            let output_dir = match &config.output_dir {
                Some(output_dir) => output_dir.clone(),
                None => config.dir.clone(),
            };
            Mode::Bulk { scan_root: config.dir.clone(), output_dir }
        },
    }
}

/// The downloads of single mode, given what parsing the URL gave: the one
/// descriptor, or the error that says that the URL is malformed.
pub open spec fn single_of(parsed: Result<DownloadView, Seq<char>>) -> Result<
    Seq<DownloadView>,
    DiscoveryErrorView,
> {
    match parsed {
        Ok(found) => Ok(seq![found]),
        Err(message) => Err(DiscoveryErrorView::MalformedUrl(message)),
    }
}

/// Turns what parsing the URL of single mode gave into the list of
/// downloads: exactly one descriptor, or the error.
pub fn single_from(parsed: Result<Download, String>) -> (r: Result<Vec<Download>, DiscoveryError>)
    ensures
        outcome_view(r) == single_of(parsed_view(parsed)),
{
    match parsed {
        Ok(found) => {
            let mut downloads: Vec<Download> = Vec::new();
            downloads.push(found);
            assert(download_views(downloads@) == seq![found@]);
            Ok(downloads)
        },
        Err(message) => Err(DiscoveryError::MalformedUrl(message)),
    }
}

/// Builds the list of downloads of single mode: exactly one descriptor, for
/// `url`, named after the URL's last path segment; or the error that
/// rejects the URL.
pub fn single_download(url: &str) -> (r: Result<Vec<Download>, DiscoveryError>)
    ensures
        outcome_view(r) == single_of(parsed_download(url@)),
{
    single_from(parse_download(url))
}

/// What is handed to the transfer engine: the downloads, the directory to
/// save them in, and the two settings that bound its work.
#[derive(Debug, PartialEq, Eq)]
pub struct TransferRequest {
    /// The downloads, in the order in which they were found.
    pub downloads: Vec<Download>,
    /// The directory below which the downloads are saved.
    pub output_dir: String,
    /// How often a failed download is tried again.
    pub retries: u32,
    /// How many downloads may run at the same time.
    pub concurrency: usize,
}

/// The mathematical value of a [`TransferRequest`].
pub struct TransferRequestView {
    pub downloads: Seq<DownloadView>,
    pub output_dir: Seq<char>,
    pub retries: u32,
    pub concurrency: usize,
}

impl View for TransferRequest {
    type V = TransferRequestView;

    open spec fn view(&self) -> TransferRequestView {
        TransferRequestView {
            downloads: download_views(self.downloads@),
            output_dir: self.output_dir@,
            retries: self.retries,
            concurrency: self.concurrency,
        }
    }
}

/// Builds the request for the transfer engine. The retry count and the
/// concurrency bound are those configured, unchanged; the output directory is
/// that of the mode which the configuration selects.
pub fn transfer_request(config: &Config, downloads: Vec<Download>) -> (request: TransferRequest)
    ensures
        request@ == (TransferRequestView {
            downloads: download_views(downloads@),
            output_dir: config@.mode().output_dir(),
            retries: config.retries,
            concurrency: config.concurrency,
        }),
{
    let output_dir = match select_mode(config) {
        Mode::Single { url, output_dir } => output_dir,
        Mode::Bulk { scan_root, output_dir } => output_dir,
    };
    TransferRequest {
        downloads,
        output_dir,
        retries: config.retries,
        concurrency: config.concurrency,
    }
}

} // verus!
