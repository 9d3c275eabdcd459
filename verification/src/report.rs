//! From the outcome of each download to the report of the run.

use crate::download::{Download, DownloadView};
use crate::text::texts;
use vstd::prelude::*;
use vstd::string::StringExecFns;

verus! {

/// How one download ended.
#[derive(Debug, PartialEq, Eq)]
pub enum Status {
    /// The download failed for good; holds the reason.
    Fail(String),
    /// The download was never started.
    NotStarted,
    /// The download was left out; holds the reason.
    Skipped(String),
    /// The download succeeded.
    Success,
}

/// The mathematical value of a [`Status`].
pub enum StatusView {
    Fail(Seq<char>),
    NotStarted,
    Skipped(Seq<char>),
    Success,
}

impl View for Status {
    type V = StatusView;

    open spec fn view(&self) -> StatusView {
        match self {
            Status::Fail(reason) => StatusView::Fail(reason@),
            Status::NotStarted => StatusView::NotStarted,
            Status::Skipped(reason) => StatusView::Skipped(reason@),
            Status::Success => StatusView::Success,
        }
    }
}

/// The outcome of one download: the descriptor and how it ended.
#[derive(Debug, PartialEq, Eq)]
pub struct Summary {
    /// The download that was attempted.
    pub download: Download,
    /// How the download ended.
    pub status: Status,
}

/// The mathematical value of a [`Summary`].
pub struct SummaryView {
    pub download: DownloadView,
    pub status: StatusView,
}

impl View for Summary {
    type V = SummaryView;

    open spec fn view(&self) -> SummaryView {
        SummaryView { download: self.download@, status: self.status@ }
    }
}

/// The mathematical values of a list of summaries.
pub open spec fn summary_views(summaries: Seq<Summary>) -> Seq<SummaryView> {
    summaries.map_values(|summary: Summary| summary@)
}

/// Text that opens a failure line, before the URL.
pub const FAILURE_PREFIX: &'static str = "Failed to download ";

/// Text between the URL and the reason in a failure line.
pub const FAILURE_SEPARATOR: &'static str = ": ";

/// Message of the error that ends a run in which a download failed.
pub const SOME_DOWNLOADS_FAILED: &'static str = "Some downloads failed.";

/// The line that reports the failure of the download of `url`.
pub open spec fn failure_line_of(url: Seq<char>, reason: Seq<char>) -> Seq<char> {
    FAILURE_PREFIX@ + url + FAILURE_SEPARATOR@ + reason
}

impl SummaryView {
    /// The summary is a failure: its status is `Fail`, with whatever reason.
    pub open spec fn is_failure(self) -> bool {
        self.status is Fail
    }

    /// The line that reports this summary: one for a failure, none otherwise.
    pub open spec fn failure_line(self) -> Option<Seq<char>> {
        match self.status {
            StatusView::Fail(reason) => Some(failure_line_of(self.download.url, reason)),
            _ => None,
        }
    }
}

/// The failure lines of `summaries`, in the order of the summaries.
pub open spec fn failure_lines_of(summaries: Seq<SummaryView>) -> Seq<Seq<char>> {
    summaries.filter_map(|summary: SummaryView| summary.failure_line())
}

/// Formats the line that reports the failure of the download of `url`.
pub fn failure_line(url: &str, reason: &str) -> (line: String)
    ensures
        line@ == failure_line_of(url@, reason@),
{
    let mut line = String::from_str(FAILURE_PREFIX);
    line.append(url);
    line.append(FAILURE_SEPARATOR);
    line.append(reason);
    line
}

/// The report of a run: the lines of the downloads that failed.
#[derive(Debug, PartialEq, Eq)]
pub struct Report {
    /// One line for each failed download, in the order of the summaries.
    pub failures: Vec<String>,
}

impl View for Report {
    type V = Seq<Seq<char>>;

    open spec fn view(&self) -> Seq<Seq<char>> {
        texts(self.failures@)
    }
}

impl Report {
    /// Tells whether every download succeeded: the report holds no line.
    pub fn all_succeeded(&self) -> (ok: bool)
        ensures
            ok == (self@.len() == 0),
    {
        self.failures.len() == 0
    }

    /// The exit code of the run: 0 where every download succeeded, 1
    /// otherwise.
    pub fn exit_code(&self) -> (code: u8)
        ensures
            code == if self@.len() == 0 { 0u8 } else { 1u8 },
    {
        if self.failures.len() == 0 {
            0
        } else {
            1
        }
    }

    /// The message of the error that ends the run: none where every download
    /// succeeded, otherwise one that says no more than that some failed.
    pub fn error_message(&self) -> (message: Option<&'static str>)
        ensures
            message is None <==> self@.len() == 0,
            message matches Some(text) ==> text@ == SOME_DOWNLOADS_FAILED@,
    {
        if self.failures.len() == 0 {
            None
        } else {
            Some(SOME_DOWNLOADS_FAILED)
        }
    }
}

/// Builds the report of a run from the summary of each download: one line
/// for each summary that is a failure, in the order of the summaries.
pub fn aggregate(summaries: &Vec<Summary>) -> (report: Report)
    ensures
        report@ == failure_lines_of(summary_views(summaries@)),
        report@.len() == 0 <==> forall|i: int|
            0 <= i < summaries.len() ==> !(#[trigger] summaries[i])@.is_failure(),
        forall|i: int|
            0 <= i < summaries.len() && (#[trigger] summaries[i])@.is_failure()
                ==> report@.contains(summaries[i]@.failure_line()->0),
{
    let ghost all = summary_views(summaries@);
    proof {
        lemma_one_line_per_failure(all);
        assert forall|i: int| 0 <= i < summaries.len() implies all[i] == (
        #[trigger] summaries[i])@ by {}
        assert forall|i: int|
            0 <= i < summaries.len() && (#[trigger] summaries[i])@.is_failure()
                implies failure_lines_of(all).contains(summaries[i]@.failure_line()->0) by {
            lemma_failures_are_reported(all, i);
        }
    }
    let ghost line_of = |summary: SummaryView| summary.failure_line();
    let mut failures: Vec<String> = Vec::new();
    let mut i: usize = 0;
    while i < summaries.len()
        invariant
            i <= summaries.len(),
            all == summary_views(summaries@),
            line_of == |summary: SummaryView| summary.failure_line(),
            texts(failures@) == all.take(i as int).filter_map(line_of),
        decreases summaries.len() - i,
    {
        let summary = &summaries[i];
        proof {
            all.lemma_filter_map_take_succ(line_of, i as int);
        }
        match &summary.status {
            Status::Fail(reason) => {
                let line = failure_line(summary.download.url.as_str(), reason.as_str());
                failures.push(line);
            },
            _ => {},
        }
        i += 1;
    }
    proof {
        assert(all.take(i as int) == all);
    }
    Report { failures }
}

/// The lines follow the order of the summaries: those of one list followed
/// by another are the lines of the first, then the lines of the second.
pub proof fn lemma_failure_lines_concat(first: Seq<SummaryView>, second: Seq<SummaryView>)
    ensures
        failure_lines_of(first + second) == failure_lines_of(first) + failure_lines_of(second),
    decreases second.len(),
{
    if second.len() > 0 {
        let shorter = second.drop_last();
        lemma_failure_lines_concat(first, shorter);
        assert((first + second).drop_last() == first + shorter);
    }
}

/// Every summary that is a failure has its line in the report, whatever the
/// other summaries are: a failed download is never passed over.
pub proof fn lemma_failures_are_reported(summaries: Seq<SummaryView>, i: int)
    requires
        0 <= i < summaries.len(),
        summaries[i].is_failure(),
    ensures
        failure_lines_of(summaries).contains(
            failure_line_of(summaries[i].download.url, summaries[i].status->Fail_0),
        ),
    decreases summaries.len(),
{
    let line = failure_line_of(summaries[i].download.url, summaries[i].status->Fail_0);
    let shorter = summaries.drop_last();
    let lines = failure_lines_of(summaries);
    if i == summaries.len() - 1 {
        assert(lines[lines.len() - 1] == line);
    } else {
        lemma_failures_are_reported(shorter, i);
        let before = failure_lines_of(shorter);
        let p = choose|p: int| 0 <= p < before.len() && before[p] == line;
        assert(lines[p] == line);
    }
}

/// The report holds as many lines as there are failures; so it is empty, and
/// the run a success, exactly where no summary is a failure.
pub proof fn lemma_one_line_per_failure(summaries: Seq<SummaryView>)
    ensures
        failure_lines_of(summaries).len() == summaries.filter(
            |summary: SummaryView| summary.is_failure(),
        ).len(),
        failure_lines_of(summaries).len() == 0 <==> forall|i: int|
            0 <= i < summaries.len() ==> !(#[trigger] summaries[i]).is_failure(),
    decreases summaries.len(),
{
    reveal(Seq::filter);
    if summaries.len() > 0 {
        let shorter = summaries.drop_last();
        lemma_one_line_per_failure(shorter);
        if failure_lines_of(summaries).len() == 0 {
            assert forall|i: int| 0 <= i < summaries.len() implies !(
            #[trigger] summaries[i]).is_failure() by {
                if i < shorter.len() {
                    assert(!shorter[i].is_failure());
                }
            }
        } else if failure_lines_of(shorter).len() > 0 {
            let i = choose|i: int| 0 <= i < shorter.len() && (#[trigger] shorter[i]).is_failure();
            assert(summaries[i].is_failure());
        }
    }
}

} // verus!
