//! Bulk discovery: from the files read below a scan root to one list of
//! download descriptors, or the first failure.

use crate::concat::{concat_map, lemma_concat_map_contains, lemma_concat_map_reordered};
use crate::download::{parsed_download, Download, DownloadView};
use crate::error::{DiscoveryError, DiscoveryErrorView};
use crate::extract::{download_views, downloads_from_file, entries_of, outcome_view, prefixed};
use crate::gather::{
    gather, gathered, is_first_error, lemma_gathered_error_persists, lemma_gathered_first_error,
    lemma_gathered_ok,
};
use crate::paths::{relative_directory, relative_directory_of};
use crate::text::tokens_of;
use vstd::prelude::*;

verus! {

/// A file that discovery has read: its path and its whole text.
#[derive(Debug, PartialEq, Eq)]
pub struct FileContent {
    /// The path of the file, as the traversal of the scan root reported it.
    pub path: String,
    /// The text of the file.
    pub content: String,
}

/// The mathematical value of a [`FileContent`].
pub struct FileContentView {
    pub path: Seq<char>,
    pub content: Seq<char>,
}

impl View for FileContent {
    type V = FileContentView;

    open spec fn view(&self) -> FileContentView {
        FileContentView { path: self.path@, content: self.content@ }
    }
}

impl Clone for FileContent {
    fn clone(&self) -> (copy: FileContent)
        ensures
            copy@ == self@,
    {
        FileContent { path: self.path.clone(), content: self.content.clone() }
    }
}

/// The mathematical values of a list of files.
pub open spec fn file_views(files: Seq<FileContent>) -> Seq<FileContentView> {
    files.map_values(|file: FileContent| file@)
}

/// What one file contributes to discovery below `scan_root`: the descriptors
/// of all its tokens, or its first failure. A file whose directory has no path
/// relative to the scan root fails as a whole.
pub open spec fn file_outcome(scan_root: Seq<char>, file: FileContentView) -> Result<
    Seq<DownloadView>,
    DiscoveryErrorView,
> {
    match relative_directory_of(scan_root, file.path) {
        None => Err(DiscoveryErrorView::NoRelativePath(file.path)),
        Some(relative_dir) => gathered(entries_of(relative_dir, file.content)),
    }
}

/// The outcome of each file, in the order of `files`.
pub open spec fn file_outcomes(scan_root: Seq<char>, files: Seq<FileContentView>) -> Seq<
    Result<Seq<DownloadView>, DiscoveryErrorView>,
> {
    files.map_values(|file: FileContentView| file_outcome(scan_root, file))
}

/// What discovery makes of the files read below `scan_root`: the descriptors
/// of all files, file after file, or the first failure.
pub open spec fn discovered(scan_root: Seq<char>, files: Seq<FileContentView>) -> Result<
    Seq<DownloadView>,
    DiscoveryErrorView,
> {
    match gathered(file_outcomes(scan_root, files)) {
        Ok(groups) => Ok(groups.flatten()),
        Err(error) => Err(error),
    }
}

/// The descriptors that one file contributes; none where the file fails.
pub open spec fn file_downloads(scan_root: Seq<char>, file: FileContentView) -> Seq<DownloadView> {
    match file_outcome(scan_root, file) {
        Ok(downloads) => downloads,
        Err(_) => Seq::empty(),
    }
}

/// The source URLs of a list of descriptors, as a set.
pub open spec fn source_urls(downloads: Seq<DownloadView>) -> Set<Seq<char>> {
    downloads.map_values(|download: DownloadView| download.url).to_set()
}

/// The URLs that the tokens of the files hold, as a set: a URL belongs to it
/// where some token of some file parses to it.
pub open spec fn listed_urls(files: Seq<FileContentView>) -> Set<Seq<char>> {
    Set::new(
        |url: Seq<char>|
            exists|i: int, k: int|
                {
                    &&& 0 <= i < files.len()
                    &&& 0 <= k < tokens_of(files[i].content).len()
                    &&& parsed_download(#[trigger] tokens_of(files[i].content)[k]) is Ok
                    &&& parsed_download(tokens_of(files[i].content)[k])->Ok_0.url == url
                },
    )
}

/// Collects the download descriptors of all files read below `input_dir`.
///
/// The files are taken in the order given. The result holds, file after
/// file, one descriptor for each token; the first file whose directory has no
/// path relative to `input_dir`, or the first token that is no usable URL,
/// fails the whole collection with its error. Where the collection
/// succeeds, its source URLs are exactly the URLs that the files list.
pub fn collect_downloads(input_dir: &str, files: &Vec<FileContent>) -> (r: Result<
    Vec<Download>,
    DiscoveryError,
>)
    ensures
        outcome_view(r) == discovered(input_dir@, file_views(files@)),
        r is Ok <==> forall|i: int|
            0 <= i < files.len() ==> file_outcome(input_dir@, (#[trigger] files[i])@) is Ok,
        r matches Ok(downloads) ==> source_urls(download_views(downloads@)) == listed_urls(
            file_views(files@),
        ),
        r matches Err(error) ==> exists|k: int|
            #[trigger] is_first_error(file_outcomes(input_dir@, file_views(files@)), k)
                && file_outcome(input_dir@, files[k]@) == Err::<
                Seq<DownloadView>,
                DiscoveryErrorView,
            >(error@),
{
    let ghost outcomes = file_outcomes(input_dir@, file_views(files@));
    proof {
        lemma_discovered(input_dir@, file_views(files@));
        assert forall|i: int| 0 <= i < files.len() implies file_views(files@)[i] == (
        #[trigger] files[i])@ by {}
    }
    let ghost groups: Seq<Seq<DownloadView>> = Seq::empty();
    let mut downloads: Vec<Download> = Vec::new();
    let mut i: usize = 0;
    while i < files.len()
        invariant
            i <= files.len(),
            outcomes == file_outcomes(input_dir@, file_views(files@)),
            discovered(input_dir@, file_views(files@)) is Ok <==> forall|i: int|
                0 <= i < files.len() ==> file_outcome(input_dir@, (#[trigger] files[i])@) is Ok,
            discovered(input_dir@, file_views(files@)) is Err ==> exists|k: int|
                #[trigger] is_first_error(outcomes, k) && file_outcome(input_dir@, files[k]@)
                    == Err::<Seq<DownloadView>, DiscoveryErrorView>(
                    discovered(input_dir@, file_views(files@))->Err_0,
                ),
            gathered(outcomes.take(i as int)) == Ok::<Seq<Seq<DownloadView>>, DiscoveryErrorView>(
                groups,
            ),
            groups.flatten() == download_views(downloads@),
        decreases files.len() - i,
    {
        let file = &files[i];
        proof {
            assert(outcomes.take(i + 1).drop_last() == outcomes.take(i as int));
        }
        if relative_directory(input_dir, file.path.as_str()).is_none() {
            proof {
                lemma_gathered_error_persists(outcomes, i + 1);
            }
            return Err(DiscoveryError::NoRelativePath(file.path.clone()));
        }
        let entries = downloads_from_file(input_dir, file.path.as_str(), file.content.as_str());
        match gather(entries) {
            Ok(mut found) => {
                let ghost group = download_views(found@);
                downloads.append(&mut found);
                proof {
                    groups.lemma_flatten_push(group);
                    groups = groups.push(group);
                }
            },
            Err(error) => {
                proof {
                    lemma_gathered_error_persists(outcomes, i + 1);
                }
                return Err(error);
            },
        }
        i += 1;
    }
    proof {
        assert(outcomes.take(i as int) == outcomes);
        lemma_discovered_urls(input_dir@, file_views(files@));
    }
    Ok(downloads)
}

/// A file succeeds exactly where its directory has a path relative to the
/// scan root and each of its tokens is a usable URL. It then contributes one
/// descriptor for each token, in the order of the tokens: the URL parsed from
/// the token, its file name joined onto the file's relative directory.
pub proof fn lemma_file_outcome(scan_root: Seq<char>, file: FileContentView)
    ensures
        file_outcome(scan_root, file) is Ok <==> {
            &&& relative_directory_of(scan_root, file.path) is Some
            &&& forall|k: int|
                0 <= k < tokens_of(file.content).len() ==> parsed_download(
                    #[trigger] tokens_of(file.content)[k],
                ) is Ok
        },
        file_outcome(scan_root, file) matches Ok(downloads) ==> {
            &&& downloads.len() == tokens_of(file.content).len()
            &&& forall|k: int|
                0 <= k < downloads.len() ==> #[trigger] downloads[k] == prefixed(
                    relative_directory_of(scan_root, file.path)->0,
                    parsed_download(tokens_of(file.content)[k])->Ok_0,
                )
        },
{
    if relative_directory_of(scan_root, file.path) is Some {
        let relative_dir = relative_directory_of(scan_root, file.path)->0;
        let tokens = tokens_of(file.content);
        let entries = entries_of(relative_dir, file.content);
        lemma_gathered_ok(entries);
        if gathered(entries) is Ok {
            assert forall|k: int| 0 <= k < tokens.len() implies parsed_download(
                #[trigger] tokens[k],
            ) is Ok by {
                assert(entries[k] is Ok);
            }
            let downloads = gathered(entries)->Ok_0;
            assert forall|k: int| 0 <= k < downloads.len() implies #[trigger] downloads[k]
                == prefixed(relative_dir, parsed_download(tokens[k])->Ok_0) by {
                assert(entries[k] == Ok::<DownloadView, DiscoveryErrorView>(downloads[k]));
            }
        } else {
            let k = choose|k: int| 0 <= k < entries.len() && !((#[trigger] entries[k]) is Ok);
            assert(!(parsed_download(tokens[k]) is Ok));
        }
    }
}

/// Discovery succeeds exactly where every file does, and then yields the
/// descriptors of the files, file after file. Where it fails, it fails with
/// the error of the first file that fails.
pub proof fn lemma_discovered(scan_root: Seq<char>, files: Seq<FileContentView>)
    ensures
        discovered(scan_root, files) is Ok <==> forall|i: int|
            0 <= i < files.len() ==> file_outcome(scan_root, #[trigger] files[i]) is Ok,
        discovered(scan_root, files) matches Ok(downloads) ==> downloads == concat_map(
            files,
            |file: FileContentView| file_downloads(scan_root, file),
        ),
        discovered(scan_root, files) matches Err(error) ==> exists|k: int|
            #[trigger] is_first_error(file_outcomes(scan_root, files), k) && file_outcome(
                scan_root,
                files[k],
            ) == Err::<Seq<DownloadView>, DiscoveryErrorView>(error),
{
    let outcomes = file_outcomes(scan_root, files);
    lemma_gathered_ok(outcomes);
    lemma_gathered_first_error(outcomes);
    if gathered(outcomes) is Ok {
        assert forall|i: int| 0 <= i < files.len() implies file_outcome(
            scan_root,
            #[trigger] files[i],
        ) is Ok by {
            assert(outcomes[i] is Ok);
        }
        let groups = gathered(outcomes)->Ok_0;
        let part = |file: FileContentView| file_downloads(scan_root, file);
        assert(groups == files.map_values(part)) by {
            assert forall|i: int| 0 <= i < groups.len() implies groups[i] == files.map_values(
                part,
            )[i] by {
                assert(outcomes[i] == Ok::<Seq<DownloadView>, DiscoveryErrorView>(groups[i]));
            }
        }
    } else {
        let i = choose|i: int| 0 <= i < outcomes.len() && !((#[trigger] outcomes[i]) is Ok);
        assert(!(file_outcome(scan_root, files[i]) is Ok));
    }
}

/// Where discovery succeeds, the source URLs of its descriptors are exactly
/// the URLs that the tokens of the files hold: nothing is lost, nothing is
/// added, and the order in which the files were visited plays no part.
pub proof fn lemma_discovered_urls(scan_root: Seq<char>, files: Seq<FileContentView>)
    requires
        discovered(scan_root, files) is Ok,
    ensures
        source_urls(discovered(scan_root, files)->Ok_0) == listed_urls(files),
{
    let downloads = discovered(scan_root, files)->Ok_0;
    let part = |file: FileContentView| file_downloads(scan_root, file);
    let urls = downloads.map_values(|download: DownloadView| download.url);
    lemma_discovered(scan_root, files);
    assert forall|url: Seq<char>| source_urls(downloads).contains(url) implies listed_urls(
        files,
    ).contains(url) by {
        let p = choose|p: int| 0 <= p < urls.len() && urls[p] == url;
        let download = downloads[p];
        lemma_concat_map_contains(files, part, download);
        let i = choose|i: int| 0 <= i < files.len() && #[trigger] part(files[i]).contains(download);
        lemma_file_outcome(scan_root, files[i]);
        let found = file_downloads(scan_root, files[i]);
        let k = choose|k: int| 0 <= k < found.len() && found[k] == download;
        assert(parsed_download(tokens_of(files[i].content)[k]) is Ok);
    }
    assert forall|url: Seq<char>| listed_urls(files).contains(url) implies source_urls(
        downloads,
    ).contains(url) by {
        let (i, k) = choose|i: int, k: int|
            {
                &&& 0 <= i < files.len()
                &&& 0 <= k < tokens_of(files[i].content).len()
                &&& parsed_download(#[trigger] tokens_of(files[i].content)[k]) is Ok
                &&& parsed_download(tokens_of(files[i].content)[k])->Ok_0.url == url
            };
        lemma_file_outcome(scan_root, files[i]);
        let found = file_downloads(scan_root, files[i]);
        let download = found[k];
        assert(part(files[i]).contains(download));
        lemma_concat_map_contains(files, part, download);
        let p = choose|p: int| 0 <= p < downloads.len() && downloads[p] == download;
        assert(urls[p] == url);
    }
}

/// Discovery does not depend on the order in which the files were visited:
/// two visits of the same files succeed or fail together, and where they
/// succeed they yield the same descriptors, each as often in the one as in
/// the other. So does a second run on a tree that has not changed.
pub proof fn lemma_discovery_ignores_order(
    scan_root: Seq<char>,
    first: Seq<FileContentView>,
    second: Seq<FileContentView>,
)
    requires
        first.to_multiset() == second.to_multiset(),
    ensures
        discovered(scan_root, first) is Ok <==> discovered(scan_root, second) is Ok,
        discovered(scan_root, first) is Ok ==> discovered(scan_root, first)->Ok_0.to_multiset()
            == discovered(scan_root, second)->Ok_0.to_multiset(),
{
    let part = |file: FileContentView| file_downloads(scan_root, file);
    lemma_discovered(scan_root, first);
    lemma_discovered(scan_root, second);
    first.to_multiset_ensures();
    second.to_multiset_ensures();
    if discovered(scan_root, first) is Ok {
        assert forall|j: int| 0 <= j < second.len() implies file_outcome(
            scan_root,
            #[trigger] second[j],
        ) is Ok by {
            assert(first.to_multiset().count(second[j]) > 0);
            let i = choose|i: int| 0 <= i < first.len() && first[i] == second[j];
            assert(file_outcome(scan_root, first[i]) is Ok);
        }
    }
    if discovered(scan_root, second) is Ok {
        assert forall|i: int| 0 <= i < first.len() implies file_outcome(
            scan_root,
            #[trigger] first[i],
        ) is Ok by {
            assert(second.to_multiset().count(first[i]) > 0);
            let j = choose|j: int| 0 <= j < second.len() && second[j] == first[i];
            assert(file_outcome(scan_root, second[j]) is Ok);
        }
    }
    lemma_concat_map_reordered(first, second, part);
}

} // verus!
