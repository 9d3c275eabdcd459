//! All-or-nothing collection of outcomes: every item, or the first error.

use crate::download::{Download, DownloadView};
use crate::error::{DiscoveryError, DiscoveryErrorView};
use crate::extract::{download_views, entry_views, outcome_view};
use vstd::prelude::*;

verus! {

/// All-or-nothing collection: the items of `entries` in order where every
/// entry is `Ok`, otherwise the error of the first entry that is not.
pub open spec fn gathered<T, E>(entries: Seq<Result<T, E>>) -> Result<Seq<T>, E>
    decreases entries.len(),
{
    if entries.len() == 0 {
        Ok(Seq::empty())
    } else {
        match gathered(entries.drop_last()) {
            Err(error) => Err(error),
            Ok(before) => match entries.last() {
                Err(error) => Err(error),
                Ok(item) => Ok(before.push(item)),
            },
        }
    }
}

/// Index `k` holds the first error of `entries`.
pub open spec fn is_first_error<T, E>(entries: Seq<Result<T, E>>, k: int) -> bool {
    &&& 0 <= k < entries.len()
    &&& entries[k] is Err
    &&& forall|j: int| 0 <= j < k ==> (#[trigger] entries[j]) is Ok
}

/// Collection succeeds exactly where every entry is `Ok`, and then yields
/// the item of each entry at the entry's place.
pub proof fn lemma_gathered_ok<T, E>(entries: Seq<Result<T, E>>)
    ensures
        gathered(entries) is Ok <==> forall|i: int|
            0 <= i < entries.len() ==> (#[trigger] entries[i]) is Ok,
        gathered(entries) matches Ok(items) ==> {
            &&& items.len() == entries.len()
            &&& forall|i: int|
                0 <= i < entries.len() ==> #[trigger] entries[i] == Ok::<T, E>(items[i])
        },
    decreases entries.len(),
{
    if entries.len() > 0 {
        let shorter = entries.drop_last();
        lemma_gathered_ok(shorter);
        assert forall|i: int| 0 <= i < shorter.len() implies shorter[i] == entries[i] by {}
    }
}

/// Collection fails exactly where some entry is an error, and then with the
/// error of the first such entry.
pub proof fn lemma_gathered_first_error<T, E>(entries: Seq<Result<T, E>>)
    ensures
        gathered(entries) matches Err(error) ==> exists|k: int|
            #[trigger] is_first_error(entries, k) && entries[k] == Err::<T, E>(error),
        forall|k: int| #[trigger]
            is_first_error(entries, k) ==> gathered(entries) == Err::<Seq<T>, E>(
                entries[k]->Err_0,
            ),
    decreases entries.len(),
{
    if entries.len() > 0 {
        let shorter = entries.drop_last();
        let end = entries.len() - 1;
        lemma_gathered_first_error(shorter);
        lemma_gathered_ok(shorter);
        assert forall|i: int| 0 <= i < shorter.len() implies shorter[i] == entries[i] by {}
        if gathered(shorter) is Err {
            let k = choose|k: int|
                #[trigger] is_first_error(shorter, k) && shorter[k] == Err::<T, E>(
                    gathered(shorter)->Err_0,
                );
            assert(is_first_error(entries, k));
        } else if entries.last() is Err {
            assert(is_first_error(entries, end));
        }
    }
}

/// Once a prefix of `entries` fails, the whole list fails in the same way.
pub proof fn lemma_gathered_error_persists<T, E>(entries: Seq<Result<T, E>>, k: int)
    requires
        0 <= k <= entries.len(),
        gathered(entries.take(k)) is Err,
    ensures
        gathered(entries) == gathered(entries.take(k)),
    decreases entries.len() - k,
{
    if k == entries.len() {
        assert(entries.take(k) == entries);
    } else {
        assert(entries.take(k + 1).drop_last() == entries.take(k));
        lemma_gathered_error_persists(entries, k + 1);
    }
}

/// Turns a list of outcomes into the list of their descriptors, or into
/// the first error among them.
pub fn gather(entries: Vec<Result<Download, DiscoveryError>>) -> (r: Result<
    Vec<Download>,
    DiscoveryError,
>)
    ensures
        outcome_view(r) == gathered(entry_views(entries@)),
        r is Ok <==> forall|i: int| 0 <= i < entries.len() ==> (#[trigger] entries[i]) is Ok,
        r matches Err(error) ==> exists|k: int|
            #[trigger] is_first_error(entries@, k) && entries[k]->Err_0@ == error@,
{
    let ghost all = entry_views(entries@);
    proof {
        lemma_gathered_ok(all);
        lemma_gathered_first_error(all);
        assert forall|i: int| 0 <= i < entries.len() implies ((#[trigger] entries[i]) is Ok
            <==> all[i] is Ok) by {}
        if gathered(all) is Err {
            let k = choose|k: int|
                #[trigger] is_first_error(all, k) && all[k] == Err::<
                    DownloadView,
                    DiscoveryErrorView,
                >(gathered(all)->Err_0);
            assert(is_first_error(entries@, k));
        }
    }
    let mut downloads: Vec<Download> = Vec::new();
    proof {
        assert(download_views(downloads@) == Seq::<DownloadView>::empty());
    }
    for entry in it: entries.into_iter()
        invariant
            it.seq() == entries@,
            all == entry_views(entries@),
            gathered(all) is Ok <==> forall|i: int|
                0 <= i < entries.len() ==> (#[trigger] entries[i]) is Ok,
            gathered(all) is Err ==> exists|k: int|
                #[trigger] is_first_error(entries@, k) && entries[k]->Err_0@ == gathered(
                    all,
                )->Err_0,
            gathered(all.take(it.index())) == Ok::<Seq<DownloadView>, DiscoveryErrorView>(
                download_views(downloads@),
            ),
    {
        let ghost i = it.index();
        let ghost before = download_views(downloads@);
        proof {
            assert(all.take(i + 1).drop_last() == all.take(i));
        }
        match entry {
            Ok(download) => {
                downloads.push(download);
                assert(download_views(downloads@) == before.push(download@));
            },
            Err(error) => {
                proof {
                    lemma_gathered_error_persists(all, i + 1);
                }
                return Err(error);
            },
        }
    }
    proof {
        assert(all.take(all.len() as int) == all);
    }
    Ok(downloads)
}

} // verus!
