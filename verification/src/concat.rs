//! Concatenation of what each item of a list contributes, and how little it
//! depends on the order of the items.

use vstd::prelude::*;
use vstd::seq_lib::lemma_multiset_commutative;

verus! {

/// The contributions `part(item)` of all items, one after the other.
pub open spec fn concat_map<A, B>(items: Seq<A>, part: spec_fn(A) -> Seq<B>) -> Seq<B> {
    items.map_values(part).flatten()
}

/// A further item adds its contribution at the end.
pub proof fn lemma_concat_map_push<A, B>(items: Seq<A>, item: A, part: spec_fn(A) -> Seq<B>)
    ensures
        concat_map(items.push(item), part) == concat_map(items, part) + part(item),
{
    assert(items.push(item).map_values(part) == items.map_values(part).push(part(item)));
    items.map_values(part).lemma_flatten_push(part(item));
}

/// A value occurs in the concatenation exactly where it occurs in the
/// contribution of some item.
pub proof fn lemma_concat_map_contains<A, B>(items: Seq<A>, part: spec_fn(A) -> Seq<B>, value: B)
    ensures
        concat_map(items, part).contains(value) <==> exists|i: int|
            0 <= i < items.len() && #[trigger] part(items[i]).contains(value),
    decreases items.len(),
{
    if items.len() > 0 {
        let shorter = items.drop_last();
        let last = items.last();
        assert(items == shorter.push(last));
        lemma_concat_map_push(shorter, last, part);
        lemma_concat_map_contains(shorter, part, value);
        let whole = concat_map(items, part);
        let head = concat_map(shorter, part);
        let tail = part(last);
        if whole.contains(value) {
            let p = choose|p: int| 0 <= p < whole.len() && whole[p] == value;
            if p >= head.len() {
                assert(part(items[items.len() - 1]).contains(value));
            }
        }
        if exists|i: int| 0 <= i < items.len() && #[trigger] part(items[i]).contains(value) {
            let i = choose|i: int|
                0 <= i < items.len() && #[trigger] part(items[i]).contains(value);
            if i < shorter.len() {
                let p = choose|p: int| 0 <= p < head.len() && head[p] == value;
                assert(whole[p] == value);
            } else {
                let q = choose|q: int| 0 <= q < tail.len() && tail[q] == value;
                assert(whole[head.len() + q] == value);
            }
        }
    }
}

/// Taking one item out takes its contribution out, counted as a multiset.
pub proof fn lemma_concat_map_remove<A, B>(items: Seq<A>, j: int, part: spec_fn(A) -> Seq<B>)
    requires
        0 <= j < items.len(),
    ensures
        concat_map(items, part).to_multiset() == concat_map(
            items.remove(j),
            part,
        ).to_multiset().add(part(items[j]).to_multiset()),
    decreases items.len(),
{
    let shorter = items.drop_last();
    let last = items.last();
    assert(items == shorter.push(last));
    lemma_concat_map_push(shorter, last, part);
    lemma_multiset_commutative(concat_map(shorter, part), part(last));
    if j < items.len() - 1 {
        lemma_concat_map_remove(shorter, j, part);
        assert(items.remove(j) == shorter.remove(j).push(last));
        lemma_concat_map_push(shorter.remove(j), last, part);
        lemma_multiset_commutative(concat_map(shorter.remove(j), part), part(last));
    }
}

/// Two lists that hold the same items, in whatever order, contribute the
/// same values, each as often in the one as in the other.
pub proof fn lemma_concat_map_reordered<A, B>(
    first: Seq<A>,
    second: Seq<A>,
    part: spec_fn(A) -> Seq<B>,
)
    requires
        first.to_multiset() == second.to_multiset(),
    ensures
        concat_map(first, part).to_multiset() == concat_map(second, part).to_multiset(),
    decreases first.len(),
{
    first.to_multiset_ensures();
    second.to_multiset_ensures();
    if first.len() > 0 {
        let end = first.len() - 1;
        let item = first[end];
        assert(second.to_multiset().count(item) > 0);
        let j = choose|j: int| 0 <= j < second.len() && second[j] == item;
        lemma_concat_map_reordered(first.remove(end), second.remove(j), part);
        lemma_concat_map_remove(first, end, part);
        lemma_concat_map_remove(second, j, part);
    }
}

} // verus!
