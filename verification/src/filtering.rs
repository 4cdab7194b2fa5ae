//! Facts about filtered lists that the other modules build on.

use vstd::prelude::*;

verus! {

/// Filtering a list that ends in `last` filters the list before it and keeps
/// or drops `last`.
pub proof fn lemma_filter_push<A>(items: Seq<A>, last: A, keep: spec_fn(A) -> bool)
    ensures
        items.push(last).filter(keep) == if keep(last) {
            items.filter(keep).push(last)
        } else {
            items.filter(keep)
        },
{
    reveal(Seq::filter);
    assert(items.push(last).drop_last() =~= items);
}

/// What a filter keeps: only items of the list that pass the test, each item
/// that passes, and in the order of the list.
pub proof fn lemma_filter_keeps<A>(items: Seq<A>, keep: spec_fn(A) -> bool)
    ensures
        forall|i: int|
            0 <= i < items.filter(keep).len() ==> keep(#[trigger] items.filter(keep)[i])
                && items.contains(items.filter(keep)[i]),
        forall|i: int|
            0 <= i < items.len() && keep(items[i]) ==> items.filter(keep).contains(
                #[trigger] items[i],
            ),
        forall|i: int, j: int|
            #![trigger items.filter(keep)[i], items.filter(keep)[j]]
            0 <= i < j < items.filter(keep).len() ==> exists|a: int, b: int|
                0 <= a < b < items.len() && items[a] == items.filter(keep)[i] && items[b]
                    == items.filter(keep)[j],
    decreases items.len(),
{
    reveal(Seq::filter);
    let kept = items.filter(keep);
    if items.len() > 0 {
        let front = items.drop_last();
        let last = items.last();
        lemma_filter_keeps(front, keep);
        let front_kept = front.filter(keep);
        assert forall|i: int| 0 <= i < kept.len() implies keep(#[trigger] kept[i])
            && items.contains(kept[i]) by {
            if i < front_kept.len() {
                assert(kept[i] == front_kept[i]);
                assert(front.contains(front_kept[i]));
                let a = choose|a: int| 0 <= a < front.len() && front[a] == front_kept[i];
                assert(items[a] == kept[i]);
            } else {
                assert(kept[i] == last);
                assert(items[items.len() - 1] == last);
            }
        }
        assert forall|i: int| 0 <= i < items.len() && keep(items[i]) implies kept.contains(
            #[trigger] items[i],
        ) by {
            if i < front.len() {
                assert(front[i] == items[i]);
                assert(front_kept.contains(front[i]));
                let a = choose|a: int| 0 <= a < front_kept.len() && front_kept[a] == front[i];
                assert(kept[a] == items[i]);
            } else {
                assert(kept[kept.len() - 1] == items[i]);
            }
        }
        assert forall|i: int, j: int|
            #![trigger kept[i], kept[j]]
            0 <= i < j < kept.len() implies exists|a: int, b: int|
            0 <= a < b < items.len() && items[a] == kept[i] && items[b] == kept[j] by {
            if j < front_kept.len() {
                assert(kept[i] == front_kept[i] && kept[j] == front_kept[j]);
                let (a, b) = choose|a: int, b: int|
                    0 <= a < b < front.len() && front[a] == front_kept[i] && front[b]
                        == front_kept[j];
                assert(items[a] == kept[i] && items[b] == kept[j]);
            } else {
                assert(kept[j] == last);
                assert(kept[i] == front_kept[i]);
                assert(front.contains(front_kept[i]));
                let a = choose|a: int| 0 <= a < front.len() && front[a] == front_kept[i];
                assert(items[a] == kept[i] && items[items.len() - 1] == kept[j]);
            }
        }
    }
}

} // verus!
