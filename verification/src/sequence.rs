//! Facts about sequences that are filtered and mapped item by item.

use vstd::prelude::*;

verus! {

/// What filtering and mapping one item more adds.
pub(crate) proof fn filter_map_next<A, B>(
    items: Seq<A>,
    i: int,
    keep: spec_fn(A) -> bool,
    map: spec_fn(A) -> B,
)
    requires
        0 <= i < items.len(),
    ensures
        items.take(i + 1).filter(keep).map_values(map) == if keep(items[i]) {
            items.take(i).filter(keep).map_values(map).push(map(items[i]))
        } else {
            items.take(i).filter(keep).map_values(map)
        },
{
    reveal(Seq::filter);
    let next = items.take(i + 1);
    assert(next.drop_last() =~= items.take(i));
    assert(next.last() == items[i]);
    if keep(items[i]) {
        assert(next.filter(keep) == items.take(i).filter(keep).push(items[i]));
        map_push(items.take(i).filter(keep), items[i], map);
    }
}

/// What mapping one item more adds.
pub(crate) proof fn map_push<A, B>(items: Seq<A>, item: A, map: spec_fn(A) -> B)
    ensures
        items.push(item).map_values(map) == items.map_values(map).push(map(item)),
{
    assert(items.push(item).map_values(map) =~= items.map_values(map).push(map(item)));
}

/// Whether a sequence begins with another.
#[verifier::opaque]
pub(crate) open spec fn begins<A>(whole: Seq<A>, start: Seq<A>) -> bool {
    start.len() <= whole.len() && forall|i: int| 0 <= i < start.len() ==> whole[i] == start[i]
}

/// A sequence that begins with two parts begins with the first, and has the second behind it.
pub(crate) proof fn begins_with_parts<A>(whole: Seq<A>, start: Seq<A>, more: Seq<A>)
    requires
        begins(whole, start + more),
    ensures
        begins(whole, start),
        start.len() + more.len() <= whole.len(),
        whole.subrange(start.len() as int, (start.len() + more.len()) as int) == more,
{
    reveal(begins);
    assert forall|i: int| 0 <= i < start.len() implies whole[i] == start[i] by {
        assert((start + more)[i] == start[i]);
    }
    let behind = whole.subrange(start.len() as int, (start.len() + more.len()) as int);
    assert forall|i: int| 0 <= i < more.len() implies behind[i] == more[i] by {
        assert((start + more)[start.len() + i] == more[i]);
    }
    assert(behind =~= more);
}

/// A sequence begins with itself.
pub(crate) proof fn begins_with_itself<A>(whole: Seq<A>)
    ensures
        begins(whole, whole),
{
    reveal(begins);
}

} // verus!
