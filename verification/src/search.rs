//! Finding the first item of a sequence that meets a condition.

use vstd::prelude::*;

verus! {

/// The least index of an item that is wanted, or the length of the sequence
/// where none is.
pub open spec fn first_where<T>(items: Seq<T>, wanted: spec_fn(T) -> bool) -> int
    decreases items.len(),
{
    if items.len() == 0 {
        0
    } else if first_where(items.drop_last(), wanted) < items.len() - 1 {
        first_where(items.drop_last(), wanted)
    } else if wanted(items.last()) {
        items.len() - 1
    } else {
        items.len() as int
    }
}

/// Whether any item of the sequence is wanted.
pub open spec fn any_where<T>(items: Seq<T>, wanted: spec_fn(T) -> bool) -> bool {
    first_where(items, wanted) < items.len()
}

/// `first_where` is the least index of a wanted item: no item before it is
/// wanted, and the item at it, if there is one, is.
pub proof fn lemma_first_where<T>(items: Seq<T>, wanted: spec_fn(T) -> bool)
    ensures
        0 <= first_where(items, wanted) <= items.len(),
        forall|i: int| 0 <= i < first_where(items, wanted) ==> !wanted(#[trigger] items[i]),
        first_where(items, wanted) < items.len() ==> wanted(items[first_where(items, wanted)]),
    decreases items.len(),
{
    if items.len() > 0 {
        let front = items.drop_last();
        lemma_first_where(front, wanted);
        assert forall|i: int| 0 <= i < first_where(items, wanted) implies !wanted(
            #[trigger] items[i],
        ) by {
            if i < front.len() {
                assert(front[i] == items[i]);
            }
        }
        if first_where(front, wanted) < front.len() {
            assert(front[first_where(front, wanted)] == items[first_where(front, wanted)]);
        }
    }
}

/// An index is the first wanted one when no item before it is wanted and
/// the item at it is wanted or it is the length of the sequence.
pub proof fn lemma_first_where_is<T>(items: Seq<T>, wanted: spec_fn(T) -> bool, index: int)
    requires
        0 <= index <= items.len(),
        forall|i: int| 0 <= i < index ==> !wanted(#[trigger] items[i]),
        index < items.len() ==> wanted(items[index]),
    ensures
        first_where(items, wanted) == index,
{
    lemma_first_where(items, wanted);
    let found = first_where(items, wanted);
    if found < index {
        assert(!wanted(items[found]));
    } else if index < found {
        assert(!wanted(items[index]));
    }
}

} // verus!
