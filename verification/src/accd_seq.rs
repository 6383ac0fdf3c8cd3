//! Two notions on sequences that the message models share: the values of
//! a sequence of items, and the first place at which something holds.

use vstd::prelude::*;

verus! {

/// The values of the items of a sequence, in order.
pub open spec fn views<T: View>(items: Seq<T>) -> Seq<T::V> {
    Seq::new(items.len(), |i: int| items[i]@)
}

/// Whether `i` is the first place in `items` at which `hit` holds.
pub open spec fn is_first_where<T>(items: Seq<T>, hit: spec_fn(T) -> bool, i: int) -> bool {
    &&& 0 <= i < items.len()
    &&& hit(items[i])
    &&& forall|j: int| 0 <= j < i ==> !hit(#[trigger] items[j])
}

/// The first place in `items` at which `hit` holds, if there is one.
pub open spec fn first_where<T>(items: Seq<T>, hit: spec_fn(T) -> bool) -> Option<int> {
    if exists|i: int| is_first_where(items, hit, i) {
        Some(choose|i: int| is_first_where(items, hit, i))
    } else {
        None
    }
}

/// There is only one first place.
pub proof fn lemma_first_where_unique<T>(items: Seq<T>, hit: spec_fn(T) -> bool, i: int)
    requires
        is_first_where(items, hit, i),
    ensures
        first_where(items, hit) == Some(i),
{
    let k = choose|k: int| is_first_where(items, hit, k);
    if k < i {
        assert(!hit(items[k]));
    } else if i < k {
        assert(!hit(items[i]));
    }
}

/// Where `hit` holds at some place, it holds at a first place.
proof fn lemma_some_place_has_first<T>(items: Seq<T>, hit: spec_fn(T) -> bool, j: int)
    requires
        0 <= j < items.len(),
        hit(items[j]),
    ensures
        exists|i: int| is_first_where(items, hit, i),
    decreases j,
{
    if forall|k: int| 0 <= k < j ==> !hit(#[trigger] items[k]) {
        assert(is_first_where(items, hit, j));
    } else {
        let k = choose|k: int| 0 <= k < j && hit(#[trigger] items[k]);
        lemma_some_place_has_first(items, hit, k);
    }
}

/// What a look-up says: the place that it gives is a first place, and
/// where it gives none, `hit` holds nowhere.
pub proof fn lemma_first_where<T>(items: Seq<T>, hit: spec_fn(T) -> bool)
    ensures
        match first_where(items, hit) {
            Some(i) => is_first_where(items, hit, i),
            None => forall|j: int| 0 <= j < items.len() ==> !hit(#[trigger] items[j]),
        },
{
    if first_where(items, hit) is None {
        assert forall|j: int| 0 <= j < items.len() implies !hit(#[trigger] items[j]) by {
            if hit(items[j]) {
                lemma_some_place_has_first(items, hit, j);
            }
        }
    }
}

} // verus!
