//! The first position of a sequence at which a predicate holds.

use vstd::prelude::*;

verus! {

/// Whether `i` is the first position of `items` whose item satisfies `p`.
pub open spec fn is_first<T>(items: Seq<T>, p: spec_fn(T) -> bool, i: int) -> bool {
    &&& 0 <= i < items.len()
    &&& p(items[i])
    &&& forall|j: int| 0 <= j < i ==> !p(#[trigger] items[j])
}

/// The first position of `items` whose item satisfies `p`, if there is one.
pub open spec fn first<T>(items: Seq<T>, p: spec_fn(T) -> bool) -> Option<int> {
    if exists|i: int| is_first(items, p, i) {
        Some(choose|i: int| is_first(items, p, i))
    } else {
        None
    }
}

/// A position that is first is the one that `first` names.
pub proof fn lemma_first_is<T>(items: Seq<T>, p: spec_fn(T) -> bool, i: int)
    requires
        is_first(items, p, i),
    ensures
        first(items, p) == Some(i),
{
}

/// What `first` names is a first position, and without one no item satisfies `p`.
pub proof fn lemma_first_sound<T>(items: Seq<T>, p: spec_fn(T) -> bool)
    ensures
        first(items, p) matches Some(i) ==> is_first(items, p, i),
        first(items, p) is None ==> forall|j: int| 0 <= j < items.len() ==> !p(#[trigger] items[j]),
{
    if first(items, p) is None {
        assert forall|j: int| 0 <= j < items.len() implies !p(#[trigger] items[j]) by {
            if p(items[j]) {
                lemma_some_first(items, p, j);
            }
        }
    }
}

/// An item that satisfies `p` is preceded by, or is, a first one.
proof fn lemma_some_first<T>(items: Seq<T>, p: spec_fn(T) -> bool, j: int)
    requires
        0 <= j < items.len(),
        p(items[j]),
    ensures
        exists|i: int| is_first(items, p, i),
    decreases j,
{
    if exists|k: int| 0 <= k < j && p(#[trigger] items[k]) {
        let k = choose|k: int| 0 <= k < j && p(#[trigger] items[k]);
        lemma_some_first(items, p, k);
    } else {
        assert(is_first(items, p, j));
    }
}

} // verus!
