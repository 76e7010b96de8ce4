//! From values to their mathematical models, through `Seq`, `Option` and
//! `Result`.

use vstd::prelude::*;

verus! {

/// The models of the items of `items`, in order.
pub open spec fn view_all<T: View>(items: Seq<T>) -> Seq<T::V> {
    Seq::new(items.len(), |i: int| items[i]@)
}

/// The model of an optional item.
pub open spec fn view_opt<T: View>(item: Option<T>) -> Option<T::V> {
    match item {
        Some(t) => Some(t@),
        None => None,
    }
}

/// The models of both sides of a result.
pub open spec fn view_result<T: View, E: View>(result: Result<T, E>) -> Result<T::V, E::V> {
    match result {
        Ok(t) => Ok(t@),
        Err(e) => Err(e@),
    }
}

} // verus!
