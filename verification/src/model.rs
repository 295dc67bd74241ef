//! How values are related to their mathematical models, and copied.
use crate::json::Json;
use vstd::prelude::*;

verus! {

/// The models of `items`, in order.
pub open spec fn views<T: View>(items: Seq<T>) -> Seq<T::V> {
    items.map_values(|item: T| item@)
}

/// The model of a value that may be absent.
pub open spec fn option_view<T: View>(value: Option<T>) -> Option<T::V> {
    match value {
        Some(v) => Some(v@),
        None => None,
    }
}

/// The model of the outcome of an operation that may fail.
pub open spec fn outcome<T: View, E: View>(result: Result<T, E>) -> Result<T::V, E::V> {
    match result {
        Ok(value) => Ok(value@),
        Err(error) => Err(error@),
    }
}

/// The model of the outcome of an operation that returns nothing.
pub open spec fn verdict<E: View>(result: Result<(), E>) -> Result<(), E::V> {
    match result {
        Ok(_) => Ok(()),
        Err(error) => Err(error@),
    }
}

/// Values that can be copied so that the copy has the same model.
pub trait Duplicate: View + Sized {
    /// A copy with the same model.
    fn duplicate(&self) -> (copy: Self)
        ensures
            copy@ == self@,
    ;
}

impl Duplicate for String {
    fn duplicate(&self) -> (copy: Self) {
        self.clone()
    }
}

impl Duplicate for Json {
    fn duplicate(&self) -> (copy: Self) {
        self.copy()
    }
}

/// Copies of `items`, in order.
pub fn duplicate_all<T: Duplicate>(items: &Vec<T>) -> (copies: Vec<T>)
    ensures
        views(copies@) == views(items@),
{
    let mut copies: Vec<T> = Vec::new();
    let mut i: usize = 0;
    while i < items.len()
        invariant
            i == copies@.len(),
            i <= items@.len(),
            forall|j: int| 0 <= j < i ==> (#[trigger] copies@[j])@ == items@[j]@,
        decreases items@.len() - i,
    {
        copies.push(items[i].duplicate());
        i += 1;
    }
    assert(views(copies@) =~= views(items@));
    copies
}

/// A copy of a value that may be absent.
pub fn duplicate_option<T: Duplicate>(value: &Option<T>) -> (copy: Option<T>)
    ensures
        option_view(copy) == option_view(*value),
{
    match value {
        Some(v) => Some(v.duplicate()),
        None => None,
    }
}

} // verus!
