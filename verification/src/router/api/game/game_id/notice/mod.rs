//! A game's notices.

use vstd::prelude::*;

verus! {

/// The count a listing reports beside its items: how many there are.
pub fn list_total<T>(items: &Vec<T>) -> (total: u64)
    ensures
        total == items@.len(),
{
    items.len() as u64
}

} // verus!
