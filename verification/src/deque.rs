//! What the library takes from the standard library's double-ended queue.

use vstd::prelude::*;
use std::collections::VecDeque;

verus! {

/// `VecDeque::get_mut` gives the item at `index` to be changed in place, or
/// nothing where the queue is not that long. No other item changes.
#[verifier::external_body]
pub(crate) fn get_mut<T>(items: &mut VecDeque<T>, index: usize) -> (r: Option<&mut T>)
    ensures
        match r {
            Some(item) => index < old(items)@.len() && *item == old(items)@[index as int]
                && final(items)@ == old(items)@.update(index as int, *final(item)),
            None => index >= old(items)@.len() && final(items)@ == old(items)@,
        },
{
    items.get_mut(index)
}

} // verus!
