//! Three-way comparison of ranks, shared by every ordered type of the crate.

use std::cmp::Ordering;
use vstd::prelude::*;

verus! {

/// How `a` stands to `b` in the usual order of the integers.
pub open spec fn order_of(a: u8, b: u8) -> Ordering {
    if a < b {
        Ordering::Less
    } else if a == b {
        Ordering::Equal
    } else {
        Ordering::Greater
    }
}

/// Compares two ranks.
pub fn compare_ranks(a: u8, b: u8) -> (o: Ordering)
    ensures
        o == order_of(a, b),
{
    if a < b {
        Ordering::Less
    } else if a == b {
        Ordering::Equal
    } else {
        Ordering::Greater
    }
}

} // verus!
