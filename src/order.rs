use vstd::prelude::*;

use core::cmp::Ordering;

verus! {

/// The order of two integers.
pub open spec fn int_cmp(a: int, b: int) -> Ordering {
    if a < b {
        Ordering::Less
    } else if a == b {
        Ordering::Equal
    } else {
        Ordering::Greater
    }
}

/// Compares two fixed-point values.
pub fn compare(a: i64, b: i64) -> (r: Ordering)
    ensures
        r == int_cmp(a as int, b as int),
{
    if a < b {
        Ordering::Less
    } else if a == b {
        Ordering::Equal
    } else {
        Ordering::Greater
    }
}

} // verus!
