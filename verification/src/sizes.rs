//! Arithmetic on lengths.

use vstd::math::min;
use vstd::prelude::*;

verus! {

/// The smaller of two lengths.
pub fn min_of_sizes(x: usize, y: usize) -> (m: usize)
    ensures
        m == min(x as int, y as int),
{
    if x < y {
        x
    } else {
        y
    }
}

} // verus!
