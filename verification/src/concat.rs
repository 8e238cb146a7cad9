//! Joining two arrays into one, and splitting one array into two.

use vstd::math::min;
use vstd::prelude::*;
use crate::model::{joined, spliced_left, spliced_right};
use crate::sizes::min_of_sizes;

verus! {

/// Join two sized arrays together into a new array.
///
/// The result holds the elements of `left` and then those of `right`, back to
/// back. Positions that are left over hold `fill`; elements of `left` or
/// `right` that do not fit in the result are dropped.
pub fn join<T, const LEFT_SIZE: usize, const RIGHT_SIZE: usize, const RESULT_SIZE: usize>(
    left: [T; LEFT_SIZE],
    right: [T; RIGHT_SIZE],
    fill: T,
) -> (result: [T; RESULT_SIZE]) where T: Copy
    ensures
        result@ == joined(left@, right@, fill, RESULT_SIZE as nat),
{
    let mut buffer = [fill; RESULT_SIZE];

    let left_count: usize = min_of_sizes(LEFT_SIZE, RESULT_SIZE);
    let mut i: usize = 0;
    while i < left_count
        invariant
            left_count == min(LEFT_SIZE as int, RESULT_SIZE as int),
            i <= left_count,
            forall|j: int| 0 <= j < i ==> buffer@[j] == left@[j],
            forall|j: int| i <= j < RESULT_SIZE ==> buffer@[j] == fill,
        decreases left_count - i,
    {
        buffer[i] = left[i];
        i += 1;
    }

    if LEFT_SIZE < RESULT_SIZE {
        let right_count: usize = min_of_sizes(RIGHT_SIZE, RESULT_SIZE - LEFT_SIZE);
        let mut k: usize = 0;
        while k < right_count
            invariant
                LEFT_SIZE < RESULT_SIZE,
                right_count == min(RIGHT_SIZE as int, RESULT_SIZE - LEFT_SIZE),
                k <= right_count,
                forall|j: int| 0 <= j < LEFT_SIZE ==> buffer@[j] == left@[j],
                forall|j: int|
                    LEFT_SIZE <= j < LEFT_SIZE + k ==> buffer@[j] == right@[j - LEFT_SIZE],
                forall|j: int| LEFT_SIZE + k <= j < RESULT_SIZE ==> buffer@[j] == fill,
            decreases right_count - k,
        {
            buffer[LEFT_SIZE + k] = right[k];
            k += 1;
        }
    }
    assert(buffer@ =~= joined(left@, right@, fill, RESULT_SIZE as nat));
    buffer
}

/// Splice a sized array into two arrays.
///
/// The left array is filled first, from the start of `original`; the right
/// array takes the elements that follow. Where `original` is too short for
/// both, the remaining positions hold `fill`; elements of `original` beyond
/// both are dropped.
pub fn splice<T, const ORIGINAL_SIZE: usize, const LEFT_SIZE: usize, const RIGHT_SIZE: usize>(
    original: [T; ORIGINAL_SIZE],
    fill: T,
) -> (result: ([T; LEFT_SIZE], [T; RIGHT_SIZE])) where T: Copy
    ensures
        result.0@ == spliced_left(original@, fill, LEFT_SIZE as nat),
        result.1@ == spliced_right(original@, fill, LEFT_SIZE as nat, RIGHT_SIZE as nat),
{
    let mut left = [fill; LEFT_SIZE];
    let mut right = [fill; RIGHT_SIZE];

    let left_count: usize = min_of_sizes(LEFT_SIZE, ORIGINAL_SIZE);
    let mut i: usize = 0;
    while i < left_count
        invariant
            left_count == min(LEFT_SIZE as int, ORIGINAL_SIZE as int),
            i <= left_count,
            forall|j: int| 0 <= j < i ==> left@[j] == original@[j],
            forall|j: int| i <= j < LEFT_SIZE ==> left@[j] == fill,
        decreases left_count - i,
    {
        left[i] = original[i];
        i += 1;
    }

    if LEFT_SIZE < ORIGINAL_SIZE {
        let right_count: usize = min_of_sizes(RIGHT_SIZE, ORIGINAL_SIZE - LEFT_SIZE);
        let mut k: usize = 0;
        while k < right_count
            invariant
                LEFT_SIZE < ORIGINAL_SIZE,
                right_count == min(RIGHT_SIZE as int, ORIGINAL_SIZE - LEFT_SIZE),
                k <= right_count,
                forall|j: int| 0 <= j < k ==> right@[j] == original@[LEFT_SIZE + j],
                forall|j: int| k <= j < RIGHT_SIZE ==> right@[j] == fill,
            decreases right_count - k,
        {
            right[k] = original[LEFT_SIZE + k];
            k += 1;
        }
    }
    assert(left@ =~= spliced_left(original@, fill, LEFT_SIZE as nat));
    assert(right@ =~= spliced_right(original@, fill, LEFT_SIZE as nat, RIGHT_SIZE as nat));
    (left, right)
}

} // verus!
