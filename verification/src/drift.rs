//! Moving a leading or trailing part of an array to the other side.

use vstd::math::min;
use vstd::prelude::*;
use crate::model::{drifted_to_begin, drifted_to_end, filled};
use crate::sizes::min_of_sizes;

verus! {

/// Create an array containing a leading part of `array` at the end of the
/// array.
///
/// The elements of `array` at the indices `..till` are moved towards the end
/// of the result, with `margin` positions after them. The element at source
/// index `i` lands at index `SIZE - margin - till + i`; an element for which
/// that index lies before the start is dropped, and a source index that
/// `array` does not have gives no element. Every position that no element
/// reaches holds `fill`.
///
/// With `till` equal to `0`, or `margin` at least `SIZE`, the result is
/// `[fill; SIZE]`.
pub fn drift_to_end<T, const SIZE: usize>(
    array: [T; SIZE],
    till: usize,
    margin: usize,
    fill: T,
) -> (result: [T; SIZE]) where T: Copy
    ensures
        result@ == drifted_to_end(array@, till as int, margin as int, fill),
        till == 0 || margin >= SIZE ==> result@ == filled(SIZE as nat, fill),
{
    let mut buffer = [fill; SIZE];
    if margin < SIZE {
        let room: usize = SIZE - margin;
        let first: usize = if till <= room {
            0
        } else {
            till - room
        };
        let target: usize = if till <= room {
            room - till
        } else {
            0
        };
        let end: usize = min_of_sizes(till, SIZE);
        if first < end {
            let count: usize = end - first;
            let mut k: usize = 0;
            while k < count
                invariant
                    margin < SIZE,
                    end == min(till as int, SIZE as int),
                    first < end,
                    count == end - first,
                    target - first == SIZE - margin - till,
                    k <= count,
                    forall|j: int|
                        target <= j < target + k ==> buffer@[j] == array@[j - target + first],
                    forall|j: int| 0 <= j < target ==> buffer@[j] == fill,
                    forall|j: int| target + k <= j < SIZE ==> buffer@[j] == fill,
                decreases count - k,
            {
                buffer[target + k] = array[first + k];
                k += 1;
            }
        }
    }
    assert(buffer@ =~= drifted_to_end(array@, till as int, margin as int, fill));
    assert(till == 0 || margin >= SIZE ==> buffer@ =~= filled(SIZE as nat, fill));
    buffer
}

/// Create an array containing a trailing part of `array` at the beginning of
/// the array.
///
/// The elements of `array` at the indices `from..` are moved towards the
/// start of the result, with `margin` positions before them. Elements that
/// would land past the end are dropped, and every position that no element
/// reaches holds `fill`.
///
/// With `from` or `margin` at least `SIZE` the result is `[fill; SIZE]`.
pub fn drift_to_begin<T, const SIZE: usize>(
    array: [T; SIZE],
    from: usize,
    margin: usize,
    fill: T,
) -> (result: [T; SIZE]) where T: Copy
    ensures
        result@ == drifted_to_begin(array@, from as int, margin as int, fill),
        from >= SIZE || margin >= SIZE ==> result@ == filled(SIZE as nat, fill),
{
    let mut buffer = [fill; SIZE];
    if from < SIZE && margin < SIZE {
        let count: usize = min_of_sizes(SIZE - from, SIZE - margin);
        let mut k: usize = 0;
        while k < count
            invariant
                from < SIZE,
                margin < SIZE,
                count == min(SIZE - from, SIZE - margin),
                k <= count,
                forall|j: int|
                    margin <= j < margin + k ==> buffer@[j] == array@[from + (j - margin)],
                forall|j: int| 0 <= j < margin ==> buffer@[j] == fill,
                forall|j: int| margin + k <= j < SIZE ==> buffer@[j] == fill,
            decreases count - k,
        {
            buffer[margin + k] = array[from + k];
            k += 1;
        }
    }
    assert(buffer@ =~= drifted_to_begin(array@, from as int, margin as int, fill));
    assert(from >= SIZE || margin >= SIZE ==> buffer@ =~= filled(SIZE as nat, fill));
    buffer
}

} // verus!
