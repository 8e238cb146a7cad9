//! Changing an array's length, and cutting a window out of it.

use vstd::math::min;
use vstd::prelude::*;
use crate::model::{resized, sliced};
use crate::sizes::min_of_sizes;

verus! {

/// Resize a sized array to a different size.
///
/// The leading elements of `array` are copied over. A longer result is padded
/// with `fill`; a shorter one drops the trailing elements of `array`.
pub fn array_resize<T, const INPUT_SIZE: usize, const OUTPUT_SIZE: usize>(
    array: [T; INPUT_SIZE],
    fill: T,
) -> (result: [T; OUTPUT_SIZE]) where T: Copy
    ensures
        result@ == resized(array@, fill, OUTPUT_SIZE as nat),
{
    let mut buffer = [fill; OUTPUT_SIZE];
    let count: usize = min_of_sizes(INPUT_SIZE, OUTPUT_SIZE);
    let mut i: usize = 0;
    while i < count
        invariant
            count == min(INPUT_SIZE as int, OUTPUT_SIZE as int),
            i <= count,
            forall|j: int| 0 <= j < i ==> buffer@[j] == array@[j],
            forall|j: int| i <= j < OUTPUT_SIZE ==> buffer@[j] == fill,
        decreases count - i,
    {
        buffer[i] = array[i];
        i += 1;
    }
    assert(buffer@ =~= resized(array@, fill, OUTPUT_SIZE as nat));
    buffer
}

/// Create a sized slice of an array.
///
/// The result starts with the elements of `original` at the indices
/// `from..till`, as far as `original` has them and the result has room.
/// Every other position of the result holds `fill`.
pub fn sized_slice<T, const ORIGINAL_SIZE: usize, const SLICE_SIZE: usize>(
    original: [T; ORIGINAL_SIZE],
    from: usize,
    till: usize,
    fill: T,
) -> (result: [T; SLICE_SIZE]) where T: Copy
    ensures
        result@ == sliced(original@, from as int, till as int, fill, SLICE_SIZE as nat),
        forall|j: int|
            #![trigger result@[j]]
            0 <= j < SLICE_SIZE ==> result@[j] == fill || (from + j < min(
                till as int,
                ORIGINAL_SIZE as int,
            ) && result@[j] == original@[from + j]),
{
    let mut buffer = [fill; SLICE_SIZE];
    let end: usize = min_of_sizes(till, ORIGINAL_SIZE);
    if from < end {
        let count: usize = min_of_sizes(end - from, SLICE_SIZE);
        let mut k: usize = 0;
        while k < count
            invariant
                end == min(till as int, ORIGINAL_SIZE as int),
                from < end,
                count == min(end - from, SLICE_SIZE as int),
                k <= count,
                forall|j: int| 0 <= j < k ==> buffer@[j] == original@[from + j],
                forall|j: int| k <= j < SLICE_SIZE ==> buffer@[j] == fill,
            decreases count - k,
        {
            buffer[k] = original[from + k];
            k += 1;
        }
    }
    assert(buffer@ =~= sliced(original@, from as int, till as int, fill, SLICE_SIZE as nat));
    buffer
}

} // verus!
