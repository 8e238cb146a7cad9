//! Writing one array over a part of another.

use vstd::math::min;
use vstd::prelude::*;
use crate::model::superimposed;
use crate::sizes::min_of_sizes;

verus! {

/// Superimpose a sized `sub_array` upon another `main_array` at index
/// `starting_from`.
///
/// The result is a copy of `main_array` in which the elements of `sub_array`
/// stand from index `starting_from` on. Elements of `sub_array` that do not
/// fit in the main array are dropped; with `starting_from` at or past the end
/// the result is `main_array` itself.
pub fn superimpose<T, const MAIN_SIZE: usize, const SUB_SIZE: usize>(
    main_array: [T; MAIN_SIZE],
    sub_array: [T; SUB_SIZE],
    starting_from: usize,
) -> (result: [T; MAIN_SIZE]) where T: Copy
    ensures
        result@ == superimposed(main_array@, sub_array@, starting_from as int),
        forall|j: int|
            0 <= j < MAIN_SIZE && !(starting_from <= j < starting_from + SUB_SIZE)
                ==> #[trigger] result@[j] == main_array@[j],
        starting_from >= MAIN_SIZE ==> result@ == main_array@,
{
    let mut buffer = main_array;
    if starting_from < MAIN_SIZE {
        let count: usize = min_of_sizes(SUB_SIZE, MAIN_SIZE - starting_from);
        let mut k: usize = 0;
        while k < count
            invariant
                starting_from < MAIN_SIZE,
                count == min(SUB_SIZE as int, MAIN_SIZE - starting_from),
                k <= count,
                forall|j: int| 0 <= j < starting_from ==> buffer@[j] == main_array@[j],
                forall|j: int|
                    starting_from <= j < starting_from + k ==> buffer@[j] == sub_array@[j
                        - starting_from],
                forall|j: int| starting_from + k <= j < MAIN_SIZE ==> buffer@[j] == main_array@[j],
            decreases count - k,
        {
            buffer[starting_from + k] = sub_array[k];
            k += 1;
        }
    }
    assert(buffer@ =~= superimposed(main_array@, sub_array@, starting_from as int));
    assert(starting_from >= MAIN_SIZE ==> buffer@ =~= main_array@);
    buffer
}

} // verus!
