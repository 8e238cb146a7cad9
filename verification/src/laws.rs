//! How the operations relate to one another.
//!
//! Each law is stated over the sequences of [`crate::model`], which are what
//! the executable functions promise to return, so it holds of every call of
//! those functions.

use vstd::math::min;
use vstd::prelude::*;
use crate::model::{
    drifted_to_begin, drifted_to_end, filled, joined, resized, sliced, spliced_left,
    spliced_right, superimposed,
};

verus! {

/// A slice is made of source elements and fill alone: each of its `len`
/// positions holds either `fill` or the element of `original` at an index
/// that lies inside `from..till` and inside `original`.
pub proof fn lemma_slice_stays_in_bounds<T>(
    original: Seq<T>,
    from: nat,
    till: nat,
    fill: T,
    len: nat,
)
    ensures
        sliced(original, from as int, till as int, fill, len).len() == len,
        forall|j: int|
            #![trigger sliced(original, from as int, till as int, fill, len)[j]]
            0 <= j < len ==> {
                let element = sliced(original, from as int, till as int, fill, len)[j];
                element == fill || (from + j < min(till as int, original.len() as int) && element
                    == original[from + j])
            },
{
}

/// Resizing an array and resizing the result back to the first length keeps
/// every element at an index that both lengths have, whatever the two fill
/// values are. Where the length in between is not the shorter one, the whole
/// array comes back.
pub proof fn lemma_resize_round_trip<T>(array: Seq<T>, fill: T, any_fill: T, len: nat)
    ensures
        forall|j: int|
            0 <= j < min(array.len() as int, len as int) ==> #[trigger] resized(
                resized(array, fill, len),
                any_fill,
                array.len(),
            )[j] == array[j],
        len >= array.len() ==> resized(resized(array, fill, len), any_fill, array.len()) == array,
{
    if len >= array.len() {
        assert(resized(resized(array, fill, len), any_fill, array.len()) =~= array);
    }
}

/// Superimposing changes nothing outside the window that starts at `at` and is
/// as long as `sub_array`, and inside it, as far as it lies in `main`, the
/// result holds the elements of `sub_array` in order.
pub proof fn lemma_superimpose_touches_only_its_window<T>(
    main: Seq<T>,
    sub_array: Seq<T>,
    at: nat,
)
    ensures
        superimposed(main, sub_array, at as int).len() == main.len(),
        forall|j: int|
            0 <= j < main.len() && !(at <= j < at + sub_array.len()) ==> #[trigger] superimposed(
                main,
                sub_array,
                at as int,
            )[j] == main[j],
        forall|j: int|
            0 <= j < main.len() && at <= j < at + sub_array.len() ==> #[trigger] superimposed(
                main,
                sub_array,
                at as int,
            )[j] == sub_array[j - at],
{
}

/// Splicing a join at the length of its left part gives back both parts,
/// whatever the two fill values are, as long as the joined array had room for
/// both.
pub proof fn lemma_join_then_splice<T>(
    left: Seq<T>,
    right: Seq<T>,
    fill: T,
    any_fill: T,
    len: nat,
)
    requires
        len >= left.len() + right.len(),
    ensures
        spliced_left(joined(left, right, fill, len), any_fill, left.len()) == left,
        spliced_right(joined(left, right, fill, len), any_fill, left.len(), right.len())
            == right,
{
    let whole = joined(left, right, fill, len);
    assert(spliced_left(whole, any_fill, left.len()) =~= left);
    assert(spliced_right(whole, any_fill, left.len(), right.len()) =~= right);
}

/// Drifting to the beginning is slicing from `from` to the end into an array
/// of the same length, and superimposing that slice at `margin` on an array
/// of fill values.
pub proof fn lemma_drift_to_begin_is_slice_then_superimpose<T>(
    array: Seq<T>,
    from: nat,
    margin: nat,
    fill: T,
)
    ensures
        drifted_to_begin(array, from as int, margin as int, fill) == superimposed(
            filled(array.len(), fill),
            sliced(array, from as int, array.len() as int, fill, array.len()),
            margin as int,
        ),
{
    assert(drifted_to_begin(array, from as int, margin as int, fill) =~= superimposed(
        filled(array.len(), fill),
        sliced(array, from as int, array.len() as int, fill, array.len()),
        margin as int,
    ));
}

/// Drifting to the end is slicing the indices before `till` into an array of
/// the same length, and superimposing that slice on an array of fill values
/// so that index `till` of the slice meets the start of the margin. Where
/// `till` and `margin` together exceed the length, that offset is negative
/// and the head of the slice falls off the start.
pub proof fn lemma_drift_to_end_is_slice_then_superimpose<T>(
    array: Seq<T>,
    till: nat,
    margin: nat,
    fill: T,
)
    ensures
        drifted_to_end(array, till as int, margin as int, fill) == superimposed(
            filled(array.len(), fill),
            sliced(array, 0, till as int, fill, array.len()),
            array.len() - margin - till,
        ),
{
    assert(drifted_to_end(array, till as int, margin as int, fill) =~= superimposed(
        filled(array.len(), fill),
        sliced(array, 0, till as int, fill, array.len()),
        array.len() - margin - till,
    ));
}

} // verus!
