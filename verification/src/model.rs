//! The mathematical meaning of each operation, on `Seq`.
//!
//! An array `[T; N]` is viewed as a `Seq<T>` of length `N`. Lengths that the
//! executable functions take as const generics are ordinary arguments here.

use vstd::math::min;
use vstd::prelude::*;

verus! {

/// `len` copies of `fill`.
pub open spec fn filled<T>(len: nat, fill: T) -> Seq<T> {
    Seq::new(len, |j: int| fill)
}

/// `array` cut or padded with `fill` to exactly `len` elements.
pub open spec fn resized<T>(array: Seq<T>, fill: T, len: nat) -> Seq<T> {
    Seq::new(
        len,
        |j: int|
            if j < array.len() {
                array[j]
            } else {
                fill
            },
    )
}

/// The elements of `original` at the indices `from..till`, as far as they
/// exist, at the start of a sequence of `len` elements; `fill` elsewhere.
pub open spec fn sliced<T>(original: Seq<T>, from: int, till: int, fill: T, len: nat) -> Seq<T> {
    Seq::new(
        len,
        |j: int|
            if 0 <= from + j < min(till, original.len() as int) {
                original[from + j]
            } else {
                fill
            },
    )
}

/// `main` with the elements of `sub_array` written over it from index `at` on.
/// Elements of `sub_array` that would land outside `main` are dropped.
pub open spec fn superimposed<T>(main: Seq<T>, sub_array: Seq<T>, at: int) -> Seq<T> {
    Seq::new(
        main.len(),
        |j: int|
            if at <= j < at + sub_array.len() {
                sub_array[j - at]
            } else {
                main[j]
            },
    )
}

/// `left` followed by `right`, cut or padded with `fill` to `len` elements.
pub open spec fn joined<T>(left: Seq<T>, right: Seq<T>, fill: T, len: nat) -> Seq<T> {
    resized(left + right, fill, len)
}

/// The left part of a splice: the first `left_len` elements of `original`,
/// padded with `fill` where `original` is shorter.
pub open spec fn spliced_left<T>(original: Seq<T>, fill: T, left_len: nat) -> Seq<T> {
    resized(original, fill, left_len)
}

/// The right part of a splice: the `right_len` elements of `original` that
/// follow the first `left_len`, padded with `fill` where `original` ends
/// before them.
pub open spec fn spliced_right<T>(
    original: Seq<T>,
    fill: T,
    left_len: nat,
    right_len: nat,
) -> Seq<T> {
    sliced(original, left_len as int, original.len() as int, fill, right_len)
}

/// The elements of `array` from index `from` on, moved so that the first of
/// them stands at index `margin`. The result is as long as `array`; elements
/// that would land past its end are dropped, and `fill` stands elsewhere.
pub open spec fn drifted_to_begin<T>(array: Seq<T>, from: int, margin: int, fill: T) -> Seq<T> {
    Seq::new(
        array.len(),
        |j: int|
            if margin <= j && 0 <= from + (j - margin) < array.len() {
                array[from + (j - margin)]
            } else {
                fill
            },
    )
}

/// The elements of `array` before index `till`, moved so that the element at
/// source index `i` stands at index `array.len() - margin - till + i`: the
/// element at `till - 1` lands `margin` places before the end. The result is
/// as long as `array`. A source index that `array` does not have gives no
/// element, an element whose target lies before the start is dropped, and
/// `fill` stands elsewhere.
pub open spec fn drifted_to_end<T>(array: Seq<T>, till: int, margin: int, fill: T) -> Seq<T> {
    Seq::new(
        array.len(),
        |j: int|
            {
                let i = j - (array.len() - margin - till);
                if 0 <= i < min(till, array.len() as int) {
                    array[i]
                } else {
                    fill
                }
            },
    )
}

} // verus!
