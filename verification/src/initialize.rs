//! Building an array from a generator that is asked for one element per index.
//!
//! A generator may be any function value. Its own `requires` and `ensures`
//! are what these contracts speak of: the library calls it at each index in
//! turn, from `0` upward, and says which of its answers ended up where.
//!
//! The generators that can end the generation early are asked for an index
//! only while no earlier answer has ended it. So they have to accept an index
//! only if each earlier index has some answer that lets the generation go on:
//! that is what the `accepts_until_*` predicates say.

use vstd::prelude::*;

verus! {

/// Whether `f` has an answer for `index` that `==` tells apart from `till`.
pub open spec fn can_yield_other_than<T, F>(f: F, index: usize, till: T) -> bool where
    T: PartialEq,
    F: Fn(usize) -> T,
{
    exists|value: T|
        #[trigger] call_ensures(f, (index,), value) && call_ensures(T::eq, (&value, &till), false)
}

/// Whether `f` has an answer for `index` that is a `Some`.
pub open spec fn can_yield_some<T, F>(f: F, index: usize) -> bool where
    F: Fn(usize) -> Option<T>,
{
    exists|value: T| #[trigger] call_ensures(f, (index,), Some(value))
}

/// Whether `f` has an answer for `index` that is an `Ok`.
pub open spec fn can_yield_ok<T, E, F>(f: F, index: usize) -> bool where
    F: Fn(usize) -> Result<T, E>,
{
    exists|value: T| #[trigger] call_ensures(f, (index,), Ok::<T, E>(value))
}

/// Whether `f` may be called at every index below `len` that a generation
/// ending at the first answer equal to `till` can get to.
pub open spec fn accepts_until_equal<T, F>(f: F, till: T, len: usize) -> bool where
    T: PartialEq,
    F: Fn(usize) -> T,
{
    forall|i: usize|
        i < len && (forall|j: usize| j < i ==> #[trigger] can_yield_other_than(f, j, till))
            ==> call_requires(f, (i,))
}

/// Whether `f` may be called at every index below `len` that a generation
/// ending at the first `None` can get to.
pub open spec fn accepts_until_none<T, F>(f: F, len: usize) -> bool where
    F: Fn(usize) -> Option<T>,
{
    forall|i: usize|
        i < len && (forall|j: usize| j < i ==> #[trigger] can_yield_some(f, j)) ==> call_requires(
            f,
            (i,),
        )
}

/// Whether `f` may be called at every index below `len` that a generation
/// ending at the first `Err` can get to.
pub open spec fn accepts_until_err<T, E, F>(f: F, len: usize) -> bool where
    F: Fn(usize) -> Result<T, E>,
{
    forall|i: usize|
        i < len && (forall|j: usize| j < i ==> #[trigger] can_yield_ok(f, j)) ==> call_requires(
            f,
            (i,),
        )
}

/// Initialize a sized array from a closure taking the index and outputting the
/// elements.
///
/// The element at each index is what `f` answered for that index.
pub fn initialize_from<T, F, const OUTPUT_SIZE: usize>(f: F) -> (result: [T; OUTPUT_SIZE]) where
    T: Copy + Default,
    F: Fn(usize) -> T,

    requires
        forall|i: usize| i < OUTPUT_SIZE ==> call_requires(f, (i,)),
    ensures
        forall|i: int|
            0 <= i < OUTPUT_SIZE ==> call_ensures(f, (i as usize,), #[trigger] result@[i]),
{
    let mut buffer = [T::default(); OUTPUT_SIZE];
    let mut i: usize = 0;
    while i < OUTPUT_SIZE
        invariant
            i <= OUTPUT_SIZE,
            forall|k: usize| k < OUTPUT_SIZE ==> call_requires(f, (k,)),
            forall|j: int| 0 <= j < i ==> call_ensures(f, (j as usize,), #[trigger] buffer@[j]),
        decreases OUTPUT_SIZE - i,
    {
        buffer[i] = f(i);
        i += 1;
    }
    buffer
}

/// Initialize a sized array from a closure till a certain value appears.
///
/// `f` is asked for the elements in turn. The first answer that equals `till`
/// ends the generation: it is not stored, and its index is returned beside the
/// array. From that index on the array holds `fill`. Where no answer equals
/// `till`, the index returned is `OUTPUT_SIZE`.
///
/// Answers are compared with `==`, so the contract speaks of what `T`'s `eq`
/// returns for them.
pub fn initialize_till<T, F, const OUTPUT_SIZE: usize>(f: F, till: T, fill: T) -> (result: (
    [T; OUTPUT_SIZE],
    usize,
)) where T: Copy + PartialEq, F: Fn(usize) -> T
    requires
        accepts_until_equal(f, till, OUTPUT_SIZE),
    ensures
        result.1 <= OUTPUT_SIZE,
        forall|i: int|
            0 <= i < result.1 ==> call_ensures(f, (i as usize,), #[trigger] result.0@[i]),
        forall|i: int|
            0 <= i < result.1 ==> call_ensures(T::eq, (&#[trigger] result.0@[i], &till), false),
        forall|i: int| result.1 <= i < OUTPUT_SIZE ==> result.0@[i] == fill,
        result.1 < OUTPUT_SIZE ==> exists|value: T|
            #[trigger] call_ensures(f, (result.1,), value) && call_ensures(
                T::eq,
                (&value, &till),
                true,
            ),
{
    let mut buffer = [fill; OUTPUT_SIZE];
    let mut i: usize = 0;
    while i < OUTPUT_SIZE
        invariant
            i <= OUTPUT_SIZE,
            accepts_until_equal(f, till, OUTPUT_SIZE),
            forall|j: usize| j < i ==> #[trigger] can_yield_other_than(f, j, till),
            forall|j: int| 0 <= j < i ==> call_ensures(f, (j as usize,), #[trigger] buffer@[j]),
            forall|j: int|
                0 <= j < i ==> call_ensures(T::eq, (&#[trigger] buffer@[j], &till), false),
            forall|j: int| i <= j < OUTPUT_SIZE ==> buffer@[j] == fill,
        decreases OUTPUT_SIZE - i,
    {
        let value = f(i);
        if value == till {
            return (buffer, i);
        }
        assert(can_yield_other_than(f, i, till));
        buffer[i] = value;
        i += 1;
    }
    (buffer, OUTPUT_SIZE)
}

/// Initialize a sized array from a closure taking the index and outputting an
/// `Option` of an element, stopping when the first `None` is encountered.
///
/// The index of that `None` is returned beside the array, and from that index
/// on the array holds `fill`. Where `f` never answers `None`, the index
/// returned is `OUTPUT_SIZE`.
pub fn initialize_from_option<T, F, const OUTPUT_SIZE: usize>(f: F, fill: T) -> (result: (
    [T; OUTPUT_SIZE],
    usize,
)) where T: Copy, F: Fn(usize) -> Option<T>
    requires
        accepts_until_none(f, OUTPUT_SIZE),
    ensures
        result.1 <= OUTPUT_SIZE,
        forall|i: int|
            0 <= i < result.1 ==> call_ensures(f, (i as usize,), Some(#[trigger] result.0@[i])),
        forall|i: int| result.1 <= i < OUTPUT_SIZE ==> result.0@[i] == fill,
        result.1 < OUTPUT_SIZE ==> call_ensures(f, (result.1,), None),
{
    let mut buffer = [fill; OUTPUT_SIZE];
    let mut i: usize = 0;
    while i < OUTPUT_SIZE
        invariant
            i <= OUTPUT_SIZE,
            accepts_until_none(f, OUTPUT_SIZE),
            forall|j: usize| j < i ==> #[trigger] can_yield_some(f, j),
            forall|j: int|
                0 <= j < i ==> call_ensures(f, (j as usize,), Some(#[trigger] buffer@[j])),
            forall|j: int| i <= j < OUTPUT_SIZE ==> buffer@[j] == fill,
        decreases OUTPUT_SIZE - i,
    {
        match f(i) {
            None => {
                return (buffer, i);
            },
            Some(value) => {
                assert(can_yield_some(f, i));
                buffer[i] = value;
            },
        }
        i += 1;
    }
    (buffer, OUTPUT_SIZE)
}

/// Initialize a sized array from a closure taking the index and outputting a
/// `Result` of an element, stopping when the first `Err` is encountered.
///
/// The index of that `Err` is returned beside the array, and from that index
/// on the array holds `fill`; what the `Err` carried is dropped. Where `f`
/// never answers `Err`, the index returned is `OUTPUT_SIZE`.
pub fn initialize_from_result<T, F, E, const OUTPUT_SIZE: usize>(f: F, fill: T) -> (result: (
    [T; OUTPUT_SIZE],
    usize,
)) where T: Copy, F: Fn(usize) -> Result<T, E>
    requires
        accepts_until_err(f, OUTPUT_SIZE),
    ensures
        result.1 <= OUTPUT_SIZE,
        forall|i: int|
            0 <= i < result.1 ==> call_ensures(f, (i as usize,), Ok(#[trigger] result.0@[i])),
        forall|i: int| result.1 <= i < OUTPUT_SIZE ==> result.0@[i] == fill,
        result.1 < OUTPUT_SIZE ==> exists|error: E|
            #[trigger] call_ensures(f, (result.1,), Err(error)),
{
    let mut buffer = [fill; OUTPUT_SIZE];
    let mut i: usize = 0;
    while i < OUTPUT_SIZE
        invariant
            i <= OUTPUT_SIZE,
            accepts_until_err(f, OUTPUT_SIZE),
            forall|j: usize| j < i ==> #[trigger] can_yield_ok(f, j),
            forall|j: int|
                0 <= j < i ==> call_ensures(f, (j as usize,), Ok(#[trigger] buffer@[j])),
            forall|j: int| i <= j < OUTPUT_SIZE ==> buffer@[j] == fill,
        decreases OUTPUT_SIZE - i,
    {
        let answer = f(i);
        match answer {
            Err(_) => {
                assert(call_ensures(f, (i,), Err::<T, E>(answer->Err_0)));
                return (buffer, i);
            },
            Ok(value) => {
                assert(can_yield_ok(f, i));
                buffer[i] = value;
            },
        }
        i += 1;
    }
    (buffer, OUTPUT_SIZE)
}

} // verus!
