use array_utils::{
    array_resize, drift_to_begin, drift_to_end, initialize_from, initialize_from_option,
    initialize_from_result, initialize_till, join, sized_slice, splice, superimpose,
};

#[test]
fn init_from() {
    assert_eq!(initialize_from(|index| index), []);
    assert_eq!(initialize_from(|index| index), [0, 1, 2, 3, 4]);
    assert_eq!(initialize_from(|index| 2 * index), [0, 2, 4, 6, 8]);
    assert_eq!(initialize_from(|_| 1), [1; 20]);
    assert_eq!(initialize_from(|index| 5 + index), [5, 6, 7, 8, 9, 10]);
}

#[test]
fn init_till() {
    assert_eq!(
        initialize_till(|index| index, 4, 42),
        ([0, 1, 2, 3, 42, 42], 4)
    );
    assert_eq!(initialize_till(|index| index, 5, 42), ([0, 1, 2, 3, 4], 5));
    assert_eq!(
        initialize_till(|index| 2 * index, 8, 42),
        ([0, 2, 4, 6, 42], 4)
    );
    assert_eq!(initialize_till(|_| 1, 3, 42), ([1; 20], 20));
    assert_eq!(
        initialize_till(|index| 5 + index, 20, 42),
        ([5, 6, 7, 8, 9, 10], 6)
    );
}

#[test]
fn init_from_option() {
    assert_eq!(
        initialize_from_option(|index| if index == 10 { None } else { Some(index) }, 42),
        ([0, 1, 2, 3, 4, 5, 6, 7, 8, 9], 10)
    );
    assert_eq!(
        initialize_from_option(|index| if index == 10 { None } else { Some(index) }, 42),
        ([0, 1, 2, 3, 4, 5, 6, 7, 8, 9, 42, 42, 42, 42], 10)
    );
    assert_eq!(
        initialize_from_option(|index| if index > 4 { None } else { Some(index) }, 42),
        ([0, 1, 2, 3, 4, 42, 42, 42, 42], 5)
    );
}

#[test]
fn init_from_result() {
    assert_eq!(
        initialize_from_result(|index| if index == 10 { Err(()) } else { Ok(index) }, 42),
        ([0, 1, 2, 3, 4, 5, 6, 7, 8, 9], 10)
    );
    assert_eq!(
        initialize_from_result(|index| if index == 10 { Err(()) } else { Ok(index) }, 42),
        ([0, 1, 2, 3, 4, 5, 6, 7, 8, 9, 42, 42, 42, 42], 10)
    );
    assert_eq!(
        initialize_from_result(|index| if index > 4 { Err(()) } else { Ok(index) }, 42),
        ([0, 1, 2, 3, 4, 42, 42, 42, 42], 5)
    );
}

#[test]
fn drift_st() {
    assert_eq!(
        drift_to_begin(initialize_from(|index| index), 10, 2, 42),
        superimpose([42; 13], [10, 11, 12], 2)
    );
    assert_eq!(
        drift_to_begin(initialize_from(|index| index), 10, 0, 42),
        superimpose([42; 13], [10, 11, 12], 0)
    );
    assert_eq!(
        drift_to_begin(initialize_from(|index| index), 10, 1, 42),
        superimpose([42; 13], [10, 11, 12], 1)
    );
}

#[test]
fn drift_nd() {
    assert_eq!(
        drift_to_end(initialize_from(|index| index), 3, 2, 42),
        [42, 42, 0, 1, 2, 42, 42]
    );
    assert_eq!(
        drift_to_end(initialize_from(|index| index), 3, 0, 42),
        [42, 42, 0, 1, 2]
    );
    assert_eq!(
        drift_to_end(initialize_from(|index| index), 3, 1, 42),
        [0, 1, 2, 42]
    );
}

#[test]
fn arr_resize() {
    let array: [usize; 10] = initialize_from(|index| index);
    assert_eq!(array_resize(array, 42), [0, 1, 2, 3, 4, 5, 6, 7]);
    assert_eq!(
        array_resize(array, 42),
        [0, 1, 2, 3, 4, 5, 6, 7, 8, 9, 42, 42]
    );
}

#[test]
fn super_impose() {
    let array: [usize; 10] = initialize_from(|index| index);

    assert_eq!(
        superimpose(array, [0, 1, 2, 3], 4),
        [0, 1, 2, 3, 0, 1, 2, 3, 8, 9]
    );
    assert_eq!(
        superimpose(array, [0, 1, 2, 3], 8),
        [0, 1, 2, 3, 4, 5, 6, 7, 0, 1]
    );
    assert_eq!(superimpose(array, [0, 1, 2, 3], 10), array);
    assert_eq!(superimpose(array, [0, 1, 2, 3], 0), array);
}

#[test]
fn join_arrays() {
    assert_eq!(
        join([4, 5, 6, 7], [0, 1, 2, 3], 0),
        [4, 5, 6, 7, 0, 1, 2, 3]
    );
    assert_eq!(
        join([4, 5, 6, 7, 8], [0, 1, 2, 3], 0),
        [4, 5, 6, 7, 8, 0, 1, 2, 3]
    );
    assert_eq!(
        join([4, 5, 6, 7], [0, 1, 2, 3], 0),
        [4, 5, 6, 7, 0, 1, 2, 3, 0]
    );
}

#[test]
fn splice_arrays() {
    assert_eq!(
        splice([4, 5, 6, 7, 0, 1, 2, 3], 0),
        ([4, 5, 6, 7], [0, 1, 2, 3])
    );
    assert_eq!(
        splice([4, 5, 6, 7, 8, 0, 1, 2, 3], 0),
        ([4, 5, 6, 7, 8], [0, 1, 2, 3])
    );
    assert_eq!(
        splice([4, 5, 6, 7, 0, 1, 2, 3, 0], 0),
        ([4, 5, 6, 7], [0, 1, 2, 3])
    );
    assert_eq!(
        splice([4, 5, 6, 7, 0, 1, 2, 3, 0], 0),
        ([4, 5, 6, 7], [0, 1, 2, 3, 0, 0, 0, 0])
    );
}

#[test]
fn sized_slices() {
    assert_eq!(
        sized_slice([4, 5, 6, 7, 0, 1, 2, 3], 4, 8, 0),
        ([0, 1, 2, 3])
    );
    assert_eq!(
        sized_slice([4, 5, 6, 7, 0, 1, 2, 3], 4, 10, 0),
        ([0, 1, 2, 3, 0, 0])
    );
    assert_eq!(
        sized_slice([4, 5, 6, 7, 0, 1, 2, 3], 0, 10, 0),
        ([4, 5, 6, 7, 0, 1])
    );
}
