#[test]
fn transpose_swaps_rows_and_columns() {
    let m: [[i32; 3]; 3] = [[0, 1, 2], [3, 4, 5], [6, 7, 8]];
    assert_eq!(soft::transpose3(m), [[0, 3, 6], [1, 4, 7], [2, 5, 8]]);
}

#[test]
fn transpose_of_2x2() {
    let m: [[i32; 2]; 2] = [[1, 2], [3, 4]];
    assert_eq!(soft::transpose2(m), [[1, 3], [2, 4]]);
}

#[test]
fn transpose_twice_is_identity() {
    let m: [[u64; 4]; 4] = [
        [1, 2, 3, 4],
        [5, 6, 7, 8],
        [9, 10, 11, 12],
        [13, 14, 15, 16],
    ];
    assert_eq!(soft::transpose4(soft::transpose4(m)), m);
}
