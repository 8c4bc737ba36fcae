use densemat::helpers::errors::Error;
use densemat::structs::dense::matrix::{mat, Dense, Matrix};

fn cells(m: &Dense<i64>) -> Vec<i64> {
    m.data.as_ref().unwrap().values().clone()
}

fn shape(m: &Dense<i64>) -> (usize, usize) {
    let d = m.data.as_ref().unwrap();
    (d.rows(), d.cols())
}

fn three_by_three() -> Dense<i64> {
    mat(3, 3, vec![1, 2, 3, 4, 5, 6, 7, 8, 9])
}

#[test]
fn subscript_reads_row_major() {
    let m = three_by_three();
    assert_eq!(m[(1, 2)], 6);
    assert_eq!(m[(0, 0)], 1);
    assert_eq!(m[(2, 0)], 7);
}

#[test]
fn half_open_ranges_select_leading_block() {
    let m = three_by_three();
    let w = m.get(0..2, 0..2);
    assert_eq!(shape(&w), (2, 2));
    assert_eq!(cells(&w), vec![1, 2, 4, 5]);
}

#[test]
fn open_ended_ranges_select_trailing_block() {
    let m = three_by_three();
    let w = m.get(1.., 1..);
    assert_eq!(shape(&w), (2, 2));
    assert_eq!(cells(&w), vec![5, 6, 8, 9]);
}

#[test]
fn full_ranges_select_everything() {
    let m = three_by_three();
    let w = m.get(.., ..);
    assert_eq!(shape(&w), (3, 3));
    assert_eq!(cells(&w), cells(&m));
}

#[test]
fn inclusive_ranges_select_through_upper_bound() {
    let m = three_by_three();
    let w = m.get(0..=1, 0..=1);
    assert_eq!(shape(&w), (2, 2));
    assert_eq!(cells(&w), vec![1, 2, 4, 5]);
}

#[test]
fn inclusive_ranges_with_nonzero_start() {
    let m = three_by_three();
    let w = m.get(1..=2, 1..=1);
    assert_eq!(shape(&w), (2, 1));
    assert_eq!(cells(&w), vec![5, 8]);
}

#[test]
fn closed_right_ranges_select_from_origin() {
    let m = three_by_three();
    let w = m.get(..=1, ..=1);
    assert_eq!(shape(&w), (2, 2));
    assert_eq!(cells(&w), vec![1, 2, 4, 5]);
}

#[test]
fn ranges_to_extent_select_everything() {
    let m = three_by_three();
    let w = m.get(..3, ..3);
    assert_eq!(shape(&w), (3, 3));
    assert_eq!(cells(&w), cells(&m));
}

#[test]
fn single_indices_select_one_slot() {
    let m = three_by_three();
    let w = m.get(1, 2);
    assert_eq!(shape(&w), (1, 1));
    assert_eq!(cells(&w), vec![6]);
}

#[test]
fn scale_doubles_every_element() {
    let m = three_by_three().scale(2);
    assert_eq!(shape(&m), (3, 3));
    assert_eq!(cells(&m), vec![2, 4, 6, 8, 10, 12, 14, 16, 18]);
}

#[test]
fn matrix_product_of_rectangles() {
    let a = mat(2, 3, vec![1i64, 2, 3, 4, 5, 6]);
    let b = mat(3, 2, vec![7i64, 8, 9, 10, 11, 12]);
    let c = a * b;
    assert_eq!(shape(&c), (2, 2));
    assert_eq!(cells(&c), vec![58, 64, 139, 154]);
}

#[test]
fn pointwise_product_of_squares() {
    let a = mat(2, 2, vec![1i64, 2, 3, 4]);
    let b = mat(2, 2, vec![5i64, 6, 7, 8]);
    let c = a.p() * b;
    assert_eq!(shape(&c), (2, 2));
    assert_eq!(cells(&c), vec![5, 12, 21, 32]);
}

#[test]
fn sum_of_squares() {
    let a = mat(2, 2, vec![1i64, 2, 3, 4]);
    let b = mat(2, 2, vec![5i64, 6, 7, 8]);
    let c = a + b;
    assert_eq!(cells(&c), vec![6, 8, 10, 12]);
}

#[test]
fn difference_of_squares() {
    let a = mat(2, 2, vec![1i64, 2, 3, 4]);
    let b = mat(2, 2, vec![5i64, 6, 7, 8]);
    let c = a - b;
    assert_eq!(cells(&c), vec![-4, -4, -4, -4]);
}

#[test]
fn mismatched_sum_is_an_error_that_propagates() {
    let a = mat(2, 3, vec![1i64, 2, 3, 4, 5, 6]);
    let b = mat(2, 2, vec![1i64, 2, 3, 4]);
    let a_again = a.dup();
    let sum = a + b;
    assert!(sum.is_err());
    assert!(!sum.is_ok());
    assert_eq!(sum.data.as_ref().err(), Some(&Error::InvalidDimensions((2, 3), (2, 2))));
    let chained = sum * a_again;
    assert_eq!(chained.data.as_ref().err(), Some(&Error::InvalidDimensions((2, 3), (2, 2))));
}
