use densemat::helpers::errors::Error;
use densemat::structs::dense::matrix::{
    mat, matadd, matmul, matsub, pointwisemul, Dense, DenseData, Matrix,
};

fn cells(m: &Dense<i32>) -> Vec<i32> {
    m.data.as_ref().unwrap().values().clone()
}

fn shape(m: &Dense<i32>) -> (usize, usize) {
    let d = m.data.as_ref().unwrap();
    (d.rows(), d.cols())
}

fn error(m: &Dense<i32>) -> Error {
    *m.data.as_ref().err().unwrap()
}

fn sample() -> Dense<i32> {
    mat(2, 3, vec![1, -2, 3, 4, 5, -6])
}

#[test]
fn new_matrix_reads_zero_everywhere() {
    let m: Dense<i32> = Dense::new(3, 4);
    assert_eq!(shape(&m), (3, 4));
    for i in 0..3 {
        for j in 0..4 {
            assert_eq!(m[(i, j)], 0);
        }
    }
    let d = m.data.as_ref().unwrap();
    assert!(!d.is_transposed());
    assert!(!d.is_pointwise());
}

#[test]
fn new_matrix_of_one_slot() {
    let m: Dense<u8> = Dense::new(1, 1);
    assert_eq!(m.data.as_ref().unwrap().values().clone(), vec![0u8]);
}

#[test]
fn from_values_keeps_shape_and_order() {
    let d = DenseData::from_values(2, 2, vec![9u16, 8, 7, 6]);
    assert_eq!(d.rows(), 2);
    assert_eq!(d.cols(), 2);
    assert_eq!(d[(0, 1)], 8);
    assert_eq!(d[(1, 0)], 7);
    assert!(!d.is_transposed());
    assert!(!d.is_pointwise());
}

#[test]
fn get_bounds_resolves_against_shape() {
    let d = DenseData::from_values(3, 4, vec![0u8; 12]);
    assert_eq!(d.get_bounds(1.., 2..), ((1, 3), (2, 4)));
    assert_eq!(d.get_bounds(..2, ..3), ((0, 2), (0, 3)));
    assert_eq!(d.get_bounds(0..=2, 1..=1), ((0, 3), (1, 2)));
    assert_eq!(d.get_bounds(2, 3), ((2, 3), (3, 4)));
    assert_eq!(d.get_bounds(.., ..), ((0, 3), (0, 4)));
}

#[test]
fn duplicate_equals_its_source() {
    let m = sample().p();
    let d = m.dup();
    assert_eq!(shape(&d), shape(&m));
    assert_eq!(cells(&d), cells(&m));
    assert!(!d.data.as_ref().unwrap().is_pointwise());
    assert!(m.data.as_ref().unwrap().is_pointwise());
}

#[test]
fn mutating_duplicate_leaves_its_source() {
    let m = sample();
    let mut d = m.dup().scale(10);
    *d.index_mut((0, 0)) = 77;
    assert_eq!(cells(&d), vec![77, -20, 30, 40, 50, -60]);
    assert_eq!(cells(&m), vec![1, -2, 3, 4, 5, -6]);
}

#[test]
fn duplicate_of_error_is_that_error() {
    let e: Dense<i32> = Dense::err(Error::InvalidDimensions((1, 2), (3, 4)));
    assert_eq!(error(&e.dup()), Error::InvalidDimensions((1, 2), (3, 4)));
}

#[test]
fn window_reads_as_offset_into_its_source() {
    let m = mat(4, 5, (0..20).collect::<Vec<i32>>());
    let w = m.get(1..3, 2..5);
    assert_eq!(shape(&w), (2, 3));
    for i in 0..2 {
        for j in 0..3 {
            assert_eq!(w[(i, j)], m[(1 + i, 2 + j)]);
        }
    }
}

#[test]
fn window_clears_flags() {
    let m = sample().p();
    let w = m.get(.., ..);
    assert!(!w.data.as_ref().unwrap().is_pointwise());
}

#[test]
fn window_of_error_is_that_error() {
    let e: Dense<i32> = Dense::err(Error::InvalidDimensions((1, 2), (3, 4)));
    assert_eq!(error(&e.get(5, 9)), Error::InvalidDimensions((1, 2), (3, 4)));
}

#[test]
fn scaling_twice_is_scaling_by_product() {
    let twice = sample().scale(3).scale(-7);
    let once = sample().scale(-21);
    assert_eq!(cells(&twice), cells(&once));
    assert_eq!(cells(&once), vec![-21, 42, -63, -84, -105, 126]);
}

#[test]
fn shifting_twice_is_shifting_by_sum() {
    let twice = sample().shift(3).shift(-7);
    let once = sample().shift(-4);
    assert_eq!(cells(&twice), cells(&once));
    assert_eq!(cells(&once), vec![-3, -6, -1, 0, 1, -10]);
}

#[test]
fn scale_and_shift_keep_flags() {
    let m = sample().p().scale(2).shift(1);
    assert!(m.data.as_ref().unwrap().is_pointwise());
    assert_eq!(cells(&m), vec![3, -3, 7, 9, 11, -11]);
}

#[test]
fn scale_and_shift_pass_errors_on() {
    let e: Dense<i32> = Dense::err(Error::InvalidDimensions((1, 2), (3, 4)));
    let e = e.scale(2).shift(3).p().t();
    assert_eq!(error(&e), Error::InvalidDimensions((1, 2), (3, 4)));
}

#[test]
fn add_kernel_adds_slot_by_slot() {
    let a = sample();
    let b = mat(2, 3, vec![10, 20, 30, 40, 50, 60]);
    let c = matadd(a.data.as_ref().unwrap(), b.data.as_ref().unwrap());
    assert_eq!(shape(&c), (2, 3));
    for i in 0..2 {
        for j in 0..3 {
            assert_eq!(c[(i, j)], a[(i, j)] + b[(i, j)]);
        }
    }
}

#[test]
fn add_kernel_rejects_unequal_shapes() {
    let a = sample();
    let b = mat(3, 2, vec![1, 2, 3, 4, 5, 6]);
    let c = matadd(a.data.as_ref().unwrap(), b.data.as_ref().unwrap());
    assert_eq!(error(&c), Error::InvalidDimensions((2, 3), (3, 2)));
}

#[test]
fn sub_kernel_subtracts_slot_by_slot() {
    let a = sample();
    let b = mat(2, 3, vec![10, 20, 30, 40, 50, 60]);
    let c = matsub(a.data.as_ref().unwrap(), b.data.as_ref().unwrap());
    assert_eq!(cells(&c), vec![-9, -22, -27, -36, -45, -66]);
}

#[test]
fn sub_kernel_rejects_unequal_shapes() {
    let a = sample();
    let b = mat(2, 2, vec![1, 2, 3, 4]);
    let c = matsub(a.data.as_ref().unwrap(), b.data.as_ref().unwrap());
    assert_eq!(error(&c), Error::InvalidDimensions((2, 3), (2, 2)));
}

#[test]
fn pointwise_kernel_rejects_unequal_shapes() {
    let a = sample();
    let b = mat(3, 2, vec![1, 2, 3, 4, 5, 6]);
    let c = pointwisemul(a.data.as_ref().unwrap(), b.data.as_ref().unwrap());
    assert_eq!(error(&c), Error::InvalidDimensions((2, 3), (3, 2)));
}

#[test]
fn matmul_has_outer_shape_and_sums_products() {
    let a = mat(2, 3, vec![1, 2, 3, 4, 5, 6]);
    let b = mat(3, 4, (1..=12).collect::<Vec<i32>>());
    let c = matmul(a.data.as_ref().unwrap(), b.data.as_ref().unwrap());
    assert_eq!(shape(&c), (2, 4));
    for i in 0..2 {
        for j in 0..4 {
            let mut sum = 0;
            for k in 0..3 {
                sum += a[(i, k)] * b[(k, j)];
            }
            assert_eq!(c[(i, j)], sum);
        }
    }
    assert_eq!(cells(&c), vec![38, 44, 50, 56, 83, 98, 113, 128]);
}

#[test]
fn matmul_rejects_unequal_inner_lengths() {
    let a = mat(2, 3, vec![1, 2, 3, 4, 5, 6]);
    let b = mat(2, 3, vec![1, 2, 3, 4, 5, 6]);
    let c = a * b;
    assert_eq!(error(&c), Error::InvalidDimensions((0, 3), (2, 0)));
}

#[test]
fn matmul_result_has_clear_flags() {
    let a = mat(2, 2, vec![1, 2, 3, 4]).t();
    let b = mat(2, 2, vec![1, 0, 0, 1]);
    let c = a * b;
    assert!(!c.data.as_ref().unwrap().is_transposed());
    assert_eq!(cells(&c), vec![1, 3, 2, 4]);
}

#[test]
fn pointwise_on_the_left_selects_elementwise_product() {
    let a = mat(2, 2, vec![1, 2, 3, 4]);
    let b = mat(2, 2, vec![5, 6, 7, 8]);
    assert_eq!(cells(&(a.p() * b)), vec![5, 12, 21, 32]);
}

#[test]
fn pointwise_on_the_right_selects_elementwise_product() {
    let a = mat(2, 2, vec![1, 2, 3, 4]);
    let b = mat(2, 2, vec![5, 6, 7, 8]);
    assert_eq!(cells(&(a * b.p())), vec![5, 12, 21, 32]);
}

#[test]
fn unmarked_squares_multiply_as_matrices() {
    let a = mat(2, 2, vec![1, 2, 3, 4]);
    let b = mat(2, 2, vec![5, 6, 7, 8]);
    assert_eq!(cells(&(a * b)), vec![19, 22, 43, 50]);
}

#[test]
fn pointwise_rejects_shapes_that_matmul_accepts() {
    let a = mat(2, 3, vec![1, 2, 3, 4, 5, 6]);
    let b = mat(3, 2, vec![1, 2, 3, 4, 5, 6]);
    let c = a.p() * b;
    assert_eq!(error(&c), Error::InvalidDimensions((2, 3), (3, 2)));
}

#[test]
fn pointwise_mark_is_sticky() {
    let a = mat(2, 2, vec![1, 2, 3, 4]).p().p().scale(1);
    assert!(a.data.as_ref().unwrap().is_pointwise());
}

#[test]
fn left_error_is_the_result() {
    let l: Dense<i32> = Dense::err(Error::InvalidDimensions((1, 1), (2, 2)));
    let r = sample();
    assert_eq!(error(&(l + r)), Error::InvalidDimensions((1, 1), (2, 2)));
    let l: Dense<i32> = Dense::err(Error::InvalidDimensions((1, 1), (2, 2)));
    assert_eq!(error(&(l - sample())), Error::InvalidDimensions((1, 1), (2, 2)));
    let l: Dense<i32> = Dense::err(Error::InvalidDimensions((1, 1), (2, 2)));
    assert_eq!(error(&(l * sample())), Error::InvalidDimensions((1, 1), (2, 2)));
}

#[test]
fn right_error_is_the_result() {
    let e = Error::InvalidDimensions((3, 3), (4, 4));
    assert_eq!(error(&(sample() + Dense::err(e))), e);
    assert_eq!(error(&(sample() - Dense::err(e))), e);
    assert_eq!(error(&(sample() * Dense::err(e))), e);
}

#[test]
fn left_error_wins_over_right_error() {
    let l = Error::InvalidDimensions((1, 1), (2, 2));
    let r = Error::InvalidDimensions((3, 3), (4, 4));
    assert_eq!(error(&(Dense::<i32>::err(l) + Dense::err(r))), l);
    assert_eq!(error(&(Dense::<i32>::err(l) - Dense::err(r))), l);
    assert_eq!(error(&(Dense::<i32>::err(l) * Dense::err(r))), l);
}

#[test]
fn transposing_square_swaps_indices() {
    let m = mat(3, 3, vec![1, 2, 3, 4, 5, 6, 7, 8, 9]);
    let t = m.dup().t();
    assert_eq!(shape(&t), (3, 3));
    for i in 0..3 {
        for j in 0..3 {
            assert_eq!(t[(i, j)], m[(j, i)]);
        }
    }
    assert!(t.data.as_ref().unwrap().is_transposed());
}

#[test]
fn transposing_square_twice_restores_it() {
    let m = mat(3, 3, vec![1, 2, 3, 4, 5, 6, 7, 8, 9]);
    let back = m.dup().t().t();
    assert_eq!(cells(&back), cells(&m));
    assert_eq!(shape(&back), (3, 3));
    assert!(!back.data.as_ref().unwrap().is_transposed());
}

#[test]
fn transposing_keeps_pointwise_mark() {
    let m = mat(2, 2, vec![1, 2, 3, 4]).p().t();
    assert!(m.data.as_ref().unwrap().is_pointwise());
    assert!(m.data.as_ref().unwrap().is_transposed());
}

#[test]
fn transposing_single_row_relabels_it() {
    let m = mat(1, 4, vec![1, 2, 3, 4]).t();
    assert_eq!(shape(&m), (4, 1));
    assert_eq!(cells(&m), vec![1, 2, 3, 4]);
}

#[test]
fn transposing_single_column_relabels_it() {
    let m = mat(4, 1, vec![1, 2, 3, 4]).t();
    assert_eq!(shape(&m), (1, 4));
    assert_eq!(cells(&m), vec![1, 2, 3, 4]);
}

#[test]
fn transposing_tall_matrix_swaps_indices() {
    let m = mat(3, 2, vec![1, 2, 3, 4, 5, 6]);
    let t = m.dup().t();
    assert_eq!(shape(&t), (2, 3));
    assert_eq!(cells(&t), vec![1, 3, 5, 2, 4, 6]);
    assert_eq!(t[(0, 2)], 5);
    for i in 0..3 {
        for j in 0..2 {
            assert_eq!(t[(j, i)], m[(i, j)]);
        }
    }
}

#[test]
fn transposing_wide_matrix_swaps_indices() {
    let m = mat(2, 3, vec![1, 2, 3, 4, 5, 6]);
    let t = m.dup().t();
    assert_eq!(shape(&t), (3, 2));
    assert_eq!(cells(&t), vec![1, 4, 2, 5, 3, 6]);
    for i in 0..2 {
        for j in 0..3 {
            assert_eq!(t[(j, i)], m[(i, j)]);
        }
    }
}

#[test]
fn transposing_rectangle_twice_restores_it() {
    let m = mat(2, 3, vec![1, 2, 3, 4, 5, 6]);
    let back = m.dup().t().t();
    assert_eq!(shape(&back), (2, 3));
    assert_eq!(cells(&back), cells(&m));
    assert!(!back.data.as_ref().unwrap().is_transposed());
}

#[test]
fn transposing_single_slot_changes_nothing_but_the_flag() {
    let m = mat(1, 1, vec![5]).t();
    assert_eq!(shape(&m), (1, 1));
    assert_eq!(cells(&m), vec![5]);
    assert!(m.data.as_ref().unwrap().is_transposed());
}

#[test]
fn subscript_writes_one_slot() {
    let mut m = sample();
    *m.index_mut((1, 1)) = 50;
    assert_eq!(cells(&m), vec![1, -2, 3, 4, 50, -6]);
    let mut d = DenseData::from_values(2, 2, vec![1u8, 2, 3, 4]);
    *d.index_mut((0, 1)) = 9;
    assert_eq!(d.values().clone(), vec![1u8, 9, 3, 4]);
}

#[test]
fn matrix_renders_as_grid() {
    let m = sample();
    assert_eq!(m.render(), "1 -2 3 \n4 5 -6 \n");
    assert_eq!(m.data.as_ref().unwrap().render(), "1 -2 3 \n4 5 -6 \n");
}

#[test]
fn error_renders_as_its_message() {
    let e: Dense<i32> = Dense::err(Error::InvalidDimensions((1, 2), (3, 4)));
    assert_eq!(e.render(), "Invalid dimensions");
    assert_eq!(Error::InvalidDimensions((1, 2), (3, 4)).render(), "Invalid dimensions");
}
