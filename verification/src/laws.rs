//! What holds of the operations on matrices, whatever the operands.
//!
//! The executable functions are specified by equations between models, such as
//! `m.model() == Ok(g.scaled(s))`. The theorems below say what those models
//! are, slot by slot, and how the operations combine.
use crate::helpers::errors::Error;
use crate::helpers::traits::{LawfulNumerical, Numerical};
use crate::model::{
    add_outcomes, lemma_offset_in_block, lemma_offset_split, mul_outcomes, sub_outcomes, Grid,
    Outcome,
};
use vstd::prelude::*;

verus! {

/// A tabulated grid is well formed, has the shape asked for, and holds
/// `f(i, j)` in the slot of row `i` and column `j`.
pub proof fn lemma_tabulate<T>(rows: nat, cols: nat, f: spec_fn(int, int) -> T)
    requires
        rows >= 1,
        cols >= 1,
    ensures
        Grid::tabulate(rows, cols, f).wf(),
        Grid::tabulate(rows, cols, f).rows == rows,
        Grid::tabulate(rows, cols, f).cols == cols,
        forall|i: int, j: int|
            0 <= i < rows && 0 <= j < cols ==> #[trigger] Grid::tabulate(rows, cols, f).at(i, j)
                == f(i, j),
{
    let g = Grid::tabulate(rows, cols, f);
    assert forall|i: int, j: int| 0 <= i < rows && 0 <= j < cols implies #[trigger] g.at(i, j)
        == f(i, j) by {
        lemma_offset_in_block(i, j, rows as int, cols as int);
    }
}

/// Two well-formed grids of one shape that agree in every slot and in both
/// flags are the same grid.
pub proof fn lemma_grids_equal<T>(a: Grid<T>, b: Grid<T>)
    requires
        a.wf(),
        b.wf(),
        a.same_shape(b),
        a.transposed == b.transposed,
        a.pointwise == b.pointwise,
        forall|i: int, j: int| a.has(i, j) ==> a.at(i, j) == b.at(i, j),
    ensures
        a == b,
{
    assert forall|k: int| 0 <= k < a.cells.len() implies a.cells[k] == b.cells[k] by {
        lemma_offset_split(k, a.rows as int, a.cols as int);
        let i = k / (a.cols as int);
        let j = k % (a.cols as int);
        assert(a.at(i, j) == b.at(i, j));
    }
    assert(a.cells =~= b.cells);
}

/// A freshly made matrix is well formed, has the shape asked for, has both
/// flags clear and reads as zero in every slot.
pub proof fn lemma_zeros<T: Numerical>(rows: nat, cols: nat)
    requires
        rows >= 1,
        cols >= 1,
    ensures
        Grid::<T>::zeros(rows, cols).wf(),
        Grid::<T>::zeros(rows, cols).rows == rows,
        Grid::<T>::zeros(rows, cols).cols == cols,
        !Grid::<T>::zeros(rows, cols).transposed,
        !Grid::<T>::zeros(rows, cols).pointwise,
        forall|i: int, j: int|
            0 <= i < rows && 0 <= j < cols ==> #[trigger] Grid::<T>::zeros(rows, cols).at(i, j)
                == T::spec_zero(),
{
    let g = Grid::<T>::zeros(rows, cols);
    assert forall|i: int, j: int| 0 <= i < rows && 0 <= j < cols implies #[trigger] g.at(i, j)
        == T::spec_zero() by {
        lemma_offset_in_block(i, j, rows as int, cols as int);
    }
}

/// A duplicate has the shape of its source and equals it slot by slot; its
/// flags are clear.
pub proof fn lemma_fresh<T>(g: Grid<T>)
    ensures
        g.fresh().same_shape(g),
        g.fresh().wf() == g.wf(),
        !g.fresh().transposed,
        !g.fresh().pointwise,
        forall|i: int, j: int| #[trigger] g.fresh().at(i, j) == g.at(i, j),
{
}

/// The rows `r0..r1` and columns `c0..c1` of a matrix form a matrix of shape
/// `(r1 - r0, c1 - c0)` whose slot `(i, j)` holds what the slot
/// `(r0 + i, c0 + j)` of the matrix holds.
pub proof fn lemma_window<T>(g: Grid<T>, r0: int, r1: int, c0: int, c1: int)
    requires
        0 <= r0 < r1 <= g.rows,
        0 <= c0 < c1 <= g.cols,
    ensures
        g.window(r0, r1, c0, c1).wf(),
        g.window(r0, r1, c0, c1).rows == r1 - r0,
        g.window(r0, r1, c0, c1).cols == c1 - c0,
        !g.window(r0, r1, c0, c1).transposed,
        !g.window(r0, r1, c0, c1).pointwise,
        forall|i: int, j: int|
            0 <= i < r1 - r0 && 0 <= j < c1 - c0 ==> #[trigger] g.window(r0, r1, c0, c1).at(i, j)
                == g.at(r0 + i, c0 + j),
{
    lemma_tabulate((r1 - r0) as nat, (c1 - c0) as nat, |i: int, j: int| g.at(r0 + i, c0 + j));
}

/// Selecting everything gives the matrix itself, with its flags cleared.
pub proof fn lemma_window_whole<T>(g: Grid<T>)
    requires
        g.wf(),
    ensures
        g.window(0, g.rows as int, 0, g.cols as int) == g.fresh(),
{
    lemma_window(g, 0, g.rows as int, 0, g.cols as int);
    lemma_grids_equal(g.window(0, g.rows as int, 0, g.cols as int), g.fresh());
}

/// Scaling reads, slot by slot, as the product of the element and the factor.
pub proof fn lemma_scaled<T: Numerical>(g: Grid<T>, s: T)
    requires
        g.wf(),
    ensures
        g.scaled(s).wf(),
        g.scaled(s).same_shape(g),
        forall|i: int, j: int| g.has(i, j) ==> #[trigger] g.scaled(s).at(i, j) == g.at(i, j).product(s),
{
    assert forall|i: int, j: int| g.has(i, j) implies #[trigger] g.scaled(s).at(i, j) == g.at(
        i,
        j,
    ).product(s) by {
        lemma_offset_in_block(i, j, g.rows as int, g.cols as int);
    }
}

/// Shifting reads, slot by slot, as the sum of the element and the offset.
pub proof fn lemma_shifted<T: Numerical>(g: Grid<T>, s: T)
    requires
        g.wf(),
    ensures
        g.shifted(s).wf(),
        g.shifted(s).same_shape(g),
        forall|i: int, j: int| g.has(i, j) ==> #[trigger] g.shifted(s).at(i, j) == g.at(i, j).sum(s),
{
    assert forall|i: int, j: int| g.has(i, j) implies #[trigger] g.shifted(s).at(i, j) == g.at(
        i,
        j,
    ).sum(s) by {
        lemma_offset_in_block(i, j, g.rows as int, g.cols as int);
    }
}

/// Scaling by `s2` and then by `s1` is scaling by `s1 * s2`, where
/// multiplication of elements is associative and commutative.
pub proof fn lemma_scale_composes<T: LawfulNumerical>(g: Grid<T>, s1: T, s2: T)
    ensures
        g.scaled(s2).scaled(s1) == g.scaled(s1.product(s2)),
{
    assert forall|k: int| 0 <= k < g.cells.len() implies g.cells[k].product(s2).product(s1)
        == g.cells[k].product(s1.product(s2)) by {
        T::lemma_mul_associative(g.cells[k], s2, s1);
        T::lemma_mul_commutative(s2, s1);
    }
    assert(g.scaled(s2).scaled(s1).cells =~= g.scaled(s1.product(s2)).cells);
}

/// Shifting by `b` and then by `a` is shifting by `a + b`, where addition of
/// elements is associative and commutative.
pub proof fn lemma_shift_composes<T: LawfulNumerical>(g: Grid<T>, a: T, b: T)
    ensures
        g.shifted(b).shifted(a) == g.shifted(a.sum(b)),
{
    assert forall|k: int| 0 <= k < g.cells.len() implies g.cells[k].sum(b).sum(a)
        == g.cells[k].sum(a.sum(b)) by {
        T::lemma_add_associative(g.cells[k], b, a);
        T::lemma_add_commutative(b, a);
    }
    assert(g.shifted(b).shifted(a).cells =~= g.shifted(a.sum(b)).cells);
}

/// The sum of two matrices of one shape has that shape, clear flags, and in
/// each slot the sum of the operands' elements; for operands of different
/// shapes it is the error that carries both shapes.
pub proof fn lemma_plus<T: Numerical>(a: Grid<T>, b: Grid<T>)
    requires
        a.wf(),
        b.wf(),
    ensures
        a.same_shape(b) ==> a.plus(b) is Ok,
        !a.same_shape(b) ==> a.plus(b) == Err::<Grid<T>, Error>(a.shape_mismatch(b)),
        a.plus(b) matches Ok(c) ==> c.wf() && c.same_shape(a) && !c.transposed && !c.pointwise
            && forall|i: int, j: int| a.has(i, j) ==> #[trigger] c.at(i, j) == a.at(i, j).sum(b.at(i, j)),
{
    if a.same_shape(b) {
        let c = a.plus(b).unwrap();
        assert forall|i: int, j: int| a.has(i, j) implies #[trigger] c.at(i, j) == a.at(i, j).sum(
            b.at(i, j),
        ) by {
            lemma_offset_in_block(i, j, a.rows as int, a.cols as int);
        }
    }
}

/// The difference of two matrices of one shape has that shape, clear flags,
/// and in each slot the difference of the operands' elements; for operands of
/// different shapes it is the error that carries both shapes.
pub proof fn lemma_minus<T: Numerical>(a: Grid<T>, b: Grid<T>)
    requires
        a.wf(),
        b.wf(),
    ensures
        a.same_shape(b) ==> a.minus(b) is Ok,
        !a.same_shape(b) ==> a.minus(b) == Err::<Grid<T>, Error>(a.shape_mismatch(b)),
        a.minus(b) matches Ok(c) ==> c.wf() && c.same_shape(a) && !c.transposed && !c.pointwise
            && forall|i: int, j: int|
            a.has(i, j) ==> #[trigger] c.at(i, j) == a.at(i, j).difference(b.at(i, j)),
{
    if a.same_shape(b) {
        let c = a.minus(b).unwrap();
        assert forall|i: int, j: int| a.has(i, j) implies #[trigger] c.at(i, j) == a.at(
            i,
            j,
        ).difference(b.at(i, j)) by {
            lemma_offset_in_block(i, j, a.rows as int, a.cols as int);
        }
    }
}

/// The element-wise product of two matrices of one shape has that shape, clear
/// flags, and in each slot the product of the operands' elements; for operands
/// of different shapes it is the error that carries both shapes.
pub proof fn lemma_hadamard<T: Numerical>(a: Grid<T>, b: Grid<T>)
    requires
        a.wf(),
        b.wf(),
    ensures
        a.same_shape(b) ==> a.hadamard(b) is Ok,
        !a.same_shape(b) ==> a.hadamard(b) == Err::<Grid<T>, Error>(a.shape_mismatch(b)),
        a.hadamard(b) matches Ok(c) ==> c.wf() && c.same_shape(a) && !c.transposed && !c.pointwise
            && forall|i: int, j: int|
            a.has(i, j) ==> #[trigger] c.at(i, j) == a.at(i, j).product(b.at(i, j)),
{
    if a.same_shape(b) {
        let c = a.hadamard(b).unwrap();
        assert forall|i: int, j: int| a.has(i, j) implies #[trigger] c.at(i, j) == a.at(
            i,
            j,
        ).product(b.at(i, j)) by {
            lemma_offset_in_block(i, j, a.rows as int, a.cols as int);
        }
    }
}

/// The matrix product is defined exactly when the left operand has as many
/// columns as the right operand has rows. It then has the rows of the left and
/// the columns of the right operand, clear flags, and in slot `(i, j)` the sum
/// over `k` of `a[i, k] * b[k, j]`. Otherwise it is the error that carries the
/// two lengths that differ.
pub proof fn lemma_matmul<T: Numerical>(a: Grid<T>, b: Grid<T>)
    requires
        a.wf(),
        b.wf(),
    ensures
        a.matmul(b) is Ok <==> a.cols == b.rows,
        a.cols != b.rows ==> a.matmul(b) == Err::<Grid<T>, Error>(a.inner_mismatch(b)),
        a.matmul(b) matches Ok(c) ==> c.wf() && c.rows == a.rows && c.cols == b.cols
            && !c.transposed && !c.pointwise && forall|i: int, j: int|
            0 <= i < a.rows && 0 <= j < b.cols ==> #[trigger] c.at(i, j) == a.dot(b, i, j, a.cols),
{
    if a.cols == b.rows {
        lemma_tabulate(a.rows, b.cols, |i: int, j: int| a.dot(b, i, j, a.cols));
    }
}

/// Multiplication by a matrix marked pointwise is element-wise, on either
/// side and whether or not the shapes would allow a matrix product.
pub proof fn lemma_pointwise_dispatch<T: Numerical>(a: Grid<T>, b: Grid<T>)
    ensures
        a.tagged().times(b) == a.tagged().hadamard(b),
        a.times(b.tagged()) == a.hadamard(b.tagged()),
        a.tagged().hadamard(b) == a.hadamard(b),
        a.hadamard(b.tagged()) == a.hadamard(b),
        !a.pointwise && !b.pointwise ==> a.times(b) == a.matmul(b),
{
}

/// An operand that is an error is the result of every binary operation; of two
/// errors the left one is.
pub proof fn lemma_error_absorbs<T: Numerical>(lhs: Outcome<T>, rhs: Outcome<T>)
    ensures
        lhs matches Err(e) ==> add_outcomes(lhs, rhs) == Err::<Grid<T>, Error>(e) && sub_outcomes(
            lhs,
            rhs,
        ) == Err::<Grid<T>, Error>(e) && mul_outcomes(lhs, rhs) == Err::<Grid<T>, Error>(e),
        lhs is Ok ==> (rhs matches Err(e) ==> add_outcomes(lhs, rhs) == Err::<Grid<T>, Error>(e)
            && sub_outcomes(lhs, rhs) == Err::<Grid<T>, Error>(e) && mul_outcomes(lhs, rhs) == Err::<
            Grid<T>,
            Error,
        >(e)),
{
}

/// Neither flag has a part in addition, subtraction, scaling, shifting or
/// printing: the elements that result are the same whatever the flags are.
pub proof fn lemma_flags_not_consulted<T: Numerical>(a: Grid<T>, b: Grid<T>, s: T)
    ensures
        a.plus(b) == a.fresh().plus(b.fresh()),
        a.minus(b) == a.fresh().minus(b.fresh()),
        a.hadamard(b) == a.fresh().hadamard(b.fresh()),
        a.matmul(b) == a.fresh().matmul(b.fresh()),
        a.scaled(s).fresh() == a.fresh().scaled(s),
        a.shifted(s).fresh() == a.fresh().shifted(s),
        a.text() == a.fresh().text(),
{
    assert forall|i: int, j: int, n: nat| #[trigger] a.dot(b, i, j, n) == a.fresh().dot(b.fresh(), i, j, n) by {
        lemma_dot_ignores_flags(a, b, i, j, n);
    }
    assert((|i: int, j: int| a.dot(b, i, j, a.cols)) =~= (|i: int, j: int|
        a.fresh().dot(b.fresh(), i, j, a.cols)));
    assert forall|m: nat| #[trigger] a.rows_text(m) == a.fresh().rows_text(m) by {
        lemma_text_ignores_flags(a, m);
    }
}

/// The partial sums of a matrix product read elements only.
proof fn lemma_dot_ignores_flags<T: Numerical>(a: Grid<T>, b: Grid<T>, i: int, j: int, n: nat)
    ensures
        a.dot(b, i, j, n) == a.fresh().dot(b.fresh(), i, j, n),
    decreases n,
{
    if n > 0 {
        lemma_dot_ignores_flags(a, b, i, j, (n - 1) as nat);
    }
}

/// The text of a row reads elements only.
proof fn lemma_row_text_ignores_flags<T: Numerical>(a: Grid<T>, i: int, n: nat)
    ensures
        a.row_text(i, n) == a.fresh().row_text(i, n),
    decreases n,
{
    if n > 0 {
        lemma_row_text_ignores_flags(a, i, (n - 1) as nat);
    }
}

/// The text of the leading rows reads elements only.
proof fn lemma_text_ignores_flags<T: Numerical>(a: Grid<T>, m: nat)
    ensures
        a.rows_text(m) == a.fresh().rows_text(m),
    decreases m,
{
    if m > 0 {
        lemma_text_ignores_flags(a, (m - 1) as nat);
        lemma_row_text_ignores_flags(a, m - 1, a.cols);
    }
}

/// The transpose of a matrix of shape `(rows, cols)` has shape `(cols, rows)`,
/// and its slot `(j, i)` holds what the slot `(i, j)` of the matrix holds. The
/// `transposed` flag is toggled, the `pointwise` flag kept.
pub proof fn lemma_flipped<T>(g: Grid<T>)
    requires
        g.wf(),
    ensures
        g.flipped().wf(),
        g.flipped().rows == g.cols,
        g.flipped().cols == g.rows,
        g.flipped().transposed == !g.transposed,
        g.flipped().pointwise == g.pointwise,
        forall|i: int, j: int| g.has(i, j) ==> #[trigger] g.flipped().at(j, i) == g.at(i, j),
{
    assert(g.cols * g.rows == g.rows * g.cols) by (nonlinear_arith);
    assert forall|i: int, j: int| g.has(i, j) implies #[trigger] g.flipped().at(j, i) == g.at(
        i,
        j,
    ) by {
        lemma_offset_in_block(j, i, g.cols as int, g.rows as int);
    }
}

/// Transposing a matrix twice gives the matrix back, flags included. This holds
/// of every shape, and so of every square matrix.
pub proof fn lemma_flip_involution<T>(g: Grid<T>)
    requires
        g.wf(),
    ensures
        g.flipped().flipped() == g,
{
    lemma_flipped(g);
    lemma_flipped(g.flipped());
    let back = g.flipped().flipped();
    assert forall|i: int, j: int| back.has(i, j) implies back.at(i, j) == g.at(i, j) by {
        assert(g.flipped().at(j, i) == g.at(i, j));
        assert(back.at(i, j) == g.flipped().at(j, i));
    }
    lemma_grids_equal(back, g);
}

} // verus!
