//! The mathematical model of a matrix value.
//!
//! A [`Grid`] is what a matrix is, apart from how it is stored: a shape, the
//! elements in row-major order and the two flag bits. Each operation of the
//! library is defined here as a function on grids, and the executable code is
//! specified against these definitions.
use crate::helpers::errors::Error;
use crate::helpers::traits::Numerical;
use vstd::prelude::*;

verus! {

/// A matrix as a mathematical value.
pub struct Grid<T> {
    /// The number of rows.
    pub rows: nat,
    /// The number of columns.
    pub cols: nat,
    /// The elements, row after row: the element of row `i` and column `j` is
    /// `cells[i * cols + j]`.
    pub cells: Seq<T>,
    /// Flipped by each transposition.
    pub transposed: bool,
    /// Once set, multiplication with this matrix is element-wise.
    pub pointwise: bool,
}

/// The position of the element of row `i` and column `j` in a row-major block
/// whose rows are `cols` long.
pub open spec fn offset(i: int, j: int, cols: int) -> int {
    i * cols + j
}

/// `i * cols + j` lies within a block of `rows * cols` slots.
pub proof fn lemma_offset_in_block(i: int, j: int, rows: int, cols: int)
    requires
        0 <= i < rows,
        0 <= j < cols,
    ensures
        0 <= offset(i, j, cols) < rows * cols,
        offset(i, j, cols) / cols == i,
        offset(i, j, cols) % cols == j,
{
    assert(i * cols + j < rows * cols) by (nonlinear_arith)
        requires
            0 <= i < rows,
            0 <= j < cols,
    {
        assert((i + 1) * cols <= rows * cols);
        assert((i + 1) * cols == i * cols + cols);
    }
    assert(0 <= i * cols) by (nonlinear_arith)
        requires
            0 <= i,
            0 < cols,
    ;
    vstd::arithmetic::div_mod::lemma_fundamental_div_mod_converse(i * cols + j, cols, i, j);
}

/// Every position `k` of a block of `rows * cols` slots is the offset of the
/// slot in row `k / cols` and column `k % cols`.
pub proof fn lemma_offset_split(k: int, rows: int, cols: int)
    requires
        0 <= k < rows * cols,
        0 < cols,
    ensures
        0 <= k / cols < rows,
        0 <= k % cols < cols,
        k == offset(k / cols, k % cols, cols),
{
    vstd::arithmetic::div_mod::lemma_fundamental_div_mod(k, cols);
    vstd::arithmetic::div_mod::lemma_mod_bound(k, cols);
    let q = k / cols;
    assert(cols * q == q * cols) by (nonlinear_arith);
    assert(0 <= q < rows) by (nonlinear_arith)
        requires
            0 <= k < rows * cols,
            0 < cols,
            k == q * cols + k % cols,
            0 <= k % cols < cols,
    ;
}

impl<T> Grid<T> {
    /// A grid has at least one row and one column and holds one element per slot.
    pub open spec fn wf(self) -> bool {
        &&& self.rows >= 1
        &&& self.cols >= 1
        &&& self.cells.len() == self.rows * self.cols
    }

    /// The element of row `i` and column `j`.
    pub open spec fn at(self, i: int, j: int) -> T {
        self.cells[offset(i, j, self.cols as int)]
    }

    /// Whether `(i, j)` names a slot of this grid.
    pub open spec fn has(self, i: int, j: int) -> bool {
        0 <= i < self.rows && 0 <= j < self.cols
    }

    /// Whether two grids have the same shape.
    pub open spec fn same_shape(self, other: Grid<T>) -> bool {
        self.rows == other.rows && self.cols == other.cols
    }

    /// The grid of the given shape whose element at `(i, j)` is `f(i, j)`, with
    /// both flags clear.
    pub open spec fn tabulate(rows: nat, cols: nat, f: spec_fn(int, int) -> T) -> Grid<T> {
        Grid {
            rows,
            cols,
            cells: Seq::new(rows * cols, |k: int| f(k / (cols as int), k % (cols as int))),
            transposed: false,
            pointwise: false,
        }
    }

    /// The same elements in a grid whose flags are clear.
    pub open spec fn fresh(self) -> Grid<T> {
        Grid { transposed: false, pointwise: false, ..self }
    }

    /// The rows `r0..r1` and columns `c0..c1` as a grid of their own, flags clear.
    pub open spec fn window(self, r0: int, r1: int, c0: int, c1: int) -> Grid<T> {
        Grid::tabulate((r1 - r0) as nat, (c1 - c0) as nat, |i: int, j: int| self.at(r0 + i, c0 + j))
    }

    /// The same grid marked for element-wise multiplication.
    pub open spec fn tagged(self) -> Grid<T> {
        Grid { pointwise: true, ..self }
    }

    /// The transpose: a grid with the rows and columns exchanged, whose slot
    /// `(j, i)` holds what the slot `(i, j)` of this grid holds. The `transposed`
    /// flag is toggled and the `pointwise` flag is kept.
    pub open spec fn flipped(self) -> Grid<T> {
        Grid {
            rows: self.cols,
            cols: self.rows,
            cells: Seq::new(
                self.cells.len(),
                |k: int| self.at(k % (self.rows as int), k / (self.rows as int)),
            ),
            transposed: !self.transposed,
            pointwise: self.pointwise,
        }
    }
}

impl<T: Numerical> Grid<T> {
    /// The grid of the given shape that holds zero everywhere, flags clear.
    pub open spec fn zeros(rows: nat, cols: nat) -> Grid<T> {
        Grid {
            rows,
            cols,
            cells: Seq::new(rows * cols, |k: int| T::spec_zero()),
            transposed: false,
            pointwise: false,
        }
    }

    /// Every element multiplied by `s`; shape and flags as before.
    pub open spec fn scaled(self, s: T) -> Grid<T> {
        Grid { cells: Seq::new(self.cells.len(), |k: int| self.cells[k].product(s)), ..self }
    }

    /// Every element increased by `s`; shape and flags as before.
    pub open spec fn shifted(self, s: T) -> Grid<T> {
        Grid { cells: Seq::new(self.cells.len(), |k: int| self.cells[k].sum(s)), ..self }
    }

    /// The error that element-wise operations report for operands of different shapes.
    pub open spec fn shape_mismatch(self, rhs: Grid<T>) -> Error {
        Error::InvalidDimensions(
            (self.rows as usize, self.cols as usize),
            (rhs.rows as usize, rhs.cols as usize),
        )
    }

    /// The error that matrix multiplication reports when the left operand's
    /// row length differs from the right operand's column length.
    pub open spec fn inner_mismatch(self, rhs: Grid<T>) -> Error {
        Error::InvalidDimensions((0, self.cols as usize), (rhs.rows as usize, 0))
    }

    /// The element-wise sum, defined for operands of equal shape.
    pub open spec fn plus(self, rhs: Grid<T>) -> Result<Grid<T>, Error> {
        if self.same_shape(rhs) {
            Ok(
                Grid {
                    rows: self.rows,
                    cols: self.cols,
                    cells: Seq::new(self.cells.len(), |k: int| self.cells[k].sum(rhs.cells[k])),
                    transposed: false,
                    pointwise: false,
                },
            )
        } else {
            Err(self.shape_mismatch(rhs))
        }
    }

    /// The element-wise difference, defined for operands of equal shape.
    pub open spec fn minus(self, rhs: Grid<T>) -> Result<Grid<T>, Error> {
        if self.same_shape(rhs) {
            Ok(
                Grid {
                    rows: self.rows,
                    cols: self.cols,
                    cells: Seq::new(
                        self.cells.len(),
                        |k: int| self.cells[k].difference(rhs.cells[k]),
                    ),
                    transposed: false,
                    pointwise: false,
                },
            )
        } else {
            Err(self.shape_mismatch(rhs))
        }
    }

    /// The element-wise product, defined for operands of equal shape.
    pub open spec fn hadamard(self, rhs: Grid<T>) -> Result<Grid<T>, Error> {
        if self.same_shape(rhs) {
            Ok(
                Grid {
                    rows: self.rows,
                    cols: self.cols,
                    cells: Seq::new(self.cells.len(), |k: int| self.cells[k].product(rhs.cells[k])),
                    transposed: false,
                    pointwise: false,
                },
            )
        } else {
            Err(self.shape_mismatch(rhs))
        }
    }

    /// The sum of the first `n` products `self[i, k] * rhs[k, j]`, accumulated
    /// from zero in the order of `k`.
    pub open spec fn dot(self, rhs: Grid<T>, i: int, j: int, n: nat) -> T
        decreases n,
    {
        if n == 0 {
            T::spec_zero()
        } else {
            self.dot(rhs, i, j, (n - 1) as nat).sum(self.at(i, n - 1).product(rhs.at(n - 1, j)))
        }
    }

    /// The matrix product, defined when the left operand has as many columns as
    /// the right operand has rows.
    pub open spec fn matmul(self, rhs: Grid<T>) -> Result<Grid<T>, Error> {
        if self.cols == rhs.rows {
            Ok(Grid::tabulate(self.rows, rhs.cols, |i: int, j: int| self.dot(rhs, i, j, self.cols)))
        } else {
            Err(self.inner_mismatch(rhs))
        }
    }

    /// Multiplication: element-wise if either operand is marked pointwise, the
    /// matrix product otherwise.
    pub open spec fn times(self, rhs: Grid<T>) -> Result<Grid<T>, Error> {
        if self.pointwise || rhs.pointwise {
            self.hadamard(rhs)
        } else {
            self.matmul(rhs)
        }
    }

    /// The text of the first `n` elements of row `i`, each followed by a space.
    pub open spec fn row_text(self, i: int, n: nat) -> Seq<char>
        decreases n,
    {
        if n == 0 {
            Seq::empty()
        } else {
            self.row_text(i, (n - 1) as nat) + self.at(i, n - 1).spec_render() + seq![' ']
        }
    }

    /// The text of the first `m` rows, each followed by a line feed.
    pub open spec fn rows_text(self, m: nat) -> Seq<char>
        decreases m,
    {
        if m == 0 {
            Seq::empty()
        } else {
            self.rows_text((m - 1) as nat) + self.row_text(m - 1, self.cols) + seq!['\n']
        }
    }

    /// The grid as text: row after row, elements separated by spaces.
    pub open spec fn text(self) -> Seq<char> {
        self.rows_text(self.rows)
    }
}

/// A matrix or the error that took its place.
pub type Outcome<T> = Result<Grid<T>, Error>;

/// The first error among two operands, if either is one: an error on the left
/// takes precedence.
pub open spec fn first_error<T>(lhs: Outcome<T>, rhs: Outcome<T>) -> Option<Error> {
    match (lhs, rhs) {
        (Err(e), _) => Some(e),
        (Ok(_), Err(e)) => Some(e),
        (Ok(_), Ok(_)) => None,
    }
}

/// The sum of two operands, either of which may be an error.
pub open spec fn add_outcomes<T: Numerical>(lhs: Outcome<T>, rhs: Outcome<T>) -> Outcome<T> {
    match (lhs, rhs) {
        (Ok(a), Ok(b)) => a.plus(b),
        _ => Err(first_error(lhs, rhs).unwrap()),
    }
}

/// The difference of two operands, either of which may be an error.
pub open spec fn sub_outcomes<T: Numerical>(lhs: Outcome<T>, rhs: Outcome<T>) -> Outcome<T> {
    match (lhs, rhs) {
        (Ok(a), Ok(b)) => a.minus(b),
        _ => Err(first_error(lhs, rhs).unwrap()),
    }
}

/// The product of two operands, either of which may be an error.
pub open spec fn mul_outcomes<T: Numerical>(lhs: Outcome<T>, rhs: Outcome<T>) -> Outcome<T> {
    match (lhs, rhs) {
        (Ok(a), Ok(b)) => a.times(b),
        _ => Err(first_error(lhs, rhs).unwrap()),
    }
}

/// The text of a matrix, or of the error that took its place.
pub open spec fn outcome_text<T: Numerical>(m: Outcome<T>) -> Seq<char> {
    match m {
        Ok(g) => g.text(),
        Err(e) => e.spec_render(),
    }
}

} // verus!
