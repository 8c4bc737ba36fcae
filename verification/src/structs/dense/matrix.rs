//! The dense matrix: a shape, a row-major block of elements and two flags.
use crate::helpers::errors::Error;
use crate::helpers::memory::{allocate, copymemory};
use crate::helpers::traits::{resolved, selects};
pub use crate::helpers::traits::{AsIndex, Matrix, Numerical};
use crate::model::{
    add_outcomes, lemma_offset_in_block, lemma_offset_split, mul_outcomes, offset, outcome_text,
    sub_outcomes, Grid, Outcome,
};
use vstd::prelude::*;
use vstd::string::StringExecFns;

verus! {

/// A matrix: its shape, its elements and its flags.
///
/// A value always has at least one row and one column, and its block
/// always holds `rows * cols` elements.
pub struct DenseData<T: Numerical> {
    rows: usize,
    cols: usize,
    values: Vec<T>,
    transposed: bool,
    pointwise: bool,
}

/// A matrix, or the error that an operation left in its place.
pub struct Dense<T: Numerical> {
    /// The matrix or the error.
    pub data: Result<DenseData<T>, Error>,
}

impl<T: Numerical> View for DenseData<T> {
    type V = Grid<T>;

    closed spec fn view(&self) -> Grid<T> {
        Grid {
            rows: self.rows as nat,
            cols: self.cols as nat,
            cells: self.values@,
            transposed: self.transposed,
            pointwise: self.pointwise,
        }
    }
}

impl<T: Numerical> View for Dense<T> {
    type V = Outcome<T>;

    open spec fn view(&self) -> Outcome<T> {
        match self.data {
            Ok(d) => Ok(d@),
            Err(e) => Err(e),
        }
    }
}

impl<T: Numerical> DenseData<T> {
    /// What holds of every matrix: its model is a well-formed grid.
    #[verifier::type_invariant]
    pub open spec fn inv(&self) -> bool {
        self@.wf()
    }

    /// Makes a matrix of the given shape from its elements in row-major order.
    /// Both flags start clear.
    pub fn from_values(rows: usize, cols: usize, values: Vec<T>) -> (m: Self)
        requires
            rows * cols > 0,
            values.len() == rows * cols,
        ensures
            m@ == (Grid {
                rows: rows as nat,
                cols: cols as nat,
                cells: values@,
                transposed: false,
                pointwise: false,
            }),
    {
        assert(rows >= 1 && cols >= 1) by (nonlinear_arith)
            requires
                rows * cols > 0,
        ;
        Self { rows, cols, values, transposed: false, pointwise: false }
    }

    /// The number of rows.
    pub fn rows(&self) -> (n: usize)
        ensures
            n == self@.rows,
    {
        self.rows
    }

    /// The number of columns.
    pub fn cols(&self) -> (n: usize)
        ensures
            n == self@.cols,
    {
        self.cols
    }

    /// The elements in row-major order.
    pub fn values(&self) -> (block: &Vec<T>)
        ensures
            block@ == self@.cells,
    {
        &self.values
    }

    /// Whether the matrix has been transposed an odd number of times.
    pub fn is_transposed(&self) -> (b: bool)
        ensures
            b == self@.transposed,
    {
        self.transposed
    }

    /// Whether the matrix is marked for element-wise multiplication.
    pub fn is_pointwise(&self) -> (b: bool)
        ensures
            b == self@.pointwise,
    {
        self.pointwise
    }

    /// Resolves a row selector and a column selector against the shape.
    /// Returns `((row_start, row_end), (col_start, col_end))`.
    pub fn get_bounds<U: AsIndex>(&self, rows: U, cols: U) -> (bounds: (
        (usize, usize),
        (usize, usize),
    ))
        requires
            selects(&rows, self@.rows as int),
            selects(&cols, self@.cols as int),
        ensures
            (bounds.0.0 as int, bounds.0.1 as int) == resolved(&rows, self@.rows as int),
            (bounds.1.0 as int, bounds.1.1 as int) == resolved(&cols, self@.cols as int),
    {
        let row_start = match rows.start() {
            Some(x) => x,
            None => 0,
        };
        let row_end = match rows.end() {
            Some(x) => x,
            None => self.rows,
        };
        let col_start = match cols.start() {
            Some(x) => x,
            None => 0,
        };
        let col_end = match cols.end() {
            Some(x) => x,
            None => self.cols,
        };
        ((row_start, row_end), (col_start, col_end))
    }

    /// The matrix as text: one line per row, and in it each element followed
    /// by a space.
    pub fn render(&self) -> (s: String)
        ensures
            s@ == self@.text(),
    {
        proof {
            use_type_invariant(self);
        }
        let mut s = String::new();
        let mut i: usize = 0;
        while i < self.rows
            invariant
                i <= self.rows,
                self.inv(),
                s@ == self@.rows_text(i as nat),
            decreases self.rows - i,
        {
            let ghost lines = s@;
            let mut j: usize = 0;
            while j < self.cols
                invariant
                    i < self.rows,
                    j <= self.cols,
                    self.inv(),
                    s@ == lines + self@.row_text(i as int, j as nat),
                decreases self.cols - j,
            {
                let element = self[(i, j)].render();
                s.append(element.as_str());
                proof {
                    reveal_strlit(" ");
                }
                s.append(" ");
                assert(s@ =~= lines + self@.row_text(i as int, (j + 1) as nat));
                j += 1;
            }
            proof {
                reveal_strlit("\n");
            }
            s.append("\n");
            assert(s@ =~= self@.rows_text((i + 1) as nat));
            i += 1;
        }
        s
    }

    /// The element of row `index.0` and column `index.1`, for writing.
    pub fn index_mut(&mut self, index: (usize, usize)) -> (slot: &mut T)
        requires
            old(self)@.has(index.0 as int, index.1 as int),
        ensures
            *slot == old(self)@.at(index.0 as int, index.1 as int),
            final(self)@ == (Grid {
                cells: old(self)@.cells.update(
                    offset(index.0 as int, index.1 as int, old(self)@.cols as int),
                    *final(slot),
                ),
                ..old(self)@
            }),
    {
        proof {
            use_type_invariant(&*self);
            lemma_offset_in_block(
                index.0 as int,
                index.1 as int,
                self.rows as int,
                self.cols as int,
            );
            assert(self.values.len() == self.rows * self.cols);
        }
        &mut self.values[index.0 * self.cols + index.1]
    }
}

impl<T: Numerical> std::ops::Index<(usize, usize)> for DenseData<T> {
    type Output = T;

    /// The element of row `index.0` and column `index.1`.
    fn index(&self, index: (usize, usize)) -> (element: &T)
        ensures
            *element == self@.at(index.0 as int, index.1 as int),
    {
        proof {
            use_type_invariant(self);
            lemma_offset_in_block(
                index.0 as int,
                index.1 as int,
                self.rows as int,
                self.cols as int,
            );
            assert(self.values.len() == self.rows * self.cols);
        }
        &self.values[index.0 * self.cols + index.1]
    }
}

impl<T: Numerical> vstd::std_specs::core::IndexSpecImpl<(usize, usize)> for DenseData<T> {
    open spec fn index_req(&self, index: &(usize, usize)) -> bool {
        self@.has(index.0 as int, index.1 as int)
    }
}

impl<T: Numerical> Matrix<T, Error> for Dense<T> {
    open spec fn model(&self) -> Result<Grid<T>, Error> {
        self@
    }

    fn new(rows: usize, cols: usize) -> (m: Self) {
        let values = allocate::<T>(rows, cols);
        Self { data: Ok(DenseData::from_values(rows, cols, values)) }
    }

    fn err(error: Error) -> (m: Self) {
        Self { data: Err(error) }
    }

    fn is_ok(&self) -> (b: bool) {
        self.data.is_ok()
    }

    fn is_err(&self) -> (b: bool) {
        self.data.is_err()
    }

    fn dup(&self) -> (m: Self) {
        let data = match &self.data {
            Ok(data) => data,
            Err(err) => return Self::err(*err),
        };
        proof {
            use_type_invariant(data);
        }
        let count = data.values.len();
        assert(data.rows * data.cols > 0) by (nonlinear_arith)
            requires
                data.rows >= 1,
                data.cols >= 1,
        ;
        let mut values = allocate::<T>(data.rows, data.cols);
        copymemory(&data.values, &mut values, 0..count, 0);
        assert(values@ =~= data.values@);
        Self { data: Ok(DenseData::from_values(data.rows, data.cols, values)) }
    }

    fn get<U: AsIndex>(&self, rows: U, cols: U) -> (m: Self) {
        let data = match &self.data {
            Ok(data) => data,
            Err(err) => return Self::err(*err),
        };
        proof {
            use_type_invariant(data);
        }
        let ((row_start, row_end), (col_start, col_end)) = data.get_bounds(rows, cols);
        let height = row_end - row_start;
        let width = col_end - col_start;
        let stride = data.cols;
        let ghost source = data.values@;
        proof {
            assert(data.values.len() == data.rows * stride);
            assert(0 < height * width <= data.rows * stride) by (nonlinear_arith)
                requires
                    0 < height <= data.rows,
                    0 < width <= stride,
            ;
        }
        let mut values = allocate::<T>(height, width);
        let mut i = row_start;
        while i < row_end
            invariant
                row_start <= i <= row_end <= data.rows,
                col_start < col_end <= stride,
                height == row_end - row_start,
                width == col_end - col_start,
                stride == data.cols,
                source == data.values@,
                data.values.len() == data.rows * stride,
                values.len() == height * width,
                forall|a: int, b: int|
                    0 <= a < i - row_start && 0 <= b < width ==> values@[#[trigger] offset(
                        a,
                        b,
                        width as int,
                    )] == source[offset(row_start + a, col_start + b, stride as int)],
            decreases row_end - i,
        {
            let ghost row = i - row_start;
            let ghost filled = values@;
            proof {
                lemma_offset_in_block(i as int, col_start as int, data.rows as int, stride as int);
                lemma_offset_in_block(
                    i as int,
                    col_end - 1,
                    data.rows as int,
                    stride as int,
                );
                lemma_offset_in_block(row, 0, height as int, width as int);
                lemma_offset_in_block(row, width - 1, height as int, width as int);
            }
            copymemory(
                &data.values,
                &mut values,
                (i * stride + col_start)..(i * stride + col_end),
                (i - row_start) * width,
            );
            proof {
                assert forall|a: int, b: int| 0 <= a < row + 1 && 0 <= b < width implies values@[
                #[trigger] offset(a, b, width as int)] == source[offset(
                    row_start + a,
                    col_start + b,
                    stride as int,
                )] by {
                    lemma_offset_in_block(a, b, height as int, width as int);
                    if a < row {
                        assert(offset(a, b, width as int) < offset(row, 0, width as int))
                            by (nonlinear_arith)
                            requires
                                0 <= a < row,
                                0 <= b < width,
                        ;
                        assert(values@[offset(a, b, width as int)] == filled[offset(
                            a,
                            b,
                            width as int,
                        )]);
                    }
                }
            }
            i += 1;
        }
        proof {
            let g = data@;
            let want = g.window(row_start as int, row_end as int, col_start as int, col_end as int);
            assert forall|k: int| 0 <= k < values@.len() implies values@[k] == want.cells[k] by {
                lemma_offset_split(k, height as int, width as int);
            }
            assert(values@ =~= want.cells);
        }
        Self { data: Ok(DenseData::from_values(height, width, values)) }
    }

    fn t(self) -> (m: Self) {
        match self.data {
            Ok(data) => {
                proof {
                    use_type_invariant(&data);
                }
                let ghost g = data@;
                let DenseData { rows, cols, values, transposed, pointwise } = data;
                let count = values.len();
                assert(count == rows * cols);
                assert(cols * rows == rows * cols) by (nonlinear_arith);
                let mut flipped: Vec<T> = Vec::with_capacity(count);
                let mut j: usize = 0;
                while j < cols
                    invariant
                        j <= cols,
                        rows >= 1,
                        cols >= 1,
                        g.rows == rows,
                        g.cols == cols,
                        g.cells == values@,
                        values.len() == rows * cols,
                        flipped.len() == j * rows,
                        forall|k: int|
                            0 <= k < flipped.len() ==> flipped@[k] == g.at(
                                k % (rows as int),
                                k / (rows as int),
                            ),
                    decreases cols - j,
                {
                    let mut i: usize = 0;
                    while i < rows
                        invariant
                            j < cols,
                            i <= rows,
                            rows >= 1,
                            g.rows == rows,
                            g.cols == cols,
                            g.cells == values@,
                            values.len() == rows * cols,
                            flipped.len() == j * rows + i,
                            forall|k: int|
                                0 <= k < flipped.len() ==> flipped@[k] == g.at(
                                    k % (rows as int),
                                    k / (rows as int),
                                ),
                        decreases rows - i,
                    {
                        proof {
                            lemma_offset_in_block(i as int, j as int, rows as int, cols as int);
                            lemma_offset_in_block(j as int, i as int, cols as int, rows as int);
                        }
                        flipped.push(values[i * cols + j]);
                        i += 1;
                    }
                    assert((j + 1) * rows == j * rows + rows) by (nonlinear_arith);
                    j += 1;
                }
                assert(flipped@ =~= g.flipped().cells);
                Self {
                    data: Ok(
                        DenseData {
                            rows: cols,
                            cols: rows,
                            values: flipped,
                            transposed: !transposed,
                            pointwise,
                        },
                    ),
                }
            },
            Err(_) => self,
        }
    }

    fn p(self) -> (m: Self) {
        match self.data {
            Ok(data) => {
                proof {
                    use_type_invariant(&data);
                }
                let DenseData { rows, cols, values, transposed, pointwise: _ } = data;
                Self { data: Ok(DenseData { rows, cols, values, transposed, pointwise: true }) }
            },
            Err(_) => self,
        }
    }

    fn scale(self, scale: T) -> (m: Self) {
        match self.data {
            Ok(data) => {
                proof {
                    use_type_invariant(&data);
                }
                let DenseData { rows, cols, mut values, transposed, pointwise } = data;
                let ghost before = values@;
                let count = values.len();
                let mut i: usize = 0;
                while i < count
                    invariant
                        i <= count,
                        values.len() == count,
                        before.len() == count,
                        forall|k: int| 0 <= k < i ==> values@[k] == before[k].product(scale),
                        forall|k: int| i <= k < count ==> values@[k] == before[k],
                    decreases count - i,
                {
                    values[i] = values[i].mul(scale);
                    i += 1;
                }
                assert(values@ =~= Seq::new(before.len(), |k: int| before[k].product(scale)));
                Self { data: Ok(DenseData { rows, cols, values, transposed, pointwise }) }
            },
            Err(_) => self,
        }
    }

    fn shift(self, shift: T) -> (m: Self) {
        match self.data {
            Ok(data) => {
                proof {
                    use_type_invariant(&data);
                }
                let DenseData { rows, cols, mut values, transposed, pointwise } = data;
                let ghost before = values@;
                let count = values.len();
                let mut i: usize = 0;
                while i < count
                    invariant
                        i <= count,
                        values.len() == count,
                        before.len() == count,
                        forall|k: int| 0 <= k < i ==> values@[k] == before[k].sum(shift),
                        forall|k: int| i <= k < count ==> values@[k] == before[k],
                    decreases count - i,
                {
                    values[i] = values[i].add(shift);
                    i += 1;
                }
                assert(values@ =~= Seq::new(before.len(), |k: int| before[k].sum(shift)));
                Self { data: Ok(DenseData { rows, cols, values, transposed, pointwise }) }
            },
            Err(_) => self,
        }
    }
}

/// Makes a matrix of the given shape from its elements in row-major order:
/// a zeroed matrix is made first, and the elements are copied into its block.
pub fn mat<T: Numerical>(rows: usize, cols: usize, values: Vec<T>) -> (m: Dense<T>)
    requires
        rows * cols > 0,
        values.len() == rows * cols,
    ensures
        m@ == Ok::<Grid<T>, Error>(
            Grid {
                rows: rows as nat,
                cols: cols as nat,
                cells: values@,
                transposed: false,
                pointwise: false,
            },
        ),
{
    let mut block = allocate::<T>(rows, cols);
    let count = values.len();
    copymemory(&values, &mut block, 0..count, 0);
    assert(block@ =~= values@);
    Dense { data: Ok(DenseData::from_values(rows, cols, block)) }
}

/// How many products have been added to slot `(a, b)` of a matrix product once
/// the loops have reached row `i`, column `j` and term `k`, of `n` terms each.
spec fn terms_done(a: int, b: int, i: int, j: int, k: nat, n: nat) -> nat {
    if a < i || (a == i && b < j) {
        n
    } else if a == i && b == j {
        k
    } else {
        0
    }
}

/// The matrix product of two matrices, or the error that their shapes give.
pub fn matmul<T: Numerical>(lhs: &DenseData<T>, rhs: &DenseData<T>) -> (r: Dense<T>)
    requires
        lhs@.cols == rhs@.rows ==> lhs@.rows * rhs@.cols <= usize::MAX,
    ensures
        r@ == lhs@.matmul(rhs@),
{
    proof {
        use_type_invariant(lhs);
        use_type_invariant(rhs);
    }
    if lhs.cols != rhs.rows {
        return Dense::err(Error::InvalidDimensions((0, lhs.cols), (rhs.rows, 0)));
    }
    let rows = lhs.rows;
    let cols = rhs.cols;
    let terms = lhs.cols;
    assert(rows * cols > 0) by (nonlinear_arith)
        requires
            rows >= 1,
            cols >= 1,
    ;
    let mut values = allocate::<T>(rows, cols);
    let ghost a_grid = lhs@;
    let ghost b_grid = rhs@;
    proof {
        assert forall|a: int, b: int| 0 <= a < rows && 0 <= b < cols implies values@[
        #[trigger] offset(a, b, cols as int)] == a_grid.dot(b_grid, a, b, 0) by {
            lemma_offset_in_block(a, b, rows as int, cols as int);
        }
    }
    let mut i: usize = 0;
    while i < rows
        invariant
            i <= rows,
            rows == lhs.rows,
            cols == rhs.cols,
            terms == lhs.cols,
            terms == rhs.rows,
            cols >= 1,
            terms >= 1,
            a_grid == lhs@,
            b_grid == rhs@,
            lhs.values.len() == lhs.rows * lhs.cols,
            rhs.values.len() == rhs.rows * rhs.cols,
            values.len() == rows * cols,
            forall|a: int, b: int|
                0 <= a < rows && 0 <= b < cols ==> values@[#[trigger] offset(a, b, cols as int)]
                    == a_grid.dot(
                    b_grid,
                    a,
                    b,
                    terms_done(a, b, i as int, 0, 0, terms as nat),
                ),
        decreases rows - i,
    {
        let mut j: usize = 0;
        while j < cols
            invariant
                i < rows,
                j <= cols,
                rows == lhs.rows,
                cols == rhs.cols,
                terms == lhs.cols,
                terms == rhs.rows,
                terms >= 1,
                a_grid == lhs@,
                b_grid == rhs@,
                lhs.values.len() == lhs.rows * lhs.cols,
                rhs.values.len() == rhs.rows * rhs.cols,
                values.len() == rows * cols,
                forall|a: int, b: int|
                    0 <= a < rows && 0 <= b < cols ==> values@[#[trigger] offset(
                        a,
                        b,
                        cols as int,
                    )] == a_grid.dot(
                        b_grid,
                        a,
                        b,
                        terms_done(a, b, i as int, j as int, 0, terms as nat),
                    ),
            decreases cols - j,
        {
            let mut k: usize = 0;
            while k < terms
                invariant
                    i < rows,
                    j < cols,
                    k <= terms,
                    rows == lhs.rows,
                    cols == rhs.cols,
                    terms == lhs.cols,
                    terms == rhs.rows,
                    a_grid == lhs@,
                    b_grid == rhs@,
                    lhs.values.len() == lhs.rows * lhs.cols,
                    rhs.values.len() == rhs.rows * rhs.cols,
                    values.len() == rows * cols,
                    forall|a: int, b: int|
                        0 <= a < rows && 0 <= b < cols ==> values@[#[trigger] offset(
                            a,
                            b,
                            cols as int,
                        )] == a_grid.dot(
                            b_grid,
                            a,
                            b,
                            terms_done(a, b, i as int, j as int, k as nat, terms as nat),
                        ),
                decreases terms - k,
            {
                proof {
                    lemma_offset_in_block(i as int, j as int, rows as int, cols as int);
                    lemma_offset_in_block(i as int, k as int, rows as int, terms as int);
                    lemma_offset_in_block(k as int, j as int, terms as int, cols as int);
                }
                let ghost held = values@;
                let term = lhs.values[i * terms + k].mul(rhs.values[k * cols + j]);
                values[i * cols + j] = values[i * cols + j].add(term);
                proof {
                    assert forall|a: int, b: int| 0 <= a < rows && 0 <= b < cols implies values@[
                    #[trigger] offset(a, b, cols as int)] == a_grid.dot(
                        b_grid,
                        a,
                        b,
                        terms_done(a, b, i as int, j as int, (k + 1) as nat, terms as nat),
                    ) by {
                        lemma_offset_in_block(a, b, rows as int, cols as int);
                        assert(held[offset(a, b, cols as int)] == a_grid.dot(
                            b_grid,
                            a,
                            b,
                            terms_done(a, b, i as int, j as int, k as nat, terms as nat),
                        ));
                    }
                }
                k += 1;
            }
            j += 1;
        }
        i += 1;
    }
    proof {
        let want = Grid::tabulate(
            rows as nat,
            cols as nat,
            |i: int, j: int| a_grid.dot(b_grid, i, j, a_grid.cols),
        );
        assert forall|k: int| 0 <= k < values@.len() implies values@[k] == want.cells[k] by {
            lemma_offset_split(k, rows as int, cols as int);
            let a = k / (cols as int);
            let b = k % (cols as int);
            assert(values@[offset(a, b, cols as int)] == a_grid.dot(
                b_grid,
                a,
                b,
                terms_done(a, b, rows as int, 0, 0, terms as nat),
            ));
        }
        assert(values@ =~= want.cells);
    }
    Dense { data: Ok(DenseData::from_values(rows, cols, values)) }
}

/// The element-wise product of two matrices, or the error that their shapes give.
pub fn pointwisemul<T: Numerical>(lhs: &DenseData<T>, rhs: &DenseData<T>) -> (r: Dense<T>)
    ensures
        r@ == lhs@.hadamard(rhs@),
{
    proof {
        use_type_invariant(lhs);
        use_type_invariant(rhs);
    }
    if lhs.rows != rhs.rows || lhs.cols != rhs.cols {
        return Dense::err(
            Error::InvalidDimensions((lhs.rows, lhs.cols), (rhs.rows, rhs.cols)),
        );
    }
    let count = lhs.values.len();
    assert(lhs.rows * lhs.cols > 0) by (nonlinear_arith)
        requires
            lhs.rows >= 1,
            lhs.cols >= 1,
    ;
    let mut values = allocate::<T>(lhs.rows, lhs.cols);
    let mut i: usize = 0;
    while i < count
        invariant
            i <= count,
            count == lhs.values.len(),
            count == rhs.values.len(),
            values.len() == count,
            forall|k: int| 0 <= k < i ==> values@[k] == lhs.values@[k].product(rhs.values@[k]),
        decreases count - i,
    {
        values[i] = lhs.values[i].mul(rhs.values[i]);
        i += 1;
    }
    assert(values@ =~= lhs@.hadamard(rhs@).unwrap().cells);
    Dense { data: Ok(DenseData::from_values(lhs.rows, lhs.cols, values)) }
}

/// The element-wise sum of two matrices, or the error that their shapes give.
pub fn matadd<T: Numerical>(lhs: &DenseData<T>, rhs: &DenseData<T>) -> (r: Dense<T>)
    ensures
        r@ == lhs@.plus(rhs@),
{
    proof {
        use_type_invariant(lhs);
        use_type_invariant(rhs);
    }
    if lhs.rows != rhs.rows || lhs.cols != rhs.cols {
        return Dense::err(
            Error::InvalidDimensions((lhs.rows, lhs.cols), (rhs.rows, rhs.cols)),
        );
    }
    let count = lhs.values.len();
    assert(lhs.rows * lhs.cols > 0) by (nonlinear_arith)
        requires
            lhs.rows >= 1,
            lhs.cols >= 1,
    ;
    let mut values = allocate::<T>(lhs.rows, lhs.cols);
    let mut i: usize = 0;
    while i < count
        invariant
            i <= count,
            count == lhs.values.len(),
            count == rhs.values.len(),
            values.len() == count,
            forall|k: int| 0 <= k < i ==> values@[k] == lhs.values@[k].sum(rhs.values@[k]),
        decreases count - i,
    {
        values[i] = lhs.values[i].add(rhs.values[i]);
        i += 1;
    }
    assert(values@ =~= lhs@.plus(rhs@).unwrap().cells);
    Dense { data: Ok(DenseData::from_values(lhs.rows, lhs.cols, values)) }
}

/// The element-wise difference of two matrices, or the error that their shapes give.
pub fn matsub<T: Numerical>(lhs: &DenseData<T>, rhs: &DenseData<T>) -> (r: Dense<T>)
    ensures
        r@ == lhs@.minus(rhs@),
{
    proof {
        use_type_invariant(lhs);
        use_type_invariant(rhs);
    }
    if lhs.rows != rhs.rows || lhs.cols != rhs.cols {
        return Dense::err(
            Error::InvalidDimensions((lhs.rows, lhs.cols), (rhs.rows, rhs.cols)),
        );
    }
    let count = lhs.values.len();
    assert(lhs.rows * lhs.cols > 0) by (nonlinear_arith)
        requires
            lhs.rows >= 1,
            lhs.cols >= 1,
    ;
    let mut values = allocate::<T>(lhs.rows, lhs.cols);
    let mut i: usize = 0;
    while i < count
        invariant
            i <= count,
            count == lhs.values.len(),
            count == rhs.values.len(),
            values.len() == count,
            forall|k: int|
                0 <= k < i ==> values@[k] == lhs.values@[k].difference(rhs.values@[k]),
        decreases count - i,
    {
        values[i] = lhs.values[i].sub(rhs.values[i]);
        i += 1;
    }
    assert(values@ =~= lhs@.minus(rhs@).unwrap().cells);
    Dense { data: Ok(DenseData::from_values(lhs.rows, lhs.cols, values)) }
}

/// `a * b`: element-wise if either operand is marked pointwise, the matrix
/// product otherwise. An operand that is an error is the result, the left
/// one first.
impl<T: Numerical> std::ops::Mul<Dense<T>> for Dense<T> {
    type Output = Dense<T>;

    fn mul(self, rhs: Dense<T>) -> (r: Dense<T>)
        ensures
            r@ == mul_outcomes(self@, rhs@),
    {
        match self.data {
            Ok(lhs) => match rhs.data {
                Ok(rhs) => {
                    if lhs.pointwise || rhs.pointwise {
                        pointwisemul(&lhs, &rhs)
                    } else {
                        matmul(&lhs, &rhs)
                    }
                },
                Err(_) => rhs,
            },
            Err(_) => self,
        }
    }
}

impl<T: Numerical> vstd::std_specs::ops::MulSpecImpl<Dense<T>> for Dense<T> {
    /// The result is stated by the `ensures` of `mul`, over the operands' views.
    open spec fn obeys_mul_spec() -> bool {
        false
    }

    /// A matrix product must have a number of slots that fits the machine word.
    open spec fn mul_req(self, rhs: Dense<T>) -> bool {
        match (self@, rhs@) {
            (Ok(a), Ok(b)) => !a.pointwise && !b.pointwise && a.cols == b.rows ==> a.rows * b.cols
                <= usize::MAX,
            _ => true,
        }
    }

    open spec fn mul_spec(self, rhs: Dense<T>) -> Dense<T> {
        self
    }
}

/// `a + b`, element by element. An operand that is an error is the result,
/// the left one first.
impl<T: Numerical> std::ops::Add<Dense<T>> for Dense<T> {
    type Output = Dense<T>;

    fn add(self, rhs: Dense<T>) -> (r: Dense<T>)
        ensures
            r@ == add_outcomes(self@, rhs@),
    {
        match self.data {
            Ok(lhs) => match rhs.data {
                Ok(rhs) => matadd(&lhs, &rhs),
                Err(_) => rhs,
            },
            Err(_) => self,
        }
    }
}

impl<T: Numerical> vstd::std_specs::ops::AddSpecImpl<Dense<T>> for Dense<T> {
    /// The result is stated by the `ensures` of `add`, over the operands' views.
    open spec fn obeys_add_spec() -> bool {
        false
    }

    open spec fn add_req(self, rhs: Dense<T>) -> bool {
        true
    }

    open spec fn add_spec(self, rhs: Dense<T>) -> Dense<T> {
        self
    }
}

/// `a - b`, element by element. An operand that is an error is the result,
/// the left one first.
impl<T: Numerical> std::ops::Sub<Dense<T>> for Dense<T> {
    type Output = Dense<T>;

    fn sub(self, rhs: Dense<T>) -> (r: Dense<T>)
        ensures
            r@ == sub_outcomes(self@, rhs@),
    {
        match self.data {
            Ok(lhs) => match rhs.data {
                Ok(rhs) => matsub(&lhs, &rhs),
                Err(_) => rhs,
            },
            Err(_) => self,
        }
    }
}

impl<T: Numerical> vstd::std_specs::ops::SubSpecImpl<Dense<T>> for Dense<T> {
    /// The result is stated by the `ensures` of `sub`, over the operands' views.
    open spec fn obeys_sub_spec() -> bool {
        false
    }

    open spec fn sub_req(self, rhs: Dense<T>) -> bool {
        true
    }

    open spec fn sub_spec(self, rhs: Dense<T>) -> Dense<T> {
        self
    }
}

impl<T: Numerical> std::ops::Index<(usize, usize)> for Dense<T> {
    type Output = T;

    /// The element of row `index.0` and column `index.1`.
    fn index(&self, index: (usize, usize)) -> (element: &T)
        ensures
            self@ matches Ok(g) && *element == g.at(index.0 as int, index.1 as int),
    {
        match &self.data {
            Ok(data) => &data[index],
            Err(_) => vstd::pervasive::unreached(),
        }
    }
}

impl<T: Numerical> vstd::std_specs::core::IndexSpecImpl<(usize, usize)> for Dense<T> {
    /// Only a matrix can be indexed, and only at one of its slots.
    open spec fn index_req(&self, index: &(usize, usize)) -> bool {
        self@ matches Ok(g) && g.has(index.0 as int, index.1 as int)
    }
}

impl<T: Numerical> Dense<T> {
    /// The element of row `index.0` and column `index.1`, for writing.
    pub fn index_mut(&mut self, index: (usize, usize)) -> (slot: &mut T)
        requires
            old(self)@ matches Ok(g) && g.has(index.0 as int, index.1 as int),
        ensures
            old(self)@ matches Ok(g) && *slot == g.at(index.0 as int, index.1 as int)
                && final(self)@ == Ok::<Grid<T>, Error>(
                Grid {
                    cells: g.cells.update(
                        offset(index.0 as int, index.1 as int, g.cols as int),
                        *final(slot),
                    ),
                    ..g
                },
            ),
    {
        match &mut self.data {
            Ok(data) => data.index_mut(index),
            Err(_) => vstd::pervasive::unreached(),
        }
    }

    /// The matrix as text, or the text of the error in its place.
    pub fn render(&self) -> (s: String)
        ensures
            s@ == outcome_text(self@),
    {
        match &self.data {
            Ok(data) => data.render(),
            Err(error) => error.render(),
        }
    }
}

} // verus!
