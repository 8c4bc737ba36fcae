//! The abstractions a matrix is built over: its selectors and its element
//! type, and the interface that a matrix type offers.
use crate::model::Grid;
use std::ops::{Range, RangeFrom, RangeFull, RangeInclusive, RangeTo, RangeToInclusive};
use vstd::prelude::*;

verus! {

/// `std::ops::RangeFull`, the selector `..`.
#[verifier::external_type_specification]
pub struct ExRangeFull(RangeFull);

/// `std::ops::RangeFrom`, the selector `a..`, with its public field `start`.
#[verifier::external_type_specification]
#[verifier::reject_recursive_types(Idx)]
pub struct ExRangeFrom<Idx>(RangeFrom<Idx>);

/// `std::ops::RangeTo`, the selector `..b`, with its public field `end`.
#[verifier::external_type_specification]
#[verifier::reject_recursive_types(Idx)]
pub struct ExRangeTo<Idx>(RangeTo<Idx>);

/// `std::ops::RangeToInclusive`, the selector `..=b`, with its public field `end`.
#[verifier::external_type_specification]
#[verifier::reject_recursive_types(Idx)]
pub struct ExRangeToInclusive<Idx>(RangeToInclusive<Idx>);

/// Calls `RangeInclusive::start`. The standard library gives the lower bound
/// of a range that has not been iterated to exhaustion, and leaves the value
/// open after that; the contract claims the first and nothing of the second.
#[verifier::external_body]
fn inclusive_start(range: &RangeInclusive<usize>) -> (start: usize)
    ensures
        !range@.exhausted ==> start == range@.start,
{
    *range.start()
}

/// Calls `RangeInclusive::end`. The standard library gives the inclusive upper
/// bound of a range that has not been iterated to exhaustion, and leaves the
/// value open after that; the contract claims the first and nothing of the second.
#[verifier::external_body]
fn inclusive_end(range: &RangeInclusive<usize>) -> (end: usize)
    ensures
        !range@.exhausted ==> end == range@.end,
{
    *range.end()
}

/// A selector of consecutive rows or columns.
///
/// A selector stands for a half-open interval `[start, end)` of which either
/// bound may be absent. An absent start means the first row or column, an
/// absent end means one past the last.
pub trait AsIndex {
    /// Whether the bounds can be read off the selector. This fails only for an
    /// inclusive range that an iteration has used up.
    spec fn readable(&self) -> bool;

    /// The first index selected, if the selector names one.
    spec fn spec_start(&self) -> Option<int>;

    /// One past the last index selected, if the selector names a last index.
    spec fn spec_end(&self) -> Option<int>;

    /// The first index selected, if the selector names one.
    fn start(&self) -> (r: Option<usize>)
        requires
            self.readable(),
        ensures
            match r {
                Some(s) => self.spec_start() == Some(s as int),
                None => self.spec_start().is_none(),
            },
    ;

    /// One past the last index selected, if the selector names a last index.
    fn end(&self) -> (r: Option<usize>)
        requires
            self.readable(),
            self.spec_end() matches Some(e) ==> e <= usize::MAX,
        ensures
            match r {
                Some(e) => self.spec_end() == Some(e as int),
                None => self.spec_end().is_none(),
            },
    ;
}

/// The interval that a selector stands for along a dimension of `extent`
/// rows or columns.
pub open spec fn resolved<U: AsIndex>(selector: &U, extent: int) -> (int, int) {
    (
        match selector.spec_start() {
            Some(s) => s,
            None => 0,
        },
        match selector.spec_end() {
            Some(e) => e,
            None => extent,
        },
    )
}

/// Whether a selector picks at least one index, and none outside `[0, extent)`.
pub open spec fn selects<U: AsIndex>(selector: &U, extent: int) -> bool {
    &&& selector.readable()
    &&& 0 <= resolved(selector, extent).0 < resolved(selector, extent).1 <= extent
}

/// A single index `i` selects `[i, i + 1)`.
impl AsIndex for usize {
    open spec fn readable(&self) -> bool {
        true
    }

    open spec fn spec_start(&self) -> Option<int> {
        Some(*self as int)
    }

    open spec fn spec_end(&self) -> Option<int> {
        Some(*self + 1)
    }

    fn start(&self) -> (r: Option<usize>) {
        Some(*self)
    }

    fn end(&self) -> (r: Option<usize>) {
        Some(*self + 1)
    }
}

/// `a..b` selects `[a, b)`.
impl AsIndex for Range<usize> {
    open spec fn readable(&self) -> bool {
        true
    }

    open spec fn spec_start(&self) -> Option<int> {
        Some(self.start as int)
    }

    open spec fn spec_end(&self) -> Option<int> {
        Some(self.end as int)
    }

    fn start(&self) -> (r: Option<usize>) {
        Some(self.start)
    }

    fn end(&self) -> (r: Option<usize>) {
        Some(self.end)
    }
}

/// `..` selects everything.
impl AsIndex for RangeFull {
    open spec fn readable(&self) -> bool {
        true
    }

    open spec fn spec_start(&self) -> Option<int> {
        None
    }

    open spec fn spec_end(&self) -> Option<int> {
        None
    }

    fn start(&self) -> (r: Option<usize>) {
        None
    }

    fn end(&self) -> (r: Option<usize>) {
        None
    }
}

/// `a..=b` selects `[a, b + 1)`.
impl AsIndex for RangeInclusive<usize> {
    open spec fn readable(&self) -> bool {
        !self@.exhausted
    }

    open spec fn spec_start(&self) -> Option<int> {
        Some(self@.start as int)
    }

    open spec fn spec_end(&self) -> Option<int> {
        Some(self@.end + 1)
    }

    fn start(&self) -> (r: Option<usize>) {
        Some(inclusive_start(self))
    }

    fn end(&self) -> (r: Option<usize>) {
        Some(inclusive_end(self) + 1)
    }
}

/// `a..` selects from `a` to the end.
impl AsIndex for RangeFrom<usize> {
    open spec fn readable(&self) -> bool {
        true
    }

    open spec fn spec_start(&self) -> Option<int> {
        Some(self.start as int)
    }

    open spec fn spec_end(&self) -> Option<int> {
        None
    }

    fn start(&self) -> (r: Option<usize>) {
        Some(self.start)
    }

    fn end(&self) -> (r: Option<usize>) {
        None
    }
}

/// `..b` selects `[0, b)`.
impl AsIndex for RangeTo<usize> {
    open spec fn readable(&self) -> bool {
        true
    }

    open spec fn spec_start(&self) -> Option<int> {
        None
    }

    open spec fn spec_end(&self) -> Option<int> {
        Some(self.end as int)
    }

    fn start(&self) -> (r: Option<usize>) {
        None
    }

    fn end(&self) -> (r: Option<usize>) {
        Some(self.end)
    }
}

/// `..=b` selects `[0, b + 1)`.
impl AsIndex for RangeToInclusive<usize> {
    open spec fn readable(&self) -> bool {
        true
    }

    open spec fn spec_start(&self) -> Option<int> {
        None
    }

    open spec fn spec_end(&self) -> Option<int> {
        Some(self.end + 1)
    }

    fn start(&self) -> (r: Option<usize>) {
        None
    }

    fn end(&self) -> (r: Option<usize>) {
        Some(self.end + 1)
    }
}

/// A numeric element type.
///
/// An element type supplies an additive and a multiplicative identity, the
/// three arithmetic operations and a textual form. Nothing else is asked of it:
/// no ordering, no equality test, no division. Each operation is a total function of
/// its operands, given by the matching `spec_` function.
pub trait Numerical: Copy + Sized {
    /// The additive identity.
    spec fn spec_zero() -> Self;

    /// The multiplicative identity.
    spec fn spec_ident() -> Self;

    /// The sum of two elements.
    spec fn sum(self, rhs: Self) -> Self;

    /// The difference of two elements.
    spec fn difference(self, rhs: Self) -> Self;

    /// The product of two elements.
    spec fn product(self, rhs: Self) -> Self;

    /// The text an element is printed as.
    spec fn spec_render(self) -> Seq<char>;

    /// Returns the multiplicative identity.
    fn ident() -> (r: Self)
        ensures
            r == Self::spec_ident(),
    ;

    /// Returns the additive identity.
    fn zero() -> (r: Self)
        ensures
            r == Self::spec_zero(),
    ;

    /// Adds two elements.
    fn add(self, rhs: Self) -> (r: Self)
        ensures
            r == self.sum(rhs),
    ;

    /// Subtracts `rhs` from `self`.
    fn sub(self, rhs: Self) -> (r: Self)
        ensures
            r == self.difference(rhs),
    ;

    /// Multiplies two elements.
    fn mul(self, rhs: Self) -> (r: Self)
        ensures
            r == self.product(rhs),
    ;

    /// Prints the element.
    fn render(&self) -> (s: String)
        ensures
            s@ == self.spec_render(),
    ;
}

/// An element type whose addition and multiplication are each associative and
/// commutative.
pub trait LawfulNumerical: Numerical {
    /// Addition is associative.
    proof fn lemma_add_associative(a: Self, b: Self, c: Self)
        ensures
            a.sum(b).sum(c) == a.sum(b.sum(c)),
    ;

    /// Addition is commutative.
    proof fn lemma_add_commutative(a: Self, b: Self)
        ensures
            a.sum(b) == b.sum(a),
    ;

    /// Multiplication is associative.
    proof fn lemma_mul_associative(a: Self, b: Self, c: Self)
        ensures
            a.product(b).product(c) == a.product(b.product(c)),
    ;

    /// Multiplication is commutative.
    proof fn lemma_mul_commutative(a: Self, b: Self)
        ensures
            a.product(b) == b.product(a),
    ;
}

/// A matrix type over elements of type `T` whose values are either a matrix or
/// an error of type `E`.
///
/// What a value is, is given by [`Matrix::model`]; every method is specified
/// by its effect on the model.
pub trait Matrix<T: Numerical, E>:
    std::ops::Mul + std::ops::Add + std::ops::Sub + std::ops::Index<(usize, usize)> + Sized
{
    /// The matrix that this value holds, or the error in its place.
    spec fn model(&self) -> Result<Grid<T>, E>;

    /// Makes a matrix of the given shape that holds zero in every slot.
    fn new(rows: usize, cols: usize) -> (m: Self)
        requires
            rows * cols > 0,
            rows * cols <= usize::MAX,
        ensures
            m.model() == Ok::<Grid<T>, E>(Grid::zeros(rows as nat, cols as nat)),
    ;

    /// Makes a value that holds `error` in place of a matrix.
    fn err(error: E) -> (m: Self)
        ensures
            m.model() == Err::<Grid<T>, E>(error),
    ;

    /// Whether the value holds a matrix.
    fn is_ok(&self) -> (b: bool)
        ensures
            b == self.model().is_ok(),
    ;

    /// Whether the value holds an error.
    fn is_err(&self) -> (b: bool)
        ensures
            b == self.model().is_err(),
    ;

    /// Makes an independent copy with the same shape and elements and with
    /// both flags clear. An error is copied as it is.
    fn dup(&self) -> (m: Self)
        ensures
            m.model() == match self.model() {
                Ok(g) => Ok(g.fresh()),
                Err(e) => Err(e),
            },
    ;

    /// Copies the selected rows and columns into a matrix of their own, with
    /// both flags clear. An error is copied as it is, whatever the selectors.
    fn get<U: AsIndex>(&self, rows: U, cols: U) -> (m: Self)
        requires
            self.model() matches Ok(g) ==> selects(&rows, g.rows as int) && selects(
                &cols,
                g.cols as int,
            ),
        ensures
            m.model() == match self.model() {
                Ok(g) => Ok(
                    g.window(
                        resolved(&rows, g.rows as int).0,
                        resolved(&rows, g.rows as int).1,
                        resolved(&cols, g.cols as int).0,
                        resolved(&cols, g.cols as int).1,
                    ),
                ),
                Err(e) => Err(e),
            },
    ;

    /// Transposes the matrix, whatever its shape: rows and columns change
    /// places, and the slot `(j, i)` of the result holds what the slot `(i, j)`
    /// held. An error is passed on.
    fn t(self) -> (m: Self)
        ensures
            m.model() == match self.model() {
                Ok(g) => Ok(g.flipped()),
                Err(e) => Err(e),
            },
    ;

    /// Marks the matrix for element-wise multiplication. An error is passed on.
    fn p(self) -> (m: Self)
        ensures
            m.model() == match self.model() {
                Ok(g) => Ok(g.tagged()),
                Err(e) => Err(e),
            },
    ;

    /// Multiplies every element by `scale`. An error is passed on.
    fn scale(self, scale: T) -> (m: Self)
        ensures
            m.model() == match self.model() {
                Ok(g) => Ok(g.scaled(scale)),
                Err(e) => Err(e),
            },
    ;

    /// Adds `shift` to every element. An error is passed on.
    fn shift(self, shift: T) -> (m: Self)
        ensures
            m.model() == match self.model() {
                Ok(g) => Ok(g.shifted(shift)),
                Err(e) => Err(e),
            },
    ;
}

} // verus!
