//! Matrices of two rows and two columns.

use core::cmp::Ordering;
use crate::scalar::first_decided;
use crate::scalar::then_compared;
use crate::scalar::Scalar;
use crate::scalar::EPSILON_BITS;
use crate::scalar::ONE_BITS;
use crate::vectors::vector_two::Vector2;
use vstd::prelude::*;
use vstd::std_specs::cmp::PartialEqSpecImpl;

verus! {

/// A square matrix of 2 rows, held row by row.
#[derive(Clone, Copy, Debug)]
pub struct Matrix2 {
    pub x: Vector2,
    pub y: Vector2,
}

impl Matrix2 {
    /// The matrix of the given elements, `r1c0` being the element in row 1
    /// and column 0.
    pub fn new(r0c0: Scalar, r0c1: Scalar, r1c0: Scalar, r1c1: Scalar) -> (m: Matrix2)
        ensures
            m == (Matrix2 { x: Vector2 { x: r0c0, y: r0c1 }, y: Vector2 { x: r1c0, y: r1c1 } }),
    {
        Matrix2 { x: Vector2 { x: r0c0, y: r0c1 }, y: Vector2 { x: r1c0, y: r1c1 } }
    }

    pub fn from_rows(x: Vector2, y: Vector2) -> (m: Matrix2)
        ensures
            m == (Matrix2 { x, y }),
    {
        Matrix2 { x, y }
    }

    /// Column 0, from the first row to the last.
    pub fn c0(&self) -> (column: Vector2)
        ensures
            column == (Vector2 { x: self.x.x, y: self.y.x }),
    {
        Vector2 { x: self.x.x, y: self.y.x }
    }

    /// Column 1, from the first row to the last.
    pub fn c1(&self) -> (column: Vector2)
        ensures
            column == (Vector2 { x: self.x.y, y: self.y.y }),
    {
        Vector2 { x: self.x.y, y: self.y.y }
    }

    /// The matrix whose rows are the columns of this one.
    pub open spec fn spec_transposed(&self) -> Matrix2 {
        Matrix2 { x: Vector2 { x: self.x.x, y: self.y.x }, y: Vector2 { x: self.x.y, y: self.y.y } }
    }

    #[verifier::when_used_as_spec(spec_transposed)]
    pub fn transposed(&self) -> (m: Matrix2)
        ensures
            m == self.spec_transposed(),
    {
        Matrix2 { x: Vector2 { x: self.x.x, y: self.y.x }, y: Vector2 { x: self.x.y, y: self.y.y } }
    }

    /// Transposing twice gives the matrix back.
    pub proof fn lemma_transposed_twice(m: Matrix2)
        ensures
            m.spec_transposed().spec_transposed() == m,
    {
    }

    /// The matrix with ones on its diagonal and zeros elsewhere.
    pub open spec fn identity() -> Matrix2 {
        Matrix2 { x: Vector2::of_bits(ONE_BITS, 0), y: Vector2::of_bits(0, ONE_BITS) }
    }

    /// The matrix with ones on its diagonal and zeros elsewhere.
    #[allow(non_snake_case)]
    pub fn IDENTITY() -> (m: Matrix2)
        ensures
            m == Matrix2::identity(),
    {
        Matrix2 { x: Vector2::X(), y: Vector2::Y() }
    }

    /// The matrix whose elements are all one.
    #[allow(non_snake_case)]
    pub fn ONE() -> (m: Matrix2)
        ensures
            m == (Matrix2 { x: Vector2::of_bits(ONE_BITS, ONE_BITS), y: Vector2::of_bits(ONE_BITS, ONE_BITS) }),
    {
        Matrix2 { x: Vector2::ONE(), y: Vector2::ONE() }
    }

    /// The matrix whose elements are all the gap between one and the next
    /// greater value.
    #[allow(non_snake_case)]
    pub fn EPSILON() -> (m: Matrix2)
        ensures
            m == (Matrix2 { x: Vector2::of_bits(EPSILON_BITS, EPSILON_BITS), y: Vector2::of_bits(EPSILON_BITS, EPSILON_BITS) }),
    {
        Matrix2 { x: Vector2::EPSILON(), y: Vector2::EPSILON() }
    }

    /// Equal element by element, as numbers.
    pub open spec fn spec_equals(self, other: Matrix2) -> bool {
        self.x.spec_equals(other.x) && self.y.spec_equals(other.y)
    }

    /// How `self` stands to `other`: as their first rows do; where those are
    /// equal, as their next rows do, and so on.
    pub open spec fn compared_to(self, other: Matrix2) -> Option<Ordering> {
        then_compared(self.x.compared_to(other.x), self.y.compared_to(other.y))
    }

    #[verifier::when_used_as_spec(spec_equals)]
    pub fn equals(self, other: Matrix2) -> (r: bool)
        ensures
            r == self.spec_equals(other),
    {
        self.x.equals(other.x) && self.y.equals(other.y)
    }
}

impl Default for Matrix2 {
    fn default() -> (m: Matrix2)
        ensures
            m == (Matrix2 { x: Vector2::of_bits(0, 0), y: Vector2::of_bits(0, 0) }),
    {
        Matrix2 { x: Vector2::ZERO(), y: Vector2::ZERO() }
    }
}

impl PartialEq for Matrix2 {
    fn eq(&self, other: &Matrix2) -> (r: bool) {
        self.equals(*other)
    }
}

impl PartialEqSpecImpl for Matrix2 {
    open spec fn obeys_eq_spec() -> bool {
        true
    }

    open spec fn eq_spec(&self, other: &Matrix2) -> bool {
        self.spec_equals(*other)
    }
}

impl PartialOrd for Matrix2 {
    fn partial_cmp(&self, other: &Matrix2) -> (r: Option<Ordering>) {
        first_decided(self.x.partial_cmp(&other.x), self.y.partial_cmp(&other.y))
    }
}

impl vstd::std_specs::cmp::PartialOrdSpecImpl for Matrix2 {
    open spec fn obeys_partial_cmp_spec() -> bool {
        true
    }

    open spec fn partial_cmp_spec(&self, other: &Matrix2) -> Option<Ordering> {
        self.compared_to(*other)
    }
}

} // verus!
