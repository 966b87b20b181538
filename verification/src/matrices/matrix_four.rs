//! Matrices of four rows and four columns.

use core::cmp::Ordering;
use crate::scalar::first_decided;
use crate::scalar::then_compared;
use crate::scalar::Scalar;
use crate::scalar::EPSILON_BITS;
use crate::scalar::ONE_BITS;
use crate::matrices::matrix_three::Matrix3;
use crate::vectors::vector_four::Vector4;
use crate::vectors::vector_three::Vector3;
use vstd::prelude::*;
use vstd::std_specs::cmp::PartialEqSpecImpl;

verus! {

/// A square matrix of 4 rows, held row by row.
#[derive(Clone, Copy, Debug)]
pub struct Matrix4 {
    pub x: Vector4,
    pub y: Vector4,
    pub z: Vector4,
    pub w: Vector4,
}

impl Matrix4 {
    /// The matrix of the given elements, `r1c0` being the element in row 1
    /// and column 0.
    pub fn new(r0c0: Scalar, r0c1: Scalar, r0c2: Scalar, r0c3: Scalar, r1c0: Scalar, r1c1: Scalar, r1c2: Scalar, r1c3: Scalar, r2c0: Scalar, r2c1: Scalar, r2c2: Scalar, r2c3: Scalar, r3c0: Scalar, r3c1: Scalar, r3c2: Scalar, r3c3: Scalar) -> (m: Matrix4)
        ensures
            m == (Matrix4 { x: Vector4 { x: r0c0, y: r0c1, z: r0c2, w: r0c3 }, y: Vector4 { x: r1c0, y: r1c1, z: r1c2, w: r1c3 }, z: Vector4 { x: r2c0, y: r2c1, z: r2c2, w: r2c3 }, w: Vector4 { x: r3c0, y: r3c1, z: r3c2, w: r3c3 } }),
    {
        Matrix4 { x: Vector4 { x: r0c0, y: r0c1, z: r0c2, w: r0c3 }, y: Vector4 { x: r1c0, y: r1c1, z: r1c2, w: r1c3 }, z: Vector4 { x: r2c0, y: r2c1, z: r2c2, w: r2c3 }, w: Vector4 { x: r3c0, y: r3c1, z: r3c2, w: r3c3 } }
    }

    pub fn from_rows(x: Vector4, y: Vector4, z: Vector4, w: Vector4) -> (m: Matrix4)
        ensures
            m == (Matrix4 { x, y, z, w }),
    {
        Matrix4 { x, y, z, w }
    }

    /// Column 0, from the first row to the last.
    pub fn c0(&self) -> (column: Vector4)
        ensures
            column == (Vector4 { x: self.x.x, y: self.y.x, z: self.z.x, w: self.w.x }),
    {
        Vector4 { x: self.x.x, y: self.y.x, z: self.z.x, w: self.w.x }
    }

    /// Column 1, from the first row to the last.
    pub fn c1(&self) -> (column: Vector4)
        ensures
            column == (Vector4 { x: self.x.y, y: self.y.y, z: self.z.y, w: self.w.y }),
    {
        Vector4 { x: self.x.y, y: self.y.y, z: self.z.y, w: self.w.y }
    }

    /// Column 2, from the first row to the last.
    pub fn c2(&self) -> (column: Vector4)
        ensures
            column == (Vector4 { x: self.x.z, y: self.y.z, z: self.z.z, w: self.w.z }),
    {
        Vector4 { x: self.x.z, y: self.y.z, z: self.z.z, w: self.w.z }
    }

    /// Column 3, from the first row to the last.
    pub fn c3(&self) -> (column: Vector4)
        ensures
            column == (Vector4 { x: self.x.w, y: self.y.w, z: self.z.w, w: self.w.w }),
    {
        Vector4 { x: self.x.w, y: self.y.w, z: self.z.w, w: self.w.w }
    }

    /// The matrix whose rows are the columns of this one.
    pub open spec fn spec_transposed(&self) -> Matrix4 {
        Matrix4 { x: Vector4 { x: self.x.x, y: self.y.x, z: self.z.x, w: self.w.x }, y: Vector4 { x: self.x.y, y: self.y.y, z: self.z.y, w: self.w.y }, z: Vector4 { x: self.x.z, y: self.y.z, z: self.z.z, w: self.w.z }, w: Vector4 { x: self.x.w, y: self.y.w, z: self.z.w, w: self.w.w } }
    }

    #[verifier::when_used_as_spec(spec_transposed)]
    pub fn transposed(&self) -> (m: Matrix4)
        ensures
            m == self.spec_transposed(),
    {
        Matrix4 { x: Vector4 { x: self.x.x, y: self.y.x, z: self.z.x, w: self.w.x }, y: Vector4 { x: self.x.y, y: self.y.y, z: self.z.y, w: self.w.y }, z: Vector4 { x: self.x.z, y: self.y.z, z: self.z.z, w: self.w.z }, w: Vector4 { x: self.x.w, y: self.y.w, z: self.z.w, w: self.w.w } }
    }

    /// Transposing twice gives the matrix back.
    pub proof fn lemma_transposed_twice(m: Matrix4)
        ensures
            m.spec_transposed().spec_transposed() == m,
    {
    }

    /// The matrix with ones on its diagonal and zeros elsewhere.
    pub open spec fn identity() -> Matrix4 {
        Matrix4 { x: Vector4::of_bits(ONE_BITS, 0, 0, 0), y: Vector4::of_bits(0, ONE_BITS, 0, 0), z: Vector4::of_bits(0, 0, ONE_BITS, 0), w: Vector4::of_bits(0, 0, 0, ONE_BITS) }
    }

    /// The matrix with ones on its diagonal and zeros elsewhere.
    #[allow(non_snake_case)]
    pub fn IDENTITY() -> (m: Matrix4)
        ensures
            m == Matrix4::identity(),
    {
        Matrix4 { x: Vector4::X(), y: Vector4::Y(), z: Vector4::Z(), w: Vector4::W() }
    }

    /// The matrix whose elements are all one.
    #[allow(non_snake_case)]
    pub fn ONE() -> (m: Matrix4)
        ensures
            m == (Matrix4 { x: Vector4::of_bits(ONE_BITS, ONE_BITS, ONE_BITS, ONE_BITS), y: Vector4::of_bits(ONE_BITS, ONE_BITS, ONE_BITS, ONE_BITS), z: Vector4::of_bits(ONE_BITS, ONE_BITS, ONE_BITS, ONE_BITS), w: Vector4::of_bits(ONE_BITS, ONE_BITS, ONE_BITS, ONE_BITS) }),
    {
        Matrix4 { x: Vector4::ONE(), y: Vector4::ONE(), z: Vector4::ONE(), w: Vector4::ONE() }
    }

    /// The matrix whose elements are all the gap between one and the next
    /// greater value.
    #[allow(non_snake_case)]
    pub fn EPSILON() -> (m: Matrix4)
        ensures
            m == (Matrix4 { x: Vector4::of_bits(EPSILON_BITS, EPSILON_BITS, EPSILON_BITS, EPSILON_BITS), y: Vector4::of_bits(EPSILON_BITS, EPSILON_BITS, EPSILON_BITS, EPSILON_BITS), z: Vector4::of_bits(EPSILON_BITS, EPSILON_BITS, EPSILON_BITS, EPSILON_BITS), w: Vector4::of_bits(EPSILON_BITS, EPSILON_BITS, EPSILON_BITS, EPSILON_BITS) }),
    {
        Matrix4 { x: Vector4::EPSILON(), y: Vector4::EPSILON(), z: Vector4::EPSILON(), w: Vector4::EPSILON() }
    }

    /// Equal element by element, as numbers.
    pub open spec fn spec_equals(self, other: Matrix4) -> bool {
        self.x.spec_equals(other.x) && self.y.spec_equals(other.y) && self.z.spec_equals(other.z) && self.w.spec_equals(other.w)
    }

    /// How `self` stands to `other`: as their first rows do; where those are
    /// equal, as their next rows do, and so on.
    pub open spec fn compared_to(self, other: Matrix4) -> Option<Ordering> {
        then_compared(self.x.compared_to(other.x), then_compared(self.y.compared_to(other.y), then_compared(self.z.compared_to(other.z), self.w.compared_to(other.w))))
    }

    #[verifier::when_used_as_spec(spec_equals)]
    pub fn equals(self, other: Matrix4) -> (r: bool)
        ensures
            r == self.spec_equals(other),
    {
        self.x.equals(other.x) && self.y.equals(other.y) && self.z.equals(other.z) && self.w.equals(other.w)
    }

    /// Replaces the matrix by its transpose.
    pub fn transpose(&mut self)
        ensures
            *final(self) == old(self).spec_transposed(),
    {
        *self = self.transposed();
    }

    /// The upper left three rows and columns.
    pub fn truncate(&self) -> (m: Matrix3)
        ensures
            m == (Matrix3 {
                x: Vector3 { x: self.x.x, y: self.x.y, z: self.x.z },
                y: Vector3 { x: self.y.x, y: self.y.y, z: self.y.z },
                z: Vector3 { x: self.z.x, y: self.z.y, z: self.z.z },
            }),
    {
        Matrix3 {
            x: Vector3 { x: self.x.x, y: self.x.y, z: self.x.z },
            y: Vector3 { x: self.y.x, y: self.y.y, z: self.y.z },
            z: Vector3 { x: self.z.x, y: self.z.y, z: self.z.z },
        }
    }

    /// Row `i` of the matrix.
    pub open spec fn spec_row(&self, i: usize) -> Vector4 {
        if i == 0 {
            self.x
        } else if i == 1 {
            self.y
        } else if i == 2 {
            self.z
        } else {
            self.w
        }
    }

    /// The matrix that is left when row `row` and column `column` are struck
    /// out.
    pub open spec fn spec_minor(&self, row: usize, column: usize) -> Matrix3 {
        let first: usize = if row == 0 {
            1
        } else {
            0
        };
        let second: usize = if row <= 1 {
            2
        } else {
            1
        };
        let third: usize = if row <= 2 {
            3
        } else {
            2
        };
        Matrix3 {
            x: self.spec_row(first).spec_truncate_n(column),
            y: self.spec_row(second).spec_truncate_n(column),
            z: self.spec_row(third).spec_truncate_n(column),
        }
    }

    fn row(&self, i: usize) -> (r: Vector4)
        ensures
            r == self.spec_row(i),
    {
        if i == 0 {
            self.x
        } else if i == 1 {
            self.y
        } else if i == 2 {
            self.z
        } else {
            self.w
        }
    }

    #[verifier::when_used_as_spec(spec_minor)]
    pub fn minor(&self, row: usize, column: usize) -> (m: Matrix3)
        requires
            row < 4,
            column < 4,
        ensures
            m == self.spec_minor(row, column),
    {
        let first: usize = if row == 0 {
            1
        } else {
            0
        };
        let second: usize = if row <= 1 {
            2
        } else {
            1
        };
        let third: usize = if row <= 2 {
            3
        } else {
            2
        };
        Matrix3 {
            x: self.row(first).truncate_n(column),
            y: self.row(second).truncate_n(column),
            z: self.row(third).truncate_n(column),
        }
    }

    /// The matrix whose determinant, with the sign of the place, is element
    /// `(i, j)` of the inverse times the determinant: what is left of the
    /// transpose when its row `i` and its column `j` are struck out,
    /// transposed back, which is what is left of the matrix itself when its
    /// row `j` and its column `i` are struck out.
    pub fn cofactor_minor(&self, i: usize, j: usize) -> (m: Matrix3)
        requires
            i < 4,
            j < 4,
        ensures
            m == self.spec_transposed().spec_minor(i, j).spec_transposed(),
            m == self.spec_minor(j, i),
    {
        self.minor(j, i)
    }

    /// The cofactor of the place in row `i` and column `j` has the opposite
    /// sign of the determinant of its minor: the sum of `i` and `j` is odd.
    pub fn cofactor_is_negative(i: usize, j: usize) -> (negative: bool)
        requires
            i < 4,
            j < 4,
        ensures
            negative == ((i + j) % 2 == 1),
    {
        (i + j) % 2 == 1
    }
}

impl Default for Matrix4 {
    fn default() -> (m: Matrix4)
        ensures
            m == (Matrix4 { x: Vector4::of_bits(0, 0, 0, 0), y: Vector4::of_bits(0, 0, 0, 0), z: Vector4::of_bits(0, 0, 0, 0), w: Vector4::of_bits(0, 0, 0, 0) }),
    {
        Matrix4 { x: Vector4::ZERO(), y: Vector4::ZERO(), z: Vector4::ZERO(), w: Vector4::ZERO() }
    }
}

impl PartialEq for Matrix4 {
    fn eq(&self, other: &Matrix4) -> (r: bool) {
        self.equals(*other)
    }
}

impl PartialEqSpecImpl for Matrix4 {
    open spec fn obeys_eq_spec() -> bool {
        true
    }

    open spec fn eq_spec(&self, other: &Matrix4) -> bool {
        self.spec_equals(*other)
    }
}

impl PartialOrd for Matrix4 {
    fn partial_cmp(&self, other: &Matrix4) -> (r: Option<Ordering>) {
        first_decided(self.x.partial_cmp(&other.x), first_decided(self.y.partial_cmp(&other.y), first_decided(self.z.partial_cmp(&other.z), self.w.partial_cmp(&other.w))))
    }
}

impl vstd::std_specs::cmp::PartialOrdSpecImpl for Matrix4 {
    open spec fn obeys_partial_cmp_spec() -> bool {
        true
    }

    open spec fn partial_cmp_spec(&self, other: &Matrix4) -> Option<Ordering> {
        self.compared_to(*other)
    }
}

} // verus!
