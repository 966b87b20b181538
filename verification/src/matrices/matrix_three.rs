//! Matrices of three rows and three columns.

use core::cmp::Ordering;
use crate::scalar::first_decided;
use crate::scalar::then_compared;
use crate::scalar::Scalar;
use crate::scalar::EPSILON_BITS;
use crate::scalar::ONE_BITS;
use crate::matrices::matrix_four::Matrix4;
use crate::matrices::matrix_two::Matrix2;
use crate::vectors::vector_four::Vector4;
use crate::vectors::vector_three::Vector3;
use crate::vectors::vector_two::Vector2;
use vstd::prelude::*;
use vstd::std_specs::cmp::PartialEqSpecImpl;

verus! {

/// A square matrix of 3 rows, held row by row.
#[derive(Clone, Copy, Debug)]
pub struct Matrix3 {
    pub x: Vector3,
    pub y: Vector3,
    pub z: Vector3,
}

impl Matrix3 {
    /// The matrix of the given elements, `r1c0` being the element in row 1
    /// and column 0.
    pub fn new(r0c0: Scalar, r0c1: Scalar, r0c2: Scalar, r1c0: Scalar, r1c1: Scalar, r1c2: Scalar, r2c0: Scalar, r2c1: Scalar, r2c2: Scalar) -> (m: Matrix3)
        ensures
            m == (Matrix3 { x: Vector3 { x: r0c0, y: r0c1, z: r0c2 }, y: Vector3 { x: r1c0, y: r1c1, z: r1c2 }, z: Vector3 { x: r2c0, y: r2c1, z: r2c2 } }),
    {
        Matrix3 { x: Vector3 { x: r0c0, y: r0c1, z: r0c2 }, y: Vector3 { x: r1c0, y: r1c1, z: r1c2 }, z: Vector3 { x: r2c0, y: r2c1, z: r2c2 } }
    }

    pub fn from_rows(x: Vector3, y: Vector3, z: Vector3) -> (m: Matrix3)
        ensures
            m == (Matrix3 { x, y, z }),
    {
        Matrix3 { x, y, z }
    }

    /// Column 0, from the first row to the last.
    pub fn c0(&self) -> (column: Vector3)
        ensures
            column == (Vector3 { x: self.x.x, y: self.y.x, z: self.z.x }),
    {
        Vector3 { x: self.x.x, y: self.y.x, z: self.z.x }
    }

    /// Column 1, from the first row to the last.
    pub fn c1(&self) -> (column: Vector3)
        ensures
            column == (Vector3 { x: self.x.y, y: self.y.y, z: self.z.y }),
    {
        Vector3 { x: self.x.y, y: self.y.y, z: self.z.y }
    }

    /// Column 2, from the first row to the last.
    pub fn c2(&self) -> (column: Vector3)
        ensures
            column == (Vector3 { x: self.x.z, y: self.y.z, z: self.z.z }),
    {
        Vector3 { x: self.x.z, y: self.y.z, z: self.z.z }
    }

    /// The matrix whose rows are the columns of this one.
    pub open spec fn spec_transposed(&self) -> Matrix3 {
        Matrix3 { x: Vector3 { x: self.x.x, y: self.y.x, z: self.z.x }, y: Vector3 { x: self.x.y, y: self.y.y, z: self.z.y }, z: Vector3 { x: self.x.z, y: self.y.z, z: self.z.z } }
    }

    #[verifier::when_used_as_spec(spec_transposed)]
    pub fn transposed(&self) -> (m: Matrix3)
        ensures
            m == self.spec_transposed(),
    {
        Matrix3 { x: Vector3 { x: self.x.x, y: self.y.x, z: self.z.x }, y: Vector3 { x: self.x.y, y: self.y.y, z: self.z.y }, z: Vector3 { x: self.x.z, y: self.y.z, z: self.z.z } }
    }

    /// Transposing twice gives the matrix back.
    pub proof fn lemma_transposed_twice(m: Matrix3)
        ensures
            m.spec_transposed().spec_transposed() == m,
    {
    }

    /// The matrix with ones on its diagonal and zeros elsewhere.
    pub open spec fn identity() -> Matrix3 {
        Matrix3 { x: Vector3::of_bits(ONE_BITS, 0, 0), y: Vector3::of_bits(0, ONE_BITS, 0), z: Vector3::of_bits(0, 0, ONE_BITS) }
    }

    /// The matrix with ones on its diagonal and zeros elsewhere.
    #[allow(non_snake_case)]
    pub fn IDENTITY() -> (m: Matrix3)
        ensures
            m == Matrix3::identity(),
    {
        Matrix3 { x: Vector3::X(), y: Vector3::Y(), z: Vector3::Z() }
    }

    /// The matrix whose elements are all one.
    #[allow(non_snake_case)]
    pub fn ONE() -> (m: Matrix3)
        ensures
            m == (Matrix3 { x: Vector3::of_bits(ONE_BITS, ONE_BITS, ONE_BITS), y: Vector3::of_bits(ONE_BITS, ONE_BITS, ONE_BITS), z: Vector3::of_bits(ONE_BITS, ONE_BITS, ONE_BITS) }),
    {
        Matrix3 { x: Vector3::ONE(), y: Vector3::ONE(), z: Vector3::ONE() }
    }

    /// The matrix whose elements are all the gap between one and the next
    /// greater value.
    #[allow(non_snake_case)]
    pub fn EPSILON() -> (m: Matrix3)
        ensures
            m == (Matrix3 { x: Vector3::of_bits(EPSILON_BITS, EPSILON_BITS, EPSILON_BITS), y: Vector3::of_bits(EPSILON_BITS, EPSILON_BITS, EPSILON_BITS), z: Vector3::of_bits(EPSILON_BITS, EPSILON_BITS, EPSILON_BITS) }),
    {
        Matrix3 { x: Vector3::EPSILON(), y: Vector3::EPSILON(), z: Vector3::EPSILON() }
    }

    /// Equal element by element, as numbers.
    pub open spec fn spec_equals(self, other: Matrix3) -> bool {
        self.x.spec_equals(other.x) && self.y.spec_equals(other.y) && self.z.spec_equals(other.z)
    }

    /// How `self` stands to `other`: as their first rows do; where those are
    /// equal, as their next rows do, and so on.
    pub open spec fn compared_to(self, other: Matrix3) -> Option<Ordering> {
        then_compared(self.x.compared_to(other.x), then_compared(self.y.compared_to(other.y), self.z.compared_to(other.z)))
    }

    #[verifier::when_used_as_spec(spec_equals)]
    pub fn equals(self, other: Matrix3) -> (r: bool)
        ensures
            r == self.spec_equals(other),
    {
        self.x.equals(other.x) && self.y.equals(other.y) && self.z.equals(other.z)
    }

    /// The matrix whose columns are the given vectors.
    pub fn from_columns(c0: Vector3, c1: Vector3, c2: Vector3) -> (m: Matrix3)
        ensures
            m == (Matrix3 { x: c0, y: c1, z: c2 }).spec_transposed(),
    {
        let mat = Matrix3::from_rows(c0, c1, c2);
        mat.transposed()
    }

    /// The matrix that scales every vector by `scale`: `scale` on the
    /// diagonal and zeros elsewhere.
    pub fn from_scale(scale: Scalar) -> (m: Matrix3)
        ensures
            m == (Matrix3 {
                x: Vector3 { x: scale, y: Scalar { bits: 0 }, z: Scalar { bits: 0 } },
                y: Vector3 { x: Scalar { bits: 0 }, y: scale, z: Scalar { bits: 0 } },
                z: Vector3 { x: Scalar { bits: 0 }, y: Scalar { bits: 0 }, z: scale },
            }),
    {
        let zero = Scalar::zero();
        Matrix3::new(scale, zero, zero, zero, scale, zero, zero, zero, scale)
    }

    /// The matrix of four rows that acts on the first three components as
    /// this one does and leaves the fourth as it is.
    pub fn extend(&self) -> (m: Matrix4)
        ensures
            m == (Matrix4 {
                x: Vector4 { x: self.x.x, y: self.x.y, z: self.x.z, w: Scalar { bits: 0 } },
                y: Vector4 { x: self.y.x, y: self.y.y, z: self.y.z, w: Scalar { bits: 0 } },
                z: Vector4 { x: self.z.x, y: self.z.y, z: self.z.z, w: Scalar { bits: 0 } },
                w: Vector4::of_bits(0, 0, 0, ONE_BITS),
            }),
    {
        let zero = Scalar::zero();
        Matrix4 {
            x: Vector4 { x: self.x.x, y: self.x.y, z: self.x.z, w: zero },
            y: Vector4 { x: self.y.x, y: self.y.y, z: self.y.z, w: zero },
            z: Vector4 { x: self.z.x, y: self.z.y, z: self.z.z, w: zero },
            w: Vector4::W(),
        }
    }

    /// The upper left two rows and columns.
    pub fn truncate(&self) -> (m: Matrix2)
        ensures
            m == (Matrix2 {
                x: Vector2 { x: self.x.x, y: self.x.y },
                y: Vector2 { x: self.y.x, y: self.y.y },
            }),
    {
        Matrix2 {
            x: Vector2 { x: self.x.x, y: self.x.y },
            y: Vector2 { x: self.y.x, y: self.y.y },
        }
    }
}

impl Default for Matrix3 {
    fn default() -> (m: Matrix3)
        ensures
            m == (Matrix3 { x: Vector3::of_bits(0, 0, 0), y: Vector3::of_bits(0, 0, 0), z: Vector3::of_bits(0, 0, 0) }),
    {
        Matrix3 { x: Vector3::ZERO(), y: Vector3::ZERO(), z: Vector3::ZERO() }
    }
}

impl PartialEq for Matrix3 {
    fn eq(&self, other: &Matrix3) -> (r: bool) {
        self.equals(*other)
    }
}

impl PartialEqSpecImpl for Matrix3 {
    open spec fn obeys_eq_spec() -> bool {
        true
    }

    open spec fn eq_spec(&self, other: &Matrix3) -> bool {
        self.spec_equals(*other)
    }
}

impl PartialOrd for Matrix3 {
    fn partial_cmp(&self, other: &Matrix3) -> (r: Option<Ordering>) {
        first_decided(self.x.partial_cmp(&other.x), first_decided(self.y.partial_cmp(&other.y), self.z.partial_cmp(&other.z)))
    }
}

impl vstd::std_specs::cmp::PartialOrdSpecImpl for Matrix3 {
    open spec fn obeys_partial_cmp_spec() -> bool {
        true
    }

    open spec fn partial_cmp_spec(&self, other: &Matrix3) -> Option<Ordering> {
        self.compared_to(*other)
    }
}

} // verus!
