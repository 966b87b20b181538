//! Three-dimensional vectors of binary32 components.

use core::cmp::Ordering;
use crate::scalar::first_decided;
use crate::scalar::then_compared;
use crate::scalar::Scalar;
use crate::scalar::EPSILON_BITS;
use crate::scalar::ONE_BITS;
use crate::vectors::vector_four::Vector4;
use crate::vectors::vector_two::Vector2;
use vstd::prelude::*;
use vstd::std_specs::cmp::PartialEqSpecImpl;
use vstd::std_specs::convert::FromSpecImpl;
use vstd::std_specs::ops::NegSpecImpl;

verus! {

/// A point or a direction in space.
#[derive(Clone, Copy, Debug)]
pub struct Vector3 {
    pub x: Scalar,
    pub y: Scalar,
    pub z: Scalar,
}

impl Vector3 {
    pub fn new(x: Scalar, y: Scalar, z: Scalar) -> (v: Vector3)
        ensures
            v == (Vector3 { x, y, z }),
    {
        Vector3 { x, y, z }
    }

    /// The vector of the given bit patterns.
    pub open spec fn of_bits(x: u32, y: u32, z: u32) -> Vector3 {
        Vector3 { x: Scalar { bits: x }, y: Scalar { bits: y }, z: Scalar { bits: z } }
    }

    /// The unit vector along x.
    #[allow(non_snake_case)]
    pub fn X() -> (v: Vector3)
        ensures
            v == Vector3::of_bits(ONE_BITS, 0, 0),
    {
        Vector3 { x: Scalar::one(), y: Scalar::zero(), z: Scalar::zero() }
    }

    /// The unit vector along y.
    #[allow(non_snake_case)]
    pub fn Y() -> (v: Vector3)
        ensures
            v == Vector3::of_bits(0, ONE_BITS, 0),
    {
        Vector3 { x: Scalar::zero(), y: Scalar::one(), z: Scalar::zero() }
    }

    /// The unit vector along z.
    #[allow(non_snake_case)]
    pub fn Z() -> (v: Vector3)
        ensures
            v == Vector3::of_bits(0, 0, ONE_BITS),
    {
        Vector3 { x: Scalar::zero(), y: Scalar::zero(), z: Scalar::one() }
    }

    /// The vector whose components are all zero.
    #[allow(non_snake_case)]
    pub fn ZERO() -> (v: Vector3)
        ensures
            v == Vector3::of_bits(0, 0, 0),
    {
        Vector3 { x: Scalar::zero(), y: Scalar::zero(), z: Scalar::zero() }
    }

    /// The vector whose components are all one.
    #[allow(non_snake_case)]
    pub fn ONE() -> (v: Vector3)
        ensures
            v == Vector3::of_bits(ONE_BITS, ONE_BITS, ONE_BITS),
    {
        Vector3 { x: Scalar::one(), y: Scalar::one(), z: Scalar::one() }
    }

    /// The vector whose components are all the gap between one and the next
    /// greater value.
    #[allow(non_snake_case)]
    pub fn EPSILON() -> (v: Vector3)
        ensures
            v == Vector3::of_bits(EPSILON_BITS, EPSILON_BITS, EPSILON_BITS),
    {
        Vector3 { x: Scalar::from_bits(EPSILON_BITS), y: Scalar::from_bits(EPSILON_BITS), z: Scalar::from_bits(EPSILON_BITS) }
    }

    /// No component is not-a-number.
    pub open spec fn is_number(self) -> bool {
        !self.x.spec_is_nan() && !self.y.spec_is_nan() && !self.z.spec_is_nan()
    }

    /// Equal component by component, as numbers.
    pub open spec fn spec_equals(self, other: Vector3) -> bool {
        self.x.spec_equals(other.x) && self.y.spec_equals(other.y) && self.z.spec_equals(other.z)
    }

    /// The vector with the sign of every component flipped.
    pub open spec fn spec_negated(self) -> Vector3 {
        Vector3 { x: self.x.spec_negated(), y: self.y.spec_negated(), z: self.z.spec_negated() }
    }

    /// How `self` stands to `other`: as their first components do; where
    /// those are equal, as their next components do, and so on. Two vectors
    /// are not ordered where the deciding components are not.
    pub open spec fn compared_to(self, other: Vector3) -> Option<Ordering> {
        then_compared(self.x.compared_to(other.x), then_compared(self.y.compared_to(other.y), self.z.compared_to(other.z)))
    }

    #[verifier::when_used_as_spec(spec_equals)]
    pub fn equals(self, other: Vector3) -> (r: bool)
        ensures
            r == self.spec_equals(other),
    {
        self.x.equals(other.x) && self.y.equals(other.y) && self.z.equals(other.z)
    }

    #[verifier::when_used_as_spec(spec_negated)]
    pub fn negated(self) -> (r: Vector3)
        ensures
            r == self.spec_negated(),
    {
        Vector3 { x: self.x.negated(), y: self.y.negated(), z: self.z.negated() }
    }

    /// The x and y components.
    pub fn xy(&self) -> (v: Vector2)
        ensures
            v == (Vector2 { x: self.x, y: self.y }),
    {
        Vector2 { x: self.x, y: self.y }
    }

    /// The x and z components.
    pub fn xz(&self) -> (v: Vector2)
        ensures
            v == (Vector2 { x: self.x, y: self.z }),
    {
        Vector2 { x: self.x, y: self.z }
    }

    /// The y and z components.
    pub fn yz(&self) -> (v: Vector2)
        ensures
            v == (Vector2 { x: self.y, y: self.z }),
    {
        Vector2 { x: self.y, y: self.z }
    }

    /// The vector without its last component.
    pub fn truncate(&self) -> (v: Vector2)
        ensures
            v == (Vector2 { x: self.x, y: self.y }),
    {
        Vector2 { x: self.x, y: self.y }
    }

    /// The vector of four components with the same x, y and z and with w
    /// zero.
    pub fn extend(&self) -> (v: Vector4)
        ensures
            v == (Vector4 { x: self.x, y: self.y, z: self.z, w: Scalar { bits: 0 } }),
    {
        Vector4 { x: self.x, y: self.y, z: self.z, w: Scalar::zero() }
    }

    /// The rows of the matrix that takes a vector to its cross product with
    /// this one, the product taken with this vector on the left.
    pub fn skew_symmetric(&self) -> (rows: [Vector3; 3])
        ensures
            rows@ == seq![
                Vector3 { x: Scalar { bits: 0 }, y: self.z.spec_negated(), z: self.y },
                Vector3 { x: self.z, y: Scalar { bits: 0 }, z: self.x.spec_negated() },
                Vector3 { x: self.y.spec_negated(), y: self.x, z: Scalar { bits: 0 } },
            ],
    {
        [
            Vector3 { x: Scalar::zero(), y: self.z.negated(), z: self.y },
            Vector3 { x: self.z, y: Scalar::zero(), z: self.x.negated() },
            Vector3 { x: self.y.negated(), y: self.x, z: Scalar::zero() },
        ]
    }
}

/// The bit pattern of the least difference that counts when two vectors are
/// put in order: 2 to the power of -120, times 1.5625.
pub const LEAST_DIFFERENCE_BITS: u32 = 0x03c8_0000;

/// The sign of a difference between two components: 0 where its size is below
/// the least difference that counts or it is not a number, else 1 where it is
/// positive and -1 where it is negative.
pub open spec fn spec_sign_of(difference: Scalar) -> int {
    if !difference.spec_is_nan() && difference.magnitude() < LEAST_DIFFERENCE_BITS {
        0
    } else if difference.spec_greater_than(Scalar { bits: 0 }) {
        1
    } else if difference.spec_less_than(Scalar { bits: 0 }) {
        -1
    } else {
        0
    }
}

/// The sign of a difference between two components.
pub fn sign_of(difference: Scalar) -> (sign: i8)
    ensures
        sign == spec_sign_of(difference),
{
    let zero = Scalar::zero();
    if difference.abs().less_than(Scalar::from_bits(LEAST_DIFFERENCE_BITS)) {
        0
    } else if difference.greater_than(zero) {
        1
    } else if difference.less_than(zero) {
        -1
    } else {
        0
    }
}

impl Vector3 {
    /// The order of two vectors, given their difference `self - other`: that
    /// of the first components whose difference counts, and equal where none
    /// does.
    pub open spec fn order_by_difference(difference: Vector3) -> Ordering {
        if spec_sign_of(difference.x) > 0 {
            Ordering::Greater
        } else if spec_sign_of(difference.x) < 0 {
            Ordering::Less
        } else if spec_sign_of(difference.y) > 0 {
            Ordering::Greater
        } else if spec_sign_of(difference.y) < 0 {
            Ordering::Less
        } else if spec_sign_of(difference.z) > 0 {
            Ordering::Greater
        } else if spec_sign_of(difference.z) < 0 {
            Ordering::Less
        } else {
            Ordering::Equal
        }
    }

    /// Puts two vectors in order, given their difference `self - other`.
    /// Unlike `<` and `>`, this orders any two vectors, and differences too
    /// small to count are passed over.
    pub fn cmp_difference(difference: Vector3) -> (found: Ordering)
        ensures
            found == Vector3::order_by_difference(difference),
    {
        let x = sign_of(difference.x);
        let y = sign_of(difference.y);
        let z = sign_of(difference.z);
        if x > 0 {
            Ordering::Greater
        } else if x < 0 {
            Ordering::Less
        } else if y > 0 {
            Ordering::Greater
        } else if y < 0 {
            Ordering::Less
        } else if z > 0 {
            Ordering::Greater
        } else if z < 0 {
            Ordering::Less
        } else {
            Ordering::Equal
        }
    }
}

impl Default for Vector3 {
    fn default() -> (v: Vector3)
        ensures
            v == Vector3::of_bits(0, 0, 0),
    {
        Vector3::ZERO()
    }
}

impl PartialEq for Vector3 {
    fn eq(&self, other: &Vector3) -> (r: bool) {
        self.equals(*other)
    }
}

impl PartialEqSpecImpl for Vector3 {
    open spec fn obeys_eq_spec() -> bool {
        true
    }

    open spec fn eq_spec(&self, other: &Vector3) -> bool {
        self.spec_equals(*other)
    }
}

impl PartialOrd for Vector3 {
    fn partial_cmp(&self, other: &Vector3) -> (r: Option<Ordering>) {
        first_decided(self.x.partial_cmp(&other.x), first_decided(self.y.partial_cmp(&other.y), self.z.partial_cmp(&other.z)))
    }
}

impl vstd::std_specs::cmp::PartialOrdSpecImpl for Vector3 {
    open spec fn obeys_partial_cmp_spec() -> bool {
        true
    }

    open spec fn partial_cmp_spec(&self, other: &Vector3) -> Option<Ordering> {
        self.compared_to(*other)
    }
}

impl std::ops::Neg for Vector3 {
    type Output = Vector3;

    fn neg(self) -> (v: Vector3) {
        self.negated()
    }
}

impl NegSpecImpl for Vector3 {
    open spec fn obeys_neg_spec() -> bool {
        true
    }

    open spec fn neg_req(self) -> bool {
        true
    }

    open spec fn neg_spec(self) -> Vector3 {
        self.spec_negated()
    }
}

impl From<[Scalar; 3]> for Vector3 {
    fn from(value: [Scalar; 3]) -> (v: Vector3) {
        Vector3 { x: value[0], y: value[1], z: value[2] }
    }
}

impl FromSpecImpl<[Scalar; 3]> for Vector3 {
    open spec fn obeys_from_spec() -> bool {
        true
    }

    open spec fn from_spec(value: [Scalar; 3]) -> Vector3 {
        Vector3 { x: value@[0], y: value@[1], z: value@[2] }
    }
}

impl From<Vector3> for [Scalar; 3] {
    fn from(value: Vector3) -> (a: [Scalar; 3]) {
        [value.x, value.y, value.z]
    }
}

impl FromSpecImpl<Vector3> for [Scalar; 3] {
    open spec fn obeys_from_spec() -> bool {
        true
    }

    open spec fn from_spec(value: Vector3) -> [Scalar; 3] {
        [value.x, value.y, value.z]
    }
}

} // verus!
