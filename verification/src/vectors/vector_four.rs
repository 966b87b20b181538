//! Four-dimensional vectors of binary32 components.

use core::cmp::Ordering;
use crate::scalar::first_decided;
use crate::scalar::then_compared;
use crate::scalar::Scalar;
use crate::scalar::EPSILON_BITS;
use crate::scalar::ONE_BITS;
use crate::vectors::vector_three::Vector3;
use crate::vectors::vector_two::Vector2;
use vstd::prelude::*;
use vstd::std_specs::cmp::PartialEqSpecImpl;
use vstd::std_specs::convert::FromSpecImpl;
use vstd::std_specs::ops::NegSpecImpl;

verus! {

#[derive(Clone, Copy, Debug)]
pub struct Vector4 {
    pub x: Scalar,
    pub y: Scalar,
    pub z: Scalar,
    pub w: Scalar,
}

impl Vector4 {
    pub fn new(x: Scalar, y: Scalar, z: Scalar, w: Scalar) -> (v: Vector4)
        ensures
            v == (Vector4 { x, y, z, w }),
    {
        Vector4 { x, y, z, w }
    }

    /// The vector of the given bit patterns.
    pub open spec fn of_bits(x: u32, y: u32, z: u32, w: u32) -> Vector4 {
        Vector4 { x: Scalar { bits: x }, y: Scalar { bits: y }, z: Scalar { bits: z }, w: Scalar { bits: w } }
    }

    /// The unit vector along x.
    #[allow(non_snake_case)]
    pub fn X() -> (v: Vector4)
        ensures
            v == Vector4::of_bits(ONE_BITS, 0, 0, 0),
    {
        Vector4 { x: Scalar::one(), y: Scalar::zero(), z: Scalar::zero(), w: Scalar::zero() }
    }

    /// The unit vector along y.
    #[allow(non_snake_case)]
    pub fn Y() -> (v: Vector4)
        ensures
            v == Vector4::of_bits(0, ONE_BITS, 0, 0),
    {
        Vector4 { x: Scalar::zero(), y: Scalar::one(), z: Scalar::zero(), w: Scalar::zero() }
    }

    /// The unit vector along z.
    #[allow(non_snake_case)]
    pub fn Z() -> (v: Vector4)
        ensures
            v == Vector4::of_bits(0, 0, ONE_BITS, 0),
    {
        Vector4 { x: Scalar::zero(), y: Scalar::zero(), z: Scalar::one(), w: Scalar::zero() }
    }

    /// The unit vector along w.
    #[allow(non_snake_case)]
    pub fn W() -> (v: Vector4)
        ensures
            v == Vector4::of_bits(0, 0, 0, ONE_BITS),
    {
        Vector4 { x: Scalar::zero(), y: Scalar::zero(), z: Scalar::zero(), w: Scalar::one() }
    }

    /// The vector whose components are all zero.
    #[allow(non_snake_case)]
    pub fn ZERO() -> (v: Vector4)
        ensures
            v == Vector4::of_bits(0, 0, 0, 0),
    {
        Vector4 { x: Scalar::zero(), y: Scalar::zero(), z: Scalar::zero(), w: Scalar::zero() }
    }

    /// The vector whose components are all one.
    #[allow(non_snake_case)]
    pub fn ONE() -> (v: Vector4)
        ensures
            v == Vector4::of_bits(ONE_BITS, ONE_BITS, ONE_BITS, ONE_BITS),
    {
        Vector4 { x: Scalar::one(), y: Scalar::one(), z: Scalar::one(), w: Scalar::one() }
    }

    /// The vector whose components are all the gap between one and the next
    /// greater value.
    #[allow(non_snake_case)]
    pub fn EPSILON() -> (v: Vector4)
        ensures
            v == Vector4::of_bits(EPSILON_BITS, EPSILON_BITS, EPSILON_BITS, EPSILON_BITS),
    {
        Vector4 { x: Scalar::from_bits(EPSILON_BITS), y: Scalar::from_bits(EPSILON_BITS), z: Scalar::from_bits(EPSILON_BITS), w: Scalar::from_bits(EPSILON_BITS) }
    }

    /// Equal component by component, as numbers.
    pub open spec fn spec_equals(self, other: Vector4) -> bool {
        self.x.spec_equals(other.x) && self.y.spec_equals(other.y) && self.z.spec_equals(other.z) && self.w.spec_equals(other.w)
    }

    /// The vector with the sign of every component flipped.
    pub open spec fn spec_negated(self) -> Vector4 {
        Vector4 { x: self.x.spec_negated(), y: self.y.spec_negated(), z: self.z.spec_negated(), w: self.w.spec_negated() }
    }

    /// How `self` stands to `other`: as their first components do; where
    /// those are equal, as their next components do, and so on. Two vectors
    /// are not ordered where the deciding components are not.
    pub open spec fn compared_to(self, other: Vector4) -> Option<Ordering> {
        then_compared(self.x.compared_to(other.x), then_compared(self.y.compared_to(other.y), then_compared(self.z.compared_to(other.z), self.w.compared_to(other.w))))
    }

    #[verifier::when_used_as_spec(spec_equals)]
    pub fn equals(self, other: Vector4) -> (r: bool)
        ensures
            r == self.spec_equals(other),
    {
        self.x.equals(other.x) && self.y.equals(other.y) && self.z.equals(other.z) && self.w.equals(other.w)
    }

    #[verifier::when_used_as_spec(spec_negated)]
    pub fn negated(self) -> (r: Vector4)
        ensures
            r == self.spec_negated(),
    {
        Vector4 { x: self.x.negated(), y: self.y.negated(), z: self.z.negated(), w: self.w.negated() }
    }

    /// The x and y components.
    pub fn xy(&self) -> (v: Vector2)
        ensures
            v == (Vector2 { x: self.x, y: self.y }),
    {
        Vector2 { x: self.x, y: self.y }
    }

    /// The x and z components.
    pub fn xz(&self) -> (v: Vector2)
        ensures
            v == (Vector2 { x: self.x, y: self.z }),
    {
        Vector2 { x: self.x, y: self.z }
    }

    /// The y and z components.
    pub fn yz(&self) -> (v: Vector2)
        ensures
            v == (Vector2 { x: self.y, y: self.z }),
    {
        Vector2 { x: self.y, y: self.z }
    }

    /// The vector without its last component.
    pub fn truncate(&self) -> (v: Vector3)
        ensures
            v == (Vector3 { x: self.x, y: self.y, z: self.z }),
    {
        Vector3 { x: self.x, y: self.y, z: self.z }
    }

    /// The vector without the component with the given number.
    pub open spec fn spec_truncate_n(&self, n: usize) -> Vector3 {
        if n == 0 {
            Vector3 { x: self.y, y: self.z, z: self.w }
        } else if n == 1 {
            Vector3 { x: self.x, y: self.z, z: self.w }
        } else if n == 2 {
            Vector3 { x: self.x, y: self.y, z: self.w }
        } else {
            Vector3 { x: self.x, y: self.y, z: self.z }
        }
    }

    #[verifier::when_used_as_spec(spec_truncate_n)]
    pub fn truncate_n(&self, n: usize) -> (v: Vector3)
        requires
            n < 4,
        ensures
            v == self.spec_truncate_n(n),
    {
        if n == 0 {
            Vector3 { x: self.y, y: self.z, z: self.w }
        } else if n == 1 {
            Vector3 { x: self.x, y: self.z, z: self.w }
        } else if n == 2 {
            Vector3 { x: self.x, y: self.y, z: self.w }
        } else {
            Vector3 { x: self.x, y: self.y, z: self.z }
        }
    }
}

impl Default for Vector4 {
    fn default() -> (v: Vector4)
        ensures
            v == Vector4::of_bits(0, 0, 0, 0),
    {
        Vector4::ZERO()
    }
}

impl PartialEq for Vector4 {
    fn eq(&self, other: &Vector4) -> (r: bool) {
        self.equals(*other)
    }
}

impl PartialEqSpecImpl for Vector4 {
    open spec fn obeys_eq_spec() -> bool {
        true
    }

    open spec fn eq_spec(&self, other: &Vector4) -> bool {
        self.spec_equals(*other)
    }
}

impl PartialOrd for Vector4 {
    fn partial_cmp(&self, other: &Vector4) -> (r: Option<Ordering>) {
        first_decided(self.x.partial_cmp(&other.x), first_decided(self.y.partial_cmp(&other.y), first_decided(self.z.partial_cmp(&other.z), self.w.partial_cmp(&other.w))))
    }
}

impl vstd::std_specs::cmp::PartialOrdSpecImpl for Vector4 {
    open spec fn obeys_partial_cmp_spec() -> bool {
        true
    }

    open spec fn partial_cmp_spec(&self, other: &Vector4) -> Option<Ordering> {
        self.compared_to(*other)
    }
}

impl std::ops::Neg for Vector4 {
    type Output = Vector4;

    fn neg(self) -> (v: Vector4) {
        self.negated()
    }
}

impl NegSpecImpl for Vector4 {
    open spec fn obeys_neg_spec() -> bool {
        true
    }

    open spec fn neg_req(self) -> bool {
        true
    }

    open spec fn neg_spec(self) -> Vector4 {
        self.spec_negated()
    }
}

impl From<[Scalar; 4]> for Vector4 {
    fn from(value: [Scalar; 4]) -> (v: Vector4) {
        Vector4 { x: value[0], y: value[1], z: value[2], w: value[3] }
    }
}

impl FromSpecImpl<[Scalar; 4]> for Vector4 {
    open spec fn obeys_from_spec() -> bool {
        true
    }

    open spec fn from_spec(value: [Scalar; 4]) -> Vector4 {
        Vector4 { x: value@[0], y: value@[1], z: value@[2], w: value@[3] }
    }
}

impl From<Vector4> for [Scalar; 4] {
    fn from(value: Vector4) -> (a: [Scalar; 4]) {
        [value.x, value.y, value.z, value.w]
    }
}

impl FromSpecImpl<Vector4> for [Scalar; 4] {
    open spec fn obeys_from_spec() -> bool {
        true
    }

    open spec fn from_spec(value: Vector4) -> [Scalar; 4] {
        [value.x, value.y, value.z, value.w]
    }
}

} // verus!
