//! Two-dimensional vectors of binary32 components.

use core::cmp::Ordering;
use crate::scalar::first_decided;
use crate::scalar::then_compared;
use crate::scalar::Scalar;
use crate::scalar::EPSILON_BITS;
use crate::scalar::ONE_BITS;
use crate::vectors::vector_three::Vector3;
use vstd::prelude::*;
use vstd::std_specs::cmp::PartialEqSpecImpl;
use vstd::std_specs::convert::FromSpecImpl;
use vstd::std_specs::ops::NegSpecImpl;

verus! {

#[derive(Clone, Copy, Debug)]
pub struct Vector2 {
    pub x: Scalar,
    pub y: Scalar,
}

impl Vector2 {
    pub fn new(x: Scalar, y: Scalar) -> (v: Vector2)
        ensures
            v == (Vector2 { x, y }),
    {
        Vector2 { x, y }
    }

    /// The vector of the given bit patterns.
    pub open spec fn of_bits(x: u32, y: u32) -> Vector2 {
        Vector2 { x: Scalar { bits: x }, y: Scalar { bits: y } }
    }

    /// The unit vector along x.
    #[allow(non_snake_case)]
    pub fn X() -> (v: Vector2)
        ensures
            v == Vector2::of_bits(ONE_BITS, 0),
    {
        Vector2 { x: Scalar::one(), y: Scalar::zero() }
    }

    /// The unit vector along y.
    #[allow(non_snake_case)]
    pub fn Y() -> (v: Vector2)
        ensures
            v == Vector2::of_bits(0, ONE_BITS),
    {
        Vector2 { x: Scalar::zero(), y: Scalar::one() }
    }

    /// The vector whose components are all zero.
    #[allow(non_snake_case)]
    pub fn ZERO() -> (v: Vector2)
        ensures
            v == Vector2::of_bits(0, 0),
    {
        Vector2 { x: Scalar::zero(), y: Scalar::zero() }
    }

    /// The vector whose components are all one.
    #[allow(non_snake_case)]
    pub fn ONE() -> (v: Vector2)
        ensures
            v == Vector2::of_bits(ONE_BITS, ONE_BITS),
    {
        Vector2 { x: Scalar::one(), y: Scalar::one() }
    }

    /// The vector whose components are all the gap between one and the next
    /// greater value.
    #[allow(non_snake_case)]
    pub fn EPSILON() -> (v: Vector2)
        ensures
            v == Vector2::of_bits(EPSILON_BITS, EPSILON_BITS),
    {
        Vector2 { x: Scalar::from_bits(EPSILON_BITS), y: Scalar::from_bits(EPSILON_BITS) }
    }

    /// Equal component by component, as numbers.
    pub open spec fn spec_equals(self, other: Vector2) -> bool {
        self.x.spec_equals(other.x) && self.y.spec_equals(other.y)
    }

    /// The vector with the sign of every component flipped.
    pub open spec fn spec_negated(self) -> Vector2 {
        Vector2 { x: self.x.spec_negated(), y: self.y.spec_negated() }
    }

    /// How `self` stands to `other`: as their first components do; where
    /// those are equal, as their next components do, and so on. Two vectors
    /// are not ordered where the deciding components are not.
    pub open spec fn compared_to(self, other: Vector2) -> Option<Ordering> {
        then_compared(self.x.compared_to(other.x), self.y.compared_to(other.y))
    }

    #[verifier::when_used_as_spec(spec_equals)]
    pub fn equals(self, other: Vector2) -> (r: bool)
        ensures
            r == self.spec_equals(other),
    {
        self.x.equals(other.x) && self.y.equals(other.y)
    }

    #[verifier::when_used_as_spec(spec_negated)]
    pub fn negated(self) -> (r: Vector2)
        ensures
            r == self.spec_negated(),
    {
        Vector2 { x: self.x.negated(), y: self.y.negated() }
    }

    /// The vector in space with the same x and y and with z zero.
    pub fn extend(&self) -> (v: Vector3)
        ensures
            v == (Vector3 { x: self.x, y: self.y, z: Scalar { bits: 0 } }),
    {
        Vector3 { x: self.x, y: self.y, z: Scalar::zero() }
    }
}

impl Default for Vector2 {
    fn default() -> (v: Vector2)
        ensures
            v == Vector2::of_bits(0, 0),
    {
        Vector2::ZERO()
    }
}

impl PartialEq for Vector2 {
    fn eq(&self, other: &Vector2) -> (r: bool) {
        self.equals(*other)
    }
}

impl PartialEqSpecImpl for Vector2 {
    open spec fn obeys_eq_spec() -> bool {
        true
    }

    open spec fn eq_spec(&self, other: &Vector2) -> bool {
        self.spec_equals(*other)
    }
}

impl PartialOrd for Vector2 {
    fn partial_cmp(&self, other: &Vector2) -> (r: Option<Ordering>) {
        first_decided(self.x.partial_cmp(&other.x), self.y.partial_cmp(&other.y))
    }
}

impl vstd::std_specs::cmp::PartialOrdSpecImpl for Vector2 {
    open spec fn obeys_partial_cmp_spec() -> bool {
        true
    }

    open spec fn partial_cmp_spec(&self, other: &Vector2) -> Option<Ordering> {
        self.compared_to(*other)
    }
}

impl std::ops::Neg for Vector2 {
    type Output = Vector2;

    fn neg(self) -> (v: Vector2) {
        self.negated()
    }
}

impl NegSpecImpl for Vector2 {
    open spec fn obeys_neg_spec() -> bool {
        true
    }

    open spec fn neg_req(self) -> bool {
        true
    }

    open spec fn neg_spec(self) -> Vector2 {
        self.spec_negated()
    }
}

impl From<[Scalar; 2]> for Vector2 {
    fn from(value: [Scalar; 2]) -> (v: Vector2) {
        Vector2 { x: value[0], y: value[1] }
    }
}

impl FromSpecImpl<[Scalar; 2]> for Vector2 {
    open spec fn obeys_from_spec() -> bool {
        true
    }

    open spec fn from_spec(value: [Scalar; 2]) -> Vector2 {
        Vector2 { x: value@[0], y: value@[1] }
    }
}

impl From<Vector2> for [Scalar; 2] {
    fn from(value: Vector2) -> (a: [Scalar; 2]) {
        [value.x, value.y]
    }
}

impl FromSpecImpl<Vector2> for [Scalar; 2] {
    open spec fn obeys_from_spec() -> bool {
        true
    }

    open spec fn from_spec(value: Vector2) -> [Scalar; 2] {
        [value.x, value.y]
    }
}

} // verus!
