//! Triangles.

use crate::colliders::beyond;
use crate::colliders::spec_beyond;
use crate::colliders::RayHitInfo;
use crate::colliders::RayPoint;
use crate::scalar::Scalar;
use crate::scalar::ONE_BITS;
use crate::vectors::vector_three::Vector3;
use vstd::prelude::*;
use vstd::std_specs::cmp::PartialEqSpecImpl;

verus! {

/// A triangle, given by its corners.
#[derive(Clone, Copy, Debug)]
pub struct TriangleCollider {
    pub a: Vector3,
    pub b: Vector3,
    pub c: Vector3,
}

/// What a ray does at the plane of a triangle: the determinant of the system
/// that gives the meeting point (zero where the ray runs parallel to the
/// plane), the two barycentric coordinates `u` and `v` of the meeting point
/// with respect to the sides from the first corner, their sum, the meeting
/// point itself, and the unit normal of the triangle.
#[derive(Clone, Copy, Debug)]
pub struct TriangleProbe {
    pub determinant: Scalar,
    pub u: Scalar,
    pub v: Scalar,
    pub u_v_sum: Scalar,
    pub point: RayPoint,
    pub normal: Vector3,
}

impl TriangleProbe {
    /// The meeting point lies in the triangle, its sides included: neither
    /// coordinate is negative and their sum is at most one.
    pub open spec fn spec_lies_inside(self) -> bool {
        let zero = Scalar { bits: 0 };
        let one = Scalar { bits: ONE_BITS };
        &&& self.u.spec_at_least(zero)
        &&& self.v.spec_at_least(zero)
        &&& self.u_v_sum.spec_at_most(one)
    }

    #[verifier::when_used_as_spec(spec_lies_inside)]
    pub fn lies_inside(self) -> (inside: bool)
        ensures
            inside == self.spec_lies_inside(),
    {
        self.u.at_least(Scalar::zero()) && self.v.at_least(Scalar::zero()) && self.u_v_sum.at_most(
            Scalar::one(),
        )
    }
}

impl TriangleCollider {
    pub fn new(a: Vector3, b: Vector3, c: Vector3) -> (triangle: TriangleCollider)
        ensures
            triangle == (TriangleCollider { a, b, c }),
    {
        TriangleCollider { a, b, c }
    }

    /// Equal corner by corner, as numbers.
    pub open spec fn spec_equals(self, other: TriangleCollider) -> bool {
        self.a.spec_equals(other.a) && self.b.spec_equals(other.b) && self.c.spec_equals(other.c)
    }

    #[verifier::when_used_as_spec(spec_equals)]
    pub fn equals(self, other: TriangleCollider) -> (r: bool)
        ensures
            r == self.spec_equals(other),
    {
        self.a.equals(other.a) && self.b.equals(other.b) && self.c.equals(other.c)
    }

    /// The answer to a ray query: a hit at the meeting point where the ray
    /// does not run parallel to the plane of the triangle, the meeting point
    /// lies in the triangle, not behind the origin of the ray and not beyond
    /// the limit.
    pub open spec fn spec_check_ray(
        &self,
        probe: TriangleProbe,
        max_distance: Option<Scalar>,
    ) -> Option<RayHitInfo> {
        let zero = Scalar { bits: 0 };
        if !probe.determinant.spec_is_nan() && !probe.determinant.spec_equals(zero)
            && probe.spec_lies_inside() && probe.point.distance.spec_at_least(zero) && !spec_beyond(
            probe.point.distance,
            max_distance,
        ) {
            Some(
                RayHitInfo {
                    hit_position: probe.point.position,
                    hit_distance: probe.point.distance,
                    hit_normal: probe.normal,
                },
            )
        } else {
            None
        }
    }

    /// Decides a ray query. `probe` says what the ray does at the plane of
    /// this triangle.
    #[verifier::when_used_as_spec(spec_check_ray)]
    pub fn check_ray(&self, probe: TriangleProbe, max_distance: Option<Scalar>) -> (hit: Option<
        RayHitInfo,
    >)
        ensures
            hit == self.spec_check_ray(probe, max_distance),
            hit matches Some(found) ==> found.hit_distance.spec_at_least(Scalar { bits: 0 })
                && !spec_beyond(found.hit_distance, max_distance),
    {
        let zero = Scalar::zero();
        if probe.determinant.is_nan() || probe.determinant.equals(zero) {
            return None;
        }
        if !probe.lies_inside() {
            return None;
        }
        if !probe.point.distance.at_least(zero) {
            return None;
        }
        if beyond(probe.point.distance, max_distance) {
            return None;
        }
        Some(RayHitInfo::new(probe.point.position, probe.point.distance, probe.normal))
    }
}

impl Default for TriangleCollider {
    fn default() -> (triangle: TriangleCollider)
        ensures
            triangle == (TriangleCollider {
                a: Vector3::of_bits(0, 0, 0),
                b: Vector3::of_bits(0, 0, 0),
                c: Vector3::of_bits(0, 0, 0),
            }),
    {
        TriangleCollider { a: Vector3::ZERO(), b: Vector3::ZERO(), c: Vector3::ZERO() }
    }
}

impl PartialEq for TriangleCollider {
    fn eq(&self, other: &TriangleCollider) -> (r: bool) {
        self.equals(*other)
    }
}

impl PartialEqSpecImpl for TriangleCollider {
    open spec fn obeys_eq_spec() -> bool {
        true
    }

    open spec fn eq_spec(&self, other: &TriangleCollider) -> bool {
        self.spec_equals(*other)
    }
}

} // verus!
