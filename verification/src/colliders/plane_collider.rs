//! Bounded planes.

use crate::colliders::beyond;
use crate::colliders::spec_beyond;
use crate::colliders::RayHitInfo;
use crate::colliders::RayPoint;
use crate::scalar::Scalar;
use crate::scalar::ONE_BITS;
use crate::vectors::vector_three::Vector3;
use vstd::prelude::*;
use vstd::std_specs::cmp::PartialEqSpecImpl;

verus! {

/// A rectangle parallel to the x-z plane, facing up. It reaches from
/// `position` over `x_length` along x and over `z_length` along z; `centre` is
/// its middle.
#[derive(Clone, Copy, Debug)]
pub struct PlaneCollider {
    pub position: Vector3,
    pub x_length: Scalar,
    pub z_length: Scalar,
    pub centre: Vector3,
}

/// What a ray does at a plane: the height of the plane above the origin of the
/// ray, the part of the normalised direction that points up, the point at
/// which the ray meets the plane, and how far that point lies from the
/// position of the rectangle along x and along z.
#[derive(Clone, Copy, Debug)]
pub struct PlaneProbe {
    pub height: Scalar,
    pub slope: Scalar,
    pub point: RayPoint,
    pub x_offset: Scalar,
    pub z_offset: Scalar,
}

/// The normal of every plane: the unit vector along y.
pub open spec fn up() -> Vector3 {
    Vector3::of_bits(0, ONE_BITS, 0)
}

impl PlaneCollider {
    pub fn new(position: Vector3, x_length: Scalar, z_length: Scalar, centre: Vector3) -> (plane:
        PlaneCollider)
        ensures
            plane == (PlaneCollider { position, x_length, z_length, centre }),
    {
        PlaneCollider { position, x_length, z_length, centre }
    }

    /// The ray starts on the plane: at the position of the rectangle, or at
    /// the height of the plane.
    pub open spec fn starts_on_plane(&self, root_position: Vector3, probe: PlaneProbe) -> bool {
        root_position.spec_equals(self.position) || probe.height.spec_equals(Scalar { bits: 0 })
    }

    /// The point lies past the far edge of the rectangle along x or along z.
    /// Nothing is asked of the near edges.
    pub open spec fn past_far_edge(&self, probe: PlaneProbe) -> bool {
        probe.x_offset.spec_greater_than(self.x_length) || probe.z_offset.spec_greater_than(
            self.z_length,
        )
    }

    /// The answer to a ray query. A ray that starts on the plane hits at its
    /// origin. Any other ray misses where it runs parallel to the plane, where
    /// the plane lies behind it or beyond the limit or the distance to it is
    /// not a number, and where it meets the plane past a far edge of the
    /// rectangle; else it hits where it meets the plane. The normal of a hit
    /// points up.
    pub open spec fn spec_check_ray(
        &self,
        root_position: Vector3,
        probe: PlaneProbe,
        max_distance: Option<Scalar>,
    ) -> Option<RayHitInfo> {
        let zero = Scalar { bits: 0 };
        if self.starts_on_plane(root_position, probe) {
            Some(RayHitInfo { hit_position: root_position, hit_distance: zero, hit_normal: up() })
        } else if probe.slope.spec_equals(zero) {
            None
        } else if !probe.point.distance.spec_at_least(zero) {
            None
        } else if spec_beyond(probe.point.distance, max_distance) {
            None
        } else if self.past_far_edge(probe) {
            None
        } else {
            Some(
                RayHitInfo {
                    hit_position: probe.point.position,
                    hit_distance: probe.point.distance,
                    hit_normal: up(),
                },
            )
        }
    }

    /// Decides a ray query. `probe` says what the ray from `root_position`
    /// does at this plane.
    #[verifier::when_used_as_spec(spec_check_ray)]
    pub fn check_ray(
        &self,
        root_position: Vector3,
        probe: PlaneProbe,
        max_distance: Option<Scalar>,
    ) -> (hit: Option<RayHitInfo>)
        ensures
            hit == self.spec_check_ray(root_position, probe, max_distance),
            hit matches Some(found) ==> found.hit_normal == up() && found.hit_distance.spec_at_least(
                Scalar { bits: 0 },
            ) && (self.starts_on_plane(root_position, probe) || !spec_beyond(
                found.hit_distance,
                max_distance,
            )),
    {
        let zero = Scalar::zero();
        if root_position.equals(self.position) || probe.height.equals(zero) {
            return Some(RayHitInfo::new(root_position, zero, Vector3::Y()));
        }
        if probe.slope.equals(zero) {
            return None;
        }
        if !probe.point.distance.at_least(zero) {
            return None;
        }
        if beyond(probe.point.distance, max_distance) {
            return None;
        }
        if probe.x_offset.greater_than(self.x_length) || probe.z_offset.greater_than(
            self.z_length,
        ) {
            return None;
        }
        Some(RayHitInfo::new(probe.point.position, probe.point.distance, Vector3::Y()))
    }
}

impl Default for PlaneCollider {
    fn default() -> (plane: PlaneCollider)
        ensures
            plane == (PlaneCollider {
                position: Vector3::of_bits(0, 0, 0),
                x_length: Scalar { bits: 0 },
                z_length: Scalar { bits: 0 },
                centre: Vector3::of_bits(0, 0, 0),
            }),
    {
        PlaneCollider {
            position: Vector3::ZERO(),
            x_length: Scalar::zero(),
            z_length: Scalar::zero(),
            centre: Vector3::ZERO(),
        }
    }
}

impl PlaneCollider {
    /// Equal in position, lengths and centre, as numbers.
    pub open spec fn spec_equals(self, other: PlaneCollider) -> bool {
        &&& self.position.spec_equals(other.position)
        &&& self.x_length.spec_equals(other.x_length)
        &&& self.z_length.spec_equals(other.z_length)
        &&& self.centre.spec_equals(other.centre)
    }
}

impl PartialEq for PlaneCollider {
    fn eq(&self, other: &PlaneCollider) -> (r: bool) {
        self.position.equals(other.position) && self.x_length.equals(other.x_length)
            && self.z_length.equals(other.z_length) && self.centre.equals(other.centre)
    }
}

impl PartialEqSpecImpl for PlaneCollider {
    open spec fn obeys_eq_spec() -> bool {
        true
    }

    open spec fn eq_spec(&self, other: &PlaneCollider) -> bool {
        self.spec_equals(*other)
    }
}

} // verus!
