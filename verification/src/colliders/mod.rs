//! Bounding volumes and the decisions of ray queries against them.
//!
//! A ray query is answered in two steps. The caller evaluates the ray against
//! the shape: it computes the distances and points at which the ray meets the
//! planes or surfaces in question and hands them in as a probe. The shape's
//! `check_ray` then decides whether there is a hit and which of the candidates
//! it is.

use crate::scalar::Scalar;
use crate::vectors::vector_three::Vector3;
use vstd::prelude::*;

pub mod aabb;
pub mod bounding_sphere;
pub mod extremes;
pub mod mesh_collider;
pub mod plane_collider;
pub mod triangle_collider;

pub use aabb::AABoundingBox;
pub use aabb::Slab;
pub use aabb::SphereExtent;
pub use bounding_sphere::lies_outside;
pub use bounding_sphere::BoundingSphere;
pub use bounding_sphere::OverlapVolumes;
pub use bounding_sphere::SphereGap;
pub use bounding_sphere::SphereProbe;
pub use bounding_sphere::Spans;
pub use extremes::extreme_points;
pub use extremes::Axis;
pub use extremes::Extremes;
pub use mesh_collider::MeshCollider;
pub use mesh_collider::TriangleSight;
pub use plane_collider::PlaneCollider;
pub use plane_collider::PlaneProbe;
pub use triangle_collider::TriangleCollider;
pub use triangle_collider::TriangleProbe;

verus! {

/// Where a ray hits a shape: the point, its distance from the origin of the
/// ray, and the outward normal of the surface there. A ray that starts inside
/// a shape hits it at its origin, at distance zero, with the zero vector for a
/// normal.
#[derive(Clone, Copy, Debug)]
pub struct RayHitInfo {
    pub hit_position: Vector3,
    pub hit_distance: Scalar,
    pub hit_normal: Vector3,
}

impl RayHitInfo {
    pub fn new(position: Vector3, dist: Scalar, surface_normal: Vector3) -> (hit: RayHitInfo)
        ensures
            hit == (RayHitInfo {
                hit_position: position,
                hit_distance: dist,
                hit_normal: surface_normal,
            }),
    {
        RayHitInfo { hit_position: position, hit_distance: dist, hit_normal: surface_normal }
    }

    /// The hit of a ray that starts at `origin` inside a shape.
    pub open spec fn at_origin(origin: Vector3) -> RayHitInfo {
        RayHitInfo {
            hit_position: origin,
            hit_distance: Scalar { bits: 0 },
            hit_normal: Vector3::of_bits(0, 0, 0),
        }
    }
}

/// A point on a ray: its distance from the origin of the ray along the
/// normalised direction, and the point itself.
#[derive(Clone, Copy, Debug)]
pub struct RayPoint {
    pub distance: Scalar,
    pub position: Vector3,
}

impl RayPoint {
    pub fn new(distance: Scalar, position: Vector3) -> (point: RayPoint)
        ensures
            point == (RayPoint { distance, position }),
    {
        RayPoint { distance, position }
    }
}

/// `distance` lies beyond the limit, where there is one.
pub open spec fn spec_beyond(distance: Scalar, max_distance: Option<Scalar>) -> bool {
    match max_distance {
        Some(limit) => distance.spec_greater_than(limit),
        None => false,
    }
}

#[verifier::when_used_as_spec(spec_beyond)]
pub fn beyond(distance: Scalar, max_distance: Option<Scalar>) -> (too_far: bool)
    ensures
        too_far == spec_beyond(distance, max_distance),
{
    match max_distance {
        Some(limit) => distance.greater_than(limit),
        None => false,
    }
}

} // verus!
