//! Axis-aligned bounding boxes.

use crate::colliders::extremes::extreme_points;
use crate::colliders::extremes::highest;
use crate::colliders::extremes::highest_from;
use crate::colliders::extremes::lemma_highest_from;
use crate::colliders::extremes::lemma_lowest_from;
use crate::colliders::extremes::lowest;
use crate::colliders::extremes::lowest_from;
use crate::colliders::extremes::spec_component;
use crate::colliders::extremes::Axis;
use crate::colliders::beyond;
use crate::colliders::spec_beyond;
use crate::colliders::RayHitInfo;
use crate::colliders::RayPoint;
use crate::scalar::Scalar;
use crate::vectors::vector_three::Vector3;
use vstd::prelude::*;
use vstd::std_specs::cmp::PartialEqSpecImpl;

verus! {

/// `v` lies neither below `low` nor above `high`. Not-a-number lies outside of
/// nothing, and nothing lies outside of it.
pub open spec fn not_outside(v: Scalar, low: Scalar, high: Scalar) -> bool {
    !v.spec_less_than(low) && !v.spec_greater_than(high)
}

/// The two intervals share a point: each begins no later than the other ends.
pub open spec fn intervals_meet(a_low: Scalar, a_high: Scalar, b_low: Scalar, b_high: Scalar) -> bool {
    a_low.spec_at_most(b_high) && a_high.spec_at_least(b_low)
}

/// A box with faces parallel to the coordinate planes, given by the corner with
/// the least and the corner with the greatest coordinates.
#[derive(Clone, Copy, Debug)]
pub struct AABoundingBox {
    pub min_corner: Vector3,
    pub max_corner: Vector3,
}

/// What a sphere occupies along the axes: its centre, and the corners
/// `centre - radius` and `centre + radius` of the cube around it.
#[derive(Clone, Copy, Debug)]
pub struct SphereExtent {
    pub centre: Vector3,
    pub low: Vector3,
    pub high: Vector3,
}

/// What a ray does along one axis of a box: the reciprocal of its direction
/// along the axis, and the points at which it meets the plane of the least and
/// the plane of the greatest corner.
#[derive(Clone, Copy, Debug)]
pub struct Slab {
    pub inverse: Scalar,
    pub at_min: RayPoint,
    pub at_max: RayPoint,
}

/// The stretch of a ray that lies between pairs of planes: where it enters
/// and where it leaves, each with the outward normal of the face there.
pub struct Crossing {
    pub entry: RayPoint,
    pub exit: RayPoint,
    pub near: Vector3,
    pub far: Vector3,
}

/// The unit vector along `axis`.
pub open spec fn unit(axis: Axis) -> Vector3 {
    match axis {
        Axis::X => Vector3::of_bits(crate::scalar::ONE_BITS, 0, 0),
        Axis::Y => Vector3::of_bits(0, crate::scalar::ONE_BITS, 0),
        Axis::Z => Vector3::of_bits(0, 0, crate::scalar::ONE_BITS),
    }
}

impl Slab {
    pub fn new(inverse: Scalar, at_min: RayPoint, at_max: RayPoint) -> (slab: Slab)
        ensures
            slab == (Slab { inverse, at_min, at_max }),
    {
        Slab { inverse, at_min, at_max }
    }

    /// The ray runs against the axis: it meets the plane of the greatest
    /// corner first.
    pub open spec fn runs_backwards(self) -> bool {
        self.inverse.spec_less_than(Scalar { bits: 0 })
    }

    /// The stretch of the ray between the two planes of `axis`. A ray that
    /// runs along the axis enters through the face of the least corner, whose
    /// normal points against the axis; a ray that runs against it enters
    /// through the face of the greatest corner.
    pub open spec fn spec_crossing(self, axis: Axis) -> Crossing {
        if self.runs_backwards() {
            Crossing {
                entry: self.at_max,
                exit: self.at_min,
                near: unit(axis),
                far: unit(axis).spec_negated(),
            }
        } else {
            Crossing {
                entry: self.at_min,
                exit: self.at_max,
                near: unit(axis).spec_negated(),
                far: unit(axis),
            }
        }
    }

    fn crossing(self, axis: Axis) -> (c: Crossing)
        ensures
            c == self.spec_crossing(axis),
    {
        let along = match axis {
            Axis::X => Vector3::X(),
            Axis::Y => Vector3::Y(),
            Axis::Z => Vector3::Z(),
        };
        if self.inverse.less_than(Scalar::zero()) {
            Crossing { entry: self.at_max, exit: self.at_min, near: along, far: along.negated() }
        } else {
            Crossing { entry: self.at_min, exit: self.at_max, near: along.negated(), far: along }
        }
    }
}

impl Crossing {
    /// The stretch does not begin after it ends. An end that is not a number
    /// bounds nothing: it comes from a ray that runs within the plane of a
    /// face, which it neither enters nor leaves.
    pub open spec fn is_ordered(self) -> bool {
        !self.entry.distance.spec_greater_than(self.exit.distance)
    }

    /// The point of the ray at distance `t` lies on the stretch: `t` is a
    /// number, not before the beginning and not after the end.
    pub open spec fn holds(self, t: Scalar) -> bool {
        &&& !t.spec_is_nan()
        &&& !t.spec_less_than(self.entry.distance)
        &&& !t.spec_greater_than(self.exit.distance)
    }

    /// The two stretches share no point: one begins after the other has
    /// ended.
    pub open spec fn misses(self, next: Crossing) -> bool {
        self.entry.distance.spec_greater_than(next.exit.distance)
            || next.entry.distance.spec_greater_than(self.exit.distance)
    }

    /// The stretch common to both: it begins where the later of the two begins
    /// and ends where the earlier of the two ends. Where both begin or end
    /// together, `self` gives the point and the normal. An end of `self` that
    /// is not a number gives way to that of `next`.
    pub open spec fn spec_narrowed(self, next: Crossing) -> Option<Crossing> {
        if self.misses(next) {
            None
        } else {
            let later = self.entry.distance.spec_is_nan() || next.entry.distance.spec_greater_than(
                self.entry.distance,
            );
            let earlier = self.exit.distance.spec_is_nan() || next.exit.distance.spec_less_than(
                self.exit.distance,
            );
            Some(
                Crossing {
                    entry: if later {
                        next.entry
                    } else {
                        self.entry
                    },
                    near: if later {
                        next.near
                    } else {
                        self.near
                    },
                    exit: if earlier {
                        next.exit
                    } else {
                        self.exit
                    },
                    far: if earlier {
                        next.far
                    } else {
                        self.far
                    },
                },
            )
        }
    }

    /// The hit that the stretch stands for. There is none where the stretch
    /// ends behind the origin of the ray. Where it begins behind the origin,
    /// the hit is where the ray leaves; else it is where the ray enters. A hit
    /// beyond the limit is none, and so is one whose distance is not a
    /// number.
    pub open spec fn spec_hit(self, max_distance: Option<Scalar>) -> Option<RayHitInfo> {
        let zero = Scalar { bits: 0 };
        if self.exit.distance.spec_less_than(zero) {
            None
        } else {
            let leaving = self.entry.distance.spec_less_than(zero);
            let point = if leaving {
                self.exit
            } else {
                self.entry
            };
            let normal = if leaving {
                self.far
            } else {
                self.near
            };
            if point.distance.spec_is_nan() || spec_beyond(point.distance, max_distance) {
                None
            } else {
                Some(
                    RayHitInfo {
                        hit_position: point.position,
                        hit_distance: point.distance,
                        hit_normal: normal,
                    },
                )
            }
        }
    }

    /// Of two ordered stretches, the narrowed stretch is ordered and holds
    /// exactly the distances that both hold; there is none only where no
    /// distance lies on both.
    pub proof fn lemma_narrowed_is_common(self, next: Crossing)
        requires
            self.is_ordered(),
            next.is_ordered(),
        ensures
            self.spec_narrowed(next) is None ==> forall|t: Scalar|
                !(#[trigger] self.holds(t) && next.holds(t)),
            self.spec_narrowed(next) matches Some(common) ==> {
                &&& common.is_ordered()
                &&& forall|t: Scalar| #[trigger]
                    common.holds(t) <==> self.holds(t) && next.holds(t)
            },
    {
    }

    fn narrowed(self, next: Crossing) -> (c: Option<Crossing>)
        ensures
            c == self.spec_narrowed(next),
    {
        if self.entry.distance.greater_than(next.exit.distance) || next.entry.distance.greater_than(
            self.exit.distance,
        ) {
            return None;
        }
        let mut held = self;
        if held.entry.distance.is_nan() || next.entry.distance.greater_than(held.entry.distance) {
            held.entry = next.entry;
            held.near = next.near;
        }
        if held.exit.distance.is_nan() || next.exit.distance.less_than(held.exit.distance) {
            held.exit = next.exit;
            held.far = next.far;
        }
        Some(held)
    }

    fn hit(self, max_distance: Option<Scalar>) -> (found: Option<RayHitInfo>)
        ensures
            found == self.spec_hit(max_distance),
    {
        let zero = Scalar::zero();
        if self.exit.distance.less_than(zero) {
            return None;
        }
        let (point, normal) = if self.entry.distance.less_than(zero) {
            (self.exit, self.far)
        } else {
            (self.entry, self.near)
        };
        if point.distance.is_nan() || beyond(point.distance, max_distance) {
            return None;
        }
        Some(RayHitInfo::new(point.position, point.distance, normal))
    }
}

impl SphereExtent {
    pub fn new(centre: Vector3, low: Vector3, high: Vector3) -> (e: SphereExtent)
        ensures
            e == (SphereExtent { centre, low, high }),
    {
        SphereExtent { centre, low, high }
    }

    /// The centre lies between the corners on every axis, as it does for a
    /// sphere whose centre is finite and whose radius is a number not below
    /// zero.
    pub open spec fn is_valid(self) -> bool {
        &&& self.low.x.spec_at_most(self.centre.x)
        &&& self.centre.x.spec_at_most(self.high.x)
        &&& self.low.y.spec_at_most(self.centre.y)
        &&& self.centre.y.spec_at_most(self.high.y)
        &&& self.low.z.spec_at_most(self.centre.z)
        &&& self.centre.z.spec_at_most(self.high.z)
    }
}

/// The low corners of `spheres`, in their order.
pub open spec fn low_corners(spheres: Seq<SphereExtent>) -> Seq<Vector3> {
    Seq::new(spheres.len(), |i: int| spheres[i].low)
}

/// The high corners of `spheres`, in their order.
pub open spec fn high_corners(spheres: Seq<SphereExtent>) -> Seq<Vector3> {
    Seq::new(spheres.len(), |i: int| spheres[i].high)
}

impl AABoundingBox {
    pub fn new(min_corner: Vector3, max_corner: Vector3) -> (b: AABoundingBox)
        ensures
            b == (AABoundingBox { min_corner, max_corner }),
    {
        AABoundingBox { min_corner, max_corner }
    }

    /// The box that is the origin alone.
    pub open spec fn zero() -> AABoundingBox {
        AABoundingBox {
            min_corner: Vector3::of_bits(0, 0, 0),
            max_corner: Vector3::of_bits(0, 0, 0),
        }
    }

    /// The box that is the origin alone.
    #[allow(non_snake_case)]
    pub fn ZERO() -> (b: AABoundingBox)
        ensures
            b == AABoundingBox::zero(),
            b.is_ordered(),
    {
        AABoundingBox::new(Vector3::ZERO(), Vector3::ZERO())
    }

    /// On every axis the least corner is at most the greatest.
    pub open spec fn is_ordered(self) -> bool {
        &&& self.min_corner.x.spec_at_most(self.max_corner.x)
        &&& self.min_corner.y.spec_at_most(self.max_corner.y)
        &&& self.min_corner.z.spec_at_most(self.max_corner.z)
    }

    /// The point lies outside the box on no axis. Points on a face are
    /// contained.
    pub open spec fn spec_contains_point(&self, point: Vector3) -> bool {
        &&& not_outside(point.x, self.min_corner.x, self.max_corner.x)
        &&& not_outside(point.y, self.min_corner.y, self.max_corner.y)
        &&& not_outside(point.z, self.min_corner.z, self.max_corner.z)
    }

    /// Every point of `points` is contained.
    pub open spec fn spec_contains_points(&self, points: Seq<Vector3>) -> bool {
        forall|i: int| 0 <= i < points.len() ==> self.spec_contains_point(#[trigger] points[i])
    }

    /// The centre is contained and the sphere reaches past no face.
    pub open spec fn spec_contains_sphere(&self, sphere: SphereExtent) -> bool {
        &&& self.spec_contains_point(sphere.centre)
        &&& !sphere.low.x.spec_less_than(self.min_corner.x)
        &&& !sphere.high.x.spec_greater_than(self.max_corner.x)
        &&& !sphere.low.y.spec_less_than(self.min_corner.y)
        &&& !sphere.high.y.spec_greater_than(self.max_corner.y)
        &&& !sphere.low.z.spec_less_than(self.min_corner.z)
        &&& !sphere.high.z.spec_greater_than(self.max_corner.z)
    }

    /// Every sphere of `spheres` is contained.
    pub open spec fn spec_contains_spheres(&self, spheres: Seq<SphereExtent>) -> bool {
        forall|i: int| 0 <= i < spheres.len() ==> self.spec_contains_sphere(#[trigger] spheres[i])
    }

    /// The box around `points`: on each axis from the component of the lowest
    /// point to that of the highest. Around no points it is the origin alone.
    pub open spec fn spec_from_points(points: Seq<Vector3>) -> AABoundingBox {
        if points.len() == 0 {
            AABoundingBox::zero()
        } else {
            AABoundingBox {
                min_corner: Vector3 {
                    x: lowest(points, Axis::X).x,
                    y: lowest(points, Axis::Y).y,
                    z: lowest(points, Axis::Z).z,
                },
                max_corner: Vector3 {
                    x: highest(points, Axis::X).x,
                    y: highest(points, Axis::Y).y,
                    z: highest(points, Axis::Z).z,
                },
            }
        }
    }

    /// The box around `spheres`: on each axis from the lowest low corner to the
    /// highest high corner. Around no spheres it is the origin alone.
    pub open spec fn spec_from_spheres(spheres: Seq<SphereExtent>) -> AABoundingBox {
        if spheres.len() == 0 {
            AABoundingBox::zero()
        } else {
            AABoundingBox {
                min_corner: Vector3 {
                    x: lowest(low_corners(spheres), Axis::X).x,
                    y: lowest(low_corners(spheres), Axis::Y).y,
                    z: lowest(low_corners(spheres), Axis::Z).z,
                },
                max_corner: Vector3 {
                    x: highest(high_corners(spheres), Axis::X).x,
                    y: highest(high_corners(spheres), Axis::Y).y,
                    z: highest(high_corners(spheres), Axis::Z).z,
                },
            }
        }
    }

    /// The boxes overlap or touch: on every axis their intervals meet.
    pub open spec fn spec_is_intersecting_box(&self, other: AABoundingBox) -> bool {
        &&& intervals_meet(
            self.min_corner.x,
            self.max_corner.x,
            other.min_corner.x,
            other.max_corner.x,
        )
        &&& intervals_meet(
            self.min_corner.y,
            self.max_corner.y,
            other.min_corner.y,
            other.max_corner.y,
        )
        &&& intervals_meet(
            self.min_corner.z,
            self.max_corner.z,
            other.min_corner.z,
            other.max_corner.z,
        )
    }

    /// The stretch that a ray spends inside a box: what is common to the
    /// stretches that it spends between the planes of the three axes.
    pub open spec fn inside_stretch(x: Slab, y: Slab, z: Slab) -> Option<Crossing> {
        match x.spec_crossing(Axis::X).spec_narrowed(y.spec_crossing(Axis::Y)) {
            None => None,
            Some(xy) => xy.spec_narrowed(z.spec_crossing(Axis::Z)),
        }
    }

    /// The answer to a ray query. A ray whose origin the box contains hits at
    /// its origin. Any other ray hits where the stretch that it spends inside
    /// the box says, if there is such a stretch.
    pub open spec fn spec_check_ray(
        &self,
        root_position: Vector3,
        x: Slab,
        y: Slab,
        z: Slab,
        max_distance: Option<Scalar>,
    ) -> Option<RayHitInfo> {
        if self.spec_contains_point(root_position) {
            Some(RayHitInfo::at_origin(root_position))
        } else {
            match AABoundingBox::inside_stretch(x, y, z) {
                None => None,
                Some(stretch) => stretch.spec_hit(max_distance),
            }
        }
    }

    /// The ray reaches the box at distance `t`: `t` is not negative and not
    /// beyond the limit, and the point at that distance lies between the
    /// planes of every axis.
    pub open spec fn reached_at(
        x: Slab,
        y: Slab,
        z: Slab,
        max_distance: Option<Scalar>,
        t: Scalar,
    ) -> bool {
        &&& t.spec_at_least(Scalar { bits: 0 })
        &&& !spec_beyond(t, max_distance)
        &&& x.spec_crossing(Axis::X).holds(t)
        &&& y.spec_crossing(Axis::Y).holds(t)
        &&& z.spec_crossing(Axis::Z).holds(t)
    }

    /// Equal corner by corner, as numbers.
    pub open spec fn spec_equals(self, other: AABoundingBox) -> bool {
        self.min_corner.spec_equals(other.min_corner) && self.max_corner.spec_equals(
            other.max_corner,
        )
    }

    #[verifier::when_used_as_spec(spec_contains_point)]
    pub fn contains_point(&self, point: Vector3) -> (inside: bool)
        ensures
            inside == self.spec_contains_point(point),
    {
        if point.x.less_than(self.min_corner.x) || point.x.greater_than(self.max_corner.x) {
            return false;
        }
        if point.y.less_than(self.min_corner.y) || point.y.greater_than(self.max_corner.y) {
            return false;
        }
        if point.z.less_than(self.min_corner.z) || point.z.greater_than(self.max_corner.z) {
            return false;
        }
        true
    }

    pub fn contains_points(&self, points: Vec<Vector3>) -> (inside: bool)
        ensures
            inside == self.spec_contains_points(points@),
    {
        let mut i: usize = 0;
        while i < points.len()
            invariant
                i <= points.len(),
                forall|k: int| 0 <= k < i ==> self.spec_contains_point(#[trigger] points@[k]),
            decreases points.len() - i,
        {
            if !self.contains_point(points[i]) {
                return false;
            }
            i += 1;
        }
        true
    }

    #[verifier::when_used_as_spec(spec_contains_sphere)]
    pub fn contains_sphere(&self, sphere: SphereExtent) -> (inside: bool)
        ensures
            inside == self.spec_contains_sphere(sphere),
    {
        if !self.contains_point(sphere.centre) {
            return false;
        }
        if sphere.low.x.less_than(self.min_corner.x) {
            return false;
        }
        if sphere.high.x.greater_than(self.max_corner.x) {
            return false;
        }
        if sphere.low.y.less_than(self.min_corner.y) {
            return false;
        }
        if sphere.high.y.greater_than(self.max_corner.y) {
            return false;
        }
        if sphere.low.z.less_than(self.min_corner.z) {
            return false;
        }
        if sphere.high.z.greater_than(self.max_corner.z) {
            return false;
        }
        true
    }

    pub fn contains_spheres(&self, spheres: Vec<SphereExtent>) -> (inside: bool)
        ensures
            inside == self.spec_contains_spheres(spheres@),
    {
        let mut i: usize = 0;
        while i < spheres.len()
            invariant
                i <= spheres.len(),
                forall|k: int| 0 <= k < i ==> self.spec_contains_sphere(#[trigger] spheres@[k]),
            decreases spheres.len() - i,
        {
            if !self.contains_sphere(spheres[i]) {
                return false;
            }
            i += 1;
        }
        true
    }

    pub fn from_spheres(spheres: Vec<SphereExtent>) -> (b: AABoundingBox)
        ensures
            b == AABoundingBox::spec_from_spheres(spheres@),
            (forall|i: int| 0 <= i < spheres.len() ==> (#[trigger] spheres@[i]).is_valid()) ==> {
                &&& b.spec_contains_spheres(spheres@)
                &&& b.is_ordered()
            },
    {
        proof {
            if forall|i: int| 0 <= i < spheres.len() ==> (#[trigger] spheres@[i]).is_valid() {
                AABoundingBox::lemma_from_spheres_contains_spheres(spheres@);
                AABoundingBox::lemma_from_spheres_is_ordered(spheres@);
            }
        }
        if spheres.len() == 0 {
            return AABoundingBox::ZERO();
        }
        let ghost lows = low_corners(spheres@);
        let ghost highs = high_corners(spheres@);
        let mut x_min = spheres[0].low.x;
        let mut x_max = spheres[0].high.x;
        let mut y_min = spheres[0].low.y;
        let mut y_max = spheres[0].high.y;
        let mut z_min = spheres[0].low.z;
        let mut z_max = spheres[0].high.z;
        let mut i: usize = 0;
        while i < spheres.len()
            invariant
                i <= spheres.len(),
                spheres.len() > 0,
                lows == low_corners(spheres@),
                highs == high_corners(spheres@),
                x_min == lowest_from(lows[0], lows.take(i as int), Axis::X).x,
                y_min == lowest_from(lows[0], lows.take(i as int), Axis::Y).y,
                z_min == lowest_from(lows[0], lows.take(i as int), Axis::Z).z,
                x_max == highest_from(highs[0], highs.take(i as int), Axis::X).x,
                y_max == highest_from(highs[0], highs.take(i as int), Axis::Y).y,
                z_max == highest_from(highs[0], highs.take(i as int), Axis::Z).z,
            decreases spheres.len() - i,
        {
            let sphere = spheres[i];
            proof {
                assert(lows.take(i + 1).drop_last() =~= lows.take(i as int));
                assert(lows.take(i + 1).last() == sphere.low);
                assert(highs.take(i + 1).drop_last() =~= highs.take(i as int));
                assert(highs.take(i + 1).last() == sphere.high);
            }
            if sphere.low.x.less_than(x_min) {
                x_min = sphere.low.x;
            }
            if sphere.high.x.greater_than(x_max) {
                x_max = sphere.high.x;
            }
            if sphere.low.y.less_than(y_min) {
                y_min = sphere.low.y;
            }
            if sphere.high.y.greater_than(y_max) {
                y_max = sphere.high.y;
            }
            if sphere.low.z.less_than(z_min) {
                z_min = sphere.low.z;
            }
            if sphere.high.z.greater_than(z_max) {
                z_max = sphere.high.z;
            }
            i += 1;
        }
        proof {
            assert(lows.take(spheres.len() as int) =~= lows);
            assert(highs.take(spheres.len() as int) =~= highs);
        }
        AABoundingBox::new(Vector3::new(x_min, y_min, z_min), Vector3::new(x_max, y_max, z_max))
    }

    pub fn from_points(points: Vec<Vector3>) -> (b: AABoundingBox)
        ensures
            b == AABoundingBox::spec_from_points(points@),
            b.spec_contains_points(points@),
            (forall|i: int| 0 <= i < points.len() ==> (#[trigger] points@[i]).is_number())
                ==> b.is_ordered(),
    {
        proof {
            AABoundingBox::lemma_from_points_contains_points(points@);
            if forall|i: int| 0 <= i < points.len() ==> (#[trigger] points@[i]).is_number() {
                AABoundingBox::lemma_from_points_is_ordered(points@);
            }
        }
        match extreme_points(&points) {
            None => AABoundingBox::ZERO(),
            Some(found) => AABoundingBox::new(
                Vector3::new(found.x_min.x, found.y_min.y, found.z_min.z),
                Vector3::new(found.x_max.x, found.y_max.y, found.z_max.z),
            ),
        }
    }

    #[verifier::when_used_as_spec(spec_is_intersecting_box)]
    pub fn is_intersecting_box(&self, other: AABoundingBox) -> (meet: bool)
        ensures
            meet == self.spec_is_intersecting_box(other),
    {
        self.min_corner.x.at_most(other.max_corner.x) && self.max_corner.x.at_least(
            other.min_corner.x,
        ) && self.min_corner.y.at_most(other.max_corner.y) && self.max_corner.y.at_least(
            other.min_corner.y,
        ) && self.min_corner.z.at_most(other.max_corner.z) && self.max_corner.z.at_least(
            other.min_corner.z,
        )
    }

    /// Decides a ray query by the slab method. `x`, `y` and `z` say what the
    /// ray from `root_position` does along each axis of this box.
    #[verifier::when_used_as_spec(spec_check_ray)]
    pub fn check_ray(
        &self,
        root_position: Vector3,
        x: Slab,
        y: Slab,
        z: Slab,
        max_distance: Option<Scalar>,
    ) -> (hit: Option<RayHitInfo>)
        ensures
            hit == self.spec_check_ray(root_position, x, y, z, max_distance),
            hit matches Some(found) ==> found.hit_distance.spec_at_least(Scalar { bits: 0 }) && (
            self.spec_contains_point(root_position) || !spec_beyond(
                found.hit_distance,
                max_distance,
            )),
    {
        if self.contains_point(root_position) {
            return Some(RayHitInfo::new(root_position, Scalar::zero(), Vector3::ZERO()));
        }
        let xy = match x.crossing(Axis::X).narrowed(y.crossing(Axis::Y)) {
            None => {
                return None;
            },
            Some(xy) => xy,
        };
        let xyz = match xy.narrowed(z.crossing(Axis::Z)) {
            None => {
                return None;
            },
            Some(xyz) => xyz,
        };
        xyz.hit(max_distance)
    }

    /// The slab method is right. Take a ray that starts outside the box and
    /// whose stretch between the planes of each axis is ordered. If the query
    /// reports a hit, the ray reaches the box at the distance of the hit.
    /// Where the stretch inside the box begins at or ahead of the origin of
    /// the ray, the ray reaches the box at no smaller distance, and a query
    /// without a hit means that the ray reaches the box at no distance at
    /// all.
    pub proof fn lemma_check_ray_is_nearest(
        self,
        root_position: Vector3,
        x: Slab,
        y: Slab,
        z: Slab,
        max_distance: Option<Scalar>,
    )
        requires
            !self.spec_contains_point(root_position),
            x.spec_crossing(Axis::X).is_ordered(),
            y.spec_crossing(Axis::Y).is_ordered(),
            z.spec_crossing(Axis::Z).is_ordered(),
        ensures
            self.spec_check_ray(root_position, x, y, z, max_distance) matches Some(hit)
                ==> AABoundingBox::reached_at(x, y, z, max_distance, hit.hit_distance),
            !(AABoundingBox::inside_stretch(x, y, z) matches Some(stretch)
                && !stretch.entry.distance.spec_at_least(Scalar { bits: 0 })) ==> {
                &&& self.spec_check_ray(root_position, x, y, z, max_distance) matches Some(hit)
                    ==> forall|t: Scalar| #[trigger]
                        AABoundingBox::reached_at(x, y, z, max_distance, t)
                            ==> hit.hit_distance.spec_at_most(t)
                &&& self.spec_check_ray(root_position, x, y, z, max_distance) is None
                    ==> forall|t: Scalar|
                        !#[trigger] AABoundingBox::reached_at(x, y, z, max_distance, t)
            },
    {
        let cx = x.spec_crossing(Axis::X);
        let cy = y.spec_crossing(Axis::Y);
        let cz = z.spec_crossing(Axis::Z);
        cx.lemma_narrowed_is_common(cy);
        match cx.spec_narrowed(cy) {
            None => {
                assert forall|t: Scalar| !#[trigger] AABoundingBox::reached_at(
                    x,
                    y,
                    z,
                    max_distance,
                    t,
                ) by {
                    assert(!(cx.holds(t) && cy.holds(t)));
                }
            },
            Some(xy) => {
                xy.lemma_narrowed_is_common(cz);
                match xy.spec_narrowed(cz) {
                    None => {
                        assert forall|t: Scalar| !#[trigger] AABoundingBox::reached_at(
                            x,
                            y,
                            z,
                            max_distance,
                            t,
                        ) by {
                            assert(xy.holds(t) <==> cx.holds(t) && cy.holds(t));
                            assert(!(xy.holds(t) && cz.holds(t)));
                        }
                    },
                    Some(xyz) => {
                        assert forall|t: Scalar| #[trigger]
                            AABoundingBox::reached_at(x, y, z, max_distance, t) implies xyz.holds(
                            t,
                        ) by {
                            assert(xy.holds(t) <==> cx.holds(t) && cy.holds(t));
                            assert(xyz.holds(t) <==> xy.holds(t) && cz.holds(t));
                        }
                        if !xyz.entry.distance.spec_is_nan() {
                            assert(xyz.holds(xyz.entry.distance));
                            assert(xy.holds(xyz.entry.distance) <==> cx.holds(xyz.entry.distance)
                                && cy.holds(xyz.entry.distance));
                        }
                        if !xyz.exit.distance.spec_is_nan() {
                            assert(xyz.holds(xyz.exit.distance));
                            assert(xy.holds(xyz.exit.distance) <==> cx.holds(xyz.exit.distance)
                                && cy.holds(xyz.exit.distance));
                        }
                    },
                }
            },
        }
    }

    /// The box around a set of points contains each of them, whatever the
    /// points are.
    pub proof fn lemma_from_points_contains_points(points: Seq<Vector3>)
        ensures
            AABoundingBox::spec_from_points(points).spec_contains_points(points),
    {
        if points.len() > 0 {
            lemma_lowest_from(points[0], points, Axis::X);
            lemma_lowest_from(points[0], points, Axis::Y);
            lemma_lowest_from(points[0], points, Axis::Z);
            lemma_highest_from(points[0], points, Axis::X);
            lemma_highest_from(points[0], points, Axis::Y);
            lemma_highest_from(points[0], points, Axis::Z);
            let b = AABoundingBox::spec_from_points(points);
            assert forall|i: int| 0 <= i < points.len() implies b.spec_contains_point(
                #[trigger] points[i],
            ) by {
                assert(spec_component(points[i], Axis::X) == points[i].x);
                assert(spec_component(points[i], Axis::Y) == points[i].y);
                assert(spec_component(points[i], Axis::Z) == points[i].z);
            }
        }
    }

    /// The box around a set of points that are numbers is ordered, and so is
    /// the box around no points.
    pub proof fn lemma_from_points_is_ordered(points: Seq<Vector3>)
        requires
            forall|i: int| 0 <= i < points.len() ==> (#[trigger] points[i]).is_number(),
        ensures
            AABoundingBox::spec_from_points(points).is_ordered(),
    {
        if points.len() > 0 {
            let first = points[0];
            assert(first.is_number());
            lemma_lowest_from(first, points, Axis::X);
            lemma_lowest_from(first, points, Axis::Y);
            lemma_lowest_from(first, points, Axis::Z);
            lemma_highest_from(first, points, Axis::X);
            lemma_highest_from(first, points, Axis::Y);
            lemma_highest_from(first, points, Axis::Z);
        }
    }

    /// The box around a set of valid spheres contains each of them.
    pub proof fn lemma_from_spheres_contains_spheres(spheres: Seq<SphereExtent>)
        requires
            forall|i: int| 0 <= i < spheres.len() ==> (#[trigger] spheres[i]).is_valid(),
        ensures
            AABoundingBox::spec_from_spheres(spheres).spec_contains_spheres(spheres),
    {
        if spheres.len() > 0 {
            let lows = low_corners(spheres);
            let highs = high_corners(spheres);
            let b = AABoundingBox::spec_from_spheres(spheres);
            lemma_lowest_from(lows[0], lows, Axis::X);
            lemma_lowest_from(lows[0], lows, Axis::Y);
            lemma_lowest_from(lows[0], lows, Axis::Z);
            lemma_highest_from(highs[0], highs, Axis::X);
            lemma_highest_from(highs[0], highs, Axis::Y);
            lemma_highest_from(highs[0], highs, Axis::Z);
            assert forall|i: int| 0 <= i < spheres.len() implies b.spec_contains_sphere(
                #[trigger] spheres[i],
            ) by {
                assert(spheres[i].is_valid());
                assert(spec_component(lows[i], Axis::X) == spheres[i].low.x);
                assert(spec_component(lows[i], Axis::Y) == spheres[i].low.y);
                assert(spec_component(lows[i], Axis::Z) == spheres[i].low.z);
                assert(spec_component(highs[i], Axis::X) == spheres[i].high.x);
                assert(spec_component(highs[i], Axis::Y) == spheres[i].high.y);
                assert(spec_component(highs[i], Axis::Z) == spheres[i].high.z);
            }
        }
    }

    /// The box around a set of valid spheres is ordered, and so is the box
    /// around no spheres.
    pub proof fn lemma_from_spheres_is_ordered(spheres: Seq<SphereExtent>)
        requires
            forall|i: int| 0 <= i < spheres.len() ==> (#[trigger] spheres[i]).is_valid(),
        ensures
            AABoundingBox::spec_from_spheres(spheres).is_ordered(),
    {
        if spheres.len() > 0 {
            let lows = low_corners(spheres);
            let highs = high_corners(spheres);
            assert(spheres[0].is_valid());
            assert forall|i: int| 0 <= i < lows.len() implies !(#[trigger] spec_component(
                lows[i],
                Axis::X,
            )).spec_is_nan() && !spec_component(lows[i], Axis::Y).spec_is_nan() && !spec_component(
                lows[i],
                Axis::Z,
            ).spec_is_nan() by {
                assert(spheres[i].is_valid());
            }
            assert forall|i: int| 0 <= i < highs.len() implies !(#[trigger] spec_component(
                highs[i],
                Axis::X,
            )).spec_is_nan() && !spec_component(highs[i], Axis::Y).spec_is_nan()
                && !spec_component(highs[i], Axis::Z).spec_is_nan() by {
                assert(spheres[i].is_valid());
            }
            lemma_lowest_from(lows[0], lows, Axis::X);
            lemma_lowest_from(lows[0], lows, Axis::Y);
            lemma_lowest_from(lows[0], lows, Axis::Z);
            lemma_highest_from(highs[0], highs, Axis::X);
            lemma_highest_from(highs[0], highs, Axis::Y);
            lemma_highest_from(highs[0], highs, Axis::Z);
        }
    }

    /// Whether two boxes intersect does not depend on which of them is asked.
    pub proof fn lemma_intersecting_is_symmetric(a: AABoundingBox, b: AABoundingBox)
        ensures
            a.spec_is_intersecting_box(b) == b.spec_is_intersecting_box(a),
    {
    }
}

impl Default for AABoundingBox {
    fn default() -> (b: AABoundingBox)
        ensures
            b == AABoundingBox::zero(),
    {
        AABoundingBox::ZERO()
    }
}

impl PartialEq for AABoundingBox {
    fn eq(&self, other: &AABoundingBox) -> (r: bool) {
        self.min_corner.equals(other.min_corner) && self.max_corner.equals(other.max_corner)
    }
}

impl PartialEqSpecImpl for AABoundingBox {
    open spec fn obeys_eq_spec() -> bool {
        true
    }

    open spec fn eq_spec(&self, other: &AABoundingBox) -> bool {
        self.spec_equals(*other)
    }
}

} // verus!
