//! Bounding spheres.

use crate::colliders::beyond;
use crate::colliders::extremes::Axis;
use crate::colliders::extremes::Extremes;
use crate::colliders::spec_beyond;
use crate::colliders::RayHitInfo;
use crate::colliders::RayPoint;
use crate::scalar::Scalar;
use crate::vectors::vector_three::Vector3;
use vstd::prelude::*;
use vstd::std_specs::cmp::PartialEqSpecImpl;

verus! {

/// A sphere, given by its centre and its radius.
#[derive(Clone, Copy, Debug)]
pub struct BoundingSphere {
    pub centre: Vector3,
    pub radius: Scalar,
}

/// How two spheres lie to each other: the distance between their centres, the
/// sum of their radii, and the distance added to the radius of the one and of
/// the other.
#[derive(Clone, Copy, Debug)]
pub struct SphereGap {
    pub distance: Scalar,
    pub radii_sum: Scalar,
    pub reach_of_self: Scalar,
    pub reach_of_other: Scalar,
}

/// The volumes that the overlap of two spheres can have: that of the one
/// sphere, that of the other, and that of the lens between two spheres of
/// which neither lies inside the other.
#[derive(Clone, Copy, Debug)]
pub struct OverlapVolumes {
    pub of_self: Scalar,
    pub of_other: Scalar,
    pub of_lens: Scalar,
}

/// What a ray does at a sphere: how far its origin lies from the centre, the
/// unit vector from the centre to its origin, and the points at which it
/// meets the surface, as far as there are any.
#[derive(Clone, Copy, Debug)]
pub struct SphereProbe {
    pub centre_distance: Scalar,
    pub outward: Vector3,
    pub first: Option<RayPoint>,
    pub second: Option<RayPoint>,
}

/// The squared lengths of the three spans between the extreme points of a
/// point set, along x, y and z.
#[derive(Clone, Copy, Debug)]
pub struct Spans {
    pub x: Scalar,
    pub y: Scalar,
    pub z: Scalar,
}

/// The greatest of `values` that a scan from left to right finds, starting
/// from `seed`: it takes each value that is greater than what it holds.
pub open spec fn greatest_from(seed: Scalar, values: Seq<Scalar>) -> Scalar
    decreases values.len(),
{
    if values.len() == 0 {
        seed
    } else {
        let held = greatest_from(seed, values.drop_last());
        if values.last().spec_greater_than(held) {
            values.last()
        } else {
            held
        }
    }
}

/// No value is greater than what the scan for the greatest ends on, and where
/// the seed is a number, so is what the scan ends on.
pub proof fn lemma_greatest_from(seed: Scalar, values: Seq<Scalar>)
    ensures
        !seed.spec_greater_than(greatest_from(seed, values)),
        forall|i: int|
            0 <= i < values.len() ==> !(#[trigger] values[i]).spec_greater_than(
                greatest_from(seed, values),
            ),
        !seed.spec_is_nan() ==> !greatest_from(seed, values).spec_is_nan(),
        greatest_from(seed, values) == seed || values.contains(greatest_from(seed, values)),
    decreases values.len(),
{
    if values.len() > 0 {
        let front = values.drop_last();
        lemma_greatest_from(seed, front);
        let held = greatest_from(seed, front);
        assert(values.last() == values[values.len() - 1]);
        if held != seed {
            let k = choose|k: int| 0 <= k < front.len() && front[k] == held;
            assert(values[k] == held);
        }
        assert forall|i: int| 0 <= i < values.len() implies !(#[trigger] values[i]).spec_greater_than(
            greatest_from(seed, values),
        ) by {
            if i < values.len() - 1 {
                assert(front[i] == values[i]);
            }
        }
    }
}

/// A point lies outside a sphere: the square of its distance from the centre
/// is greater than the square of the radius.
pub fn lies_outside(distance_squared: Scalar, radius_squared: Scalar) -> (outside: bool)
    ensures
        outside == distance_squared.spec_greater_than(radius_squared),
{
    distance_squared.greater_than(radius_squared)
}

/// The ray point that lies nearer to the origin of the ray, among those that
/// do not lie behind it. Where both lie equally near, it is `first`.
pub open spec fn spec_nearest_ahead(first: Option<RayPoint>, second: Option<RayPoint>) -> Option<
    RayPoint,
> {
    let zero = Scalar { bits: 0 };
    let a = match first {
        Some(p) if p.distance.spec_at_least(zero) => first,
        _ => None,
    };
    let b = match second {
        Some(p) if p.distance.spec_at_least(zero) => second,
        _ => None,
    };
    match (a, b) {
        (Some(p), Some(q)) => if q.distance.spec_less_than(p.distance) {
            b
        } else {
            a
        },
        (Some(_), None) => a,
        (None, _) => b,
    }
}

#[verifier::when_used_as_spec(spec_nearest_ahead)]
pub fn nearest_ahead(first: Option<RayPoint>, second: Option<RayPoint>) -> (nearest: Option<
    RayPoint,
>)
    ensures
        nearest == spec_nearest_ahead(first, second),
{
    let zero = Scalar::zero();
    let a = match first {
        Some(p) => if p.distance.at_least(zero) {
            first
        } else {
            None
        },
        None => None,
    };
    let b = match second {
        Some(p) => if p.distance.at_least(zero) {
            second
        } else {
            None
        },
        None => None,
    };
    match (a, b) {
        (Some(p), Some(q)) => if q.distance.less_than(p.distance) {
            b
        } else {
            a
        },
        (Some(_), None) => a,
        (None, _) => b,
    }
}

impl BoundingSphere {
    pub fn new(centre: Vector3, radius: Scalar) -> (sphere: BoundingSphere)
        ensures
            sphere == (BoundingSphere { centre, radius }),
    {
        BoundingSphere { centre, radius }
    }

    /// The sphere of radius zero at the origin.
    pub open spec fn zero() -> BoundingSphere {
        BoundingSphere { centre: Vector3::of_bits(0, 0, 0), radius: Scalar { bits: 0 } }
    }

    /// The sphere of radius zero at the origin.
    #[allow(non_snake_case)]
    pub fn ZERO() -> (sphere: BoundingSphere)
        ensures
            sphere == BoundingSphere::zero(),
            sphere.is_valid(),
    {
        BoundingSphere { centre: Vector3::ZERO(), radius: Scalar::zero() }
    }

    /// The radius is a number and not negative.
    pub open spec fn is_valid(self) -> bool {
        self.radius.spec_at_least(Scalar { bits: 0 })
    }

    pub fn set_zero(&mut self)
        ensures
            *final(self) == BoundingSphere::zero(),
    {
        self.centre = Vector3::ZERO();
        self.radius = Scalar::zero();
    }

    pub fn set_to(&mut self, data: BoundingSphere)
        ensures
            *final(self) == data,
    {
        self.centre = data.centre;
        self.radius = data.radius;
    }

    /// Equal in centre and radius, as numbers.
    pub open spec fn spec_equals(self, other: BoundingSphere) -> bool {
        self.centre.spec_equals(other.centre) && self.radius.spec_equals(other.radius)
    }

    /// None of the distances is greater than the radius.
    pub open spec fn spec_contains_points(&self, distances: Seq<Scalar>) -> bool {
        forall|i: int|
            0 <= i < distances.len() ==> !(#[trigger] distances[i]).spec_greater_than(self.radius)
    }

    /// Whether the sphere contains a set of points, given the distance of each
    /// point from the centre.
    pub fn contains_points(&self, distances: Vec<Scalar>) -> (inside: bool)
        ensures
            inside == self.spec_contains_points(distances@),
    {
        let mut i: usize = 0;
        while i < distances.len()
            invariant
                i <= distances.len(),
                forall|k: int| 0 <= k < i ==> !(#[trigger] distances@[k]).spec_greater_than(self.radius),
            decreases distances.len() - i,
        {
            if distances[i].greater_than(self.radius) {
                return false;
            }
            i += 1;
        }
        true
    }

    /// The two extreme points that lie farthest apart: those along x, unless
    /// the span along y is greater, and those along z where that span is
    /// greater than both.
    pub open spec fn spec_widest_pair(extremes: Extremes, spans: Spans) -> (Vector3, Vector3) {
        let by_y = spans.y.spec_greater_than(spans.x);
        let widest = if by_y {
            spans.y
        } else {
            spans.x
        };
        if spans.z.spec_greater_than(widest) {
            (extremes.z_min, extremes.z_max)
        } else if by_y {
            (extremes.y_min, extremes.y_max)
        } else {
            (extremes.x_min, extremes.x_max)
        }
    }

    /// The axis along which the extreme points lie farthest apart.
    pub open spec fn widest_axis(spans: Spans) -> Axis {
        let by_y = spans.y.spec_greater_than(spans.x);
        let widest = if by_y {
            spans.y
        } else {
            spans.x
        };
        if spans.z.spec_greater_than(widest) {
            Axis::Z
        } else if by_y {
            Axis::Y
        } else {
            Axis::X
        }
    }

    /// Picks the ends of the first diameter of an enclosing sphere.
    #[verifier::when_used_as_spec(spec_widest_pair)]
    pub fn widest_pair(extremes: Extremes, spans: Spans) -> (ends: (Vector3, Vector3))
        ensures
            ends == BoundingSphere::spec_widest_pair(extremes, spans),
            ends == match BoundingSphere::widest_axis(spans) {
                Axis::X => (extremes.x_min, extremes.x_max),
                Axis::Y => (extremes.y_min, extremes.y_max),
                Axis::Z => (extremes.z_min, extremes.z_max),
            },
    {
        let mut one = extremes.x_min;
        let mut two = extremes.x_max;
        let mut max_span = spans.x;
        if spans.y.greater_than(max_span) {
            max_span = spans.y;
            one = extremes.y_min;
            two = extremes.y_max;
        }
        if spans.z.greater_than(max_span) {
            one = extremes.z_min;
            two = extremes.z_max;
        }
        (one, two)
    }

    /// The greatest of the distances, and zero where there is none greater
    /// than zero: the radius of the sphere around a centre from which the
    /// points lie that far.
    pub fn farthest(distances: &Vec<Scalar>) -> (radius: Scalar)
        ensures
            radius == greatest_from(Scalar { bits: 0 }, distances@),
            (BoundingSphere { centre: Vector3::of_bits(0, 0, 0), radius }).spec_contains_points(
                distances@,
            ),
            !radius.spec_is_nan(),
            radius.spec_at_least(Scalar { bits: 0 }),
    {
        let mut held = Scalar::zero();
        let mut i: usize = 0;
        while i < distances.len()
            invariant
                i <= distances.len(),
                held == greatest_from(Scalar { bits: 0 }, distances@.take(i as int)),
            decreases distances.len() - i,
        {
            proof {
                assert(distances@.take(i + 1).drop_last() =~= distances@.take(i as int));
            }
            if distances[i].greater_than(held) {
                held = distances[i];
            }
            i += 1;
        }
        proof {
            assert(distances@.take(distances.len() as int) =~= distances@);
            lemma_greatest_from(Scalar { bits: 0 }, distances@);
        }
        held
    }

    /// Of two spheres around the same points the one to keep: the first where
    /// its radius is smaller, else the second.
    pub fn tighter(first: BoundingSphere, second: BoundingSphere) -> (kept: BoundingSphere)
        ensures
            kept == if first.radius.spec_less_than(second.radius) {
                first
            } else {
                second
            },
            first.is_valid() && second.is_valid() ==> kept.is_valid(),
            !kept.radius.spec_greater_than(first.radius),
            !kept.radius.spec_greater_than(second.radius),
    {
        if first.radius.less_than(second.radius) {
            first
        } else {
            second
        }
    }

    /// The sphere around the middle of the box of a point set: its radius is
    /// the greatest of the distances of the points from that middle.
    pub open spec fn around_middle(middle: Vector3, distances: Seq<Scalar>) -> BoundingSphere {
        BoundingSphere { centre: middle, radius: greatest_from(Scalar { bits: 0 }, distances) }
    }

    /// The enclosing sphere of a point set: the zero sphere around no points;
    /// else the sphere grown by Ritter's method where its radius is smaller
    /// than that of the sphere around the middle of the box, and else the
    /// latter.
    pub open spec fn spec_from_points(
        points: Seq<Vector3>,
        ritter: BoundingSphere,
        middle: Vector3,
        distances: Seq<Scalar>,
    ) -> BoundingSphere {
        if points.len() == 0 {
            BoundingSphere::zero()
        } else if ritter.radius.spec_less_than(
            BoundingSphere::around_middle(middle, distances).radius,
        ) {
            ritter
        } else {
            BoundingSphere::around_middle(middle, distances)
        }
    }

    /// Settles the enclosing sphere of `points`. `ritter` is the sphere grown
    /// around them by Ritter's method, `middle` the middle of their box, and
    /// `distances` the distance of each point from that middle. Around no
    /// points the sphere is the zero sphere, whatever else is handed in.
    pub fn from_points(
        points: &Vec<Vector3>,
        ritter: BoundingSphere,
        middle: Vector3,
        distances: &Vec<Scalar>,
    ) -> (sphere: BoundingSphere)
        ensures
            sphere == BoundingSphere::spec_from_points(points@, ritter, middle, distances@),
            points@.len() == 0 ==> sphere == BoundingSphere::zero(),
            points@.len() > 0 && sphere == BoundingSphere::around_middle(middle, distances@)
                ==> sphere.spec_contains_points(distances@),
            points@.len() > 0 ==> !sphere.radius.spec_greater_than(ritter.radius),
    {
        if points.len() == 0 {
            return BoundingSphere::ZERO();
        }
        let naive = BoundingSphere::new(middle, BoundingSphere::farthest(distances));
        proof {
            lemma_greatest_from(Scalar { bits: 0 }, distances@);
        }
        BoundingSphere::tighter(ritter, naive)
    }

    /// The enclosing sphere of a nonempty point set contains every point,
    /// provided that the sphere grown by Ritter's method does: whichever
    /// sphere is kept, no point lies farther from its centre than its radius.
    /// `from_ritter` holds the distances of the points from the centre of the
    /// grown sphere, `distances` those from the middle of the box.
    pub proof fn lemma_from_points_contains_points(
        points: Seq<Vector3>,
        ritter: BoundingSphere,
        from_ritter: Seq<Scalar>,
        middle: Vector3,
        distances: Seq<Scalar>,
    )
        requires
            points.len() > 0,
            ritter.spec_contains_points(from_ritter),
        ensures
            ({
                let kept = BoundingSphere::spec_from_points(points, ritter, middle, distances);
                ||| kept == ritter && kept.spec_contains_points(from_ritter)
                ||| kept == BoundingSphere::around_middle(middle, distances)
                    && kept.spec_contains_points(distances)
            }),
    {
        lemma_greatest_from(Scalar { bits: 0 }, distances);
    }

    /// The reach of the sphere with the smaller radius: the distance between
    /// the centres added to that radius. It is that of `other` where the
    /// radius of `other` is the smaller one or that of `self` is not a number.
    pub open spec fn smaller_reach(&self, other: BoundingSphere, gap: SphereGap) -> Scalar {
        if other.radius.spec_less_than(self.radius) || self.radius.spec_is_nan() {
            gap.reach_of_other
        } else {
            gap.reach_of_self
        }
    }

    /// The spheres overlap: their centres are closer than the sum of their
    /// radii, and the smaller does not touch the larger from inside.
    pub open spec fn spec_is_intersecting_sphere(
        &self,
        other: BoundingSphere,
        gap: SphereGap,
    ) -> bool {
        gap.distance.spec_less_than(gap.radii_sum) && !self.smaller_reach(other, gap).spec_equals(
            self.radius.spec_max(other.radius),
        )
    }

    /// The smaller sphere lies inside the larger without touching it.
    pub open spec fn spec_is_encased(&self, other: BoundingSphere, gap: SphereGap) -> bool {
        self.smaller_reach(other, gap).spec_less_than(self.radius.spec_max(other.radius))
    }

    fn reach_of_smaller(&self, other: BoundingSphere, gap: SphereGap) -> (reach: Scalar)
        ensures
            reach == self.smaller_reach(other, gap),
    {
        if other.radius.less_than(self.radius) || self.radius.is_nan() {
            gap.reach_of_other
        } else {
            gap.reach_of_self
        }
    }

    /// Whether the smaller of two spheres lies inside the larger without
    /// touching it.
    #[verifier::when_used_as_spec(spec_is_encased)]
    pub fn is_encased(&self, other: BoundingSphere, gap: SphereGap) -> (inside: bool)
        ensures
            inside == self.spec_is_encased(other, gap),
    {
        self.reach_of_smaller(other, gap).less_than(self.radius.max(other.radius))
    }

    /// Whether two spheres overlap. Spheres that touch, from outside or from
    /// inside, do not.
    #[verifier::when_used_as_spec(spec_is_intersecting_sphere)]
    pub fn is_intersecting_sphere(&self, other: BoundingSphere, gap: SphereGap) -> (overlap: bool)
        ensures
            overlap == self.spec_is_intersecting_sphere(other, gap),
            gap.distance.spec_equals(gap.radii_sum) ==> !overlap,
            self.smaller_reach(other, gap).spec_equals(self.radius.spec_max(other.radius))
                ==> !overlap,
    {
        let reach = self.reach_of_smaller(other, gap);
        gap.distance.less_than(gap.radii_sum) && !reach.equals(self.radius.max(other.radius))
    }

    /// The volume that two overlapping spheres share. Where the smaller lies
    /// inside the larger it is the volume of the smaller, that of `other`
    /// where neither radius is smaller; else it is the volume of the lens,
    /// and zero where that is not a number.
    pub open spec fn spec_get_intersection_volume(
        &self,
        other: &BoundingSphere,
        gap: SphereGap,
        volumes: OverlapVolumes,
    ) -> Scalar {
        if self.spec_is_encased(*other, gap) {
            if self.radius.spec_less_than(other.radius) {
                volumes.of_self
            } else {
                volumes.of_other
            }
        } else if volumes.of_lens.spec_is_nan() {
            Scalar { bits: 0 }
        } else {
            volumes.of_lens
        }
    }

    /// The volume that two overlapping spheres share. A lens of negative
    /// volume means that the spheres do not overlap, and is not accepted.
    pub fn get_intersection_volume(
        &self,
        other: &BoundingSphere,
        gap: SphereGap,
        volumes: OverlapVolumes,
    ) -> (volume: Scalar)
        requires
            self.spec_is_encased(*other, gap) || !volumes.of_lens.spec_less_than(
                Scalar { bits: 0 },
            ),
        ensures
            volume == self.spec_get_intersection_volume(other, gap, volumes),
    {
        if self.is_encased(*other, gap) {
            if self.radius.less_than(other.radius) {
                return volumes.of_self;
            } else {
                return volumes.of_other;
            }
        }
        if volumes.of_lens.is_nan() {
            return Scalar::zero();
        }
        volumes.of_lens
    }

    /// The answer to a ray query. A ray whose origin is no farther from the
    /// centre than the radius hits at its origin. Any other ray hits at the
    /// nearer of the points where it meets the surface ahead of its origin,
    /// unless that lies beyond the limit; the normal is the unit vector from
    /// the centre towards the origin of the ray.
    pub open spec fn spec_check_ray(
        &self,
        root_position: Vector3,
        probe: SphereProbe,
        max_distance: Option<Scalar>,
    ) -> Option<RayHitInfo> {
        if probe.centre_distance.spec_at_most(self.radius) {
            Some(RayHitInfo::at_origin(root_position))
        } else {
            match spec_nearest_ahead(probe.first, probe.second) {
                None => None,
                Some(point) => if spec_beyond(point.distance, max_distance) {
                    None
                } else {
                    Some(
                        RayHitInfo {
                            hit_position: point.position,
                            hit_distance: point.distance,
                            hit_normal: probe.outward,
                        },
                    )
                },
            }
        }
    }

    /// Decides a ray query. `probe` says what the ray from `root_position`
    /// does at this sphere.
    #[verifier::when_used_as_spec(spec_check_ray)]
    pub fn check_ray(
        &self,
        root_position: Vector3,
        probe: SphereProbe,
        max_distance: Option<Scalar>,
    ) -> (hit: Option<RayHitInfo>)
        ensures
            hit == self.spec_check_ray(root_position, probe, max_distance),
            hit matches Some(found) ==> found.hit_distance.spec_at_least(Scalar { bits: 0 }) && (
            probe.centre_distance.spec_at_most(self.radius) || !spec_beyond(
                found.hit_distance,
                max_distance,
            )),
    {
        if probe.centre_distance.at_most(self.radius) {
            return Some(RayHitInfo::new(root_position, Scalar::zero(), Vector3::ZERO()));
        }
        match nearest_ahead(probe.first, probe.second) {
            None => None,
            Some(point) => if beyond(point.distance, max_distance) {
                None
            } else {
                Some(RayHitInfo::new(point.position, point.distance, probe.outward))
            },
        }
    }

    /// A hit that a query reports for a ray from outside lies at one of the
    /// points where the ray meets the surface, not behind the origin of the
    /// ray and not beyond the limit, and no such point lies nearer. A query
    /// without a hit means that there is no such point.
    pub proof fn lemma_check_ray_is_nearest(
        self,
        root_position: Vector3,
        probe: SphereProbe,
        max_distance: Option<Scalar>,
        candidate: RayPoint,
    )
        requires
            !probe.centre_distance.spec_at_most(self.radius),
            probe.first == Some(candidate) || probe.second == Some(candidate),
            candidate.distance.spec_at_least(Scalar { bits: 0 }),
            !spec_beyond(candidate.distance, max_distance),
        ensures
            self.spec_check_ray(root_position, probe, max_distance) matches Some(hit) && {
                &&& hit.hit_distance.spec_at_most(candidate.distance)
                &&& hit.hit_distance.spec_at_least(Scalar { bits: 0 })
                &&& !spec_beyond(hit.hit_distance, max_distance)
                &&& (probe.first == Some(
                    RayPoint { distance: hit.hit_distance, position: hit.hit_position },
                ) || probe.second == Some(
                    RayPoint { distance: hit.hit_distance, position: hit.hit_position },
                ))
            },
    {
    }
}

impl Default for BoundingSphere {
    fn default() -> (sphere: BoundingSphere)
        ensures
            sphere == BoundingSphere::zero(),
    {
        BoundingSphere::ZERO()
    }
}

impl PartialEq for BoundingSphere {
    fn eq(&self, other: &BoundingSphere) -> (r: bool) {
        self.centre.equals(other.centre) && self.radius.equals(other.radius)
    }
}

impl PartialEqSpecImpl for BoundingSphere {
    open spec fn obeys_eq_spec() -> bool {
        true
    }

    open spec fn eq_spec(&self, other: &BoundingSphere) -> bool {
        self.spec_equals(*other)
    }
}

} // verus!
