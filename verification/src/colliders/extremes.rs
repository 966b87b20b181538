//! The extreme points of a point set along each coordinate axis.

use crate::scalar::Scalar;
use crate::vectors::vector_three::Vector3;
use vstd::prelude::*;

verus! {

/// A coordinate axis.
#[derive(Clone, Copy, Debug, PartialEq, Eq, Structural)]
pub enum Axis {
    X,
    Y,
    Z,
}

/// The component of `v` along `axis`.
pub open spec fn spec_component(v: Vector3, axis: Axis) -> Scalar {
    match axis {
        Axis::X => v.x,
        Axis::Y => v.y,
        Axis::Z => v.z,
    }
}

#[verifier::when_used_as_spec(spec_component)]
pub fn component(v: Vector3, axis: Axis) -> (c: Scalar)
    ensures
        c == spec_component(v, axis),
{
    match axis {
        Axis::X => v.x,
        Axis::Y => v.y,
        Axis::Z => v.z,
    }
}

/// What a scan of `points` from left to right holds at its end, when it starts
/// with `seed` and takes each point whose component along `axis` is less than
/// that of the point it holds.
pub open spec fn lowest_from(seed: Vector3, points: Seq<Vector3>, axis: Axis) -> Vector3
    decreases points.len(),
{
    if points.len() == 0 {
        seed
    } else {
        let held = lowest_from(seed, points.drop_last(), axis);
        if spec_component(points.last(), axis).spec_less_than(spec_component(held, axis)) {
            points.last()
        } else {
            held
        }
    }
}

/// As [`lowest_from`], taking each point whose component is greater.
pub open spec fn highest_from(seed: Vector3, points: Seq<Vector3>, axis: Axis) -> Vector3
    decreases points.len(),
{
    if points.len() == 0 {
        seed
    } else {
        let held = highest_from(seed, points.drop_last(), axis);
        if spec_component(points.last(), axis).spec_greater_than(spec_component(held, axis)) {
            points.last()
        } else {
            held
        }
    }
}

/// The point of a nonempty set that lies lowest along `axis`: the scan starts
/// with the first point.
pub open spec fn lowest(points: Seq<Vector3>, axis: Axis) -> Vector3
    recommends
        points.len() > 0,
{
    lowest_from(points[0], points, axis)
}

/// The point of a nonempty set that lies highest along `axis`.
pub open spec fn highest(points: Seq<Vector3>, axis: Axis) -> Vector3
    recommends
        points.len() > 0,
{
    highest_from(points[0], points, axis)
}

/// No component along `axis` is not-a-number.
pub open spec fn numbers_along(points: Seq<Vector3>, axis: Axis) -> bool {
    forall|i: int| 0 <= i < points.len() ==> !(#[trigger] spec_component(points[i], axis)).spec_is_nan()
}

/// The scan for the lowest point ends on its seed or on one of the points, and
/// no point lies below what it ends on. Where the seed and all points are
/// numbers along the axis, what it ends on is at most the seed and each point.
pub proof fn lemma_lowest_from(seed: Vector3, points: Seq<Vector3>, axis: Axis)
    ensures
        lowest_from(seed, points, axis) == seed || points.contains(lowest_from(seed, points, axis)),
        !spec_component(seed, axis).spec_less_than(
            spec_component(lowest_from(seed, points, axis), axis),
        ),
        forall|i: int|
            0 <= i < points.len() ==> !(#[trigger] spec_component(points[i], axis)).spec_less_than(
                spec_component(lowest_from(seed, points, axis), axis),
            ),
        !spec_component(seed, axis).spec_is_nan() && numbers_along(points, axis) ==> {
            &&& spec_component(lowest_from(seed, points, axis), axis).spec_at_most(
                spec_component(seed, axis),
            )
            &&& forall|i: int|
                0 <= i < points.len() ==> spec_component(
                    lowest_from(seed, points, axis),
                    axis,
                ).spec_at_most(#[trigger] spec_component(points[i], axis))
        },
    decreases points.len(),
{
    if points.len() > 0 {
        let front = points.drop_last();
        lemma_lowest_from(seed, front, axis);
        let held = lowest_from(seed, front, axis);
        let end = lowest_from(seed, points, axis);
        assert(points.last() == points[points.len() - 1]);
        if held != seed {
            let k = choose|k: int| 0 <= k < front.len() && front[k] == held;
            assert(points[k] == held);
        }
        assert forall|i: int| 0 <= i < points.len() implies !(#[trigger] spec_component(
            points[i],
            axis,
        )).spec_less_than(spec_component(end, axis)) by {
            if i < points.len() - 1 {
                assert(front[i] == points[i]);
            }
        }
        if !spec_component(seed, axis).spec_is_nan() && numbers_along(points, axis) {
            assert forall|i: int| 0 <= i < front.len() implies !(#[trigger] spec_component(
                front[i],
                axis,
            )).spec_is_nan() by {
                assert(front[i] == points[i]);
            }
            assert forall|i: int| 0 <= i < points.len() implies spec_component(
                end,
                axis,
            ).spec_at_most(#[trigger] spec_component(points[i], axis)) by {
                if i < points.len() - 1 {
                    assert(front[i] == points[i]);
                }
            }
        }
    }
}

/// The mirror image of [`lemma_lowest_from`].
pub proof fn lemma_highest_from(seed: Vector3, points: Seq<Vector3>, axis: Axis)
    ensures
        highest_from(seed, points, axis) == seed || points.contains(
            highest_from(seed, points, axis),
        ),
        !spec_component(seed, axis).spec_greater_than(
            spec_component(highest_from(seed, points, axis), axis),
        ),
        forall|i: int|
            0 <= i < points.len() ==> !(#[trigger] spec_component(
                points[i],
                axis,
            )).spec_greater_than(spec_component(highest_from(seed, points, axis), axis)),
        !spec_component(seed, axis).spec_is_nan() && numbers_along(points, axis) ==> {
            &&& spec_component(highest_from(seed, points, axis), axis).spec_at_least(
                spec_component(seed, axis),
            )
            &&& forall|i: int|
                0 <= i < points.len() ==> spec_component(
                    highest_from(seed, points, axis),
                    axis,
                ).spec_at_least(#[trigger] spec_component(points[i], axis))
        },
    decreases points.len(),
{
    if points.len() > 0 {
        let front = points.drop_last();
        lemma_highest_from(seed, front, axis);
        let held = highest_from(seed, front, axis);
        let end = highest_from(seed, points, axis);
        assert(points.last() == points[points.len() - 1]);
        if held != seed {
            let k = choose|k: int| 0 <= k < front.len() && front[k] == held;
            assert(points[k] == held);
        }
        assert forall|i: int| 0 <= i < points.len() implies !(#[trigger] spec_component(
            points[i],
            axis,
        )).spec_greater_than(spec_component(end, axis)) by {
            if i < points.len() - 1 {
                assert(front[i] == points[i]);
            }
        }
        if !spec_component(seed, axis).spec_is_nan() && numbers_along(points, axis) {
            assert forall|i: int| 0 <= i < front.len() implies !(#[trigger] spec_component(
                front[i],
                axis,
            )).spec_is_nan() by {
                assert(front[i] == points[i]);
            }
            assert forall|i: int| 0 <= i < points.len() implies spec_component(
                end,
                axis,
            ).spec_at_least(#[trigger] spec_component(points[i], axis)) by {
                if i < points.len() - 1 {
                    assert(front[i] == points[i]);
                }
            }
        }
    }
}

/// The six extreme points of a point set: for each axis the point that lies
/// lowest and the point that lies highest along it.
#[derive(Clone, Copy, Debug)]
pub struct Extremes {
    pub x_min: Vector3,
    pub x_max: Vector3,
    pub y_min: Vector3,
    pub y_max: Vector3,
    pub z_min: Vector3,
    pub z_max: Vector3,
}

/// The extremes of a nonempty point set.
pub open spec fn spec_extremes(points: Seq<Vector3>) -> Extremes
    recommends
        points.len() > 0,
{
    Extremes {
        x_min: lowest(points, Axis::X),
        x_max: highest(points, Axis::X),
        y_min: lowest(points, Axis::Y),
        y_max: highest(points, Axis::Y),
        z_min: lowest(points, Axis::Z),
        z_max: highest(points, Axis::Z),
    }
}

/// Finds the extreme points in one pass. Where several points share an extreme
/// component, the first of them is the one found.
pub fn extreme_points(points: &Vec<Vector3>) -> (found: Option<Extremes>)
    ensures
        points.len() == 0 ==> found is None,
        points.len() > 0 ==> found == Some(spec_extremes(points@)),
{
    if points.len() == 0 {
        return None;
    }
    let first = points[0];
    let mut held = Extremes {
        x_min: first,
        x_max: first,
        y_min: first,
        y_max: first,
        z_min: first,
        z_max: first,
    };
    let mut i: usize = 0;
    while i < points.len()
        invariant
            i <= points.len(),
            points.len() > 0,
            first == points@[0],
            held.x_min == lowest_from(first, points@.take(i as int), Axis::X),
            held.x_max == highest_from(first, points@.take(i as int), Axis::X),
            held.y_min == lowest_from(first, points@.take(i as int), Axis::Y),
            held.y_max == highest_from(first, points@.take(i as int), Axis::Y),
            held.z_min == lowest_from(first, points@.take(i as int), Axis::Z),
            held.z_max == highest_from(first, points@.take(i as int), Axis::Z),
        decreases points.len() - i,
    {
        let point = points[i];
        proof {
            let next = points@.take(i + 1);
            assert(next.drop_last() =~= points@.take(i as int));
            assert(next.last() == point);
        }
        if point.x.less_than(held.x_min.x) {
            held.x_min = point;
        }
        if point.x.greater_than(held.x_max.x) {
            held.x_max = point;
        }
        if point.y.less_than(held.y_min.y) {
            held.y_min = point;
        }
        if point.y.greater_than(held.y_max.y) {
            held.y_max = point;
        }
        if point.z.less_than(held.z_min.z) {
            held.z_min = point;
        }
        if point.z.greater_than(held.z_max.z) {
            held.z_max = point;
        }
        i += 1;
    }
    proof {
        assert(points@.take(points.len() as int) =~= points@);
    }
    Some(held)
}

} // verus!
