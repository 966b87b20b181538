use rust_maths::colliders::bounding_sphere::BoundingSphere;
use rust_maths::colliders::{
    AABoundingBox, MeshCollider, PlaneCollider, PlaneProbe, RayHitInfo, RayPoint, Slab,
    SphereProbe, TriangleCollider, TriangleProbe, TriangleSight,
};
use rust_maths::{Scalar, Vector3};

type Float3 = [f32; 3];

fn s(value: f32) -> Scalar {
    Scalar::from_bits(value.to_bits())
}

fn f(value: Scalar) -> f32 {
    f32::from_bits(value.to_bits())
}

fn v(a: Float3) -> Vector3 {
    Vector3::new(s(a[0]), s(a[1]), s(a[2]))
}

fn vi(a: [i32; 3]) -> Vector3 {
    v([a[0] as f32, a[1] as f32, a[2] as f32])
}

fn arr(vector: Vector3) -> Float3 {
    [f(vector.x), f(vector.y), f(vector.z)]
}

fn add(a: Float3, b: Float3) -> Float3 {
    [a[0] + b[0], a[1] + b[1], a[2] + b[2]]
}

fn sub(a: Float3, b: Float3) -> Float3 {
    [a[0] - b[0], a[1] - b[1], a[2] - b[2]]
}

fn scale(a: Float3, by: f32) -> Float3 {
    [a[0] * by, a[1] * by, a[2] * by]
}

fn dot(a: Float3, b: Float3) -> f32 {
    a[0] * b[0] + a[1] * b[1] + a[2] * b[2]
}

fn cross(a: Float3, b: Float3) -> Float3 {
    [a[1] * b[2] - a[2] * b[1], a[2] * b[0] - a[0] * b[2], a[0] * b[1] - a[1] * b[0]]
}

fn magnitude(a: Float3) -> f32 {
    dot(a, a).sqrt()
}

fn normalised(a: Float3) -> Float3 {
    let length = magnitude(a);
    [a[0] / length, a[1] / length, a[2] / length]
}

fn on_ray(root: Float3, direction: Float3, distance: f32) -> RayPoint {
    RayPoint::new(s(distance), v(add(root, scale(direction, distance))))
}

fn solve_quadratic(a: f32, b: f32, c: f32) -> (Option<f32>, Option<f32>) {
    let det = b * b - 4.0 * a * c;
    if det < 0.0 {
        (None, None)
    } else if det == 0.0 {
        (Some(-b / (2.0 * a)), None)
    } else {
        (Some((-b + det.sqrt()) / (2.0 * a)), Some((-b - det.sqrt()) / (2.0 * a)))
    }
}

fn box_check_ray(
    bounds: &AABoundingBox,
    root: Float3,
    direction: Float3,
    max_distance: Option<f32>,
) -> Option<RayHitInfo> {
    let direction = normalised(direction);
    let (low, high) = (arr(bounds.min_corner), arr(bounds.max_corner));
    let slab = |axis: usize| {
        let inverse = 1.0 / direction[axis];
        Slab::new(
            s(inverse),
            on_ray(root, direction, (low[axis] - root[axis]) * inverse),
            on_ray(root, direction, (high[axis] - root[axis]) * inverse),
        )
    };
    bounds.check_ray(v(root), slab(0), slab(1), slab(2), max_distance.map(s))
}

fn sphere_check_ray(
    sphere: &BoundingSphere,
    root: Float3,
    direction: Float3,
    max_distance: Option<f32>,
) -> Option<RayHitInfo> {
    let direction = normalised(direction);
    let l = sub(root, arr(sphere.centre));
    let radius = f(sphere.radius);
    let (first, second) =
        solve_quadratic(dot(direction, direction), 2.0 * dot(direction, l), dot(l, l) - radius * radius);
    let probe = SphereProbe {
        centre_distance: s(magnitude(l)),
        outward: v(normalised(l)),
        first: first.map(|t| on_ray(root, direction, t)),
        second: second.map(|t| on_ray(root, direction, t)),
    };
    sphere.check_ray(v(root), probe, max_distance.map(s))
}

fn plane(position: Float3, size: [f32; 2]) -> PlaneCollider {
    let centre = add(position, [size[0] / 2.0, 0.0, size[1] / 2.0]);
    PlaneCollider::new(v(position), s(size[0]), s(size[1]), v(centre))
}

fn plane_check_ray(
    plane: &PlaneCollider,
    root: Float3,
    direction: Float3,
    max_distance: Option<f32>,
) -> Option<RayHitInfo> {
    let direction = normalised(direction);
    let up = [0.0, 1.0, 0.0];
    let height = dot(sub(arr(plane.centre), root), up);
    let slope = dot(direction, up);
    let point = on_ray(root, direction, height / slope);
    let at = arr(point.position);
    let position = arr(plane.position);
    let probe = PlaneProbe {
        height: s(height),
        slope: s(slope),
        point,
        x_offset: s(at[0] - position[0]),
        z_offset: s(at[2] - position[2]),
    };
    plane.check_ray(v(root), probe, max_distance.map(s))
}

fn triangle_probe(triangle: &TriangleCollider, root: Float3, direction: Float3) -> TriangleProbe {
    let (a, b, c) = (arr(triangle.a), arr(triangle.b), arr(triangle.c));
    let (side_one, side_two) = (sub(b, a), sub(c, a));
    let p = cross(direction, side_two);
    let determinant = dot(side_one, p);
    let from_corner = sub(root, a);
    let u = dot(from_corner, p) / determinant;
    let q = cross(from_corner, side_one);
    let w = dot(direction, q) / determinant;
    let distance = dot(side_two, q) / determinant;
    TriangleProbe {
        determinant: s(determinant),
        u: s(u),
        v: s(w),
        u_v_sum: s(u + w),
        point: on_ray(root, direction, distance),
        normal: v(normalised(cross(side_one, side_two))),
    }
}

fn centre_distance(triangle: &TriangleCollider, root: Float3) -> f32 {
    let sum = add(add(arr(triangle.a), arr(triangle.b)), arr(triangle.c));
    magnitude(sub(scale(sum, 1.0 / 3.0), root))
}

fn mesh_check_ray(
    mesh: &MeshCollider,
    root: Float3,
    direction: Float3,
    max_distance: Option<f32>,
) -> Option<RayHitInfo> {
    let direction = normalised(direction);
    let bounds_hit = box_check_ray(&mesh.bounds, root, direction, max_distance);
    let sights = mesh
        .tris
        .iter()
        .map(|t| TriangleSight::new(s(centre_distance(t, root)), triangle_probe(t, root, direction)))
        .collect();
    mesh.check_ray(bounds_hit, sights, max_distance.map(s))
}

fn pyramid(apex: [i32; 3]) -> MeshCollider {
    MeshCollider::new(
        vec![vi([-2, 0, -2]), vi([-2, 0, 2]), vi([2, 0, -2]), vi([2, 0, 2]), vi(apex)],
        vec![0, 3, 2, 3, 1, 0, 0, 4, 1, 1, 4, 2, 2, 4, 3, 3, 4, 1],
    )
}

fn five_box() -> AABoundingBox {
    AABoundingBox::new(Vector3::ZERO(), v([5.0, 5.0, 5.0]))
}

#[test]
fn perpendicular_intersection_test() {
    let bounds = five_box();
    let hit = box_check_ray(&bounds, [10.0, 2.0, 0.0], [-1.0, 0.0, 0.0], Some(25.0)).unwrap();
    assert_eq!(hit.hit_position, vi([5, 2, 0]));
    assert_eq!(f(hit.hit_distance), 5.0);
}

#[test]
fn contained_intersection_test() {
    let bounds = five_box();
    let hit = box_check_ray(&bounds, [3.0, 2.0, 0.0], [-1.0, 0.0, 0.0], Some(25.0)).unwrap();
    assert_eq!(hit.hit_position, vi([3, 2, 0]));
    assert_eq!(f(hit.hit_distance), 0.0);
}

#[test]
fn angled_test() {
    let bounds = five_box();
    let hit = box_check_ray(&bounds, [8.0, 2.0, 0.0], [-1.0, 0.0, 1.0], Some(25.0)).unwrap();
    assert_eq!(hit.hit_position, v([5.0, 2.0, 2.9999998]));
    assert_eq!(f(hit.hit_distance), 3.0 * 2_f32.sqrt());
}

#[test]
fn zero_height_test() {
    let bounds = AABoundingBox::new(vi([-10, 0, -10]), vi([10, 0, 10]));
    let hit = box_check_ray(&bounds, [0.0, 10.0, 0.0], [0.0, -1.0, 0.0], Some(25.0)).unwrap();
    assert_eq!(hit.hit_position, vi([0, 0, 0]));
    assert_eq!(f(hit.hit_distance), 10.0);
}

#[test]
fn contained_point_test() {
    let sphere = BoundingSphere::new(vi([0, 0, 0]), s(5.0));
    let hit = sphere_check_ray(&sphere, [0.0, 2.5, 0.0], [1.0, 0.0, 0.0], Some(2.0)).unwrap();
    assert_eq!(hit.hit_position, v([0.0, 2.5, 0.0]));
    assert_eq!(f(hit.hit_distance), 0.0);
}

#[test]
fn collider_tests_intersection_test() {
    let sphere = BoundingSphere::new(vi([0, 0, 0]), s(2.5));
    let hit = sphere_check_ray(&sphere, [5.0, 0.0, 0.0], [-1.0, 0.0, 0.0], Some(20.0)).unwrap();
    assert_eq!(hit.hit_position, v([2.5, 0.0, 0.0]));
    assert_eq!(f(hit.hit_distance), 2.5);
}

#[test]
fn too_far_test() {
    let sphere = BoundingSphere::new(vi([0, 0, 0]), s(2.5));
    let hit = sphere_check_ray(&sphere, [5.0, 0.0, 0.0], [-1.0, 0.0, 0.0], Some(2.0));
    assert!(hit.is_none())
}

#[test]
fn no_intersection_test() {
    let sphere = BoundingSphere::new(vi([0, 0, 0]), s(2.5));
    let hit = sphere_check_ray(&sphere, [5.0, 0.0, 0.0], [0.0, 1.0, 0.0], Some(25.0));
    assert!(hit.is_none())
}

#[test]
fn parralel_ray_test() {
    let plane = plane([0.0, 0.0, 0.0], [1.0, 1.0]);
    assert!(plane_check_ray(&plane, [0.0, 1.0, 0.0], [1.0, 0.0, 0.0], Some(25.0)).is_none())
}

#[test]
fn position_ray_test() {
    let plane = plane([0.0, 0.0, 0.0], [1.0, 1.0]);
    let hit = plane_check_ray(&plane, [0.0, 0.0, 0.0], [1.0, 0.0, 0.0], Some(25.0)).unwrap();
    assert_eq!(hit.hit_position, vi([0, 0, 0]));
    assert_eq!(f(hit.hit_distance), 0.0);
}

#[test]
fn contained_ray_test() {
    let plane = plane([0.0, 0.0, 0.0], [5.0, 5.0]);
    let hit = plane_check_ray(&plane, [1.0, 0.0, 1.0], [1.0, 0.0, 0.0], Some(25.0)).unwrap();
    assert_eq!(hit.hit_position, vi([1, 0, 1]));
    assert_eq!(f(hit.hit_distance), 0.0);
}

#[test]
fn ray_hit_test() {
    let plane = plane([0.0, 0.0, 0.0], [5.0, 5.0]);
    let hit = plane_check_ray(&plane, [0.0, 5.0, 0.0], [0.0, -1.0, 0.0], Some(25.0)).unwrap();
    assert_eq!(hit.hit_position, vi([0, 0, 0]));
    assert_eq!(f(hit.hit_distance), 5.0);
}

#[test]
fn miss_mesh_test() {
    let mesh = pyramid([0, 5, 0]);

    assert!(mesh_check_ray(&mesh, [1.0, 4.0, 0.0], [1.0, 0.0, 0.0], Some(25.0)).is_none())
}

#[test]
fn miss_box_test() {
    let mesh = pyramid([0, 5, 0]);

    assert!(mesh_check_ray(&mesh, [1.0, 6.0, 0.0], [1.0, 0.0, 0.0], Some(25.0)).is_none())
}

#[test]
fn hit_test() {
    let mesh = pyramid([-2, 5, 0]);

    let hit = mesh_check_ray(&mesh, [-5.0, 3.0, 0.0], [1.0, 0.0, 0.0], Some(25.0)).unwrap();

    assert_eq!(hit.hit_position, vi([-2, 3, 0]));
    assert_eq!(f(hit.hit_distance), 3.0);
}

#[test]
fn as_plane_test() {
    let collider = MeshCollider::new(
        vec![
            v([-25.0, 0.0, -25.0]),
            v([-25.0, 0.0, 25.0]),
            v([25.0, 0.0, -25.0]),
            v([25.0, 0.0, 25.0]),
        ],
        vec![0, 3, 2, 3, 0, 1],
    );

    let hit = mesh_check_ray(&collider, [5.0, 10.0, 5.0], [0.0, -1.0, 0.0], None).unwrap();

    assert_eq!(hit.hit_position, vi([5, 0, 5]));
    assert_eq!(f(hit.hit_distance), 10.0);
}

#[test]
fn slant_test() {
    let mesh = MeshCollider::new(
        vec![
            vi([-1, 0, -1]),
            vi([0, 0, -1]),
            vi([1, 0, -1]),
            vi([-1, 0, 0]),
            vi([0, 0, 0]),
            vi([1, 0, 0]),
            vi([-1, 0, 1]),
            vi([0, 0, 1]),
            vi([1, 0, 1]),
        ],
        vec![8, 7, 5, 4, 5, 7, 7, 6, 4, 3, 4, 6, 5, 4, 2, 1, 2, 4, 4, 3, 1, 0, 1, 3],
    );

    let hit = mesh_check_ray(&mesh, [-0.5, 5.0, -0.5], [0.0, -1.0, 0.0], None).unwrap();

    assert_eq!(hit.hit_position, v([-0.5, 0.0, -0.5]));
}

#[test]
fn box_hit_carries_the_outward_normal_of_the_entered_face() {
    let bounds = five_box();
    let hit = box_check_ray(&bounds, [10.0, 2.0, 1.0], [-1.0, 0.0, 0.0], None).unwrap();
    assert_eq!(arr(hit.hit_normal), [1.0, 0.0, 0.0]);
    let hit = box_check_ray(&bounds, [-10.0, 2.0, 1.0], [1.0, 0.0, 0.0], None).unwrap();
    assert_eq!(arr(hit.hit_normal), [-1.0, 0.0, 0.0]);
    let hit = box_check_ray(&bounds, [1.0, 9.0, 1.0], [0.0, -1.0, 0.0], None).unwrap();
    assert_eq!(arr(hit.hit_normal), [0.0, 1.0, 0.0]);
    assert_eq!(f(hit.hit_distance), 4.0);
}

#[test]
fn box_behind_the_ray_is_missed() {
    let bounds = five_box();
    assert!(box_check_ray(&bounds, [10.0, 2.0, 1.0], [1.0, 0.0, 0.0], None).is_none());
    assert!(box_check_ray(&bounds, [10.0, 7.0, 1.0], [-1.0, 0.0, 0.0], None).is_none());
}

#[test]
fn box_beyond_the_limit_is_missed() {
    let bounds = five_box();
    assert!(box_check_ray(&bounds, [10.0, 2.0, 1.0], [-1.0, 0.0, 0.0], Some(4.5)).is_none());
    assert!(box_check_ray(&bounds, [10.0, 2.0, 1.0], [-1.0, 0.0, 0.0], Some(5.0)).is_some());
}

#[test]
fn box_hit_inside_has_no_normal() {
    let bounds = five_box();
    let hit = box_check_ray(&bounds, [3.0, 2.0, 0.0], [-1.0, 0.0, 0.0], Some(25.0)).unwrap();
    assert_eq!(arr(hit.hit_normal), [0.0, 0.0, 0.0]);
}

#[test]
fn sphere_behind_the_ray_is_missed() {
    let sphere = BoundingSphere::new(vi([0, 0, 0]), s(2.5));
    assert!(sphere_check_ray(&sphere, [5.0, 0.0, 0.0], [1.0, 0.0, 0.0], None).is_none());
}

#[test]
fn sphere_hit_carries_the_direction_from_centre_to_origin() {
    let sphere = BoundingSphere::new(vi([0, 0, 0]), s(2.5));
    let hit = sphere_check_ray(&sphere, [5.0, 0.0, 0.0], [-1.0, 0.0, 0.0], None).unwrap();
    assert_eq!(arr(hit.hit_normal), [1.0, 0.0, 0.0]);
}

#[test]
fn plane_is_missed_past_its_far_edge_only() {
    let plane = plane([0.0, 0.0, 0.0], [5.0, 5.0]);
    assert!(plane_check_ray(&plane, [6.0, 5.0, 1.0], [0.0, -1.0, 0.0], None).is_none());
    assert!(plane_check_ray(&plane, [1.0, 5.0, 6.0], [0.0, -1.0, 0.0], None).is_none());
    let hit = plane_check_ray(&plane, [-3.0, 5.0, 1.0], [0.0, -1.0, 0.0], None).unwrap();
    assert_eq!(arr(hit.hit_position), [-3.0, 0.0, 1.0]);
    assert_eq!(arr(hit.hit_normal), [0.0, 1.0, 0.0]);
}

#[test]
fn plane_behind_or_beyond_is_missed() {
    let plane = plane([0.0, 0.0, 0.0], [5.0, 5.0]);
    assert!(plane_check_ray(&plane, [1.0, 5.0, 1.0], [0.0, 1.0, 0.0], None).is_none());
    assert!(plane_check_ray(&plane, [1.0, 5.0, 1.0], [0.0, -1.0, 0.0], Some(4.0)).is_none());
}

#[test]
fn triangle_counts_its_sides_and_nothing_outside() {
    let triangle = TriangleCollider::new(vi([0, 0, 0]), vi([2, 0, 0]), vi([0, 0, 2]));
    let down = [0.0, -1.0, 0.0];
    let inside = triangle.check_ray(triangle_probe(&triangle, [0.5, 3.0, 0.5], down), None);
    assert_eq!(f(inside.unwrap().hit_distance), 3.0);
    let on_side = triangle.check_ray(triangle_probe(&triangle, [1.0, 3.0, 1.0], down), None);
    assert_eq!(arr(on_side.unwrap().hit_position), [1.0, 0.0, 1.0]);
    let outside = triangle.check_ray(triangle_probe(&triangle, [1.5, 3.0, 1.5], down), None);
    assert!(outside.is_none());
    let behind = triangle.check_ray(triangle_probe(&triangle, [0.5, 3.0, 0.5], [0.0, 1.0, 0.0]), None);
    assert!(behind.is_none());
    let along = triangle.check_ray(triangle_probe(&triangle, [0.5, 3.0, 0.5], [1.0, 0.0, 0.0]), None);
    assert!(along.is_none());
    let too_far = triangle.check_ray(triangle_probe(&triangle, [0.5, 3.0, 0.5], down), Some(s(2.0)));
    assert!(too_far.is_none());
}

/// A sight of a triangle at the given distance that the ray hits at
/// `hit_at`, or misses.
fn sight(distance: f32, hit_at: Option<f32>) -> TriangleSight {
    let inside = if hit_at.is_some() { 0.25 } else { -1.0 };
    let probe = TriangleProbe {
        determinant: s(1.0),
        u: s(inside),
        v: s(0.25),
        u_v_sum: s(inside + 0.25),
        point: RayPoint::new(s(hit_at.unwrap_or(0.0)), Vector3::ZERO()),
        normal: Vector3::Y(),
    };
    TriangleSight::new(s(distance), probe)
}

#[test]
fn mesh_tries_triangles_from_the_nearest() {
    let order = MeshCollider::search_order(vec![s(3.0), s(1.0), s(2.0), s(1.0)]);
    assert_eq!(order, vec![1, 3, 2, 0]);
    let mesh = MeshCollider::new(
        vec![vi([0, 0, 0]), vi([1, 0, 0]), vi([0, 0, 1])],
        vec![0, 1, 2, 0, 1, 2, 0, 1, 2],
    );
    let box_hit = Some(RayHitInfo::new(Vector3::ZERO(), s(0.0), Vector3::Y()));
    let sights = vec![sight(3.0, Some(30.0)), sight(1.0, None), sight(2.0, Some(20.0))];
    let found = mesh.check_ray(box_hit, sights.clone(), None);
    assert_eq!(f(found.unwrap().hit_distance), 20.0);
    let limited = mesh.check_ray(box_hit, sights.clone(), Some(s(25.0)));
    assert_eq!(f(limited.unwrap().hit_distance), 20.0);
    let too_far = mesh.check_ray(box_hit, sights.clone(), Some(s(10.0)));
    assert!(too_far.is_none());
    let missed = mesh.check_ray(None, sights, None);
    assert!(missed.is_none());
    let tie = vec![sight(1.0, Some(7.0)), sight(1.0, Some(8.0)), sight(1.0, Some(9.0))];
    assert_eq!(f(mesh.check_ray(box_hit, tie, None).unwrap().hit_distance), 7.0);
}

#[test]
fn mesh_holds_the_named_triangles_and_their_box() {
    let mesh = pyramid([0, 5, 0]);
    assert_eq!(mesh.tris.len(), 6);
    assert!(mesh.tris[2].equals(TriangleCollider::new(vi([-2, 0, -2]), vi([0, 5, 0]), vi([-2, 0, 2]))));
    assert_eq!(mesh.bounds, AABoundingBox::new(vi([-2, 0, -2]), vi([2, 5, 2])));
}

#[test]
fn same_query_gives_the_same_answer() {
    let bounds = five_box();
    let first = box_check_ray(&bounds, [8.0, 2.0, 0.0], [-1.0, 0.0, 1.0], Some(25.0)).unwrap();
    let second = box_check_ray(&bounds, [8.0, 2.0, 0.0], [-1.0, 0.0, 1.0], Some(25.0)).unwrap();
    assert_eq!(first.hit_distance.to_bits(), second.hit_distance.to_bits());
    assert_eq!(first.hit_position.x.to_bits(), second.hit_position.x.to_bits());
    assert_eq!(first.hit_position.y.to_bits(), second.hit_position.y.to_bits());
    assert_eq!(first.hit_position.z.to_bits(), second.hit_position.z.to_bits());
    assert_eq!(first.hit_normal.x.to_bits(), second.hit_normal.x.to_bits());
}

#[test]
fn ray_within_the_plane_of_a_face_hits_the_face_ahead() {
    let bounds = five_box();
    let hit = box_check_ray(&bounds, [0.0, 10.0, 0.0], [0.0, -1.0, 0.0], Some(25.0)).unwrap();
    assert_eq!(arr(hit.hit_position), [0.0, 5.0, 0.0]);
    assert_eq!(f(hit.hit_distance), 5.0);
    assert_eq!(arr(hit.hit_normal), [0.0, 1.0, 0.0]);
}

#[test]
fn ray_within_the_plane_of_a_face_misses_the_box_behind_it() {
    let bounds = five_box();
    assert!(box_check_ray(&bounds, [5.0, -10.0, 0.0], [0.0, -1.0, 0.0], Some(25.0)).is_none());
}

#[test]
fn slab_distances_that_are_not_numbers_never_reach_the_answer() {
    let bounds = five_box();
    let origins = [[0.0, 10.0, 0.0], [5.0, 10.0, 5.0], [0.0, -10.0, 5.0], [5.0, 2.0, 10.0]];
    let directions =
        [[0.0, -1.0, 0.0], [0.0, 1.0, 0.0], [0.0, 0.0, -1.0], [0.0, 0.0, 1.0], [0.0, -1.0, -1.0]];
    for origin in origins {
        for direction in directions {
            if let Some(hit) = box_check_ray(&bounds, origin, direction, None) {
                assert!(f(hit.hit_distance) >= 0.0);
                assert!(arr(hit.hit_position).iter().all(|component| !component.is_nan()));
                assert!(bounds.contains_point(hit.hit_position));
            }
        }
    }
}

#[test]
fn plane_at_a_distance_that_is_not_a_number_is_missed() {
    let plane = plane([0.0, 0.0, 0.0], [5.0, 5.0]);
    assert!(plane_check_ray(&plane, [1.0, 5.0, 1.0], [0.0, 0.0, 0.0], None).is_none());
}
