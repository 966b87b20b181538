use rust_maths::camera::{Camera, CameraDirections};
use rust_maths::colliders::lies_outside;
use rust_maths::matrices::MaxtrixNM;
use rust_maths::noise;
use rust_maths::simplex;
use rust_maths::{Scalar, Vector3, Vector3Int};

fn s(value: f32) -> Scalar {
    Scalar::from_bits(value.to_bits())
}

fn f(value: Scalar) -> f32 {
    f32::from_bits(value.to_bits())
}

fn arr(vector: Vector3) -> [f32; 3] {
    [f(vector.x), f(vector.y), f(vector.z)]
}

fn items(values: &[f32]) -> Vec<Scalar> {
    values.iter().map(|value| s(*value)).collect()
}

fn plain(values: Vec<Scalar>) -> Vec<f32> {
    values.into_iter().map(f).collect()
}

#[test]
fn matrix_is_filled_row_by_row() {
    let m = MaxtrixNM::new_from_items(3, 2, items(&[1.0, 2.0, 3.0, 4.0, 5.0, 6.0]));
    assert_eq!((m.width, m.height), (3, 2));
    assert_eq!(plain(m.get_row(0).unwrap()), vec![1.0, 2.0, 3.0]);
    assert_eq!(plain(m.get_row(1).unwrap()), vec![4.0, 5.0, 6.0]);
    assert_eq!(plain(m.get_column(1).unwrap()), vec![2.0, 5.0]);
    assert_eq!(f(m.get_element(2, 1).unwrap()), 6.0);
    assert_eq!(f(m.get_element(0, 1).unwrap()), 4.0);
}

#[test]
fn matrix_pads_with_zero_where_items_run_out() {
    let m = MaxtrixNM::new_from_items(2, 2, items(&[1.0, 2.0, 3.0]));
    assert_eq!(plain(m.get_row(1).unwrap()), vec![3.0, 0.0]);
    let empty = MaxtrixNM::new_empty(2, 3);
    assert_eq!(plain(empty.get_column(0).unwrap()), vec![0.0, 0.0, 0.0]);
    assert_eq!(empty.matrix.len(), 3);
}

#[test]
fn matrix_refuses_what_it_does_not_have() {
    let m = MaxtrixNM::new_empty(3, 2);
    assert!(m.get_row(2).is_err());
    assert!(m.get_row(1).is_ok());
    assert!(m.get_column(3).is_err());
    assert!(m.get_column(2).is_ok());
    assert!(m.get_element(3, 0).is_err());
    assert!(m.get_element(0, 2).is_err());
    assert!(m.get_element(2, 1).is_ok());
}

#[test]
fn matrix_shapes_decide_what_can_be_added_and_multiplied() {
    let a = MaxtrixNM::new_empty(3, 2);
    let b = MaxtrixNM::new_empty(3, 2);
    let c = MaxtrixNM::new_empty(4, 3);
    assert_eq!(a.sum_shape(&b).unwrap(), (3, 2));
    assert!(a.sum_shape(&c).is_err());
    assert_eq!(a.product_shape(&c).unwrap(), (4, 2));
    assert!(c.product_shape(&a).is_err());
}

#[test]
fn controls_switch_the_movement_that_is_named() {
    let mut controls = Camera::new(None, None, None, None);
    assert!(!controls.is_controlled);
    controls.process_input(Some(CameraDirections::Forward), true);
    controls.process_input(Some(CameraDirections::SpinLeft), true);
    controls.process_input(Some(CameraDirections::SpinBackward), true);
    controls.process_input(None, true);
    assert_eq!(
        controls.movement,
        [true, false, false, false, false, false, true, false, false, true]
    );
    controls.process_input(Some(CameraDirections::Forward), false);
    assert!(!controls.movement[0]);
    controls.controllable();
    assert!(controls.is_controlled);
    controls.toggle_controlled();
    assert!(!controls.is_controlled);
    controls.toggle_controlled();
    assert!(controls.is_controlled);
}

#[test]
fn new_camera_stands_and_looks_as_asked() {
    let v = |x: f32, y: f32, z: f32| Vector3::new(s(x), s(y), s(z));
    let plain = Camera::new(None, None, None, None);
    assert_eq!(arr(plain.position), [0.0, 0.0, 0.0]);
    assert_eq!(arr(plain.direction), [1.0, 0.0, 0.0]);
    assert_eq!(arr(plain.up), [0.0, -1.0, 0.0]);
    assert_eq!((f(plain.move_speed), f(plain.rotate_speed)), (3.0, 1.0));
    assert_eq!(plain.movement, [false; 10]);
    let asked =
        Camera::new(Some(v(1.0, 2.0, 3.0)), Some(v(0.0, 0.0, -2.0)), Some(s(7.0)), Some(s(0.5)));
    assert_eq!(arr(asked.position), [1.0, 2.0, 3.0]);
    assert_eq!(arr(asked.direction), [0.0, 0.0, -2.0]);
    assert_eq!((f(asked.move_speed), f(asked.rotate_speed)), (7.0, 0.5));
    let zero = Camera::new(None, Some(v(0.0, -0.0, 0.0)), None, None);
    assert_eq!(arr(zero.direction), [1.0, 0.0, 0.0]);
}

#[test]
fn every_movement_has_its_own_switch() {
    let all = [
        CameraDirections::Forward,
        CameraDirections::Backwards,
        CameraDirections::Left,
        CameraDirections::Right,
        CameraDirections::Up,
        CameraDirections::Down,
        CameraDirections::SpinLeft,
        CameraDirections::SpinRight,
        CameraDirections::SpinForward,
        CameraDirections::SpinBackward,
    ];
    let places: Vec<usize> = all.iter().map(|direction| direction.slot()).collect();
    assert_eq!(places, vec![0, 1, 2, 3, 4, 5, 6, 7, 8, 9]);
}

#[test]
fn shuffle_uses_the_low_eight_bits() {
    assert_eq!(simplex::hash(0), 151);
    assert_eq!(simplex::hash(1), 160);
    assert_eq!(simplex::hash(255), 180);
    assert_eq!(simplex::hash(256), 151);
    assert_eq!(simplex::hash(0xffff_ff01), 160);
    let mut seen = [false; 256];
    for value in 0..256 {
        seen[simplex::hash(value) as usize] = true;
    }
    assert!(seen.iter().all(|hit| *hit));
}

#[test]
fn unit_gradients_repeat_the_edges_and_end_with_the_corners() {
    let diag = std::f32::consts::FRAC_1_SQRT_2;
    let diag2 = 0.577_350_2;
    assert_eq!(arr(simplex::grad3(0)), [diag, diag, 0.0]);
    assert_eq!(arr(simplex::grad3(12)), [diag, diag, 0.0]);
    assert_eq!(arr(simplex::grad3(11)), [0.0, -diag, -diag]);
    assert_eq!(arr(simplex::grad3(23)), [0.0, -diag, -diag]);
    assert_eq!(arr(simplex::grad3(24)), [diag2, diag2, diag2]);
    assert_eq!(arr(simplex::grad3(27)), [-diag2, -diag2, diag]);
    assert_eq!(arr(simplex::grad3(31)), [-diag2, -diag2, -diag2]);
    assert_eq!(arr(simplex::grad3(32 + 5)), [-diag, 0.0, diag]);
}

#[test]
fn lattice_triangle_gradients_follow_the_shuffle() {
    assert_eq!(simplex::second_corner(s(0.7), s(0.2)), (1, 0));
    assert_eq!(simplex::second_corner(s(0.2), s(0.2)), (0, 1));
    let perm = |value: u32| simplex::hash(value);
    let (g0, g1, g2) = simplex::gradient_indices(3, 7, (1, 0));
    assert_eq!(g0, perm(3 + perm(7)) % 12);
    assert_eq!(g1, perm(4 + perm(7)) % 12);
    assert_eq!(g2, perm(4 + perm(8)) % 12);
    assert_eq!((g0, g1, g2), (140 % 12, 36 % 12, 179 % 12));
}

#[test]
fn integer_gradients_point_to_the_edges_of_a_cube() {
    assert_eq!(arr(noise::grad3(0)), [1.0, 1.0, 0.0]);
    assert_eq!(arr(noise::grad3(5)), [-1.0, 0.0, 1.0]);
    assert_eq!(arr(noise::grad3(11)), [0.0, -1.0, -1.0]);
    assert_eq!(arr(noise::grad3(12 + 3)), [-1.0, -1.0, 0.0]);
    assert_eq!(noise::grad3(9).x.to_bits(), 0);
}

#[test]
fn doubled_shuffle_needs_no_wrapping() {
    assert_eq!(noise::simplex::hash(0), 151);
    assert_eq!(noise::simplex::hash(256), 151);
    assert_eq!(noise::simplex::hash(511), 180);
    assert_eq!(noise::simplex::wrap(-1), 255);
    assert_eq!(noise::simplex::wrap(256), 0);
    assert_eq!(noise::simplex::wrap(i32::MIN), 0);
    let (g0, g1, g2) = noise::simplex::gradient_indices_2d(-1, 258, (0, 1));
    let perm = |value: i32| noise::simplex::hash(value);
    assert_eq!(g0, perm(255 + perm(2)));
    assert_eq!(g1, perm(255 + perm(3)));
    assert_eq!(g2, perm(256 + perm(3)));
}

#[test]
fn lattice_tetrahedron_is_walked_along_the_greatest_offsets() {
    let steps = |x: f32, y: f32, z: f32| {
        let (a, b) = noise::simplex::tetrahedron_steps(s(x), s(y), s(z));
        ([a.x, a.y, a.z], [b.x, b.y, b.z])
    };
    assert_eq!(steps(0.3, 0.2, 0.1), ([1, 0, 0], [1, 1, 0]));
    assert_eq!(steps(0.3, 0.1, 0.2), ([1, 0, 0], [1, 0, 1]));
    assert_eq!(steps(0.2, 0.1, 0.3), ([0, 0, 1], [1, 0, 1]));
    assert_eq!(steps(0.1, 0.2, 0.3), ([0, 0, 1], [0, 1, 1]));
    assert_eq!(steps(0.1, 0.3, 0.2), ([0, 1, 0], [0, 1, 1]));
    assert_eq!(steps(0.2, 0.3, 0.1), ([0, 1, 0], [1, 1, 0]));
    assert_eq!(steps(0.2, 0.2, 0.2), ([1, 0, 0], [1, 1, 0]));
    assert_eq!(noise::simplex::triangle_step(s(0.5), s(0.25)), (1, 0));
    assert_eq!(noise::simplex::triangle_step(s(0.25), s(0.25)), (0, 1));
    let cell = Vector3Int::new(1, 2, 3);
    let (a, b) = noise::simplex::tetrahedron_steps(s(0.3), s(0.2), s(0.1));
    let (g0, _, _, g3) = noise::simplex::gradient_indices_3d(cell, a, b);
    let perm = |value: i32| noise::simplex::hash(value);
    assert_eq!(g0, perm(1 + perm(2 + perm(3))));
    assert_eq!(g3, perm(2 + perm(3 + perm(4))));
}

#[test]
fn smaller_and_greater_pass_over_what_is_not_a_number() {
    let nan = s(f32::NAN);
    assert_eq!(f(s(1.0).min(s(2.0))), 1.0);
    assert_eq!(f(s(2.0).min(s(1.0))), 1.0);
    assert_eq!(f(s(1.0).max(s(2.0))), 2.0);
    assert_eq!(f(nan.min(s(2.0))), 2.0);
    assert_eq!(f(s(2.0).min(nan)), 2.0);
    assert_eq!(f(nan.max(s(-2.0))), -2.0);
    assert_eq!(f(s(-2.0).max(nan)), -2.0);
    assert!(nan.is_nan() && !s(f32::INFINITY).is_nan());
    assert_eq!(f(Scalar::one()), 1.0);
    assert_eq!(f(Scalar::zero()), 0.0);
    assert_eq!(f(s(1.5).negated()), -1.5);
}

#[test]
fn discriminant_decides_the_number_of_roots() {
    assert_eq!(rust_maths::root_count(s(1.0 * 1.0 - 4.0 * 1.0 * 8.0)), 0);
    assert_eq!(rust_maths::root_count(s(-8.0 * -8.0 - 4.0 * 1.0 * 16.0)), 1);
    assert_eq!(rust_maths::root_count(s(-0.0)), 1);
    assert_eq!(rust_maths::root_count(s(-5.0 * -5.0 - 4.0 * 1.0 * 6.0)), 2);
    assert_eq!(rust_maths::root_count(s(f32::NAN)), 2);
}

#[test]
fn point_lies_outside_only_beyond_the_radius() {
    assert!(lies_outside(s(4.1), s(4.0)));
    assert!(!lies_outside(s(4.0), s(4.0)));
    assert!(!lies_outside(s(3.9), s(4.0)));
    assert!(!lies_outside(s(f32::NAN), s(4.0)));
}
