use rust_maths::{Scalar, Vector3, Vector3Int};
use std::cmp::Ordering;

fn s(value: f32) -> Scalar {
    Scalar::from_bits(value.to_bits())
}

fn v(x: f32, y: f32, z: f32) -> Vector3 {
    Vector3::new(s(x), s(y), s(z))
}

fn arr(vector: Vector3) -> [f32; 3] {
    [
        f32::from_bits(vector.x.to_bits()),
        f32::from_bits(vector.y.to_bits()),
        f32::from_bits(vector.z.to_bits()),
    ]
}

fn sum(a: Vector3, b: Vector3) -> Vector3 {
    let (a, b) = (arr(a), arr(b));
    v(a[0] + b[0], a[1] + b[1], a[2] + b[2])
}

fn scaled(a: Vector3, by: f32) -> Vector3 {
    let a = arr(a);
    v(a[0] * by, a[1] * by, a[2] * by)
}

#[test]
fn ordering_tests() {
    assert!(scaled(Vector3::X(), 5.0) > Vector3::X());

    assert!(Vector3::X() > Vector3::Y());
    assert!(Vector3::Y() > Vector3::Z());
    assert!(Vector3::X() > sum(Vector3::Y(), Vector3::Z()));
    assert_eq!(Vector3::X(), Vector3::X());
    assert!(Vector3::X() < sum(Vector3::X(), Vector3::Y()));
    assert!(sum(Vector3::X(), Vector3::Y()) < sum(sum(Vector3::X(), Vector3::Y()), Vector3::Z()));
}

#[test]
fn vectors_with_a_component_that_is_not_a_number_are_not_ordered() {
    let a = v(1.0, f32::NAN, 0.0);
    let b = v(1.0, 2.0, 0.0);
    assert_eq!(a.partial_cmp(&b), None);
    assert!(!(a < b) && !(a > b) && a != b && a != a);
    assert!(v(0.0, f32::NAN, 0.0) < b);
    let arrays = ([1.0, f32::NAN, 0.0], [1.0, 2.0, 0.0]);
    assert_eq!(arrays.0.partial_cmp(&arrays.1), a.partial_cmp(&b));
}

#[test]
fn zeros_of_either_sign_are_equal() {
    assert_eq!(v(0.0, -0.0, 0.0), Vector3::ZERO());
    assert_eq!(Vector3::default(), Vector3::ZERO());
}

#[test]
fn named_vectors_hold_ones_and_zeros() {
    assert_eq!(arr(Vector3::X()), [1.0, 0.0, 0.0]);
    assert_eq!(arr(Vector3::Y()), [0.0, 1.0, 0.0]);
    assert_eq!(arr(Vector3::Z()), [0.0, 0.0, 1.0]);
    assert_eq!(arr(Vector3::ONE()), [1.0, 1.0, 1.0]);
    assert_eq!(arr(Vector3::ZERO()), [0.0, 0.0, 0.0]);
}

#[test]
fn negation_flips_every_sign() {
    let flipped = -v(1.5, -2.0, 0.0);
    assert_eq!(arr(flipped), [-1.5, 2.0, 0.0]);
    assert!(f32::from_bits(flipped.z.to_bits()).is_sign_negative());
    assert_eq!(flipped.negated().x.to_bits(), 1.5f32.to_bits());
}

#[test]
fn integer_vectors_add_subtract_and_scale() {
    let a = Vector3Int::new(1, -2, 3);
    let b = Vector3Int::new(10, 20, 30);
    assert_eq!(a + b, Vector3Int::new(11, 18, 33));
    assert_eq!(b - a, Vector3Int::new(9, 22, 27));
    assert_eq!(a * 4, Vector3Int::new(4, -8, 12));
    let mut c = b;
    c.sub_assign(a);
    assert_eq!(c, Vector3Int::new(9, 22, 27));
}

#[test]
fn integer_vectors_convert_to_and_from_arrays() {
    let array: [i32; 3] = Vector3Int::new(4, 5, 6).into();
    assert_eq!(array, [4, 5, 6]);
    assert_eq!(Vector3Int::from([7, 8, 9]), Vector3Int::new(7, 8, 9));
    assert_eq!(Vector3Int::X(), Vector3Int::new(1, 0, 0));
    assert_eq!(Vector3Int::Y(), Vector3Int::new(0, 1, 0));
    assert_eq!(Vector3Int::Z(), Vector3Int::new(0, 0, 1));
    assert_eq!(Vector3Int::ONE(), Vector3Int::new(1, 1, 1));
    assert_eq!(Vector3Int::ZERO(), Vector3Int::default());
}

fn difference(a: Vector3, b: Vector3) -> Vector3 {
    let (a, b) = (arr(a), arr(b));
    v(a[0] - b[0], a[1] - b[1], a[2] - b[2])
}

#[test]
fn any_two_vectors_are_put_in_order_by_their_difference() {
    let order = |a: Vector3, b: Vector3| Vector3::cmp_difference(difference(a, b));
    assert_eq!(order(v(1.0, 0.0, 0.0), v(0.0, 9.0, 9.0)), Ordering::Greater);
    assert_eq!(order(v(1.0, 0.0, 0.0), v(1.0, 0.0, 0.5)), Ordering::Less);
    assert_eq!(order(v(1.0, 2.0, 3.0), v(1.0, 2.0, 3.0)), Ordering::Equal);
    assert_eq!(order(v(1.0, 1.0e-37, 3.0), v(1.0, 0.0, 3.0)), Ordering::Equal);
    assert_eq!(order(v(1.0, 1.0e-35, 3.0), v(1.0, 0.0, 3.0)), Ordering::Greater);
    assert_eq!(order(v(f32::NAN, 2.0, 0.0), v(1.0, 1.0, 0.0)), Ordering::Greater);
}
