use rust_maths::{Matrix2, Matrix3, Matrix4, Scalar, Vector2, Vector3, Vector4};

fn s(value: f32) -> Scalar {
    Scalar::from_bits(value.to_bits())
}

fn f(value: Scalar) -> f32 {
    f32::from_bits(value.to_bits())
}

fn v2(x: f32, y: f32) -> Vector2 {
    Vector2::new(s(x), s(y))
}

fn v3(x: f32, y: f32, z: f32) -> Vector3 {
    Vector3::new(s(x), s(y), s(z))
}

fn v4(x: f32, y: f32, z: f32, w: f32) -> Vector4 {
    Vector4::new(s(x), s(y), s(z), s(w))
}

fn m3(e: [f32; 9]) -> Matrix3 {
    Matrix3::new(s(e[0]), s(e[1]), s(e[2]), s(e[3]), s(e[4]), s(e[5]), s(e[6]), s(e[7]), s(e[8]))
}

fn m4(e: [f32; 16]) -> Matrix4 {
    Matrix4::from_rows(
        v4(e[0], e[1], e[2], e[3]),
        v4(e[4], e[5], e[6], e[7]),
        v4(e[8], e[9], e[10], e[11]),
        v4(e[12], e[13], e[14], e[15]),
    )
}

fn counting() -> Matrix4 {
    m4([
        0.0, 1.0, 2.0, 3.0, 10.0, 11.0, 12.0, 13.0, 20.0, 21.0, 22.0, 23.0, 30.0, 31.0, 32.0,
        33.0,
    ])
}

#[test]
fn from_rows_test() {
    let r0 = v3(3.0, 4.0, 6.0);
    let r1 = v3(7.0, 8.0, 9.0);
    let r2 = v3(2.0, 1.0, 3.0);

    assert_eq!(
        Matrix3::from_rows(r0, r1, r2),
        m3([3.0, 4.0, 6.0, 7.0, 8.0, 9.0, 2.0, 1.0, 3.0])
    )
}

#[test]
fn from_columns_test() {
    let c0 = v3(3.0, 7.0, 2.0);
    let c1 = v3(4.0, 8.0, 1.0);
    let c2 = v3(6.0, 9.0, 3.0);

    assert_eq!(
        Matrix3::from_columns(c0, c1, c2),
        m3([3.0, 4.0, 6.0, 7.0, 8.0, 9.0, 2.0, 1.0, 3.0])
    )
}

#[test]
fn columns_and_transpose_read_down_the_rows() {
    let m = m3([1.0, 2.0, 3.0, 4.0, 5.0, 6.0, 7.0, 8.0, 9.0]);
    assert_eq!(m.c0(), v3(1.0, 4.0, 7.0));
    assert_eq!(m.c1(), v3(2.0, 5.0, 8.0));
    assert_eq!(m.c2(), v3(3.0, 6.0, 9.0));
    assert_eq!(m.transposed(), m3([1.0, 4.0, 7.0, 2.0, 5.0, 8.0, 3.0, 6.0, 9.0]));
    assert_eq!(m.transposed().transposed(), m);
    let two = Matrix2::new(s(1.0), s(2.0), s(3.0), s(4.0));
    assert_eq!(two.c0(), v2(1.0, 3.0));
    assert_eq!(two.c1(), v2(2.0, 4.0));
    assert_eq!(two, Matrix2::from_rows(v2(1.0, 2.0), v2(3.0, 4.0)));
    assert_eq!(two.transposed(), Matrix2::new(s(1.0), s(3.0), s(2.0), s(4.0)));
    let four = counting();
    assert_eq!(four.c0(), v4(0.0, 10.0, 20.0, 30.0));
    assert_eq!(four.c3(), v4(3.0, 13.0, 23.0, 33.0));
    assert_eq!(four.c1().y.to_bits(), 11.0f32.to_bits());
    assert_eq!(four.c2(), four.transposed().z);
    let mut turned = four;
    turned.transpose();
    assert_eq!(turned, four.transposed());
    assert_eq!(turned.x, v4(0.0, 10.0, 20.0, 30.0));
}

#[test]
fn identity_and_scale_sit_on_the_diagonal() {
    assert_eq!(Matrix3::IDENTITY(), m3([1.0, 0.0, 0.0, 0.0, 1.0, 0.0, 0.0, 0.0, 1.0]));
    assert_eq!(Matrix3::from_scale(s(2.5)), m3([2.5, 0.0, 0.0, 0.0, 2.5, 0.0, 0.0, 0.0, 2.5]));
    assert_eq!(Matrix2::IDENTITY(), Matrix2::from_rows(Vector2::X(), Vector2::Y()));
    assert_eq!(Matrix4::IDENTITY().w, Vector4::W());
    assert_eq!(Matrix4::IDENTITY().y, v4(0.0, 1.0, 0.0, 0.0));
    assert_eq!(Matrix3::ONE().y, Vector3::ONE());
    assert_eq!(f(Matrix2::EPSILON().x.y), f32::EPSILON);
    assert_eq!(Matrix4::default().z, Vector4::ZERO());
}

#[test]
fn matrices_grow_and_shrink_by_a_row_and_a_column() {
    let m = m3([1.0, 2.0, 3.0, 4.0, 5.0, 6.0, 7.0, 8.0, 9.0]);
    assert_eq!(
        m.extend(),
        m4([1.0, 2.0, 3.0, 0.0, 4.0, 5.0, 6.0, 0.0, 7.0, 8.0, 9.0, 0.0, 0.0, 0.0, 0.0, 1.0])
    );
    assert_eq!(m.extend().truncate(), m);
    assert_eq!(m.truncate(), Matrix2::new(s(1.0), s(2.0), s(4.0), s(5.0)));
}

#[test]
fn minors_strike_out_a_row_and_a_column() {
    let four = counting();
    assert_eq!(four.minor(0, 0), m3([11.0, 12.0, 13.0, 21.0, 22.0, 23.0, 31.0, 32.0, 33.0]));
    assert_eq!(four.minor(1, 2), m3([0.0, 1.0, 3.0, 20.0, 21.0, 23.0, 30.0, 31.0, 33.0]));
    assert_eq!(four.minor(3, 3), m3([0.0, 1.0, 2.0, 10.0, 11.0, 12.0, 20.0, 21.0, 22.0]));
    assert_eq!(four.cofactor_minor(1, 2), four.minor(2, 1));
    assert_eq!(
        four.cofactor_minor(0, 3),
        Matrix3::from_columns(
            four.transposed().y.truncate_n(3),
            four.transposed().z.truncate_n(3),
            four.transposed().w.truncate_n(3)
        )
    );
    assert!(!Matrix4::cofactor_is_negative(0, 0));
    assert!(Matrix4::cofactor_is_negative(0, 1));
    assert!(Matrix4::cofactor_is_negative(3, 2));
    assert!(!Matrix4::cofactor_is_negative(3, 3));
}

#[test]
fn vectors_give_up_and_take_on_components() {
    let v = v4(1.0, 2.0, 3.0, 4.0);
    assert_eq!(v.truncate(), v3(1.0, 2.0, 3.0));
    assert_eq!(v.truncate_n(0), v3(2.0, 3.0, 4.0));
    assert_eq!(v.truncate_n(1), v3(1.0, 3.0, 4.0));
    assert_eq!(v.truncate_n(2), v3(1.0, 2.0, 4.0));
    assert_eq!(v.truncate_n(3), v3(1.0, 2.0, 3.0));
    assert_eq!((v.xy(), v.xz(), v.yz()), (v2(1.0, 2.0), v2(1.0, 3.0), v2(2.0, 3.0)));
    let w = v3(5.0, 6.0, 7.0);
    assert_eq!((w.xy(), w.xz(), w.yz()), (v2(5.0, 6.0), v2(5.0, 7.0), v2(6.0, 7.0)));
    assert_eq!(w.truncate(), v2(5.0, 6.0));
    assert_eq!(w.extend(), v4(5.0, 6.0, 7.0, 0.0));
    assert_eq!(v2(8.0, 9.0).extend(), v3(8.0, 9.0, 0.0));
    let array: [Scalar; 3] = w.into();
    assert_eq!(Vector3::from(array), w);
    assert_eq!(Vector4::from([s(1.0), s(2.0), s(3.0), s(4.0)]), v);
    let pair: [Scalar; 2] = v2(8.0, 9.0).into();
    assert_eq!(f(pair[1]), 9.0);
}

#[test]
fn skew_symmetric_rows_hold_the_components_crosswise() {
    let rows = v3(1.0, 2.0, 3.0).skew_symmetric();
    assert_eq!(rows[0], v3(0.0, -3.0, 2.0));
    assert_eq!(rows[1], v3(3.0, 0.0, -1.0));
    assert_eq!(rows[2], v3(-2.0, 1.0, 0.0));
}

#[test]
fn matrices_are_ordered_row_by_row() {
    let low = m3([1.0, 2.0, 3.0, 4.0, 5.0, 6.0, 7.0, 8.0, 9.0]);
    let high = m3([1.0, 2.0, 3.0, 4.0, 5.5, 0.0, 0.0, 0.0, 0.0]);
    assert!(low < high && high > low && low <= low);
    let plain = ([[1.0f32, 2.0, 3.0], [4.0, 5.0, 6.0]], [[1.0f32, 2.0, 3.0], [4.0, 5.5, 0.0]]);
    assert_eq!(low.partial_cmp(&high), plain.0.partial_cmp(&plain.1));
    assert!(v2(1.0, 5.0) < v2(2.0, 0.0));
    assert!(v4(1.0, 1.0, 1.0, 2.0) > v4(1.0, 1.0, 1.0, 1.0));
    assert_eq!(-v4(1.0, -2.0, 3.0, -4.0), v4(-1.0, 2.0, -3.0, 4.0));
}
