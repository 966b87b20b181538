use rust_maths::Scalar;

fn s(value: f32) -> Scalar {
    Scalar::from_bits(value.to_bits())
}

#[test]
fn less_than_agrees_with_hardware() {
    let samples: [f32; 12] = [
        0.0,
        -0.0,
        1.0,
        -1.0,
        2.5,
        -2.5,
        f32::MIN_POSITIVE,
        1.0e-45,
        f32::MAX,
        f32::INFINITY,
        f32::NEG_INFINITY,
        f32::NAN,
    ];
    for a in samples {
        for b in samples {
            assert_eq!(s(a).less_than(s(b)), a < b);
            assert_eq!(s(a).at_most(s(b)), a <= b);
            assert_eq!(s(a).greater_than(s(b)), a > b);
            assert_eq!(s(a).at_least(s(b)), a >= b);
            assert_eq!(s(a).equals(s(b)), a == b);
            assert_eq!(s(a) == s(b), a == b);
            assert_eq!(s(a).partial_cmp(&s(b)), a.partial_cmp(&b));
        }
    }
}

#[test]
fn comparisons_agree_with_hardware_on_scattered_bit_patterns() {
    let mut seed: u64 = 0x2545_f491_4f6c_dd1d;
    let mut next = || {
        seed ^= seed << 13;
        seed ^= seed >> 7;
        seed ^= seed << 17;
        (seed >> 16) as u32
    };
    for round in 0..200_000 {
        let a_bits = next();
        // every fourth pair differs in the low bits only
        let b_bits = if round % 4 == 0 { a_bits ^ (next() & 3) } else { next() };
        let (a, b) = (f32::from_bits(a_bits), f32::from_bits(b_bits));
        let (x, y) = (Scalar::from_bits(a_bits), Scalar::from_bits(b_bits));
        assert_eq!(x.less_than(y), a < b);
        assert_eq!(x.at_most(y), a <= b);
        assert_eq!(x.greater_than(y), a > b);
        assert_eq!(x.at_least(y), a >= b);
        assert_eq!(x.equals(y), a == b);
        assert_eq!(x.partial_cmp(&y), a.partial_cmp(&b));
        assert_eq!(x.is_nan(), a.is_nan());
        assert_eq!(x.negated().to_bits(), (-a).to_bits());
        assert_eq!(x.abs().to_bits(), a.abs().to_bits());
        if !(a.is_nan() && b.is_nan()) && a != b {
            assert_eq!(x.min(y).to_bits(), a.min(b).to_bits());
            assert_eq!(x.max(y).to_bits(), a.max(b).to_bits());
        }
    }
}
