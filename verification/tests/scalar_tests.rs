use mapgen::scalar::Scalar;

fn s(v: f32) -> Scalar {
    Scalar::from_bits(v.to_bits())
}

fn samples() -> Vec<f32> {
    vec![
        0.0,
        -0.0,
        1.0,
        -1.0,
        0.5,
        -0.5,
        -0.2,
        0.85,
        1.35,
        3.0,
        128.0,
        -128.0,
        f32::MIN_POSITIVE,
        -f32::MIN_POSITIVE,
        f32::from_bits(1),
        f32::from_bits(0x8000_0001),
        f32::from_bits(0x007F_FFFF),
        f32::MAX,
        f32::MIN,
        f32::INFINITY,
        f32::NEG_INFINITY,
        f32::NAN,
        f32::from_bits(0xFFC0_0000),
        f32::from_bits(0x7F80_0001),
        f32::EPSILON,
        1.0 + f32::EPSILON,
        16777216.0,
        16777218.0,
    ]
}

#[test]
fn bits_round_trip() {
    for v in samples() {
        assert_eq!(s(v).to_bits(), v.to_bits());
        assert_eq!(s(v).bits, v.to_bits());
    }
}

#[test]
fn gt_agrees_with_the_numbers() {
    for a in samples() {
        for b in samples() {
            assert_eq!(s(a).gt(s(b)), a > b);
        }
    }
}

#[test]
fn lt_agrees_with_the_numbers() {
    for a in samples() {
        for b in samples() {
            assert_eq!(s(a).lt(s(b)), a < b);
        }
    }
}

#[test]
fn is_nan_agrees_with_the_numbers() {
    for a in samples() {
        assert_eq!(s(a).is_nan(), a.is_nan());
    }
}

#[test]
fn zeros_are_equal() {
    assert!(!s(0.0).gt(s(-0.0)));
    assert!(!s(-0.0).gt(s(0.0)));
    assert!(!s(0.0).lt(s(-0.0)));
}

#[test]
fn nothing_is_greater_than_not_a_number() {
    assert!(!s(f32::INFINITY).gt(s(f32::NAN)));
    assert!(!s(f32::NAN).gt(s(f32::NEG_INFINITY)));
    assert!(!s(f32::NAN).gt(s(f32::NAN)));
}

#[test]
fn gt_sweeps_a_dense_range() {
    let mut prev = f32::from_bits(0x3F00_0000);
    for bits in 0x3F00_0001u32..0x3F00_0400 {
        let next = f32::from_bits(bits);
        assert!(s(next).gt(s(prev)));
        assert!(s(-prev).gt(s(-next)));
        assert!(!s(prev).gt(s(next)));
        prev = next;
    }
}
