use gpui_platform::float::{scalar, Scalar};

fn f(value: f32) -> Scalar {
    scalar(value.to_bits())
}

const SAMPLES: [f32; 14] = [
    f32::NEG_INFINITY,
    f32::MIN,
    -90.0,
    -1.0,
    -f32::MIN_POSITIVE,
    -0.0,
    0.0,
    1e-45,
    f32::MIN_POSITIVE,
    0.5,
    1.0,
    8.0,
    f32::MAX,
    f32::INFINITY,
];

#[test]
fn whole_numbers_convert_exactly() {
    for value in [-91i32, -90, -45, -1, 0, 1, 2, 3, 30, 90, 91, 0xff_ffff, -0xff_ffff] {
        let converted = Scalar::from_int(value);
        assert_eq!(converted, f(value as f32));
    }
}

#[test]
fn numbers_order_as_numbers_do() {
    for a in SAMPLES {
        for b in SAMPLES {
            assert_eq!(f(a).less(f(b)), a < b, "{a} < {b}");
            assert_eq!(f(a).less_or_equal(f(b)), a <= b, "{a} <= {b}");
            assert_eq!(f(a).equal(f(b)), a == b, "{a} == {b}");
        }
        assert!(!f(a).less(f(f32::NAN)));
        assert!(!f(f32::NAN).less_or_equal(f(a)));
    }
    assert!(!f(f32::NAN).equal(f(f32::NAN)));
}

#[test]
fn signs_and_kinds_of_numbers() {
    for a in SAMPLES {
        assert_eq!(f(a).negate(), f(-a));
        assert_eq!(f(a).abs(), f(a.abs()));
        assert_eq!(f(a).finite(), a.is_finite());
        assert!(!f(a).nan());
    }
    assert!(f(f32::NAN).nan());
    assert!(!f(f32::NAN).finite());
}

#[test]
fn numbers_are_kept_within_bounds() {
    for a in SAMPLES {
        assert_eq!(f(a).clamp_unit(), f(a.clamp(0.0, 1.0)));
        assert_eq!(f(a).max_one(), f(a.max(1.0)));
    }
    assert!(f(f32::NAN).clamp_unit().nan());
    assert_eq!(f(f32::NAN).max_one(), f(1.0));
}
