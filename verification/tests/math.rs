use pbrt::math::{coordinate_system, Clamp, Scalar, TangentPlane, Vector};

fn s(x: f64) -> Scalar {
    Scalar::from_bits(x.to_bits())
}

fn f(x: Scalar) -> f64 {
    f64::from_bits(x.to_bits())
}

#[test]
fn test_clamp_min_f64() {
    let x = -f(s(2.0).clamp(s(-1.0), s(1.0)));
    assert_eq!(x, -1.0);
}

#[test]
fn test_clamp_max_f64() {
    let x = f(s(2.0).clamp(s(-1.0), s(1.0)));
    assert_eq!(x, 1.0);
}

#[test]
fn clamp_below_the_interval_gives_the_lower_bound() {
    assert_eq!(f(s(-2.0).clamp(s(-1.0), s(1.0))), -1.0);
    assert_eq!(f(s(0.25).clamp(s(-1.0), s(1.0))), 0.25);
}

#[test]
fn order_agrees_with_the_numbers() {
    let samples = [
        f64::NEG_INFINITY,
        -f64::MAX,
        -1.5,
        -1.0,
        -f64::MIN_POSITIVE,
        -5e-324,
        -0.0,
        0.0,
        5e-324,
        f64::MIN_POSITIVE,
        0.5,
        1.0,
        1.5,
        f64::MAX,
        f64::INFINITY,
        f64::NAN,
    ];
    for &a in samples.iter() {
        assert_eq!(s(a).is_nan(), a.is_nan());
        assert_eq!(s(a).is_zero(), a == 0.0);
        assert_eq!(s(a).is_sign_negative(), a.is_sign_negative());
        assert_eq!(f(s(a).neg()).to_bits(), (-a).to_bits());
        assert_eq!(f(s(a).abs()).to_bits(), a.abs().to_bits());
        for &b in samples.iter() {
            assert_eq!(s(a).lt(s(b)), a < b, "{} < {}", a, b);
            assert_eq!(s(a).le(s(b)), a <= b, "{} <= {}", a, b);
            assert_eq!(s(a).gt(s(b)), a > b, "{} > {}", a, b);
            assert_eq!(s(a).ge(s(b)), a >= b, "{} >= {}", a, b);
            assert_eq!(s(a).equals(s(b)), a == b, "{} == {}", a, b);
        }
    }
}

#[test]
fn min_and_max_skip_a_nan() {
    assert_eq!(f(s(0.5).min(s(0.25))), 0.25);
    assert_eq!(f(s(0.5).min(s(0.75))), 0.5);
    assert_eq!(f(s(0.5).min(s(f64::NAN))), 0.5);
    assert_eq!(f(s(f64::NAN).min(s(0.25))), 0.25);
    assert_eq!(f(s(0.0).max(s(-3.0))), 0.0);
    assert_eq!(f(s(0.0).max(s(3.0))), 3.0);
    assert_eq!(f(s(0.0).max(s(f64::NAN))), 0.0);
}

#[test]
fn constants_are_the_numbers_they_stand_for() {
    assert_eq!(f(Scalar::zero()), 0.0);
    assert_eq!(f(Scalar::half()), 0.5);
    assert_eq!(f(Scalar::one()), 1.0);
    assert_eq!(f(Scalar::max_value()), f64::MAX);
    assert_eq!(f(Scalar::from_bits(pbrt::math::ONE_AND_HALF_BITS)), 1.5);
    assert_eq!(pbrt::math::INFINITY_BITS, f64::INFINITY.to_bits());
}

#[test]
fn a_vector_is_zero_when_every_component_is() {
    assert!(Vector::zero().is_zero());
    assert!(Vector::new(s(0.0), s(-0.0), s(0.0)).is_zero());
    assert!(!Vector::new(s(0.0), s(1e-300), s(0.0)).is_zero());
    assert!(!Vector::new(s(f64::NAN), s(0.0), s(0.0)).is_zero());
    let v = Vector::new(s(1.0), s(-2.0), s(0.0)).neg();
    assert_eq!((f(v.x), f(v.y), f(v.z).to_bits()), (-1.0, 2.0, (-0.0f64).to_bits()));
}

#[test]
fn test_unit_y() {
    // The frame of the unit vector along y is built in the plane of the y
    // and the z axis, where the vector has its length.
    let vy = Vector::new(s(0.0), s(1.0), s(0.0));
    assert_eq!(coordinate_system(&vy), TangentPlane::Yz);
    // From there the first vector of the frame is (0, z, -y) over the length
    // of (y, z), which is along -z, and the second the cross product of the
    // vector with it, which is along -x.
    let invlen = 1.0 / (f(vy.y) * f(vy.y) + f(vy.z) * f(vy.z)).sqrt();
    let vz = (0.0, f(vy.z) * invlen, -f(vy.y) * invlen);
    let vx = (
        f(vy.y) * vz.2 - f(vy.z) * vz.1,
        f(vy.z) * vz.0 - f(vy.x) * vz.2,
        f(vy.x) * vz.1 - f(vy.y) * vz.0,
    );
    assert!((vx.0 + 1.0).abs() < 1e-12 && vx.1.abs() < 1e-12 && vx.2.abs() < 1e-12);
    assert!(vz.0.abs() < 1e-12 && vz.1.abs() < 1e-12 && (vz.2 + 1.0).abs() < 1e-12);
}
