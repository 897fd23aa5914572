use pbrt::math::{Scalar, Vector};
use pbrt::parse::{parse_transform, Transform};

fn s(x: f64) -> Scalar {
    Scalar::from_bits(x.to_bits())
}

fn t(x: Vector) -> (f64, f64, f64) {
    (f64::from_bits(x.x.to_bits()), f64::from_bits(x.y.to_bits()), f64::from_bits(x.z.to_bits()))
}

fn described(text: &str) -> Transform {
    parse_transform(&serde_json::from_str(text).unwrap()).unwrap()
}

#[test]
fn test_rotate() {
    let transform = described(r#"{"position": [0, 2, 1], "rotation": [0, 0, 1.5]}"#);
    assert_eq!(t(transform.rotation), (0.0, 0.0, 1.5));
    assert_eq!(t(transform.position), (0.0, 2.0, 1.0));
}

#[test]
fn test_rotate_mut() {
    let mut transform = described(r#"{"position": [0, 2, 1]}"#);
    assert_eq!(t(transform.rotation), (0.0, 0.0, 0.0));
    transform.rotation = Vector::new(s(0.0), s(0.0), s(1.5));
    assert_eq!(t(transform.rotation), (0.0, 0.0, 1.5));
    assert_eq!(t(transform.position), (0.0, 2.0, 1.0));
}
