use pbrt::light::{DirectionalLight, Light, PointLight};
use pbrt::math::{Point, Scalar, Vector};

fn s(x: f64) -> Scalar {
    Scalar::from_bits(x.to_bits())
}

fn f(x: Scalar) -> f64 {
    f64::from_bits(x.to_bits())
}

fn v(x: f64, y: f64, z: f64) -> Vector {
    Vector::new(s(x), s(y), s(z))
}

fn t(x: Vector) -> (f64, f64, f64) {
    (f(x.x), f(x.y), f(x.z))
}

fn lamp() -> PointLight {
    PointLight::new(s(2.0), v(1.0, 0.5, 0.25), Point::new(s(0.0), s(4.0), s(0.0)), s(5.0))
}

#[test]
fn a_point_light_keeps_what_it_was_made_of() {
    let l = lamp();
    assert_eq!(f(l.intensity()), 2.0);
    assert_eq!(t(*l.colour()), (1.0, 0.5, 0.25));
    assert_eq!((f(l.position().x), f(l.position().y), f(l.position().z)), (0.0, 4.0, 0.0));
    assert_eq!(f(l.radius()), 5.0);
    assert!(l.is_delta());
}

#[test]
fn a_point_light_reaches_as_far_as_its_radius() {
    let l = lamp();
    let wi = v(0.0, 1.0, 0.0);
    // At distance 4 from a light of radius 5 and intensity 2, the colour is
    // scaled by 2 * 5 / 16.
    let attenuated = v(0.625, 0.3125, 0.15625);
    let (li, w) = l.sample(s(16.0), s(25.0), attenuated, wi);
    assert_eq!(t(li), (0.625, 0.3125, 0.15625));
    assert_eq!(t(w), (0.0, 1.0, 0.0));
    // On the radius the light still arrives, beyond it nothing does.
    let (li, _) = l.sample(s(25.0), s(25.0), attenuated, wi);
    assert_eq!(t(li), (0.625, 0.3125, 0.15625));
    let (li, w) = l.sample(s(25.000001), s(25.0), attenuated, wi);
    assert_eq!(t(li), (0.0, 0.0, 0.0));
    assert_eq!(t(w), (0.0, 1.0, 0.0));
    // Nor does any at the light's own position.
    let (li, _) = l.sample(s(0.0), s(25.0), attenuated, wi);
    assert_eq!(t(li), (0.0, 0.0, 0.0));
    let (li, _) = l.sample(s(f64::NAN), s(25.0), attenuated, wi);
    assert_eq!(t(li), (0.0, 0.0, 0.0));
}

#[test]
fn a_point_lies_in_shadow_behind_a_nearer_hit() {
    let l = lamp();
    assert!(l.shadow(&vec![s(6.0), s(3.5)], s(4.0)));
    assert!(!l.shadow(&vec![s(6.0), s(4.0)], s(4.0)));
    assert!(!l.shadow(&Vec::new(), s(4.0)));
    assert!(!l.shadow(&vec![s(f64::NAN)], s(4.0)));
    let p = Point::new(s(0.0), s(0.0), s(0.0));
    assert!(Light::Point(l).shadow(&p, &vec![s(1.0)], s(4.0)));
    assert!(!Light::Point(l).shadow(&p, &vec![s(5.0)], s(4.0)));
}

#[test]
fn a_directional_light_is_the_same_everywhere() {
    let sun = DirectionalLight::new(v(1.0, 0.9, 0.8), v(0.0, -1.0, 0.0));
    let (li, wi) = sun.sample(&Point::new(s(3.0), s(-2.0), s(1.0)));
    assert_eq!(t(li), (1.0, 0.9, 0.8));
    assert_eq!((f(wi.x).to_bits(), f(wi.y), f(wi.z).to_bits()), ((-0.0f64).to_bits(), 1.0, (-0.0f64).to_bits()));
    assert!(sun.is_delta());
    assert_eq!(t(sun.direction()), (0.0, -1.0, 0.0));
    assert_eq!(t(*sun.colour()), (1.0, 0.9, 0.8));
}

#[test]
fn a_directional_light_casts_no_shadow() {
    let sun = DirectionalLight::new(v(1.0, 0.9, 0.8), v(0.0, -1.0, 0.0));
    let p = Point::new(s(0.0), s(0.0), s(0.0));
    assert!(!sun.shadow(&p));
    assert!(!Light::Directional(sun).shadow(&p, &vec![s(0.5)], s(4.0)));
}

#[test]
fn a_light_is_not_seen_itself() {
    let sun = Light::Directional(DirectionalLight::new(v(1.0, 0.9, 0.8), v(0.0, -1.0, 0.0)));
    assert_eq!(t(sun.emitted(&v(0.0, 1.0, 0.0))), (0.0, 0.0, 0.0));
    assert_eq!(t(Light::Point(lamp()).emitted(&v(0.0, 1.0, 0.0))), (0.0, 0.0, 0.0));
    assert!(sun.is_delta());
    assert!(Light::Point(lamp()).is_delta());
    assert_eq!(t(*sun.colour()), (1.0, 0.9, 0.8));
    assert_eq!(t(*Light::Point(lamp()).colour()), (1.0, 0.5, 0.25));
}
