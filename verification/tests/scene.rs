use pbrt::bxdf::BxDF;
use pbrt::light::{DirectionalLight, Light, PointLight};
use pbrt::material::{DiffuseMaterial, GlassMaterial, Material, MirrorMaterial};
use pbrt::math::{Point, Scalar, Vector};
use pbrt::scene::{Hit, Intersection, Scene, SceneNode};
use pbrt::texture::{ConstantTexture, Texture};

fn s(x: f64) -> Scalar {
    Scalar::from_bits(x.to_bits())
}

fn f(x: Scalar) -> f64 {
    f64::from_bits(x.to_bits())
}

fn v(x: f64, y: f64, z: f64) -> Vector {
    Vector::new(s(x), s(y), s(z))
}

fn t(x: Vector) -> (f64, f64, f64) {
    (f(x.x), f(x.y), f(x.z))
}

fn hit(node: usize, toi: f64) -> Option<Hit> {
    Some(Hit { node, toi: s(toi), normal: v(0.0, 1.0, 0.0), uvs: None })
}

fn three_objects() -> Scene {
    Scene::new(vec![
        SceneNode::new(Material::Glass(GlassMaterial)),
        SceneNode::new(Material::Mirror(MirrorMaterial)),
        SceneNode::new(Material::Diffuse(DiffuseMaterial::new(Texture::Constant(
            ConstantTexture::new(v(0.5, 0.25, 0.125)),
        )))),
    ])
}

#[test]
fn a_ray_sees_nothing_in_an_empty_scene() {
    let scene = Scene::new(Vec::new());
    assert_eq!(scene.len(), 0);
    assert_eq!(scene.trace(&Vec::new(), s(0.0)), None);
    assert_eq!(scene.trace(&vec![hit(0, 1.0), hit(1, 2.0)], s(0.0)), None);
    assert!(scene.node(0).is_none());
}

#[test]
fn a_ray_sees_the_nearest_hit_in_front_of_it() {
    let scene = three_objects();
    assert_eq!(scene.trace(&vec![hit(0, 3.0), hit(1, 1.5), hit(2, 2.0)], s(0.0)), Some(1));
    assert_eq!(scene.trace(&vec![hit(0, 3.0), None, hit(2, 2.0)], s(0.0)), Some(2));
    assert_eq!(scene.trace(&vec![hit(2, 0.25)], s(0.0)), Some(0));
    assert_eq!(scene.trace(&vec![None, None], s(0.0)), None);
}

#[test]
fn a_ray_does_not_see_the_surface_that_it_starts_on() {
    let scene = three_objects();
    assert_eq!(scene.trace(&vec![hit(0, 0.0), hit(1, 4.0)], s(0.0)), Some(1));
    assert_eq!(scene.trace(&vec![hit(0, -0.0), hit(1, -1e-12)], s(0.0)), None);
    assert_eq!(scene.trace(&vec![hit(0, -3.0), hit(1, 1e-300)], s(0.0)), Some(1));
}

#[test]
fn a_ray_does_not_see_what_is_no_farther_than_the_threshold() {
    let scene = three_objects();
    let t_min = pbrt::ray::Ray::offset();
    assert_eq!(f(t_min), 0.000000000001);
    assert_eq!(scene.trace(&vec![hit(0, 1e-12), hit(1, 4.0)], t_min), Some(1));
    assert_eq!(scene.trace(&vec![hit(0, 1e-13), hit(1, 4.0)], t_min), Some(1));
    assert_eq!(scene.trace(&vec![hit(0, 1.1e-12), hit(1, 4.0)], t_min), Some(0));
    assert_eq!(scene.trace(&vec![hit(0, 1e-13), hit(1, 4.0)], s(0.0)), Some(0));
    assert_eq!(scene.trace(&vec![hit(0, 1.0), hit(1, 4.0)], s(2.0)), Some(1));
    assert_eq!(scene.trace(&vec![hit(0, 1.0), hit(1, 4.0)], s(f64::NAN)), None);
}

#[test]
fn of_two_hits_at_one_distance_the_first_is_seen() {
    let scene = three_objects();
    assert_eq!(scene.trace(&vec![hit(0, 2.0), hit(1, 2.0), hit(2, 2.0)], s(0.0)), Some(0));
    assert_eq!(scene.trace(&vec![hit(0, 5.0), hit(1, 2.0), hit(2, 2.0)], s(0.0)), Some(1));
}

#[test]
fn hits_that_are_not_numbers_or_not_finite_are_not_seen() {
    let scene = three_objects();
    assert_eq!(scene.trace(&vec![hit(0, f64::NAN), hit(1, f64::INFINITY), hit(2, f64::MAX)], s(0.0)), None);
    assert_eq!(scene.trace(&vec![hit(0, f64::NAN), hit(1, 7.0)], s(0.0)), Some(1));
    assert_eq!(scene.trace(&vec![hit(0, 1.0e308)], s(0.0)), Some(0));
}

#[test]
fn hits_on_objects_that_the_scene_lacks_are_not_seen() {
    let scene = three_objects();
    assert_eq!(scene.trace(&vec![hit(3, 1.0), hit(2, 2.0)], s(0.0)), Some(1));
    assert_eq!(scene.trace(&vec![hit(usize::MAX, 1.0)], s(0.0)), None);
    let stray = Hit { node: 3, toi: s(1.0), normal: v(0.0, 1.0, 0.0), uvs: None };
    assert!(scene.intersection(&stray, Point::new(s(0.0), s(0.0), s(0.0)), v(0.0, 0.0, 0.0)).is_none());
}

#[test]
fn the_distances_in_front_of_a_ray_are_kept_in_order() {
    let scene = three_objects();
    let tois = vec![Some(s(2.0)), None, Some(s(-1.0)), Some(s(0.0)), Some(s(0.5)), Some(s(f64::NAN))];
    let kept: Vec<f64> = scene.intersections(&tois).into_iter().map(f).collect();
    assert_eq!(kept, vec![2.0, 0.5]);
    assert!(scene.intersects(&tois));
    assert!(!scene.intersects(&vec![None, Some(s(0.0)), Some(s(-4.0))]));
    assert!(!scene.intersects(&Vec::new()));
    assert!(scene.intersections(&Vec::new()).is_empty());
}

#[test]
fn an_intersection_carries_the_scattering_function_of_the_material() {
    let scene = three_objects();
    let p = Point::new(s(1.0), s(2.0), s(3.0));
    let n = v(0.0, 0.0, 1.0);
    let at = |node: usize| Hit { node, toi: s(1.0), normal: n, uvs: Some((s(0.5), s(0.5))) };

    let glass = scene.intersection(&at(0), p, v(0.9, 0.9, 0.9)).unwrap();
    assert_eq!((f(glass.point.x), f(glass.point.y), f(glass.point.z)), (1.0, 2.0, 3.0));
    assert_eq!(t(glass.normal), (0.0, 0.0, 1.0));
    assert_eq!(t(glass.bsdf.normal()), (0.0, 0.0, 1.0));
    assert_eq!(glass.bsdf.len(), 2);
    match glass.bsdf.bxdf(0) {
        Some(BxDF::SpecularTransmission(term)) => {
            assert_eq!(t(term.t()), (1.0, 1.0, 1.0));
            assert_eq!((f(term.etai()), f(term.etat())), (1.0, 1.5));
        }
        _ => panic!("glass transmits first"),
    }
    assert!(matches!(glass.bsdf.bxdf(1), Some(BxDF::SpecularReflection(_))));

    let mirror = scene.intersection(&at(1), p, v(0.9, 0.9, 0.9)).unwrap();
    assert_eq!(mirror.bsdf.len(), 1);
    assert!(matches!(mirror.bsdf.bxdf(0), Some(BxDF::SpecularReflection(_))));

    let diffuse = scene.intersection(&at(2), p, v(0.9, 0.9, 0.9)).unwrap();
    assert_eq!(diffuse.bsdf.len(), 1);
    match diffuse.bsdf.bxdf(0) {
        Some(BxDF::Lambertian(term)) => assert_eq!(t(term.colour()), (0.5, 0.25, 0.125)),
        _ => panic!("a diffuse surface has a diffuse term"),
    }
}

#[test]
fn an_intersection_is_made_of_its_parts() {
    let bsdf = GlassMaterial.get_bsdf(&v(0.0, 1.0, 0.0), &None);
    let isect = Intersection::new(Point::new(s(1.0), s(2.0), s(3.0)), v(0.0, 1.0, 0.0), bsdf);
    assert_eq!(f(isect.point.y), 2.0);
    assert_eq!(t(isect.normal), (0.0, 1.0, 0.0));
    assert_eq!(isect.bsdf.len(), 2);
}

#[test]
fn lights_are_kept_in_the_order_in_which_they_were_added() {
    let mut scene = three_objects();
    assert!(scene.lights().is_empty());
    scene.add_light(Light::Point(PointLight::new(
        s(1.0),
        v(1.0, 1.0, 1.0),
        Point::new(s(0.0), s(5.0), s(0.0)),
        s(10.0),
    )));
    scene.add_light(Light::Directional(DirectionalLight::new(v(0.5, 0.5, 0.5), v(0.0, -1.0, 0.0))));
    assert_eq!(scene.lights().len(), 2);
    assert!(matches!(scene.lights()[0], Light::Point(_)));
    assert!(matches!(scene.lights()[1], Light::Directional(_)));
    assert_eq!(scene.len(), 3);
    assert!(matches!(scene.node(1).unwrap().material, Material::Mirror(_)));
}

#[test]
fn each_object_has_an_identifier_of_its_own() {
    let a = SceneNode::new(Material::Glass(GlassMaterial));
    let b = SceneNode::new(Material::Glass(GlassMaterial));
    assert_ne!(a.uuid, b.uuid);
}
