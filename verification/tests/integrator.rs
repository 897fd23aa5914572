use pbrt::bxdf::{BxDF, BSDF_ALL, BSDF_SPECULAR};
use pbrt::integrator::{
    direct_lighting, incident_cosine, path_bounce, roll, sample_carries_light, sample_light, sample_one_light, specular_ray, specular_reflect,
    specular_transmit, Integrator, PathAction, PathEvent, PathPhase, PathState, PathTraced,
    Roulette, Whitted, ROULETTE_AFTER,
};
use pbrt::light::{DirectionalLight, Light, PointLight};
use pbrt::material::{DiffuseMaterial, GlassMaterial, MirrorMaterial};
use pbrt::math::{Point, Scalar, Vector};
use pbrt::ray::Ray;
use pbrt::renderer::{Shading, StandardRenderer};
use pbrt::scene::Scene;
use pbrt::texture::{ConstantTexture, Texture};
use rand::{SeedableRng, StdRng};

fn s(x: f64) -> Scalar {
    Scalar::from_bits(x.to_bits())
}

fn f(x: Scalar) -> f64 {
    f64::from_bits(x.to_bits())
}

fn v(x: f64, y: f64, z: f64) -> Vector {
    Vector::new(s(x), s(y), s(z))
}

fn t(x: Vector) -> (f64, f64, f64) {
    (f(x.x), f(x.y), f(x.z))
}

fn p(x: f64, y: f64, z: f64) -> Point {
    Point::new(s(x), s(y), s(z))
}

fn rng(seed: usize) -> StdRng {
    let seed: &[usize] = &[seed, 5, 8, 13];
    SeedableRng::from_seed(seed)
}

fn ray(depth: i32) -> Ray {
    Ray::new_with_depth(p(0.0, 0.0, 0.0), v(0.0, 0.0, -1.0), depth)
}

#[test]
fn a_ray_is_made_of_its_parts() {
    let r = Ray::new(p(1.0, 2.0, 3.0), v(0.0, 0.0, -1.0));
    assert_eq!(r.depth, 0);
    assert_eq!((f(r.orig().x), f(r.orig().y), f(r.orig().z)), (1.0, 2.0, 3.0));
    assert_eq!(t(*r.dir()), (0.0, 0.0, -1.0));
    assert_eq!(f(r.outgoing().z), 1.0);
    assert_eq!(ray(4).depth, 4);
}

#[test]
fn direct_lighting_leaves_out_the_specular_terms() {
    assert_eq!(direct_lighting().bits(), BSDF_ALL & !BSDF_SPECULAR);
}

#[test]
fn a_light_adds_nothing_without_light_or_scattering_or_in_shadow() {
    let li = v(1.0, 1.0, 1.0);
    let fr = v(0.2, 0.2, 0.2);
    let scattered = v(0.1, 0.1, 0.1);
    let zero = v(0.0, 0.0, 0.0);
    let cos = s(0.5);
    assert_eq!(t(sample_light(&li, &fr, false, cos, scattered)), (0.1, 0.1, 0.1));
    assert_eq!(t(sample_light(&zero, &fr, false, cos, scattered)), (0.0, 0.0, 0.0));
    assert_eq!(t(sample_light(&li, &zero, false, cos, scattered)), (0.0, 0.0, 0.0));
    assert_eq!(t(sample_light(&li, &fr, true, cos, scattered)), (0.0, 0.0, 0.0));
    assert_eq!(t(sample_light(&li, &v(0.0, -0.0, 0.0), false, cos, scattered)), (0.0, 0.0, 0.0));
}

#[test]
fn a_light_behind_the_surface_adds_nothing() {
    // A white light straight below a white diffuse surface that faces up:
    // the cosine between the normal and the direction to the light is -1.
    let li = v(1.0, 1.0, 1.0);
    let fr = v(1.0 / std::f64::consts::PI, 1.0 / std::f64::consts::PI, 1.0 / std::f64::consts::PI);
    let cosine = s(-1.0);
    assert_eq!(f(incident_cosine(cosine)), 0.0);
    let weakened = f(incident_cosine(cosine));
    let scattered = v(f(fr.x) * weakened, f(fr.y) * weakened, f(fr.z) * weakened);
    assert_eq!(t(sample_light(&li, &fr, false, cosine, scattered)), (0.0, 0.0, 0.0));
    // Not even where the product was made with the cosine as it is.
    let wrong = v(-0.3, -0.3, -0.3);
    assert_eq!(t(sample_light(&li, &fr, false, cosine, wrong)), (0.0, 0.0, 0.0));
    assert_eq!(t(sample_light(&li, &fr, false, s(0.0), wrong)), (0.0, 0.0, 0.0));
    assert_eq!(t(sample_light(&li, &fr, false, s(-0.0), wrong)), (0.0, 0.0, 0.0));
    assert_eq!(t(sample_light(&li, &fr, false, s(f64::NAN), wrong)), (0.0, 0.0, 0.0));
    assert_eq!(t(sample_light(&li, &fr, false, s(1e-300), wrong)), (-0.3, -0.3, -0.3));
}

#[test]
fn the_incident_cosine_is_never_negative() {
    assert_eq!(f(incident_cosine(s(0.75))), 0.75);
    assert_eq!(f(incident_cosine(s(1.0))), 1.0);
    assert_eq!(incident_cosine(s(0.0)).to_bits(), 0);
    assert_eq!(incident_cosine(s(-0.0)).to_bits(), 0);
    assert_eq!(incident_cosine(s(-0.75)).to_bits(), 0);
    assert_eq!(incident_cosine(s(f64::NAN)).to_bits(), 0);
}

#[test]
fn a_path_ends_at_the_largest_depth_without_counting_on() {
    let tracer = PathTraced::new(i32::MAX);
    assert_eq!(tracer.next_bounce(i32::MAX), None);
    assert_eq!(tracer.next_bounce(i32::MAX - 1), Some(i32::MAX));
    let sampled = PathEvent::Sampled { f: v(0.5, 0.5, 0.5), pdf: s(0.25) };
    let at = PathState { bounce: i32::MAX, phase: PathPhase::Sampling };
    let (state, action) = path_bounce(&tracer, at, sampled);
    assert!(matches!(action, PathAction::Roll));
    let won = PathEvent::Rolled { luminance: s(1.0), u: s(0.0) };
    let (state, action) = path_bounce(&tracer, state, won);
    assert!(matches!(action, PathAction::Finish));
    assert_eq!((state.bounce, state.phase), (i32::MAX, PathPhase::Finished));
    let miss = PathEvent::Traced { hit: false };
    let waiting = PathState { bounce: i32::MAX, phase: PathPhase::Tracing };
    let (state, action) = path_bounce(&PathTraced::new(-1), waiting, miss);
    assert!(matches!(action, PathAction::Finish));
    assert_eq!(state.bounce, i32::MAX);
}

#[test]
fn at_the_depth_no_ray_is_traced_whatever_the_draw() {
    for depth in 0..10 {
        let tracer = PathTraced::new(depth);
        let sampled = PathEvent::Sampled { f: v(0.5, 0.5, 0.5), pdf: s(0.25) };
        for &u in [0.0, 0.1, 0.49, 0.5, 0.99].iter() {
            let mut state = PathState { bounce: depth, phase: PathPhase::Sampling };
            let mut event = sampled;
            loop {
                let (next, action) = path_bounce(&tracer, state, event);
                assert_eq!(next.bounce, depth);
                state = next;
                match action {
                    PathAction::Finish => break,
                    PathAction::Roll => {
                        assert!(depth > 3);
                        event = PathEvent::Rolled { luminance: s(0.75), u: s(u) };
                    }
                    PathAction::Trace { .. } => panic!("a ray at the depth"),
                    PathAction::Bounce => panic!("a vertex beyond the depth"),
                }
            }
        }
    }
}

#[test]
fn a_scene_without_lights_has_none_to_sample() {
    let scene = Scene::new(Vec::new());
    assert!(sample_one_light(&scene, &mut rng(1)).is_none());
}

#[test]
fn one_light_is_sampled_and_scaled_by_the_number_of_lights() {
    let mut scene = Scene::new(Vec::new());
    scene.add_light(Light::Point(PointLight::new(s(1.0), v(1.0, 0.0, 0.0), p(0.0, 1.0, 0.0), s(4.0))));
    scene.add_light(Light::Directional(DirectionalLight::new(v(0.0, 1.0, 0.0), v(0.0, -1.0, 0.0))));
    scene.add_light(Light::Directional(DirectionalLight::new(v(0.0, 0.0, 1.0), v(0.0, -1.0, 0.0))));
    let mut seen = [false; 3];
    for seed in 0..64 {
        let (light, n) = sample_one_light(&scene, &mut rng(seed)).unwrap();
        assert_eq!(n, 3);
        let (r, g, b) = t(*light.colour());
        assert_eq!(r + g + b, 1.0);
        seen[if r == 1.0 { 0 } else if g == 1.0 { 1 } else { 2 }] = true;
    }
    assert_eq!(seen, [true, true, true]);
}

#[test]
fn specular_reflection_is_sampled_from_the_mirror_term() {
    let n = v(0.0, 0.0, 1.0);
    let glass = GlassMaterial.get_bsdf(&n, &None);
    let s1 = specular_reflect(&glass, &mut rng(3)).unwrap();
    assert_eq!(s1.chosen, 1);
    assert_eq!(s1.matching, vec![1]);
    assert!(matches!(glass.bxdf(s1.chosen), Some(BxDF::SpecularReflection(_))));
    let mirror = MirrorMaterial.get_bsdf(&n, &None);
    assert_eq!(specular_reflect(&mirror, &mut rng(3)).unwrap().chosen, 0);
    let paint = DiffuseMaterial::new(Texture::Constant(ConstantTexture::new(v(0.5, 0.5, 0.5))));
    let diffuse = paint.get_bsdf(&n, &None, v(0.0, 0.0, 0.0));
    assert!(specular_reflect(&diffuse, &mut rng(3)).is_none());
}

#[test]
fn specular_transmission_is_sampled_from_the_transmitting_term() {
    let n = v(0.0, 0.0, 1.0);
    let glass = GlassMaterial.get_bsdf(&n, &None);
    let s1 = specular_transmit(&glass, &mut rng(3)).unwrap();
    assert_eq!(s1.chosen, 0);
    assert_eq!(s1.matching, vec![0]);
    assert!(matches!(glass.bxdf(s1.chosen), Some(BxDF::SpecularTransmission(_))));
    let mirror = MirrorMaterial.get_bsdf(&n, &None);
    assert!(specular_transmit(&mirror, &mut rng(3)).is_none());
}

#[test]
fn a_secondary_ray_is_one_bounce_deeper() {
    let wi = v(0.0, 0.6, 0.8);
    let origin = p(1.0, 1.0, 1.0);
    let r = specular_ray(&ray(2), &v(0.9, 0.9, 0.9), s(1.0), s(0.8), origin, wi).unwrap();
    assert_eq!(r.depth, 3);
    assert_eq!(t(r.dir), (0.0, 0.6, 0.8));
    assert_eq!((f(r.orig.x), f(r.orig.y), f(r.orig.z)), (1.0, 1.0, 1.0));
}

#[test]
fn no_secondary_ray_follows_a_sample_that_carries_no_light() {
    let wi = v(0.0, 0.6, 0.8);
    let origin = p(1.0, 1.0, 1.0);
    let fr = v(0.9, 0.9, 0.9);
    assert!(specular_ray(&ray(0), &fr, s(0.0), s(0.8), origin, wi).is_none());
    assert!(specular_ray(&ray(0), &fr, s(-1.0), s(0.8), origin, wi).is_none());
    assert!(specular_ray(&ray(0), &v(0.0, 0.0, 0.0), s(1.0), s(0.8), origin, wi).is_none());
    assert!(specular_ray(&ray(0), &fr, s(1.0), s(0.0), origin, wi).is_none());
    assert!(specular_ray(&ray(0), &fr, s(1.0), s(-0.0), origin, wi).is_none());
    assert!(specular_ray(&ray(0), &fr, s(1.0), s(-0.8), origin, wi).is_some());
    assert!(sample_carries_light(&fr, s(1.0), s(-0.8)));
    assert!(!sample_carries_light(&fr, s(0.0), s(0.8)));
    // At the largest depth a sample without light still gives no ray.
    assert!(specular_ray(&ray(i32::MAX), &fr, s(0.0), s(0.8), origin, wi).is_none());
}

#[test]
fn whitted_follows_secondary_rays_down_to_its_depth() {
    let w = Whitted::new(2);
    assert_eq!(w.depth(), 2);
    let (lights, secondary) = w.integrate(&ray(0));
    assert_eq!(lights.bits(), BSDF_ALL & !BSDF_SPECULAR);
    assert_eq!(secondary, Some(1));
    assert_eq!(w.integrate(&ray(1)).1, Some(2));
    assert_eq!(w.integrate(&ray(2)).1, None);
    assert_eq!(w.integrate(&ray(3)).1, None);
}

#[test]
fn with_no_depth_and_no_lights_a_specular_sphere_is_black() {
    // Depth 0: the ray from the camera is already at the depth, so neither
    // the reflected nor the refracted ray is traced.
    let w = Whitted::new(0);
    assert_eq!(w.integrate(&ray(0)).1, None);
    // No lights: there is none to add up for the direct lighting.
    let scene = Scene::new(Vec::new());
    assert!(scene.lights().is_empty());
    assert!(sample_one_light(&scene, &mut rng(9)).is_none());
    // And the specular terms take no part in direct lighting anyway.
    let glass = GlassMaterial.get_bsdf(&v(0.0, 0.0, 1.0), &None);
    assert!(glass.f(true, direct_lighting()).is_empty());
    assert!(glass.f(false, direct_lighting()).is_empty());
}

#[test]
fn a_path_starts_with_full_throughput() {
    let tracer = PathTraced::new(6);
    assert_eq!(tracer.depth(), 6);
    let (state, throughput) = tracer.integrate();
    assert_eq!((state.bounce, state.phase), (0, PathPhase::Sampling));
    assert_eq!(t(throughput), (1.0, 1.0, 1.0));
}

/// Follows a path between two facing mirrors: every sample scatters, every
/// ray hits, and every game of chance is survived. Gives the number of
/// vertices, the largest bounce number and the bounce numbers at which the
/// game was played.
fn between_mirrors(depth: i32) -> (i32, i32, Vec<i32>) {
    let tracer = PathTraced::new(depth);
    let (mut state, _) = tracer.integrate();
    let mut vertices = 1;
    let mut deepest = 0;
    let mut played = Vec::new();
    let mut event = PathEvent::Sampled { f: v(1.0, 1.0, 1.0), pdf: s(1.0) };
    for _ in 0..1000 {
        let (next, action) = path_bounce(&tracer, state, event);
        assert!(next.bounce <= depth);
        deepest = deepest.max(next.bounce);
        state = next;
        event = match action {
            PathAction::Finish => {
                assert_eq!(state.phase, PathPhase::Finished);
                return (vertices, deepest, played);
            }
            PathAction::Roll => {
                played.push(state.bounce);
                PathEvent::Rolled { luminance: s(1.0), u: s(0.0) }
            }
            PathAction::Trace { survival } => {
                assert_eq!(survival.map(f), if state.bounce > 3 { Some(0.5) } else { None });
                PathEvent::Traced { hit: true }
            }
            PathAction::Bounce => {
                vertices += 1;
                PathEvent::Sampled { f: v(1.0, 1.0, 1.0), pdf: s(1.0) }
            }
        };
    }
    panic!("the path between the mirrors goes on for ever");
}

#[test]
fn a_path_between_two_mirrors_ends_at_the_depth() {
    assert_eq!(between_mirrors(0), (1, 0, vec![]));
    assert_eq!(between_mirrors(1), (2, 1, vec![]));
    assert_eq!(between_mirrors(3), (4, 3, vec![]));
    assert_eq!(between_mirrors(4), (5, 4, vec![4]));
    assert_eq!(between_mirrors(6), (7, 6, vec![4, 5, 6]));
    assert_eq!(between_mirrors(50).0, 51);
}

#[test]
fn the_game_of_chance_is_played_with_a_number_from_the_unit_interval() {
    let mut rng = rng(11);
    let mut last = None;
    for _ in 0..32 {
        match roll(&mut rng, s(0.375)) {
            PathEvent::Rolled { luminance, u } => {
                assert_eq!(f(luminance), 0.375);
                assert!(0.0 <= f(u) && f(u) < 1.0);
                assert_ne!(last, Some(u.to_bits()));
                last = Some(u.to_bits());
            }
            other => panic!("{:?}", other),
        }
    }
}

#[test]
fn a_path_takes_its_steps_in_order() {
    let tracer = PathTraced::new(6);
    let at = |bounce: i32, phase: PathPhase| PathState { bounce, phase };
    let sampled = PathEvent::Sampled { f: v(0.5, 0.5, 0.5), pdf: s(0.25) };
    let nothing = PathEvent::Sampled { f: v(0.0, 0.0, 0.0), pdf: s(0.25) };
    let no_density = PathEvent::Sampled { f: v(0.5, 0.5, 0.5), pdf: s(0.0) };

    // A sample without value or density ends the path.
    let (state, action) = path_bounce(&tracer, at(0, PathPhase::Sampling), nothing);
    assert!(matches!(action, PathAction::Finish));
    assert_eq!((state.bounce, state.phase), (0, PathPhase::Finished));
    let (_, action) = path_bounce(&tracer, at(5, PathPhase::Sampling), no_density);
    assert!(matches!(action, PathAction::Finish));

    // Up to the third bounce the ray is traced without a game of chance.
    let (state, action) = path_bounce(&tracer, at(3, PathPhase::Sampling), sampled);
    assert!(matches!(action, PathAction::Trace { survival: None }));
    assert_eq!((state.bounce, state.phase), (3, PathPhase::Tracing));

    // From the fourth on the game is played first.
    let (state, action) = path_bounce(&tracer, at(4, PathPhase::Sampling), sampled);
    assert!(matches!(action, PathAction::Roll));
    assert_eq!((state.bounce, state.phase), (4, PathPhase::Rolling));
    let lost = PathEvent::Rolled { luminance: s(0.25), u: s(0.3) };
    let (state, action) = path_bounce(&tracer, at(4, PathPhase::Rolling), lost);
    assert!(matches!(action, PathAction::Finish));
    assert_eq!(state.phase, PathPhase::Finished);
    let won = PathEvent::Rolled { luminance: s(0.25), u: s(0.2) };
    match path_bounce(&tracer, at(4, PathPhase::Rolling), won) {
        (state, PathAction::Trace { survival: Some(q) }) => {
            assert_eq!(f(q), 0.25);
            assert_eq!((state.bounce, state.phase), (4, PathPhase::Tracing));
        }
        other => panic!("{:?}", other),
    }

    // At the depth the path ends, whether or not the game was won.
    let (_, action) = path_bounce(&tracer, at(6, PathPhase::Rolling), won);
    assert!(matches!(action, PathAction::Finish));
    let (_, action) = path_bounce(&PathTraced::new(2), at(2, PathPhase::Sampling), sampled);
    assert!(matches!(action, PathAction::Finish));

    // A ray that hits leads to the next vertex, one that misses ends the path.
    let (state, action) = path_bounce(&tracer, at(4, PathPhase::Tracing), PathEvent::Traced { hit: true });
    assert!(matches!(action, PathAction::Bounce));
    assert_eq!((state.bounce, state.phase), (5, PathPhase::Sampling));
    let (state, action) = path_bounce(&tracer, at(4, PathPhase::Tracing), PathEvent::Traced { hit: false });
    assert!(matches!(action, PathAction::Finish));
    assert_eq!((state.bounce, state.phase), (4, PathPhase::Finished));

    // An event that the path is not waiting for ends it.
    let (state, action) = path_bounce(&tracer, at(1, PathPhase::Sampling), won);
    assert!(matches!(action, PathAction::Finish));
    assert_eq!(state.phase, PathPhase::Finished);
    let (_, action) = path_bounce(&tracer, at(1, PathPhase::Finished), sampled);
    assert!(matches!(action, PathAction::Finish));
}

#[test]
fn a_path_ends_where_nothing_is_scattered() {
    assert!(PathTraced::scatters(&v(0.1, 0.0, 0.0), s(0.5)));
    assert!(!PathTraced::scatters(&v(0.0, 0.0, 0.0), s(0.5)));
    assert!(!PathTraced::scatters(&v(0.1, 0.0, 0.0), s(0.0)));
    assert!(!PathTraced::scatters(&v(0.1, 0.0, 0.0), s(-0.0)));
    assert!(PathTraced::scatters(&v(0.1, 0.0, 0.0), s(1.0)));
}

#[test]
fn roulette_is_not_played_up_to_the_third_bounce() {
    assert_eq!(ROULETTE_AFTER, 3);
    for bounce in 0..=3 {
        for &(lum, u) in [(0.0, 0.99), (0.01, 0.5), (1.0, 0.0), (f64::NAN, 1.0)].iter() {
            assert!(matches!(PathTraced::roulette(bounce, s(lum), s(u)), Roulette::NotPlayed));
        }
    }
    assert!(!matches!(PathTraced::roulette(4, s(1.0), s(0.0)), Roulette::NotPlayed));
}

#[test]
fn roulette_lets_a_path_survive_with_at_most_even_odds() {
    // A bright path survives with probability one half.
    match PathTraced::roulette(4, s(0.9), s(0.5)) {
        Roulette::Survived(q) => assert_eq!(f(q), 0.5),
        _ => panic!("a draw of 0.5 is not above 0.5"),
    }
    assert!(matches!(PathTraced::roulette(4, s(0.9), s(0.500001)), Roulette::Killed));
    // A dim path survives with a probability equal to its luminance.
    match PathTraced::roulette(5, s(0.125), s(0.1)) {
        Roulette::Survived(q) => assert_eq!(f(q), 0.125),
        _ => panic!("a draw of 0.1 is not above 0.125"),
    }
    assert!(matches!(PathTraced::roulette(5, s(0.125), s(0.2)), Roulette::Killed));
    // A black path is killed by any draw above zero.
    assert!(matches!(PathTraced::roulette(100, s(0.0), s(1e-9)), Roulette::Killed));
    match PathTraced::roulette(100, s(0.0), s(0.0)) {
        Roulette::Survived(q) => assert_eq!(f(q), 0.0),
        _ => panic!("a draw of 0 is not above 0"),
    }
}

#[test]
fn a_path_never_goes_beyond_its_depth() {
    for depth in 0..8 {
        let tracer = PathTraced::new(depth);
        let mut bounce = tracer.integrate().0.bounce;
        let mut vertices = 1;
        while let Some(next) = tracer.next_bounce(bounce) {
            assert_eq!(next, bounce + 1);
            assert!(next <= depth);
            bounce = next;
            vertices += 1;
            assert!(vertices <= depth + 1, "two facing mirrors would go on for ever");
        }
        assert_eq!(bounce, depth);
        assert_eq!(vertices, depth + 1);
    }
}

#[test]
fn a_ray_that_leaves_the_scene_brings_no_light() {
    let renderer = StandardRenderer::new(Integrator::Whitted(Whitted::new(6)));
    match renderer.render(false) {
        Shading::Background(c) => assert_eq!(t(c), (0.0, 0.0, 0.0)),
        Shading::Integrate(_) => panic!("nothing was hit"),
    }
    match renderer.render(true) {
        Shading::Integrate(Integrator::Whitted(w)) => assert_eq!(w.depth(), 6),
        _ => panic!("an object was hit"),
    }
    let renderer = StandardRenderer::new(Integrator::PathTraced(PathTraced::new(3)));
    match renderer.integrator() {
        Integrator::PathTraced(tracer) => assert_eq!(tracer.depth(), 3),
        Integrator::Whitted(_) => panic!("a path tracer was given"),
    }
}
