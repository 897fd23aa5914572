use pbrt::material::{DiffuseMaterial, Material, MirrorMaterial};
use pbrt::bxdf::{BxDF, Fresnel};
use pbrt::math::{Scalar, TangentPlane, Vector};
use pbrt::mesh::faces;
use pbrt::montecarlo::{disc_region, radius, DiscRegion};
use pbrt::texture::{ConstantTexture, ImageTexture, Texture};

fn s(x: f64) -> Scalar {
    Scalar::from_bits(x.to_bits())
}

fn f(x: Scalar) -> f64 {
    f64::from_bits(x.to_bits())
}

fn v(x: f64, y: f64, z: f64) -> Vector {
    Vector::new(s(x), s(y), s(z))
}

fn t(x: Vector) -> (f64, f64, f64) {
    (f(x.x), f(x.y), f(x.z))
}

fn checker() -> ImageTexture {
    // Two columns, three rows.
    let data: Vec<u8> = (0..18).collect();
    ImageTexture::new(2, 3, data).unwrap()
}

#[test]
fn a_constant_texture_has_one_colour() {
    let texture = ConstantTexture::new(v(0.5, 0.25, 0.125));
    assert_eq!(t(texture.sample(&None)), (0.5, 0.25, 0.125));
    assert_eq!(t(texture.sample(&Some((s(0.3), s(0.7))))), (0.5, 0.25, 0.125));
}

#[test]
fn an_image_texture_needs_three_bytes_for_each_pixel() {
    assert!(ImageTexture::new(2, 3, vec![0; 18]).is_some());
    assert!(ImageTexture::new(2, 3, vec![0; 17]).is_none());
    assert!(ImageTexture::new(2, 3, vec![0; 19]).is_none());
    assert!(ImageTexture::new(0, 3, Vec::new()).is_none());
    assert!(ImageTexture::new(2, 0, Vec::new()).is_none());
    assert!(ImageTexture::new(u32::MAX, u32::MAX, vec![0; 3]).is_none());
}

#[test]
fn pixels_are_read_row_by_row() {
    let texture = checker();
    assert_eq!((texture.width(), texture.height()), (2, 3));
    assert_eq!(texture.pixel(0, 0), (0, 1, 2));
    assert_eq!(texture.pixel(1, 0), (3, 4, 5));
    assert_eq!(texture.pixel(0, 1), (6, 7, 8));
    assert_eq!(texture.pixel(1, 2), (15, 16, 17));
}

#[test]
fn places_beyond_the_raster_wrap_around() {
    let texture = checker();
    assert_eq!(texture.pixel(2, 0), (0, 1, 2));
    assert_eq!(texture.pixel(3, 3), (3, 4, 5));
    assert_eq!(texture.pixel(u32::MAX, u32::MAX), texture.pixel(u32::MAX % 2, u32::MAX % 3));
    assert_eq!(texture.sample(&Some((1, 1))), (9, 10, 11));
    assert_eq!(texture.sample(&None), (0, 0, 0));
}

#[test]
fn a_texture_gives_its_own_colour_or_that_of_the_image() {
    let from_image = v(0.2, 0.4, 0.6);
    let constant = Texture::Constant(ConstantTexture::new(v(0.5, 0.25, 0.125)));
    assert_eq!(t(constant.sample(&None, from_image)), (0.5, 0.25, 0.125));
    let image = Texture::Image(checker());
    assert_eq!(t(image.sample(&Some((s(0.5), s(0.5))), from_image)), (0.2, 0.4, 0.6));
}

#[test]
fn a_diffuse_material_scatters_in_the_colour_of_its_texture() {
    let n = v(0.0, 1.0, 0.0);
    let paint = DiffuseMaterial::new(Texture::Image(checker()));
    let bsdf = paint.get_bsdf(&n, &Some((s(0.1), s(0.2))), v(0.2, 0.4, 0.6));
    assert_eq!(t(bsdf.normal()), (0.0, 1.0, 0.0));
    match bsdf.bxdf(0) {
        Some(BxDF::Lambertian(term)) => assert_eq!(t(term.colour()), (0.2, 0.4, 0.6)),
        _ => panic!("a diffuse surface has a diffuse term"),
    }
    assert!(matches!(paint.texture, Texture::Image(_)));
}

#[test]
fn a_mirror_is_a_white_conductor() {
    let n = v(0.0, 1.0, 0.0);
    let bsdf = Material::Mirror(MirrorMaterial).get_bsdf(&n, &None, v(0.0, 0.0, 0.0));
    assert_eq!(bsdf.len(), 1);
    match bsdf.bxdf(0) {
        Some(BxDF::SpecularReflection(term)) => {
            assert_eq!(t(term.r()), (1.0, 1.0, 1.0));
            match term.fresnel() {
                Fresnel::Conductor(c) => {
                    assert_eq!(t(c.eta()), (0.0, 0.0, 0.0));
                    assert_eq!(t(c.k()), (1.0, 1.0, 1.0));
                }
                Fresnel::Dielectric(_) => panic!("a mirror is a conductor"),
            }
        }
        _ => panic!("a mirror has a mirror term"),
    }
}

#[test]
fn the_square_falls_into_four_wedges_around_the_centre() {
    assert_eq!(disc_region(s(0.0), s(0.0)), DiscRegion::Centre);
    assert_eq!(disc_region(s(-0.0), s(0.0)), DiscRegion::Centre);
    assert_eq!(disc_region(s(0.5), s(0.25)), DiscRegion::First);
    assert_eq!(disc_region(s(0.5), s(-0.25)), DiscRegion::FirstBelow);
    assert_eq!(disc_region(s(0.5), s(0.0)), DiscRegion::FirstBelow);
    assert_eq!(disc_region(s(0.25), s(0.5)), DiscRegion::Second);
    assert_eq!(disc_region(s(0.5), s(0.5)), DiscRegion::Second);
    assert_eq!(disc_region(s(-0.25), s(0.5)), DiscRegion::Second);
    assert_eq!(disc_region(s(-0.5), s(0.25)), DiscRegion::Third);
    assert_eq!(disc_region(s(-0.5), s(-0.5)), DiscRegion::Third);
    assert_eq!(disc_region(s(-0.25), s(-0.5)), DiscRegion::Fourth);
    assert_eq!(disc_region(s(0.25), s(-0.5)), DiscRegion::Fourth);
    assert_eq!(disc_region(s(0.5), s(-0.5)), DiscRegion::FirstBelow);
}

#[test]
fn the_radius_is_the_coordinate_along_the_wedge() {
    let points = [(0.5, 0.25), (0.5, -0.25), (0.25, 0.5), (-0.5, 0.25), (-0.25, -0.75), (1.0, -1.0)];
    for &(x, y) in points.iter() {
        let r = f(radius(disc_region(s(x), s(y)), s(x), s(y)));
        assert_eq!(r, f64::max(x.abs(), y.abs()));
    }
    assert_eq!(f(radius(DiscRegion::Centre, s(0.0), s(0.0))), 0.0);
}

#[test]
fn the_frame_is_built_on_the_larger_of_x_and_y() {
    assert_eq!(pbrt::math::coordinate_system(&v(0.0, 1.0, 0.0)), TangentPlane::Yz);
    assert_eq!(pbrt::math::coordinate_system(&v(1.0, 0.0, 0.0)), TangentPlane::Xz);
    assert_eq!(pbrt::math::coordinate_system(&v(-0.8, 0.6, 0.0)), TangentPlane::Xz);
    assert_eq!(pbrt::math::coordinate_system(&v(0.6, -0.8, 0.0)), TangentPlane::Yz);
    assert_eq!(pbrt::math::coordinate_system(&v(0.0, 0.0, 1.0)), TangentPlane::Yz);
    assert_eq!(pbrt::math::coordinate_system(&v(0.5, 0.5, 0.7)), TangentPlane::Yz);
}

#[test]
fn each_run_of_three_indices_is_a_triangle() {
    assert_eq!(faces(&vec![0, 1, 2, 2, 1, 3]), vec![(0, 1, 2), (2, 1, 3)]);
    assert_eq!(faces(&vec![0, 1, 2, 3, 4]), vec![(0, 1, 2)]);
    assert_eq!(faces(&vec![7, 8]), Vec::<(usize, usize, usize)>::new());
    assert_eq!(faces(&Vec::new()), Vec::<(usize, usize, usize)>::new());
}
