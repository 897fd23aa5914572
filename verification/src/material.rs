//! What a surface is made of: the scattering terms that it puts together at
//! a point.

use crate::bxdf::{
    BxDF, Fresnel, FresnelConductor, FresnelDielectric, Lambertian, SpecularReflection,
    SpecularTransmission, BSDF,
};
use crate::math::{Normal, Scalar, Vector, ONE_AND_HALF_BITS, ONE_BITS};
use crate::spectrum::Spectrum;
use crate::texture::{Texture, Uv};
use vstd::prelude::*;

verus! {

/// The colour that reflects or transmits all light.
pub open spec fn white() -> Spectrum {
    Vector { x: Scalar { bits: ONE_BITS }, y: Scalar { bits: ONE_BITS }, z: Scalar { bits: ONE_BITS } }
}

/// The refractive indices of the two sides of a glass surface: 1 outside,
/// 1.5 inside.
pub open spec fn glass_indices() -> (Scalar, Scalar) {
    (Scalar { bits: ONE_BITS }, Scalar { bits: ONE_AND_HALF_BITS })
}

/// Whether `bsdf` is that of a diffuse surface of the given colour: one
/// diffuse term.
pub open spec fn is_diffuse(bsdf: BSDF, normal: Normal, colour: Spectrum) -> bool {
    &&& bsdf.spec_normal() == normal
    &&& bsdf.terms().len() == 1
    &&& bsdf.terms()[0] matches BxDF::Lambertian(l) && l.spec_colour() == colour
}

/// Whether `bsdf` is that of glass: a transmitting and a reflecting
/// specular term, in that order, both white and both for the refractive
/// indices of glass.
pub open spec fn is_glass(bsdf: BSDF, normal: Normal) -> bool {
    &&& bsdf.spec_normal() == normal
    &&& bsdf.terms().len() == 2
    &&& bsdf.terms()[0] matches BxDF::SpecularTransmission(t) && t.spec_t() == white() && (
    t.spec_etai(), t.spec_etat()) == glass_indices() && (
    t.spec_fresnel().spec_etai(), t.spec_fresnel().spec_etat()) == glass_indices()
    &&& bsdf.terms()[1] matches BxDF::SpecularReflection(s) && s.spec_r() == white() && (
    s.spec_fresnel() matches Fresnel::Dielectric(d) && (d.spec_etai(), d.spec_etat())
        == glass_indices())
}

/// Whether `bsdf` is that of a mirror: one white specular reflection term,
/// with the reflectance of a conductor of index zero and absorption one.
pub open spec fn is_mirror(bsdf: BSDF, normal: Normal) -> bool {
    &&& bsdf.spec_normal() == normal
    &&& bsdf.terms().len() == 1
    &&& bsdf.terms()[0] matches BxDF::SpecularReflection(s) && s.spec_r() == white() && (
    s.spec_fresnel() matches Fresnel::Conductor(c) && c.spec_eta() == (Vector {
        x: Scalar { bits: 0 },
        y: Scalar { bits: 0 },
        z: Scalar { bits: 0 },
    }) && c.spec_k() == white())
}

/// A surface that scatters light evenly, coloured by a texture.
#[derive(Debug)]
pub struct DiffuseMaterial {
    pub texture: Texture,
}

impl DiffuseMaterial {
    /// The colour of the surface at a place.
    pub open spec fn spec_colour(&self, from_image: Spectrum) -> Spectrum {
        match self.texture {
            Texture::Constant(t) => t.spec_colour(),
            Texture::Image(_) => from_image,
        }
    }

    pub fn new(texture: Texture) -> (r: DiffuseMaterial)
        ensures
            r.texture == texture,
    {
        DiffuseMaterial { texture }
    }

    /// The scattering function at a surface point, in the colour that the
    /// texture has there. `from_image` is as for [`Texture::sample`].
    pub fn get_bsdf(&self, normal: &Normal, uvs: &Option<Uv>, from_image: Spectrum) -> (r: BSDF)
        ensures
            is_diffuse(r, *normal, self.spec_colour(from_image)),
    {
        let mut bsdf = BSDF::new(*normal);
        let f = self.texture.sample(uvs, from_image);
        bsdf.add_bxdf(BxDF::Lambertian(Lambertian::new(f)));
        bsdf
    }
}

/// Clear glass.
#[derive(Clone, Copy, Debug)]
pub struct GlassMaterial;

impl GlassMaterial {
    /// The scattering function of glass at a surface point.
    pub fn get_bsdf(&self, normal: &Normal, uvs: &Option<Uv>) -> (r: BSDF)
        ensures
            is_glass(r, *normal),
    {
        let mut bsdf = BSDF::new(*normal);
        let white = Vector::new(Scalar::one(), Scalar::one(), Scalar::one());
        let outside = Scalar::one();
        let inside = Scalar::from_bits(ONE_AND_HALF_BITS);
        bsdf.add_bxdf(BxDF::SpecularTransmission(SpecularTransmission::new(white, outside, inside)));
        bsdf.add_bxdf(
            BxDF::SpecularReflection(
                SpecularReflection::new(
                    white,
                    Fresnel::Dielectric(FresnelDielectric::new(outside, inside)),
                ),
            ),
        );
        bsdf
    }
}

/// A perfect mirror.
#[derive(Clone, Copy, Debug)]
pub struct MirrorMaterial;

impl MirrorMaterial {
    /// The scattering function of a mirror at a surface point.
    pub fn get_bsdf(&self, normal: &Normal, uvs: &Option<Uv>) -> (r: BSDF)
        ensures
            is_mirror(r, *normal),
    {
        let mut bsdf = BSDF::new(*normal);
        let white = Vector::new(Scalar::one(), Scalar::one(), Scalar::one());
        bsdf.add_bxdf(
            BxDF::SpecularReflection(
                SpecularReflection::new(
                    white,
                    Fresnel::Conductor(FresnelConductor::new(Vector::zero(), white)),
                ),
            ),
        );
        bsdf
    }
}

/// A material.
#[derive(Debug)]
pub enum Material {
    Diffuse(DiffuseMaterial),
    Glass(GlassMaterial),
    Mirror(MirrorMaterial),
}

impl Material {
    /// The scattering function at a surface point with the given normal and
    /// texture coordinates. `from_image` is as for [`Texture::sample`].
    pub fn get_bsdf(&self, normal: &Normal, uvs: &Option<Uv>, from_image: Spectrum) -> (r: BSDF)
        ensures
            match *self {
                Material::Diffuse(m) => is_diffuse(r, *normal, m.spec_colour(from_image)),
                Material::Glass(_) => is_glass(r, *normal),
                Material::Mirror(_) => is_mirror(r, *normal),
            },
    {
        match self {
            Material::Diffuse(m) => m.get_bsdf(normal, uvs, from_image),
            Material::Glass(m) => m.get_bsdf(normal, uvs),
            Material::Mirror(m) => m.get_bsdf(normal, uvs),
        }
    }
}

} // verus!
