//! Emitters.

use crate::math::{Point, Scalar, Vector};
use crate::spectrum::Spectrum;
use vstd::prelude::*;

verus! {

/// Whether one of the hits lies nearer than `dist`.
pub open spec fn nearer_hit(hits: Seq<Scalar>, dist: Scalar) -> bool {
    exists|i: int| 0 <= i < hits.len() && (#[trigger] hits[i]).spec_lt(dist)
}

/// A light that shines from one point in all directions, as far as its
/// radius reaches.
#[derive(Clone, Copy, Debug)]
pub struct PointLight {
    intensity: Scalar,
    colour: Spectrum,
    position: Point,
    radius: Scalar,
}

impl PointLight {
    pub closed spec fn spec_intensity(&self) -> Scalar {
        self.intensity
    }

    pub closed spec fn spec_colour(&self) -> Spectrum {
        self.colour
    }

    pub closed spec fn spec_position(&self) -> Point {
        self.position
    }

    pub closed spec fn spec_radius(&self) -> Scalar {
        self.radius
    }

    /// Whether a point at the squared distance `dist2` is lit by a light
    /// whose squared radius is `radius2`: it is not the light's own position
    /// and not beyond the radius.
    pub open spec fn reaches(dist2: Scalar, radius2: Scalar) -> bool {
        dist2.spec_gt(Scalar { bits: 0 }) && dist2.spec_le(radius2)
    }

    /// The light with the given properties.
    pub closed spec fn spec_new(
        intensity: Scalar,
        colour: Spectrum,
        position: Point,
        radius: Scalar,
    ) -> PointLight {
        PointLight { intensity, colour, position, radius }
    }

    pub fn new(intensity: Scalar, colour: Spectrum, position: Point, radius: Scalar) -> (r:
        PointLight)
        ensures
            r == Self::spec_new(intensity, colour, position, radius),
            r.spec_intensity() == intensity,
            r.spec_colour() == colour,
            r.spec_position() == position,
            r.spec_radius() == radius,
    {
        PointLight { intensity, colour, position, radius }
    }

    #[verifier::when_used_as_spec(spec_intensity)]
    pub fn intensity(&self) -> (r: Scalar)
        ensures
            r == self.spec_intensity(),
    {
        self.intensity
    }

    pub fn colour(&self) -> (r: &Spectrum)
        ensures
            *r == self.spec_colour(),
    {
        &self.colour
    }

    #[verifier::when_used_as_spec(spec_position)]
    pub fn position(&self) -> (r: Point)
        ensures
            r == self.spec_position(),
    {
        self.position
    }

    #[verifier::when_used_as_spec(spec_radius)]
    pub fn radius(&self) -> (r: Scalar)
        ensures
            r == self.spec_radius(),
    {
        self.radius
    }

    /// A point light has no extent.
    pub fn is_delta(&self) -> (r: bool)
        ensures
            r,
    {
        true
    }

    /// The light that arrives at a point, and the direction `wi` from the
    /// point to the light. `dist2` is the squared distance between the two,
    /// `radius2` the squared radius, `attenuated` the light's colour scaled
    /// by its intensity and by the radius over the squared distance. Beyond
    /// the radius, and at the light's own position, nothing arrives.
    pub fn sample(&self, dist2: Scalar, radius2: Scalar, attenuated: Spectrum, wi: Vector) -> (r: (
        Spectrum,
        Vector,
    ))
        ensures
            r.1 == wi,
            r.0 == if Self::reaches(dist2, radius2) {
                attenuated
            } else {
                (Vector { x: Scalar { bits: 0 }, y: Scalar { bits: 0 }, z: Scalar { bits: 0 } })
            },
    {
        if dist2.gt(Scalar::zero()) && dist2.le(radius2) {
            (attenuated, wi)
        } else {
            (Vector::zero(), wi)
        }
    }

    /// Whether a point at distance `dist` from the light lies in shadow.
    /// `hits` holds the distances at which the ray from the point towards
    /// the light meets the scene.
    pub fn shadow(&self, hits: &Vec<Scalar>, dist: Scalar) -> (r: bool)
        ensures
            r == nearer_hit(hits@, dist),
    {
        let mut i: usize = 0;
        while i < hits.len()
            invariant
                i <= hits.len(),
                forall|j: int| 0 <= j < i ==> !(#[trigger] hits@[j]).spec_lt(dist),
            decreases hits.len() - i,
        {
            if hits[i].lt(dist) {
                return true;
            }
            i += 1;
        }
        false
    }
}

/// A light that shines from infinitely far away in one direction.
#[derive(Clone, Copy, Debug)]
pub struct DirectionalLight {
    colour: Spectrum,
    direction: Vector,
}

impl DirectionalLight {
    pub closed spec fn spec_colour(&self) -> Spectrum {
        self.colour
    }

    pub closed spec fn spec_direction(&self) -> Vector {
        self.direction
    }

    pub fn new(colour: Spectrum, direction: Vector) -> (r: DirectionalLight)
        ensures
            r.spec_colour() == colour,
            r.spec_direction() == direction,
    {
        DirectionalLight { colour, direction }
    }

    pub fn colour(&self) -> (r: &Spectrum)
        ensures
            *r == self.spec_colour(),
    {
        &self.colour
    }

    #[verifier::when_used_as_spec(spec_direction)]
    pub fn direction(&self) -> (r: Vector)
        ensures
            r == self.spec_direction(),
    {
        self.direction
    }

    /// A directional light has no extent.
    pub fn is_delta(&self) -> (r: bool)
        ensures
            r,
    {
        true
    }

    /// The light that arrives at a point and the direction that it comes
    /// from: the same at every point.
    pub fn sample(&self, p: &Point) -> (r: (Spectrum, Vector))
        ensures
            r == (self.spec_colour(), self.spec_direction().spec_neg()),
    {
        (self.colour, self.direction.neg())
    }

    /// No point lies in shadow from a directional light.
    pub fn shadow(&self, p: &Point) -> (r: bool)
        ensures
            !r,
    {
        false
    }
}

/// A light.
#[derive(Clone, Copy, Debug)]
pub enum Light {
    Point(PointLight),
    Directional(DirectionalLight),
}

impl Light {
    pub open spec fn spec_colour(&self) -> Spectrum {
        match *self {
            Light::Point(l) => l.spec_colour(),
            Light::Directional(l) => l.spec_colour(),
        }
    }

    pub fn colour(&self) -> (r: &Spectrum)
        ensures
            *r == self.spec_colour(),
    {
        match self {
            Light::Point(l) => l.colour(),
            Light::Directional(l) => l.colour(),
        }
    }

    pub fn is_delta(&self) -> (r: bool)
        ensures
            r,
    {
        match self {
            Light::Point(l) => l.is_delta(),
            Light::Directional(l) => l.is_delta(),
        }
    }

    /// What the light itself sends along a direction towards the viewer:
    /// nothing, since neither kind of light has a visible surface.
    pub fn emitted(&self, wi: &Vector) -> (r: Spectrum)
        ensures
            r == (Vector { x: Scalar { bits: 0 }, y: Scalar { bits: 0 }, z: Scalar { bits: 0 } }),
    {
        Vector::zero()
    }

    /// Whether a point at distance `dist` from the light lies in shadow.
    /// `hits` is as for [`PointLight::shadow`]; a directional light does not
    /// look at it.
    pub fn shadow(&self, p: &Point, hits: &Vec<Scalar>, dist: Scalar) -> (r: bool)
        ensures
            r == match *self {
                Light::Point(_) => nearer_hit(hits@, dist),
                Light::Directional(_) => false,
            },
    {
        match self {
            Light::Point(l) => l.shadow(hits, dist),
            Light::Directional(l) => l.shadow(p),
        }
    }
}

} // verus!
