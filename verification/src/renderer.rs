//! The renderer: the integrator at work on what a ray has hit.

use crate::integrator::Integrator;
use crate::math::{Scalar, Vector};
use crate::spectrum::Spectrum;
use vstd::prelude::*;

verus! {

/// How the light that arrives along a ray is found.
#[derive(Clone, Copy, Debug)]
pub enum Shading {
    /// The ray has left the scene: the light is that of the background.
    Background(Spectrum),
    /// The ray has hit an object: the integrator adds up the light.
    Integrate(Integrator),
}

/// The renderer with one integrator and a black background.
#[derive(Clone, Copy, Debug)]
pub struct StandardRenderer {
    integrator: Integrator,
}

impl StandardRenderer {
    pub closed spec fn spec_integrator(&self) -> Integrator {
        self.integrator
    }

    /// The renderer with the given integrator.
    pub closed spec fn spec_new(integrator: Integrator) -> StandardRenderer {
        StandardRenderer { integrator }
    }

    #[verifier::when_used_as_spec(spec_new)]
    pub fn new(integrator: Integrator) -> (r: StandardRenderer)
        ensures
            r == Self::spec_new(integrator),
            r.spec_integrator() == integrator,
    {
        StandardRenderer { integrator }
    }

    #[verifier::when_used_as_spec(spec_integrator)]
    pub fn integrator(&self) -> (r: Integrator)
        ensures
            r == self.spec_integrator(),
    {
        self.integrator
    }

    /// How the light along a ray is found, by whether the ray has hit an
    /// object: a ray that has not brings no light at all.
    pub fn render(&self, hit: bool) -> (r: Shading)
        ensures
            r == if hit {
                Shading::Integrate(self.spec_integrator())
            } else {
                Shading::Background(
                    Vector { x: Scalar { bits: 0 }, y: Scalar { bits: 0 }, z: Scalar { bits: 0 } },
                )
            },
    {
        if hit {
            Shading::Integrate(self.integrator)
        } else {
            Shading::Background(Vector::zero())
        }
    }
}

} // verus!
