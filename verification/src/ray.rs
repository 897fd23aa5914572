//! Rays.

use crate::math::{Point, Scalar, Vector};
use vstd::prelude::*;

verus! {

/// The encoding of `0.000000000001`, the distance by which a secondary ray
/// starts off the surface that it leaves, and below which a ray does not
/// see a surface. Rounding puts the start of a ray that leaves a surface a
/// little to one or the other side of it; without the distance the ray
/// would now and then hit the surface that it has just left.
pub const RAY_OFFSET_BITS: u64 = 0x3d71_9799_812d_ea11;

/// A half line from `orig` along `dir`, with the number of bounces that led
/// to it.
#[derive(Clone, Copy, Debug)]
pub struct Ray {
    pub orig: Point,
    pub dir: Vector,
    pub depth: i32,
}

impl Ray {
    /// A ray that no bounce has led to.
    pub fn new(orig: Point, dir: Vector) -> (r: Ray)
        ensures
            r == (Ray { orig, dir, depth: 0 }),
    {
        Self::new_with_depth(orig, dir, 0)
    }

    pub fn new_with_depth(orig: Point, dir: Vector, depth: i32) -> (r: Ray)
        ensures
            r == (Ray { orig, dir, depth }),
    {
        Ray { orig, dir, depth }
    }

    pub fn orig(&self) -> (r: &Point)
        ensures
            *r == self.orig,
    {
        &self.orig
    }

    pub fn dir(&self) -> (r: &Vector)
        ensures
            *r == self.dir,
    {
        &self.dir
    }

    /// The distance of [`RAY_OFFSET_BITS`].
    pub fn offset() -> (r: Scalar)
        ensures
            r.bits == RAY_OFFSET_BITS,
    {
        Scalar::from_bits(RAY_OFFSET_BITS)
    }

    /// The direction towards the origin of the ray, which is the direction
    /// that light leaves a surface in when it travels back along the ray.
    pub fn outgoing(&self) -> (r: Vector)
        ensures
            r == self.dir.spec_neg(),
    {
        self.dir.neg()
    }
}

} // verus!
