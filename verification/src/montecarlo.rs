//! Sampling: the part of the map from the unit square onto the unit disc
//! that is decided by comparing.
//!
//! The concentric map takes a point of the square `[-1, 1]` by `[-1, 1]` to
//! the disc so that squares around the centre go to circles. The square
//! falls into four wedges, by which of its sides a point is nearest to, and
//! each wedge is mapped by a formula of its own.

use crate::math::Scalar;
use vstd::prelude::*;

verus! {

/// The part of the square that a point lies in.
#[derive(Clone, Copy, Debug, PartialEq, Eq, Structural)]
pub enum DiscRegion {
    /// The centre, which goes to the centre of the disc.
    Centre,
    /// The wedge towards positive x, above the x axis.
    First,
    /// The wedge towards positive x, on or below the x axis, where the
    /// angle is counted on from a full turn.
    FirstBelow,
    /// The wedge towards positive y.
    Second,
    /// The wedge towards negative x.
    Third,
    /// The wedge towards negative y.
    Fourth,
}

/// The region of the point `(sx, sy)`.
pub open spec fn spec_disc_region(sx: Scalar, sy: Scalar) -> DiscRegion {
    if sx.spec_equals(Scalar { bits: 0 }) && sy.spec_equals(Scalar { bits: 0 }) {
        DiscRegion::Centre
    } else if sx.spec_ge(sy.spec_neg()) {
        if sx.spec_gt(sy) {
            if sy.spec_gt(Scalar { bits: 0 }) {
                DiscRegion::First
            } else {
                DiscRegion::FirstBelow
            }
        } else {
            DiscRegion::Second
        }
    } else {
        if sx.spec_le(sy) {
            DiscRegion::Third
        } else {
            DiscRegion::Fourth
        }
    }
}

/// The distance from the centre that the map gives to a point of a region:
/// the coordinate along the axis of the wedge.
pub open spec fn spec_radius(region: DiscRegion, sx: Scalar, sy: Scalar) -> Scalar {
    match region {
        DiscRegion::Centre => Scalar { bits: 0 },
        DiscRegion::First => sx,
        DiscRegion::FirstBelow => sx,
        DiscRegion::Second => sy,
        DiscRegion::Third => sx.spec_neg(),
        DiscRegion::Fourth => sy.spec_neg(),
    }
}

/// See [`spec_disc_region`].
pub fn disc_region(sx: Scalar, sy: Scalar) -> (r: DiscRegion)
    ensures
        r == spec_disc_region(sx, sy),
{
    if sx.equals(Scalar::zero()) && sy.equals(Scalar::zero()) {
        return DiscRegion::Centre;
    }
    if sx.ge(sy.neg()) {
        if sx.gt(sy) {
            if sy.gt(Scalar::zero()) {
                DiscRegion::First
            } else {
                DiscRegion::FirstBelow
            }
        } else {
            DiscRegion::Second
        }
    } else {
        if sx.le(sy) {
            DiscRegion::Third
        } else {
            DiscRegion::Fourth
        }
    }
}

/// See [`spec_radius`].
pub fn radius(region: DiscRegion, sx: Scalar, sy: Scalar) -> (r: Scalar)
    ensures
        r == spec_radius(region, sx, sy),
{
    match region {
        DiscRegion::Centre => Scalar::zero(),
        DiscRegion::First => sx,
        DiscRegion::FirstBelow => sx,
        DiscRegion::Second => sy,
        DiscRegion::Third => sx.neg(),
        DiscRegion::Fourth => sy.neg(),
    }
}

/// Away from the centre, the distance that a region gives to a point of
/// its own is positive and no smaller in size than either coordinate: the
/// quotient of the other coordinate by it, which gives the angle, is
/// defined and lies between -1 and 1.
pub proof fn lemma_radius_dominates(sx: Scalar, sy: Scalar)
    requires
        !sx.spec_is_nan(),
        !sy.spec_is_nan(),
        spec_disc_region(sx, sy) != DiscRegion::Centre,
    ensures
        spec_radius(spec_disc_region(sx, sy), sx, sy).rank() > 0,
        spec_radius(spec_disc_region(sx, sy), sx, sy).rank() >= sx.rank(),
        spec_radius(spec_disc_region(sx, sy), sx, sy).rank() >= -sx.rank(),
        spec_radius(spec_disc_region(sx, sy), sx, sy).rank() >= sy.rank(),
        spec_radius(spec_disc_region(sx, sy), sx, sy).rank() >= -sy.rank(),
{
    crate::math::lemma_neg_reverses(sx, sy);
    crate::math::lemma_neg_reverses(sy, sx);
}

} // verus!
