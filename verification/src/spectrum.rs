//! Colour.

use crate::math::Vector;
use vstd::prelude::*;

verus! {

/// Radiance or reflectance in the red, green and blue channels, held in the
/// `x`, `y` and `z` components.
pub type Spectrum = Vector;

} // verus!
