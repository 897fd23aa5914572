//! Views.

use crate::renderer::StandardRenderer;
use vstd::prelude::*;

verus! {

/// One image to render: through which camera, with how many samples for
/// each pixel, how deep, and how.
#[derive(Clone, Copy, Debug)]
pub struct View {
    /// The index of the camera among the cameras of the description.
    pub camera: usize,
    pub samples: u32,
    pub depth: i32,
    pub renderer: StandardRenderer,
}

impl View {
    pub fn new(camera: usize, samples: u32, depth: i32, renderer: StandardRenderer) -> (r: View)
        ensures
            r == (View { camera, samples, depth, renderer }),
    {
        View { camera, samples, depth, renderer }
    }
}

} // verus!
