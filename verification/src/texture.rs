//! The colour of a surface as a function of the place on it.

use crate::math::Scalar;
use crate::spectrum::Spectrum;
use vstd::prelude::*;

verus! {

/// A place on a surface, by its two texture coordinates.
pub type Uv = (Scalar, Scalar);

/// A texture that has one colour everywhere.
#[derive(Clone, Copy, Debug)]
pub struct ConstantTexture {
    colour: Spectrum,
}

impl ConstantTexture {
    pub closed spec fn spec_colour(&self) -> Spectrum {
        self.colour
    }

    pub fn new(colour: Spectrum) -> (r: ConstantTexture)
        ensures
            r.spec_colour() == colour,
    {
        ConstantTexture { colour }
    }

    /// The colour at a place, or where there is none.
    pub fn sample(&self, uv: &Option<Uv>) -> (r: Spectrum)
        ensures
            r == self.spec_colour(),
    {
        self.colour
    }
}

/// A texture that takes its colour from a raster of 8-bit RGB pixels, row
/// by row from the top.
#[derive(Debug)]
pub struct ImageTexture {
    width: u32,
    height: u32,
    data: Vec<u8>,
}

impl ImageTexture {
    #[verifier::type_invariant]
    spec fn well_formed(&self) -> bool {
        &&& self.width > 0
        &&& self.height > 0
        &&& self.data@.len() == self.width * self.height * 3
    }

    pub closed spec fn spec_width(&self) -> u32 {
        self.width
    }

    pub closed spec fn spec_height(&self) -> u32 {
        self.height
    }

    /// The bytes of the raster.
    pub closed spec fn spec_data(&self) -> Seq<u8> {
        self.data@
    }

    /// The pixel in column `x` of row `y`, both taken modulo the size of the
    /// raster.
    pub open spec fn spec_pixel(&self, x: u32, y: u32) -> (u8, u8, u8) {
        let at = ((y % self.spec_height()) * self.spec_width() + (x % self.spec_width())) * 3;
        (self.spec_data()[at], self.spec_data()[at + 1], self.spec_data()[at + 2])
    }

    /// A texture over the raster of `width` by `height` pixels in `data`.
    /// There is none where the raster is empty or `data` has another length
    /// than three bytes for each pixel.
    pub fn new(width: u32, height: u32, data: Vec<u8>) -> (r: Option<ImageTexture>)
        ensures
            r.is_some() == (width > 0 && height > 0 && data@.len() == width * height * 3),
            r.is_some() ==> r.unwrap().spec_width() == width && r.unwrap().spec_height() == height
                && r.unwrap().spec_data() == data@,
    {
        if width == 0 || height == 0 {
            return None;
        }
        proof {
            assert(width * height * 3 <= 0xffff_ffff * 0xffff_ffff * 3) by (nonlinear_arith)
                requires
                    0 <= width <= 0xffff_ffff,
                    0 <= height <= 0xffff_ffff,
            ;
        }
        let wanted: u128 = (width as u128) * (height as u128) * 3;
        if data.len() as u128 == wanted {
            Some(ImageTexture { width, height, data })
        } else {
            None
        }
    }

    pub fn width(&self) -> (r: u32)
        ensures
            r == self.spec_width(),
            r > 0,
    {
        proof {
            use_type_invariant(self);
        }
        self.width
    }

    pub fn height(&self) -> (r: u32)
        ensures
            r == self.spec_height(),
            r > 0,
    {
        proof {
            use_type_invariant(self);
        }
        self.height
    }

    /// The pixel at a place, black where there is no place. The place is
    /// given as for [`Self::pixel`].
    pub fn sample(&self, place: &Option<(u32, u32)>) -> (r: (u8, u8, u8))
        ensures
            r == match *place {
                Some((x, y)) => self.spec_pixel(x, y),
                None => (0u8, 0u8, 0u8),
            },
    {
        match *place {
            Some((x, y)) => self.pixel(x, y),
            None => (0, 0, 0),
        }
    }

    /// The pixel that a place falls on. `x` and `y` are the texture
    /// coordinates scaled by the size of the raster and rounded.
    pub fn pixel(&self, x: u32, y: u32) -> (r: (u8, u8, u8))
        ensures
            r == self.spec_pixel(x, y),
    {
        proof {
            use_type_invariant(self);
        }
        let column = (x % self.width) as usize;
        let row = (y % self.height) as usize;
        let w = self.width as usize;
        let n = self.data.len();
        proof {
            assert(row * w + column < self.width * self.height) by (nonlinear_arith)
                requires
                    0 <= row < self.height,
                    0 <= column < self.width,
                    w == self.width,
            ;
            assert((row * w + column) * 3 + 2 < self.data@.len());
        }
        let at = (row * w + column) * 3;
        (self.data[at], self.data[at + 1], self.data[at + 2])
    }
}

/// A texture.
#[derive(Debug)]
pub enum Texture {
    Constant(ConstantTexture),
    Image(ImageTexture),
}

impl Texture {
    /// The colour at a place. `from_image` is the colour of the pixel that
    /// [`ImageTexture::sample`] gives for the place, each channel divided by
    /// 255; only an image texture looks at it.
    pub fn sample(&self, uv: &Option<Uv>, from_image: Spectrum) -> (r: Spectrum)
        ensures
            r == match *self {
                Texture::Constant(t) => t.spec_colour(),
                Texture::Image(_) => from_image,
            },
    {
        match self {
            Texture::Constant(t) => t.sample(uv),
            Texture::Image(_) => from_image,
        }
    }
}

} // verus!
