//! Decorative textures: a decoded RGB image sampled by tiled fixed-point
//! UV coordinates.  Decoding image files is the caller's business; the
//! texture itself holds plain linear colours.

use vstd::prelude::*;

use crate::colour::Colour;
use crate::fixed::{fx_abs, fx_floor, fx_mul, iabs, in_fx, spec_mul, FX_ONE};
use crate::vector::Vec3;

verus! {

/// A row-major grid of linear colours with tiling UV scale factors.
pub struct Texture {
    pub image: Vec<Colour>,
    pub width: u32,
    pub height: u32,
    pub uscale: i64,
    pub vscale: i64,
}

/// The texel chosen by one tiled axis: the integer part of the scaled
/// coordinate's absolute value, wrapped by the image extent.
pub open spec fn spec_texel(c: int, scale: int, extent: int) -> int {
    (iabs(spec_mul(c, scale)) / FX_ONE as int) % extent
}

impl Texture {
    /// A non-empty image whose buffer matches its extents, with
    /// well-formed colours and scales.
    pub open spec fn wf(self) -> bool {
        &&& 1 <= self.width <= 32768
        &&& 1 <= self.height <= 32768
        &&& self.image@.len() == self.width as int * self.height as int
        &&& forall|i: int| 0 <= i < self.image@.len() ==> (#[trigger] self.image@[i]).wf()
        &&& in_fx(self.uscale as int)
        &&& in_fx(self.vscale as int)
    }

    /// The colour stored at texel `(x, y)`.
    pub open spec fn texel_at(self, x: int, y: int) -> Vec3 {
        self.image@[x + y * self.width]
    }

    /// Wrap decoded image data into a texture.
    pub fn new(image: Vec<Colour>, width: u32, height: u32, uscale: i64, vscale: i64) -> (r:
        Texture)
        requires
            1 <= width <= 32768,
            1 <= height <= 32768,
            image@.len() == width as int * height as int,
            forall|i: int| 0 <= i < image@.len() ==> (#[trigger] image@[i]).wf(),
            in_fx(uscale as int),
            in_fx(vscale as int),
        ensures
            r.wf(),
            r.width == width,
            r.height == height,
            r.uscale == uscale,
            r.vscale == vscale,
            forall|x: int, y: int|
                0 <= x < width && 0 <= y < height ==> #[trigger] r.texel_at(x, y) == image@[x + y
                    * width],
    {
        Texture { image, width, height, uscale, vscale }
    }

    /// Sample the texture at a fixed-point UV coordinate, tiling by the
    /// scaled image extents.
    pub fn sample(&self, u: i64, v: i64) -> (r: Colour)
        requires
            self.wf(),
            in_fx(u as int),
            in_fx(v as int),
        ensures
            r == self.texel_at(
                spec_texel(u as int, self.uscale as int, self.width as int),
                spec_texel(v as int, self.vscale as int, self.height as int),
            ),
            r.wf(),
    {
        let x: u64 = fx_floor(fx_abs(fx_mul(u, self.uscale))) as u64 % self.width as u64;
        let y: u64 = fx_floor(fx_abs(fx_mul(v, self.vscale))) as u64 % self.height as u64;
        proof {
            assert(x as int == spec_texel(u as int, self.uscale as int, self.width as int));
            assert(y as int == spec_texel(v as int, self.vscale as int, self.height as int));
            assert(x < self.width && y < self.height);
            assert((x as int) + (y as int) * (self.width as int) < (self.width as int) * (
            self.height as int) && (y as int) * (self.width as int) <= 1073741824)
                by (nonlinear_arith)
                requires
                    (x as int) < (self.width as int),
                    (y as int) < (self.height as int),
                    1 <= self.width <= 32768,
                    1 <= self.height <= 32768;
            assert((self.width as int) * (self.height as int) <= 1073741824) by (nonlinear_arith)
                requires 1 <= self.width <= 32768 && 1 <= self.height <= 32768;
        }
        let i: usize = (x + y * self.width as u64) as usize;
        self.image[i]
    }
}

} // verus!
