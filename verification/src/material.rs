//! Surface material parameters for Phong shading.

use vstd::prelude::*;

use crate::fixed::FX_ONE;

verus! {

/// Reflectance parameters of a scene object.  All weights are fixed-point
/// values in `[0, 1]`; `shininess` is the plain integer Phong exponent.
#[derive(Clone, Copy, Debug, PartialEq, Eq, Structural)]
pub struct Material {
    pub ambient: i64,
    pub diffuse: i64,
    pub specular: i64,
    pub shininess: u32,
    pub reflectivity: i64,
}

impl Material {
    /// Weights lie in `[0, 1]` and the Phong exponent is positive.
    pub open spec fn wf(self) -> bool {
        &&& 0 <= self.ambient <= FX_ONE
        &&& 0 <= self.diffuse <= FX_ONE
        &&& 0 <= self.specular <= FX_ONE
        &&& self.shininess >= 1
        &&& 0 <= self.reflectivity <= FX_ONE
    }

    /// A plain diffuse material: quarter ambient, full diffuse, no specular
    /// highlight and no reflection.
    pub fn basic() -> (r: Material)
        ensures
            r == (Material {
                ambient: 16384,
                diffuse: FX_ONE,
                specular: 0,
                shininess: 4,
                reflectivity: 0,
            }),
            r.wf(),
    {
        Material { ambient: 16384, diffuse: FX_ONE, specular: 0, shininess: 4, reflectivity: 0 }
    }
}

impl Default for Material {
    /// The default material is the basic one.
    fn default() -> (r: Material)
        ensures
            r == (Material {
                ambient: 16384,
                diffuse: FX_ONE,
                specular: 0,
                shininess: 4,
                reflectivity: 0,
            }),
            r.wf(),
    {
        Material::basic()
    }
}

} // verus!
