//! Scene objects: implicit-geometry variants (sphere and axis-aligned
//! planes), their distance fields, finite-difference normals, lightmap
//! parameterizations, and the point light.
//!
//! The variant set is closed, so objects are a tagged enum dispatched with
//! `match` rather than open subtyping.

use vstd::prelude::*;

use crate::colour::{bilinear_interpolation, spec_bilerp, Colour, LerpPoint};
use crate::fixed::{
    fx_add, fx_div, fx_max, fx_mul, fx_neg, fx_scale_int, fx_sub, imax, in_fx, spec_div, spec_mul,
    spec_sat, FX_ONE,
};
use crate::material::Material;
use crate::radiosity::{spec_zero_map, Lightmap, MAP_SIZE};
use crate::trig::{fx_asin, fx_atan2, fx_cos, fx_sin, spec_asin, spec_atan2, spec_cos, spec_sin,
    PI_FX, TAU_FX};
use crate::vector::{
    spec_dot, spec_mag, spec_mag_sqd, spec_normalized, spec_vadd, spec_vscale, spec_vsub, sv, Vec3,
};

verus! {

/// Half the finite-difference step used for normals (about 0.001 world
/// units, chosen large enough to survive fixed-point quantization).
pub const NORMAL_STEP: i64 = 64;

/// Gain applied to the finite differences before normalizing, so that a
/// unit-slope field yields a gradient near 1.0.
pub const NORMAL_GAIN: i64 = 512;

/// Fixed-point offset centering a lightmap grid on the origin:
/// `(MAP_SIZE/2 - 0.5)` in fixed point.
pub const MAP_HALF_FX: i64 = 229376;

/// A sphere given by centre and radius.
#[derive(Clone, Debug)]
pub struct Sphere {
    pub position: Vec3,
    pub radius: i64,
    pub material: Material,
    pub colour: Colour,
    pub lightmap: Lightmap,
}

/// A general half-space, `dot(p, normal) - distance`.  Its lightmap field
/// is never exposed: the plain half-space takes no part in the radiosity
/// bake.
#[derive(Clone, Debug)]
pub struct Plane {
    pub normal: Vec3,
    pub distance: i64,
    pub material: Material,
    pub colour: Colour,
    pub lightmap: Lightmap,
}

/// The half-space `dir * (p.x - x) >= 0`.
#[derive(Clone, Debug)]
pub struct XPlane {
    pub x: i64,
    pub dir: i64,
    pub material: Material,
    pub colour: Colour,
    pub lightmap: Lightmap,
}

/// The half-space `dir * (p.y - y) >= 0`.
#[derive(Clone, Debug)]
pub struct YPlane {
    pub y: i64,
    pub dir: i64,
    pub material: Material,
    pub colour: Colour,
    pub lightmap: Lightmap,
}

/// The half-space `dir * (p.z - z) >= 0`.
#[derive(Clone, Debug)]
pub struct ZPlane {
    pub z: i64,
    pub dir: i64,
    pub material: Material,
    pub colour: Colour,
    pub lightmap: Lightmap,
}

/// The single point light: a position and a scalar intensity that
/// multiplies inverse-square falloff.
#[derive(Clone, Copy, Debug)]
pub struct PointLight {
    pub position: Vec3,
    pub intensity: i64,
}

impl XPlane {
    /// A new x-aligned plane with an all-zero lightmap.
    pub fn new(x: i64, dir: i64, material: Material, colour: Colour) -> (r: XPlane)
        requires
            in_fx(x as int),
            dir == FX_ONE || dir == -FX_ONE,
            material.wf(),
            colour.wf(),
        ensures
            r.x == x,
            r.dir == dir,
            r.material == material,
            r.colour == colour,
            r.lightmap.sample_map@ =~= spec_zero_map(),
            r.wf(),
    {
        XPlane { x, dir, material, colour, lightmap: Lightmap::new() }
    }

    /// Well-formed fields; `dir` is a unit sign.
    pub open spec fn wf(self) -> bool {
        &&& in_fx(self.x as int)
        &&& (self.dir == FX_ONE || self.dir == -FX_ONE)
        &&& self.material.wf()
        &&& self.colour.wf()
        &&& self.lightmap.wf()
    }
}

impl YPlane {
    /// A new y-aligned plane with an all-zero lightmap.
    pub fn new(y: i64, dir: i64, material: Material, colour: Colour) -> (r: YPlane)
        requires
            in_fx(y as int),
            dir == FX_ONE || dir == -FX_ONE,
            material.wf(),
            colour.wf(),
        ensures
            r.y == y,
            r.dir == dir,
            r.material == material,
            r.colour == colour,
            r.lightmap.sample_map@ =~= spec_zero_map(),
            r.wf(),
    {
        YPlane { y, dir, material, colour, lightmap: Lightmap::new() }
    }

    /// Well-formed fields; `dir` is a unit sign.
    pub open spec fn wf(self) -> bool {
        &&& in_fx(self.y as int)
        &&& (self.dir == FX_ONE || self.dir == -FX_ONE)
        &&& self.material.wf()
        &&& self.colour.wf()
        &&& self.lightmap.wf()
    }
}

impl ZPlane {
    /// A new z-aligned plane with an all-zero lightmap.
    pub fn new(z: i64, dir: i64, material: Material, colour: Colour) -> (r: ZPlane)
        requires
            in_fx(z as int),
            dir == FX_ONE || dir == -FX_ONE,
            material.wf(),
            colour.wf(),
        ensures
            r.z == z,
            r.dir == dir,
            r.material == material,
            r.colour == colour,
            r.lightmap.sample_map@ =~= spec_zero_map(),
            r.wf(),
    {
        ZPlane { z, dir, material, colour, lightmap: Lightmap::new() }
    }

    /// Well-formed fields; `dir` is a unit sign.
    pub open spec fn wf(self) -> bool {
        &&& in_fx(self.z as int)
        &&& (self.dir == FX_ONE || self.dir == -FX_ONE)
        &&& self.material.wf()
        &&& self.colour.wf()
        &&& self.lightmap.wf()
    }
}

impl PointLight {
    /// The light's position.
    pub fn get_position(&self) -> (r: Vec3)
        ensures
            r == self.position,
    {
        self.position
    }

    /// The light's intensity.
    pub fn get_intensity(&self) -> (r: i64)
        ensures
            r == self.intensity,
    {
        self.intensity
    }

    /// Well-formed fields.
    pub open spec fn wf(self) -> bool {
        self.position.wf() && in_fx(self.intensity as int) && self.intensity >= 0
    }
}

/// A scene object: one of the closed set of distance-field variants.
pub enum SceneObject {
    Sphere(Sphere),
    Plane(Plane),
    XPlane(XPlane),
    YPlane(YPlane),
    ZPlane(ZPlane),
}

/// The signed distance from `p` to the object's surface.
pub open spec fn spec_sdf(o: SceneObject, p: Vec3) -> int {
    match o {
        SceneObject::Sphere(s) => spec_sat(spec_mag(spec_vsub(p, s.position)) - s.radius),
        SceneObject::Plane(pl) => spec_sat(spec_dot(p, pl.normal) - pl.distance),
        SceneObject::XPlane(pl) => spec_mul(pl.dir as int, spec_sat(p.x - pl.x)),
        SceneObject::YPlane(pl) => spec_mul(pl.dir as int, spec_sat(p.y - pl.y)),
        SceneObject::ZPlane(pl) => spec_mul(pl.dir as int, spec_sat(p.z - pl.z)),
    }
}

/// The object's base reflectance (constant over its surface).
pub open spec fn spec_colour_of(o: SceneObject) -> Vec3 {
    match o {
        SceneObject::Sphere(s) => s.colour,
        SceneObject::Plane(pl) => pl.colour,
        SceneObject::XPlane(pl) => pl.colour,
        SceneObject::YPlane(pl) => pl.colour,
        SceneObject::ZPlane(pl) => pl.colour,
    }
}

/// The object's material.
pub open spec fn spec_material_of(o: SceneObject) -> Material {
    match o {
        SceneObject::Sphere(s) => s.material,
        SceneObject::Plane(pl) => pl.material,
        SceneObject::XPlane(pl) => pl.material,
        SceneObject::YPlane(pl) => pl.material,
        SceneObject::ZPlane(pl) => pl.material,
    }
}

/// Whether the object carries a lightmap.
pub open spec fn spec_has_lightmap(o: SceneObject) -> bool {
    !(o matches SceneObject::Plane(_))
}

/// The object's lightmap grid (empty for the plain half-space).
pub open spec fn spec_lightmap_view(o: SceneObject) -> Seq<Vec3> {
    match o {
        SceneObject::Sphere(s) => s.lightmap.sample_map@,
        SceneObject::Plane(_) => Seq::empty(),
        SceneObject::XPlane(pl) => pl.lightmap.sample_map@,
        SceneObject::YPlane(pl) => pl.lightmap.sample_map@,
        SceneObject::ZPlane(pl) => pl.lightmap.sample_map@,
    }
}

/// Two objects agree on everything except possibly their lightmap.
pub open spec fn spec_same_but_lightmap(a: SceneObject, b: SceneObject) -> bool {
    match (a, b) {
        (SceneObject::Sphere(x), SceneObject::Sphere(y)) => {
            x.position == y.position && x.radius == y.radius && x.material == y.material
                && x.colour == y.colour
        },
        (SceneObject::Plane(x), SceneObject::Plane(y)) => x == y,
        (SceneObject::XPlane(x), SceneObject::XPlane(y)) => {
            x.x == y.x && x.dir == y.dir && x.material == y.material && x.colour == y.colour
        },
        (SceneObject::YPlane(x), SceneObject::YPlane(y)) => {
            x.y == y.y && x.dir == y.dir && x.material == y.material && x.colour == y.colour
        },
        (SceneObject::ZPlane(x), SceneObject::ZPlane(y)) => {
            x.z == y.z && x.dir == y.dir && x.material == y.material && x.colour == y.colour
        },
        _ => false,
    }
}

/// The finite-difference gradient of the distance field at `p`, scaled by
/// `NORMAL_GAIN`.
pub open spec fn spec_gradient(o: SceneObject, p: Vec3) -> Vec3 {
    let xs = Vec3 { x: NORMAL_STEP, y: 0, z: 0 };
    let ys = Vec3 { x: 0, y: NORMAL_STEP, z: 0 };
    let zs = Vec3 { x: 0, y: 0, z: NORMAL_STEP };
    sv(
        spec_sat(
            spec_sat(spec_sdf(o, spec_vadd(p, xs)) - spec_sdf(o, spec_vsub(p, xs)))
                * NORMAL_GAIN,
        ),
        spec_sat(
            spec_sat(spec_sdf(o, spec_vadd(p, ys)) - spec_sdf(o, spec_vsub(p, ys)))
                * NORMAL_GAIN,
        ),
        spec_sat(
            spec_sat(spec_sdf(o, spec_vadd(p, zs)) - spec_sdf(o, spec_vsub(p, zs)))
                * NORMAL_GAIN,
        ),
    )
}

/// The surface normal at `p`: the normalized finite-difference gradient
/// (the zero vector where the gradient vanishes).
pub open spec fn spec_normal(o: SceneObject, p: Vec3) -> Vec3 {
    spec_normalized(spec_gradient(o, p))
}

/// The world position of lightmap cell `(u, v)` on the object.
pub open spec fn spec_sample_pos(o: SceneObject, u: int, v: int) -> Vec3 {
    match o {
        SceneObject::Sphere(s) => {
            let theta = spec_mul(16384 * u - 65536, PI_FX as int);
            let phi = spec_mul(8192 * v - 32768, PI_FX as int);
            let dir = sv(
                spec_mul(spec_cos(phi), spec_sin(theta)),
                spec_sin(phi),
                -spec_mul(spec_cos(phi), spec_cos(theta)),
            );
            spec_vadd(s.position, spec_vscale(spec_normalized(dir), s.radius as int))
        },
        SceneObject::Plane(_) => sv(0, 0, 0),
        SceneObject::XPlane(pl) => sv(
            pl.x as int,
            65536 * u - MAP_HALF_FX,
            65536 * v - MAP_HALF_FX,
        ),
        SceneObject::YPlane(pl) => sv(
            65536 * u - MAP_HALF_FX,
            pl.y as int,
            65536 * v - MAP_HALF_FX,
        ),
        SceneObject::ZPlane(pl) => sv(
            65536 * u - MAP_HALF_FX,
            65536 * v - MAP_HALF_FX,
            pl.z as int,
        ),
    }
}

/// The fractional lightmap coordinates of the world position `p` on the
/// object.
pub open spec fn spec_sample_uv(o: SceneObject, p: Vec3) -> (int, int) {
    match o {
        SceneObject::Sphere(s) => {
            let n = spec_normalized(spec_vsub(p, s.position));
            let u01 = spec_sat(32768 + spec_div(spec_atan2(n.x as int, -n.z as int), TAU_FX as int));
            let v01 = spec_sat(32768 + spec_div(spec_asin(n.y as int), PI_FX as int));
            (spec_sat(u01 * 8), spec_sat(v01 * 8))
        },
        SceneObject::Plane(_) => (0, 0),
        SceneObject::XPlane(_) => (spec_sat(p.y + MAP_HALF_FX), spec_sat(p.z + MAP_HALF_FX)),
        SceneObject::YPlane(_) => (spec_sat(p.x + MAP_HALF_FX), spec_sat(p.z + MAP_HALF_FX)),
        SceneObject::ZPlane(_) => (spec_sat(p.x + MAP_HALF_FX), spec_sat(p.y + MAP_HALF_FX)),
    }
}

/// The lightmap cell under a fractional coordinate, clamped to the grid.
pub open spec fn spec_floor_cell(u: int) -> int {
    let f = imax(0, u) / FX_ONE as int;
    if f > 7 {
        7
    } else {
        f
    }
}

/// The next cell index, clamped to the grid edge.
pub open spec fn spec_inc(i: int) -> int {
    if i >= 7 {
        7
    } else {
        i + 1
    }
}

/// The previous cell index, clamped to zero.
pub open spec fn spec_dec(i: int) -> int {
    if i <= 0 {
        0
    } else {
        i - 1
    }
}

/// The bilinearly interpolated lightmap value at world position `p`,
/// including the window shifts that avoid blending in never-baked
/// (zero-magnitude) patches.
pub open spec fn spec_sample_lightmap(o: SceneObject, p: Vec3) -> Vec3 {
    let uv = spec_sample_uv(o, p);
    let u = uv.0;
    let v = uv.1;
    let u0 = spec_floor_cell(u);
    let v0 = spec_floor_cell(v);
    let u1 = if u0 + 1 >= MAP_SIZE { u0 } else { u0 + 1 };
    let v1 = if v0 + 1 >= MAP_SIZE { v0 } else { v0 + 1 };
    let lm = spec_lightmap_view(o);
    let z00 = spec_mag_sqd(lm[u0 * 8 + v0]) == 0;
    let z01 = spec_mag_sqd(lm[u0 * 8 + v1]) == 0;
    let z10 = spec_mag_sqd(lm[u1 * 8 + v0]) == 0;
    let z11 = spec_mag_sqd(lm[u1 * 8 + v1]) == 0;
    let shifted = if z00 {
        let va = if z10 {
            (spec_inc(v0), spec_inc(v1))
        } else if z11 {
            (spec_dec(v0), spec_dec(v1))
        } else {
            (v0, v1)
        };
        let ua = if z01 {
            (spec_inc(u0), spec_inc(u1))
        } else if z11 {
            (spec_dec(u0), spec_dec(u1))
        } else {
            (u0, u1)
        };
        (ua.0, va.0, ua.1, va.1, true)
    } else {
        let u1a = if z10 { spec_dec(u1) } else { u1 };
        let v1a = if z01 { spec_dec(v1) } else { v1 };
        (u0, v0, u1a, v1a, z10 || z01)
    };
    let u0a = shifted.0;
    let v0a = shifted.1;
    let u1a = shifted.2;
    let v1a = shifted.3;
    let s00 = lm[u0a * 8 + v0a];
    let s01 = lm[u0a * 8 + v1a];
    let s10 = lm[u1a * 8 + v0a];
    let s11 = lm[u1a * 8 + v1a];
    let u1b = if u0a == u1a { u1a + 1 } else { u1a };
    let v1b = if v0a == v1a { v1a + 1 } else { v1a };
    let pts = seq![
        ((u0a * 65536) as i64, (v0a * 65536) as i64, s00),
        ((u0a * 65536) as i64, (v1b * 65536) as i64, s01),
        ((u1b * 65536) as i64, (v0a * 65536) as i64, s10),
        ((u1b * 65536) as i64, (v1b * 65536) as i64, s11),
    ];
    spec_bilerp(pts, u, v)
}

fn floor_cell(u: i64) -> (r: usize)
    requires
        in_fx(u as int),
    ensures
        r == spec_floor_cell(u as int),
        r <= 7,
{
    let c: i64 = fx_max(u, 0);
    let f: i64 = crate::fixed::fx_floor(c);
    if f > 7 {
        7
    } else {
        f as usize
    }
}

fn inc_cell(i: usize) -> (r: usize)
    requires
        i <= 7,
    ensures
        r == spec_inc(i as int),
        r <= 7,
{
    if i >= 7 {
        7
    } else {
        i + 1
    }
}

fn dec_cell(i: usize) -> (r: usize)
    requires
        i <= 7,
    ensures
        r == spec_dec(i as int),
        r <= 7,
{
    if i == 0 {
        0
    } else {
        i - 1
    }
}

impl SceneObject {
    /// Every variant's fields are well formed.
    pub open spec fn wf(self) -> bool {
        match self {
            SceneObject::Sphere(s) => {
                s.position.wf() && in_fx(s.radius as int) && s.radius > 0 && s.material.wf()
                    && s.colour.wf() && s.lightmap.wf()
            },
            SceneObject::Plane(pl) => {
                pl.normal.wf() && in_fx(pl.distance as int) && pl.material.wf() && pl.colour.wf()
                    && pl.lightmap.wf()
            },
            SceneObject::XPlane(pl) => pl.wf(),
            SceneObject::YPlane(pl) => pl.wf(),
            SceneObject::ZPlane(pl) => pl.wf(),
        }
    }

    /// The signed distance from `position` to this object's surface
    /// (negative inside).
    pub fn sdf(&self, position: Vec3) -> (r: i64)
        requires
            self.wf(),
            position.wf(),
        ensures
            r == spec_sdf(*self, position),
            in_fx(r as int),
    {
        match self {
            SceneObject::Sphere(s) => fx_sub(position.sub(s.position).mag(), s.radius),
            SceneObject::Plane(pl) => fx_sub(position.dot(pl.normal), pl.distance),
            SceneObject::XPlane(pl) => fx_mul(pl.dir, fx_sub(position.x(), pl.x)),
            SceneObject::YPlane(pl) => fx_mul(pl.dir, fx_sub(position.y(), pl.y)),
            SceneObject::ZPlane(pl) => fx_mul(pl.dir, fx_sub(position.z(), pl.z)),
        }
    }

    /// The base reflectance at a surface point (constant per object).
    pub fn colour(&self, _position: Vec3) -> (r: Colour)
        requires
            self.wf(),
        ensures
            r == spec_colour_of(*self),
            r.wf(),
    {
        match self {
            SceneObject::Sphere(s) => s.colour,
            SceneObject::Plane(pl) => pl.colour,
            SceneObject::XPlane(pl) => pl.colour,
            SceneObject::YPlane(pl) => pl.colour,
            SceneObject::ZPlane(pl) => pl.colour,
        }
    }

    /// The object's material.
    pub fn material(&self) -> (r: Material)
        requires
            self.wf(),
        ensures
            r == spec_material_of(*self),
            r.wf(),
    {
        match self {
            SceneObject::Sphere(s) => s.material,
            SceneObject::Plane(pl) => pl.material,
            SceneObject::XPlane(pl) => pl.material,
            SceneObject::YPlane(pl) => pl.material,
            SceneObject::ZPlane(pl) => pl.material,
        }
    }

    /// Whether this object takes part in the radiosity bounce pass.
    pub fn radiosity_collide(&self) -> (r: bool)
        ensures
            r == spec_has_lightmap(*self),
    {
        match self {
            SceneObject::Plane(_) => false,
            _ => true,
        }
    }

    /// The object's lightmap, if it carries one.
    pub fn get_lightmap(&self) -> (r: Option<&Lightmap>)
        requires
            self.wf(),
        ensures
            match r {
                Option::Some(l) => {
                    spec_has_lightmap(*self) && l.sample_map@ == spec_lightmap_view(*self)
                        && l.wf()
                },
                Option::None => !spec_has_lightmap(*self),
            },
    {
        match self {
            SceneObject::Sphere(s) => Option::Some(&s.lightmap),
            SceneObject::Plane(_) => Option::None,
            SceneObject::XPlane(pl) => Option::Some(&pl.lightmap),
            SceneObject::YPlane(pl) => Option::Some(&pl.lightmap),
            SceneObject::ZPlane(pl) => Option::Some(&pl.lightmap),
        }
    }

    /// Replace the object's lightmap (no effect on a plain half-space).
    pub fn set_lightmap(&mut self, new_lightmap: Lightmap)
        ensures
            spec_same_but_lightmap(*old(self), *final(self)),
            spec_has_lightmap(*old(self)) ==> spec_lightmap_view(*final(self))
                == new_lightmap.sample_map@,
            !spec_has_lightmap(*old(self)) ==> *final(self) == *old(self),
            old(self).wf() && new_lightmap.wf() ==> final(self).wf(),
    {
        match self {
            SceneObject::Sphere(s) => s.lightmap = new_lightmap,
            SceneObject::Plane(_) => (),
            SceneObject::XPlane(pl) => pl.lightmap = new_lightmap,
            SceneObject::YPlane(pl) => pl.lightmap = new_lightmap,
            SceneObject::ZPlane(pl) => pl.lightmap = new_lightmap,
        }
    }

    /// Reset the object's lightmap to all zero.
    pub fn clear_lightmap(&mut self)
        ensures
            spec_same_but_lightmap(*old(self), *final(self)),
            spec_has_lightmap(*old(self)) ==> spec_lightmap_view(*final(self))
                =~= spec_zero_map(),
            !spec_has_lightmap(*old(self)) ==> *final(self) == *old(self),
            old(self).wf() ==> final(self).wf(),
    {
        match self {
            SceneObject::Sphere(s) => s.lightmap = Lightmap::new(),
            SceneObject::Plane(_) => (),
            SceneObject::XPlane(pl) => pl.lightmap = Lightmap::new(),
            SceneObject::YPlane(pl) => pl.lightmap = Lightmap::new(),
            SceneObject::ZPlane(pl) => pl.lightmap = Lightmap::new(),
        }
    }

    /// The surface normal at `position`: a centred finite difference of the
    /// distance field along each axis, scaled and normalized.
    pub fn calculate_normal(&self, position: Vec3) -> (r: Vec3)
        requires
            self.wf(),
            position.wf(),
        ensures
            r == spec_normal(*self, position),
            r.wf(),
    {
        let xs: Vec3 = Vec3 { x: NORMAL_STEP, y: 0, z: 0 };
        let ys: Vec3 = Vec3 { x: 0, y: NORMAL_STEP, z: 0 };
        let zs: Vec3 = Vec3 { x: 0, y: 0, z: NORMAL_STEP };
        let gx: i64 = fx_scale_int(
            fx_sub(self.sdf(position.add(xs)), self.sdf(position.sub(xs))),
            NORMAL_GAIN,
        );
        let gy: i64 = fx_scale_int(
            fx_sub(self.sdf(position.add(ys)), self.sdf(position.sub(ys))),
            NORMAL_GAIN,
        );
        let gz: i64 = fx_scale_int(
            fx_sub(self.sdf(position.add(zs)), self.sdf(position.sub(zs))),
            NORMAL_GAIN,
        );
        let g: Vec3 = Vec3 { x: gx, y: gy, z: gz };
        g.normalized()
    }

    /// The world position of lightmap cell `(u, v)` on this object.
    pub fn get_sample_pos(&self, u: usize, v: usize) -> (r: Vec3)
        requires
            self.wf(),
            u < MAP_SIZE,
            v < MAP_SIZE,
        ensures
            r == spec_sample_pos(*self, u as int, v as int),
            r.wf(),
    {
        match self {
            SceneObject::Sphere(s) => {
                let a: i64 = 16384 * (u as i64) - 65536;
                let b: i64 = 8192 * (v as i64) - 32768;
                let theta: i64 = fx_mul(a, PI_FX);
                let phi: i64 = fx_mul(b, PI_FX);
                let ct: i64 = fx_cos(theta);
                let st: i64 = fx_sin(theta);
                let cp: i64 = fx_cos(phi);
                let sp: i64 = fx_sin(phi);
                let dir: Vec3 = Vec3 {
                    x: fx_mul(cp, st),
                    y: sp,
                    z: fx_neg(fx_mul(cp, ct)),
                };
                let n: Vec3 = dir.normalized();
                s.position.add(n.mul_scalar(s.radius))
            },
            SceneObject::Plane(_) => Vec3 { x: 0, y: 0, z: 0 },
            SceneObject::XPlane(pl) => {
                let a: i64 = 65536 * (u as i64) - MAP_HALF_FX;
                let b: i64 = 65536 * (v as i64) - MAP_HALF_FX;
                Vec3::new(pl.x, a, b)
            },
            SceneObject::YPlane(pl) => {
                let a: i64 = 65536 * (u as i64) - MAP_HALF_FX;
                let b: i64 = 65536 * (v as i64) - MAP_HALF_FX;
                Vec3::new(a, pl.y, b)
            },
            SceneObject::ZPlane(pl) => {
                let a: i64 = 65536 * (u as i64) - MAP_HALF_FX;
                let b: i64 = 65536 * (v as i64) - MAP_HALF_FX;
                Vec3::new(a, b, pl.z)
            },
        }
    }

    /// The fractional lightmap coordinates of the world position `pos` on
    /// this object.
    pub fn sample_uv_from_pos(&self, pos: Vec3) -> (r: (i64, i64))
        requires
            self.wf(),
            pos.wf(),
        ensures
            r.0 == spec_sample_uv(*self, pos).0,
            r.1 == spec_sample_uv(*self, pos).1,
            in_fx(r.0 as int),
            in_fx(r.1 as int),
    {
        match self {
            SceneObject::Sphere(s) => {
                let n: Vec3 = pos.sub(s.position).normalized();
                let u01: i64 = fx_add(32768, fx_div(fx_atan2(n.x(), fx_neg(n.z())), TAU_FX));
                let v01: i64 = fx_add(32768, fx_div(fx_asin(n.y()), PI_FX));
                (fx_scale_int(u01, 8), fx_scale_int(v01, 8))
            },
            SceneObject::Plane(_) => (0, 0),
            SceneObject::XPlane(_) => (fx_add(pos.y(), MAP_HALF_FX), fx_add(pos.z(), MAP_HALF_FX)),
            SceneObject::YPlane(_) => (fx_add(pos.x(), MAP_HALF_FX), fx_add(pos.z(), MAP_HALF_FX)),
            SceneObject::ZPlane(_) => (fx_add(pos.x(), MAP_HALF_FX), fx_add(pos.y(), MAP_HALF_FX)),
        }
    }

    fn lightmap_ref(&self) -> (r: &Lightmap)
        requires
            self.wf(),
            spec_has_lightmap(*self),
        ensures
            r.sample_map@ == spec_lightmap_view(*self),
            r.wf(),
    {
        match self {
            SceneObject::Sphere(s) => &s.lightmap,
            SceneObject::Plane(pl) => &pl.lightmap,
            SceneObject::XPlane(pl) => &pl.lightmap,
            SceneObject::YPlane(pl) => &pl.lightmap,
            SceneObject::ZPlane(pl) => &pl.lightmap,
        }
    }

    /// Sample this object's lightmap at a world position with bilinear
    /// interpolation, shifting the sampling window away from never-baked
    /// (zero) patches first.
    pub fn sample_lightmap(&self, pos: Vec3) -> (r: Colour)
        requires
            self.wf(),
            pos.wf(),
            spec_has_lightmap(*self),
        ensures
            r == spec_sample_lightmap(*self, pos),
            r.wf(),
    {
        let uv: (i64, i64) = self.sample_uv_from_pos(pos);
        let u: i64 = uv.0;
        let v: i64 = uv.1;
        let mut u0: usize = floor_cell(u);
        let mut v0: usize = floor_cell(v);
        let mut u1: usize = if u0 + 1 >= MAP_SIZE {
            u0
        } else {
            u0 + 1
        };
        let mut v1: usize = if v0 + 1 >= MAP_SIZE {
            v0
        } else {
            v0 + 1
        };
        let lightmap: &Lightmap = self.lightmap_ref();
        let s00: Colour = lightmap.get(u0, v0);
        let s01: Colour = lightmap.get(u0, v1);
        let s10: Colour = lightmap.get(u1, v0);
        let s11: Colour = lightmap.get(u1, v1);
        let z00: bool = s00.mag_sqd() == 0;
        let z01: bool = s01.mag_sqd() == 0;
        let z10: bool = s10.mag_sqd() == 0;
        let z11: bool = s11.mag_sqd() == 0;
        let mut resample: bool = false;
        if z00 {
            resample = true;
            if z10 {
                v0 = inc_cell(v0);
                v1 = inc_cell(v1);
            } else if z11 {
                v0 = dec_cell(v0);
                v1 = dec_cell(v1);
            }
            if z01 {
                u0 = inc_cell(u0);
                u1 = inc_cell(u1);
            } else if z11 {
                u0 = dec_cell(u0);
                u1 = dec_cell(u1);
            }
        } else {
            if z10 {
                resample = true;
                u1 = dec_cell(u1);
            }
            if z01 {
                resample = true;
                v1 = dec_cell(v1);
            }
        }
        let t00: Colour = if resample {
            lightmap.get(u0, v0)
        } else {
            s00
        };
        let t01: Colour = if resample {
            lightmap.get(u0, v1)
        } else {
            s01
        };
        let t10: Colour = if resample {
            lightmap.get(u1, v0)
        } else {
            s10
        };
        let t11: Colour = if resample {
            lightmap.get(u1, v1)
        } else {
            s11
        };
        let u1b: usize = if u0 == u1 {
            u1 + 1
        } else {
            u1
        };
        let v1b: usize = if v0 == v1 {
            v1 + 1
        } else {
            v1
        };
        let points: [LerpPoint; 4] = [
            (u0 as i64 * 65536, v0 as i64 * 65536, t00),
            (u0 as i64 * 65536, v1b as i64 * 65536, t01),
            (u1b as i64 * 65536, v0 as i64 * 65536, t10),
            (u1b as i64 * 65536, v1b as i64 * 65536, t11),
        ];
        bilinear_interpolation(u, v, &points)
    }
}

} // verus!
