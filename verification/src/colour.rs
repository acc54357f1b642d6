//! Colours, the tone-mapping curve, Phong direct lighting and bilinear
//! interpolation of lightmap samples.

use vstd::prelude::*;

use crate::fixed::{
    fx_add, fx_div, fx_max, fx_min, fx_mul, fx_powi, fx_sub, imax, imin, in_fx, spec_div,
    spec_mul, spec_powi, spec_sat, FX_LIM, FX_ONE,
};
use crate::material::Material;
use crate::vector::{spec_dot, spec_reflect, sv, Vec3};

verus! {

/// Radiance and reflectance values are vectors of three fixed-point
/// channels.
pub type Colour = Vec3;

/// One output pixel, 8 bits per channel.
#[derive(Clone, Copy, Debug, PartialEq, Eq, Structural)]
pub struct Pixel {
    pub r: u8,
    pub g: u8,
    pub b: u8,
    pub a: u8,
}

/// The linear value of one 8-bit sRGB-ish channel: `(c/255)^2` in fixed
/// point.
pub open spec fn spec_rgb_channel(c: int) -> int {
    spec_mul(c * FX_ONE / 255, c * FX_ONE / 255)
}

/// The linear colour of an 8-bit RGB triple.
pub open spec fn spec_rgb(r: int, g: int, b: int) -> Vec3 {
    sv(spec_rgb_channel(r), spec_rgb_channel(g), spec_rgb_channel(b))
}

fn rgb_channel(c: u8) -> (r: i64)
    ensures
        r == spec_rgb_channel(c as int),
        in_fx(r as int),
{
    let p: u64 = c as u64 * 65536;
    let t: i64 = (p / 255) as i64;
    proof {
        assert(t as int == c as int * FX_ONE as int / 255);
        assert(t as int * 255 <= p as int && t >= 0) by (nonlinear_arith)
            requires t as int == p as int / 255 && p as int >= 0;
        assert(in_fx(t as int));
    }
    fx_mul(t, t)
}

/// Convert an 8-bit RGB triple to a linear colour (squaring approximates
/// decoding gamma 2.0).
pub fn rgb(r: u8, g: u8, b: u8) -> (c: Colour)
    ensures
        c == spec_rgb(r as int, g as int, b as int),
        c.wf(),
{
    Vec3 { x: rgb_channel(r), y: rgb_channel(g), z: rgb_channel(b) }
}

/// Full white.
pub fn white() -> (c: Colour)
    ensures
        c == spec_rgb(255, 255, 255),
        c.wf(),
{
    rgb(255, 255, 255)
}

/// A soft red.
pub fn soft_red() -> (c: Colour)
    ensures
        c == spec_rgb(214, 81, 81),
        c.wf(),
{
    rgb(214, 81, 81)
}

/// A soft green.
pub fn soft_green() -> (c: Colour)
    ensures
        c == spec_rgb(81, 214, 81),
        c.wf(),
{
    rgb(81, 214, 81)
}

/// A soft gray.
pub fn soft_gray() -> (c: Colour)
    ensures
        c == spec_rgb(214, 214, 214),
        c.wf(),
{
    rgb(214, 214, 214)
}

/// A soft yellow.
pub fn soft_yellow() -> (c: Colour)
    ensures
        c == spec_rgb(230, 230, 127),
        c.wf(),
{
    rgb(230, 230, 127)
}

/// The sky colour returned by sight rays that hit nothing.
pub fn sky_colour() -> (c: Colour)
    ensures
        c == spec_rgb(135, 206, 235),
        c.wf(),
{
    rgb(135, 206, 235)
}

/// `2.51` in fixed point, the first tone-mapping constant.
pub const ACES_A: i64 = 164495;

/// `0.03` in fixed point.
pub const ACES_B: i64 = 1966;

/// `2.43` in fixed point.
pub const ACES_C: i64 = 159252;

/// `0.59` in fixed point.
pub const ACES_D: i64 = 38666;

/// `0.14` in fixed point.
pub const ACES_E: i64 = 9175;

/// One channel of the filmic tone-mapping curve
/// `x*(a*x + b) / (x*(c*x + d) + e)`, zero where the denominator vanishes.
pub open spec fn spec_aces_channel(x: int) -> int {
    let num = spec_mul(x, spec_sat(spec_mul(ACES_A as int, x) + ACES_B));
    let den = spec_sat(spec_mul(x, spec_sat(spec_mul(ACES_C as int, x) + ACES_D)) + ACES_E);
    if den == 0 {
        0
    } else {
        spec_div(num, den)
    }
}

/// The filmic tone-mapping curve applied per channel.
pub open spec fn spec_aces(c: Vec3) -> Vec3 {
    sv(
        spec_aces_channel(c.x as int),
        spec_aces_channel(c.y as int),
        spec_aces_channel(c.z as int),
    )
}

fn aces_channel(x: i64) -> (r: i64)
    requires
        in_fx(x as int),
    ensures
        r == spec_aces_channel(x as int),
        in_fx(r as int),
{
    let num: i64 = fx_mul(x, fx_add(fx_mul(ACES_A, x), ACES_B));
    let den: i64 = fx_add(fx_mul(x, fx_add(fx_mul(ACES_C, x), ACES_D)), ACES_E);
    if den == 0 {
        0
    } else {
        fx_div(num, den)
    }
}

/// Filmic (ACES-style) tone mapping, applied to each channel of a linear
/// colour.
#[allow(non_snake_case)]
pub fn ACESFilm(col: Colour) -> (r: Colour)
    requires
        col.wf(),
    ensures
        r == spec_aces(col),
        r.wf(),
{
    Vec3 { x: aces_channel(col.x), y: aces_channel(col.y), z: aces_channel(col.z) }
}

/// The inverse-square light attenuation `intensity / d^2`, saturated to the
/// brightest representable value when `d^2` truncates to zero.
pub open spec fn spec_light_intensity(intensity: int, d: int) -> int {
    let dd = spec_mul(d, d);
    if dd == 0 {
        FX_LIM as int
    } else {
        spec_div(intensity, dd)
    }
}

/// The Phong diffuse factor.
pub open spec fn spec_phong_diffuse(mat: Material, li: int, n: Vec3, l: Vec3) -> int {
    spec_mul(spec_mul(mat.diffuse as int, li), imax(0, spec_dot(l, n)))
}

/// The Phong specular factor; zero on the back face (no diffuse light).
pub open spec fn spec_phong_specular(mat: Material, li: int, n: Vec3, l: Vec3, view: Vec3) -> int {
    let lr = spec_reflect(l, n);
    spec_mul(
        spec_mul(mat.specular as int, li),
        spec_powi(imax(0, spec_dot(lr, view)), mat.shininess as nat),
    )
}

/// Phong diffuse and specular factors for a surface point.
///
/// `n` is the unit surface normal, `vector_to_light` the unit direction
/// toward the light, `distance_to_light` its pre-normalization magnitude
/// (positive: a light colocated with the point is a caller error) and
/// `view_direction` the direction of the incoming sight ray.
pub fn phong_ds(
    n: Colour,
    vector_to_light: Colour,
    distance_to_light: i64,
    light_intensity: i64,
    object_mat: &Material,
    view_direction: Colour,
) -> (r: (i64, i64))
    requires
        n.wf(),
        vector_to_light.wf(),
        view_direction.wf(),
        object_mat.wf(),
        in_fx(light_intensity as int),
        in_fx(distance_to_light as int),
        distance_to_light > 0,
    ensures
        r.0 == spec_phong_diffuse(
            *object_mat,
            spec_light_intensity(light_intensity as int, distance_to_light as int),
            n,
            vector_to_light,
        ),
        r.1 == if r.0 > 0 {
            spec_phong_specular(
                *object_mat,
                spec_light_intensity(light_intensity as int, distance_to_light as int),
                n,
                vector_to_light,
                view_direction,
            )
        } else {
            0
        },
        in_fx(r.0 as int),
        in_fx(r.1 as int),
{
    let light_reflection_vector: Vec3 = vector_to_light.reflect(n);
    let dd: i64 = fx_mul(distance_to_light, distance_to_light);
    let li: i64 = if dd == 0 {
        FX_LIM
    } else {
        fx_div(light_intensity, dd)
    };
    let diffuse: i64 = fx_mul(fx_mul(object_mat.diffuse, li), fx_max(0, vector_to_light.dot(n)));
    let specular: i64 = if diffuse > 0 {
        fx_mul(
            fx_mul(object_mat.specular, li),
            fx_powi(fx_max(0, light_reflection_vector.dot(view_direction)), object_mat.shininess),
        )
    } else {
        0
    };
    (diffuse, specular)
}

/// A lightmap interpolation point: fixed-point cell coordinates and the
/// colour stored there.
pub type LerpPoint = (i64, i64, Vec3);

/// The least `x` coordinate among the four points.
pub open spec fn rect_x1(q: Seq<LerpPoint>) -> int {
    imin(imin(q[0].0 as int, q[1].0 as int), imin(q[2].0 as int, q[3].0 as int))
}

/// The greatest `x` coordinate among the four points.
pub open spec fn rect_x2(q: Seq<LerpPoint>) -> int {
    imax(imax(q[0].0 as int, q[1].0 as int), imax(q[2].0 as int, q[3].0 as int))
}

/// The least `y` coordinate among the four points.
pub open spec fn rect_y1(q: Seq<LerpPoint>) -> int {
    imin(imin(q[0].1 as int, q[1].1 as int), imin(q[2].1 as int, q[3].1 as int))
}

/// The greatest `y` coordinate among the four points.
pub open spec fn rect_y2(q: Seq<LerpPoint>) -> int {
    imax(imax(q[0].1 as int, q[1].1 as int), imax(q[2].1 as int, q[3].1 as int))
}

/// Some point sits at the corner `(cx, cy)`.
pub open spec fn has_corner(q: Seq<LerpPoint>, cx: int, cy: int) -> bool {
    exists|i: int| 0 <= i < 4 && q[i].0 == cx && q[i].1 == cy
}

/// The colour of the first point sitting at the corner `(cx, cy)`.
pub open spec fn corner_colour(q: Seq<LerpPoint>, cx: int, cy: int) -> Vec3 {
    if q[0].0 == cx && q[0].1 == cy {
        q[0].2
    } else if q[1].0 == cx && q[1].1 == cy {
        q[1].2
    } else if q[2].0 == cx && q[2].1 == cy {
        q[2].2
    } else {
        q[3].2
    }
}

/// The four points form an axis-aligned rectangle with distinct corners.
pub open spec fn is_rect(q: Seq<LerpPoint>) -> bool {
    let x1 = rect_x1(q);
    let x2 = rect_x2(q);
    let y1 = rect_y1(q);
    let y2 = rect_y2(q);
    &&& x1 < x2
    &&& y1 < y2
    &&& forall|i: int|
        0 <= i < 4 ==> ((q[i].0 == x1 || q[i].0 == x2) && (q[i].1 == y1 || q[i].1 == y2))
    &&& has_corner(q, x1, y1)
    &&& has_corner(q, x1, y2)
    &&& has_corner(q, x2, y1)
    &&& has_corner(q, x2, y2)
}

/// The interpolation points are well formed.
pub open spec fn wf_points(q: Seq<LerpPoint>) -> bool {
    forall|i: int|
        0 <= i < 4 ==> (in_fx((#[trigger] q[i]).0 as int) && in_fx(q[i].1 as int) && q[i].2.wf())
}

/// The area-weighted bilinear blend of the four corner colours at `(x, y)`,
/// falling back to the low corner when the rectangle area truncates to zero.
pub open spec fn spec_bilerp(q: Seq<LerpPoint>, x: int, y: int) -> Vec3 {
    let x1 = rect_x1(q);
    let x2 = rect_x2(q);
    let y1 = rect_y1(q);
    let y2 = rect_y2(q);
    let q11 = corner_colour(q, x1, y1);
    let q12 = corner_colour(q, x1, y2);
    let q21 = corner_colour(q, x2, y1);
    let q22 = corner_colour(q, x2, y2);
    let w11 = spec_mul(spec_sat(x2 - x), spec_sat(y2 - y));
    let w21 = spec_mul(spec_sat(x - x1), spec_sat(y2 - y));
    let w12 = spec_mul(spec_sat(x2 - x), spec_sat(y - y1));
    let w22 = spec_mul(spec_sat(x - x1), spec_sat(y - y1));
    let area = spec_mul(spec_sat(x2 - x1), spec_sat(y2 - y1));
    let total = crate::vector::spec_vadd(
        crate::vector::spec_vadd(
            crate::vector::spec_vadd(
                crate::vector::spec_vscale(q11, w11),
                crate::vector::spec_vscale(q21, w21),
            ),
            crate::vector::spec_vscale(q12, w12),
        ),
        crate::vector::spec_vscale(q22, w22),
    );
    if area == 0 {
        q11
    } else {
        crate::vector::spec_vdiv(total, area)
    }
}

fn find_corner(points: &[LerpPoint; 4], cx: i64, cy: i64) -> (r: Vec3)
    ensures
        r == corner_colour(points@, cx as int, cy as int),
{
    if points[0].0 == cx && points[0].1 == cy {
        points[0].2
    } else if points[1].0 == cx && points[1].1 == cy {
        points[1].2
    } else if points[2].0 == cx && points[2].1 == cy {
        points[2].2
    } else {
        points[3].2
    }
}

/// Interpolate the colour at `(x, y)` between four points that form an
/// axis-aligned rectangle around it.
pub fn bilinear_interpolation(x: i64, y: i64, points: &[LerpPoint; 4]) -> (r: Colour)
    requires
        in_fx(x as int),
        in_fx(y as int),
        wf_points(points@),
        is_rect(points@),
    ensures
        r == spec_bilerp(points@, x as int, y as int),
        r.wf(),
{
    let x1: i64 = fx_min(fx_min(points[0].0, points[1].0), fx_min(points[2].0, points[3].0));
    let x2: i64 = fx_max(fx_max(points[0].0, points[1].0), fx_max(points[2].0, points[3].0));
    let y1: i64 = fx_min(fx_min(points[0].1, points[1].1), fx_min(points[2].1, points[3].1));
    let y2: i64 = fx_max(fx_max(points[0].1, points[1].1), fx_max(points[2].1, points[3].1));
    let q11: Vec3 = find_corner(points, x1, y1);
    let q12: Vec3 = find_corner(points, x1, y2);
    let q21: Vec3 = find_corner(points, x2, y1);
    let q22: Vec3 = find_corner(points, x2, y2);
    let w11: i64 = fx_mul(fx_sub(x2, x), fx_sub(y2, y));
    let w21: i64 = fx_mul(fx_sub(x, x1), fx_sub(y2, y));
    let w12: i64 = fx_mul(fx_sub(x2, x), fx_sub(y, y1));
    let w22: i64 = fx_mul(fx_sub(x, x1), fx_sub(y, y1));
    let area: i64 = fx_mul(fx_sub(x2, x1), fx_sub(y2, y1));
    proof {
        assert(points@[0].2.wf() && points@[1].2.wf() && points@[2].2.wf() && points@[3].2.wf());
    }
    let total: Vec3 = q11
        .mul_scalar(w11)
        .add(q21.mul_scalar(w21))
        .add(q12.mul_scalar(w12))
        .add(q22.mul_scalar(w22));
    if area == 0 {
        q11
    } else {
        total.div_scalar(area)
    }
}

} // verus!
