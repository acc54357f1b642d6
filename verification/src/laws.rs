//! The library's stated laws: properties of the marching, shading and
//! baking pipeline proved once and for all inputs they mention.

use vstd::prelude::*;

use crate::colour::spec_light_intensity;
use crate::engine::{MAX_MARCH_DISTANCE, MAX_MARCH_IT, SMALL_DISTANCE};
use crate::fixed::{
    iabs, imax, imin, in_fx, lemma_smoothstep_monotone, lemma_sqrt_floor, lemma_sqrt_unique,
    lemma_square_nonneg, lemma_tdiv_monotone, spec_clamp, spec_div, spec_mul, spec_sat,
    spec_smoothstep, tdiv, FX_LIM, FX_ONE,
};
use crate::objects::{
    spec_has_lightmap, spec_lightmap_view, spec_normal, spec_sample_lightmap, spec_sample_pos,
    spec_sample_uv, spec_sdf, PointLight, SceneObject,
};
use crate::radiosity::spec_direct_patch;
use crate::ray::{
    lemma_closest_upto_props, spec_closest, spec_closest_upto, spec_is_ignored, spec_march,
    spec_shadow,
};
use crate::vector::{
    lemma_vadd_zero, lemma_vdiv_one, lemma_vscale_one, lemma_vscale_zero, spec_dot, spec_mag,
    spec_mag_sqd, spec_vadd, spec_vdiv, spec_vscale, spec_vsub, Vec3,
};

verus! {

/// Reflection preserves length.  Stated homogeneously over the integers:
/// for any vectors `v` and `n`, the reflected vector scaled by `n`'s
/// squared norm, `v*(n.n) - 2*(n.v)*n`, has squared norm `(n.n)^2 * (v.v)`.
/// Dividing both sides by `(n.n)^2` shows that reflecting about a unit
/// normal keeps the length of `v`, so normalizing a reflected unit vector
/// leaves its magnitude at one.
pub proof fn lemma_reflect_preserves_length(
    vx: int,
    vy: int,
    vz: int,
    nx: int,
    ny: int,
    nz: int,
)
    ensures
        ({
            let nn = nx * nx + ny * ny + nz * nz;
            let d = nx * vx + ny * vy + nz * vz;
            let rx = vx * nn - 2 * d * nx;
            let ry = vy * nn - 2 * d * ny;
            let rz = vz * nn - 2 * d * nz;
            rx * rx + ry * ry + rz * rz == nn * nn * (vx * vx + vy * vy + vz * vz)
        }),
{
    let nn = nx * nx + ny * ny + nz * nz;
    let d = nx * vx + ny * vy + nz * vz;
    let ax = vx * nn;
    let ay = vy * nn;
    let az = vz * nn;
    let bx = 2 * d * nx;
    let by = 2 * d * ny;
    let bz = 2 * d * nz;
    let rx = ax - bx;
    let ry = ay - by;
    let rz = az - bz;
    assert(rx * rx == ax * ax - 2 * (ax * bx) + bx * bx) by (nonlinear_arith)
        requires rx == ax - bx;
    assert(ry * ry == ay * ay - 2 * (ay * by) + by * by) by (nonlinear_arith)
        requires ry == ay - by;
    assert(rz * rz == az * az - 2 * (az * bz) + bz * bz) by (nonlinear_arith)
        requires rz == az - bz;
    assert(ax * ax == nn * nn * (vx * vx)) by (nonlinear_arith)
        requires ax == vx * nn;
    assert(ay * ay == nn * nn * (vy * vy)) by (nonlinear_arith)
        requires ay == vy * nn;
    assert(az * az == nn * nn * (vz * vz)) by (nonlinear_arith)
        requires az == vz * nn;
    assert(nn * nn * (vx * vx + vy * vy + vz * vz) == nn * nn * (vx * vx) + nn * nn * (vy * vy)
        + nn * nn * (vz * vz)) by (nonlinear_arith);
    assert(ax * bx == 2 * (nn * d) * (vx * nx)) by (nonlinear_arith)
        requires ax == vx * nn && bx == 2 * d * nx;
    assert(ay * by == 2 * (nn * d) * (vy * ny)) by (nonlinear_arith)
        requires ay == vy * nn && by == 2 * d * ny;
    assert(az * bz == 2 * (nn * d) * (vz * nz)) by (nonlinear_arith)
        requires az == vz * nn && bz == 2 * d * nz;
    assert(2 * (nn * d) * (vx * nx) + 2 * (nn * d) * (vy * ny) + 2 * (nn * d) * (vz * nz) == 2 * (
    nn * d) * d) by (nonlinear_arith)
        requires d == nx * vx + ny * vy + nz * vz;
    assert(bx * bx == 4 * (d * d) * (nx * nx)) by (nonlinear_arith)
        requires bx == 2 * d * nx;
    assert(by * by == 4 * (d * d) * (ny * ny)) by (nonlinear_arith)
        requires by == 2 * d * ny;
    assert(bz * bz == 4 * (d * d) * (nz * nz)) by (nonlinear_arith)
        requires bz == 2 * d * nz;
    assert(4 * (d * d) * (nx * nx) + 4 * (d * d) * (ny * ny) + 4 * (d * d) * (nz * nz) == 4 * (d
        * d) * nn) by (nonlinear_arith)
        requires nn == nx * nx + ny * ny + nz * nz;
    assert(4 * (d * d) * nn == 2 * (2 * (nn * d) * d)) by (nonlinear_arith);
    assert(-2 * (2 * nn * d * d) + 4 * (d * d) * nn == 0) by (nonlinear_arith);
}

/// Plane sample points lie exactly on the plane: for every axis-aligned
/// plane variant and every lightmap cell, the distance field vanishes at
/// the cell's sample position.
pub proof fn lemma_plane_sample_on_surface(o: SceneObject, u: int, v: int)
    requires
        o.wf(),
        0 <= u < 8,
        0 <= v < 8,
        o matches SceneObject::XPlane(_) || o matches SceneObject::YPlane(_) || o
            matches SceneObject::ZPlane(_),
    ensures
        spec_sdf(o, spec_sample_pos(o, u, v)) == 0,
{
    let p = spec_sample_pos(o, u, v);
    match o {
        SceneObject::XPlane(pl) => {
            assert(p.x == pl.x);
            assert(spec_sdf(o, p) == spec_mul(pl.dir as int, 0));
            assert(tdiv(0, FX_ONE as int) == 0);
        },
        SceneObject::YPlane(pl) => {
            assert(p.y == pl.y);
            assert(spec_sdf(o, p) == spec_mul(pl.dir as int, 0));
            assert(tdiv(0, FX_ONE as int) == 0);
        },
        SceneObject::ZPlane(pl) => {
            assert(p.z == pl.z);
            assert(spec_sdf(o, p) == spec_mul(pl.dir as int, 0));
            assert(tdiv(0, FX_ONE as int) == 0);
        },
        _ => {
        },
    }
}

/// Whenever a sphere-tracing march reports a hit, the final ray position
/// lies within `SMALL_DISTANCE` of the hit object's surface, the hit
/// object was eligible, and no eligible object is closer.
pub proof fn lemma_march_hit_near_surface(
    objects: Seq<SceneObject>,
    ignore: Option<usize>,
    pos: Vec3,
    dir: Vec3,
    travelled: int,
    fuel: nat,
)
    ensures
        ({
            let m = spec_march(objects, ignore, pos, dir, travelled, fuel);
            m.0 >= 0 ==> {
                &&& m.0 < objects.len()
                &&& !spec_is_ignored(ignore, m.0)
                &&& spec_sdf(objects[m.0], m.1) < SMALL_DISTANCE
                &&& forall|j: int|
                    0 <= j < objects.len() && !spec_is_ignored(ignore, j) ==> spec_sdf(
                        objects[m.0],
                        m.1,
                    ) <= spec_sdf(objects[j], m.1)
            }
        }),
    decreases fuel,
{
    if fuel > 0 && travelled < MAX_MARCH_DISTANCE {
        lemma_closest_upto_props(objects, ignore, pos, objects.len() as int);
        let c = spec_closest(objects, ignore, pos);
        if c.0 >= SMALL_DISTANCE {
            lemma_march_hit_near_surface(
                objects,
                ignore,
                spec_vadd(pos, spec_vscale(dir, c.0)),
                dir,
                spec_sat(travelled + c.0),
                (fuel - 1) as nat,
            );
        }
    }
}

/// The per-step soft-shadow attenuation factor never decreases when the
/// occluder distance grows: a closer occluder can only darken a step.
pub proof fn lemma_shadow_factor_monotone(k: int, t: int, d1: int, d2: int)
    requires
        0 <= k <= FX_LIM,
        t > 0,
        d1 <= d2,
        in_fx(d1),
        in_fx(d2),
    ensures
        spec_smoothstep(spec_clamp(spec_div(spec_mul(k, d1), t), 0, FX_ONE as int))
            <= spec_smoothstep(spec_clamp(spec_div(spec_mul(k, d2), t), 0, FX_ONE as int)),
{
    assert(k * d1 <= k * d2) by (nonlinear_arith)
        requires k >= 0 && d1 <= d2;
    lemma_tdiv_monotone(k * d1, k * d2, FX_ONE as int);
    let m1 = spec_mul(k, d1);
    let m2 = spec_mul(k, d2);
    assert(m1 <= m2);
    assert(m1 * FX_ONE <= m2 * FX_ONE) by (nonlinear_arith)
        requires m1 <= m2 && FX_ONE == 65536;
    lemma_tdiv_monotone(m1 * FX_ONE, m2 * FX_ONE, t);
    lemma_smoothstep_monotone(
        spec_clamp(spec_div(m1, t), 0, FX_ONE as int),
        spec_clamp(spec_div(m2, t), 0, FX_ONE as int),
    );
}

/// The marched soft-shadow factor never exceeds the factor it started
/// from: each step can only keep or darken the accumulated shade.
pub proof fn lemma_shadow_non_increasing(
    objects: Seq<SceneObject>,
    ignore: usize,
    pos: Vec3,
    dir: Vec3,
    travelled: int,
    shade: int,
    light_dist: int,
    k: int,
    fuel: nat,
)
    ensures
        spec_shadow(objects, ignore, pos, dir, travelled, shade, light_dist, k, fuel)
            <= spec_clamp(shade, 0, FX_ONE as int),
    decreases fuel,
{
    if fuel > 0 {
        let d = spec_closest(objects, Option::Some(ignore), pos).0;
        let frac = if travelled <= 0 {
            FX_ONE as int
        } else {
            spec_clamp(spec_div(spec_mul(k, d), travelled), 0, FX_ONE as int)
        };
        let s2 = imin(shade, spec_smoothstep(frac));
        let t2 = spec_sat(travelled + d);
        let p2 = spec_vadd(pos, spec_vscale(dir, d));
        if !(d < SMALL_DISTANCE || t2 > light_dist) {
            lemma_shadow_non_increasing(
                objects,
                ignore,
                p2,
                dir,
                t2,
                s2,
                light_dist,
                k,
                (fuel - 1) as nat,
            );
        }
    }
}

/// The unit direction toward the light has a component of at least half
/// the fixed-point unit wherever the offset component dominates the
/// distance.
proof fn lemma_unit_comp_big(c: int, dist: int)
    requires
        dist > 0,
        2 * iabs(c) >= dist,
        in_fx(c),
    ensures
        iabs(spec_div(c, dist)) >= 32768,
{
    let s = FX_ONE as int;
    let a = iabs(c);
    assert(iabs(c * s) == a * s) by (nonlinear_arith)
        requires s == 65536 && a == iabs(c);
    assert(a * s >= dist * 32768) by (nonlinear_arith)
        requires 2 * a >= dist && dist > 0 && s == 65536;
    lemma_tdiv_monotone(dist * 32768, a * s, dist);
    vstd::arithmetic::div_mod::lemma_div_multiples_vanish(32768, dist);
    assert(iabs(dist * 32768) == dist * 32768) by (nonlinear_arith)
        requires dist > 0;
    assert(tdiv(dist * 32768, dist) == 32768) by {
        assert(dist * 32768 == 32768 * dist) by (nonlinear_arith);
    }
    assert(tdiv(a * s, dist) >= 32768);
    if c >= 0 {
        assert(tdiv(c * s, dist) == tdiv(a * s, dist));
        assert(spec_sat(tdiv(a * s, dist)) >= 32768);
    } else {
        assert(tdiv(c * s, dist) == -tdiv(a * s, dist));
        assert(spec_sat(-tdiv(a * s, dist)) <= -32768);
    }
}

/// Scaling a component of at least half a unit by the saturation bound
/// produces a step component of at least half the bound.
proof fn lemma_step_comp_big(v: int)
    requires
        iabs(v) >= 32768,
        in_fx(v),
    ensures
        iabs(spec_mul(v, FX_LIM as int)) >= 35184372088832,
{
    let s = FX_ONE as int;
    let l = FX_LIM as int;
    let a = iabs(v);
    assert(iabs(v * l) == a * l) by (nonlinear_arith)
        requires l > 0 && a == iabs(v);
    assert(a * l >= 32768 * l) by (nonlinear_arith)
        requires a >= 32768 && l > 0;
    lemma_tdiv_monotone(32768 * l, a * l, s);
    assert(32768 * l == s * 35184372088832);
    vstd::arithmetic::div_mod::lemma_div_multiples_vanish(35184372088832, s);
    assert(tdiv(32768 * l, s) == 35184372088832) by {
        assert(iabs(32768 * l) == 32768 * l) by (nonlinear_arith)
            requires l > 0;
    }
    if v >= 0 {
        assert(tdiv(v * l, s) == tdiv(a * l, s));
        assert(spec_mul(v, l) >= 35184372088832);
    } else {
        assert(tdiv(v * l, s) == -tdiv(a * l, s));
        assert(spec_mul(v, l) <= -35184372088832);
    }
}

/// Stepping a bounded origin by a huge component moves it by a huge
/// amount, saturation notwithstanding.
proof fn lemma_diff_comp_big(o: int, d: int)
    requires
        iabs(o) <= 0x10000000000,
        iabs(d) >= 35184372088832,
        in_fx(o),
        in_fx(d),
    ensures
        iabs(spec_sat(spec_sat(o + d) - o)) >= 35184372088832,
{
}

/// A huge component squares to the saturation bound.
proof fn lemma_sq_term_saturates(x: int)
    requires
        iabs(x) >= 35184372088832,
        in_fx(x),
    ensures
        spec_mul(x, x) == FX_LIM as int,
{
    let s = FX_ONE as int;
    let l = FX_LIM as int;
    assert(x * x >= 35184372088832 * 35184372088832) by (nonlinear_arith)
        requires iabs(x) >= 35184372088832;
    assert(iabs(x * x) == x * x) by (nonlinear_arith);
    let q = (x * x) / s;
    vstd::arithmetic::div_mod::lemma_fundamental_div_mod(x * x, s);
    assert(s * q + s > x * x);
    assert(q > l) by (nonlinear_arith)
        requires
            s == 65536,
            l == 70368744177664,
            s * q + s > x * x,
            x * x >= 35184372088832 * 35184372088832;
    assert(tdiv(x * x, s) == q);
}

/// In a scene with a single object, the direct-lighting pass gives every
/// patch the closed-form Lambertian value for an unoccluded point light:
/// the clamped cosine of the normal with the light direction, times the
/// inverse-square intensity, scaled into the patch colour.  (Nothing else
/// exists that could occlude the patch; the light must sit at a positive
/// scene-scale distance from a scene-scale patch position.)
pub proof fn lemma_direct_pass_single_object(
    light: PointLight,
    objects: Seq<SceneObject>,
    origin: Vec3,
    colour: Vec3,
)
    requires
        objects.len() == 1,
        light.wf(),
        origin.wf(),
        iabs(origin.x as int) <= 0x10000000000,
        iabs(origin.y as int) <= 0x10000000000,
        iabs(origin.z as int) <= 0x10000000000,
        0 < spec_mag(spec_vsub(light.position, origin)) <= 0x2000000,
    ensures
        ({
            let vtl = spec_vsub(light.position, origin);
            let dist = spec_mag(vtl);
            let vdir = spec_vdiv(vtl, dist);
            spec_direct_patch(light, objects, 0, origin, colour) == spec_vscale(
                colour,
                spec_mul(
                    imax(0, spec_dot(spec_normal(objects[0], origin), vdir)),
                    spec_light_intensity(light.intensity as int, dist),
                ),
            )
        }),
{
    let s = FX_ONE as int;
    let l = FX_LIM as int;
    let vtl = spec_vsub(light.position, origin);
    let dist = spec_mag(vtl);
    let vdir = spec_vdiv(vtl, dist);

    let msq = spec_mag_sqd(vtl);
    lemma_square_nonneg(vtl.x as int);
    lemma_square_nonneg(vtl.y as int);
    lemma_square_nonneg(vtl.z as int);
    assert(msq > 0);
    lemma_sqrt_floor(msq * s);
    assert(dist * dist <= msq * s);
    let cx = iabs(vtl.x as int);
    let cy = iabs(vtl.y as int);
    let cz = iabs(vtl.z as int);
    let mx = spec_mul(vtl.x as int, vtl.x as int);
    let my = spec_mul(vtl.y as int, vtl.y as int);
    let mz = spec_mul(vtl.z as int, vtl.z as int);
    assert(s * tdiv(vtl.x as int * vtl.x as int, s) <= cx * cx) by (nonlinear_arith)
        requires s == 65536 && cx == iabs(vtl.x as int);
    assert(s * tdiv(vtl.y as int * vtl.y as int, s) <= cy * cy) by (nonlinear_arith)
        requires s == 65536 && cy == iabs(vtl.y as int);
    assert(s * tdiv(vtl.z as int * vtl.z as int, s) <= cz * cz) by (nonlinear_arith)
        requires s == 65536 && cz == iabs(vtl.z as int);
    assert(s * mx <= cx * cx && s * my <= cy * cy && s * mz <= cz * cz) by (nonlinear_arith)
        requires
            s == 65536,
            mx >= 0 && my >= 0 && mz >= 0,
            mx <= tdiv(vtl.x as int * vtl.x as int, s),
            my <= tdiv(vtl.y as int * vtl.y as int, s),
            mz <= tdiv(vtl.z as int * vtl.z as int, s),
            s * tdiv(vtl.x as int * vtl.x as int, s) <= cx * cx,
            s * tdiv(vtl.y as int * vtl.y as int, s) <= cy * cy,
            s * tdiv(vtl.z as int * vtl.z as int, s) <= cz * cz;
    assert(msq * s <= cx * cx + cy * cy + cz * cz) by (nonlinear_arith)
        requires
            s == 65536,
            msq <= mx + my + mz,
            mx >= 0 && my >= 0 && mz >= 0,
            s * mx <= cx * cx,
            s * my <= cy * cy,
            s * mz <= cz * cz;
    let cmax = imax(cx, imax(cy, cz));
    assert(dist <= 2 * cmax) by (nonlinear_arith)
        requires
            dist > 0,
            cmax >= cx && cmax >= cy && cmax >= cz,
            cx >= 0 && cy >= 0 && cz >= 0,
            dist * dist <= cx * cx + cy * cy + cz * cz;

    let m = spec_march(objects, Option::Some(0usize), origin, vdir, 0, MAX_MARCH_IT as nat);
    assert(spec_closest_upto(objects, Option::Some(0usize), origin, 0) == (
        l,
        usize::MAX as int,
    ));
    assert(spec_closest_upto(objects, Option::Some(0usize), origin, 1) == (
        l,
        usize::MAX as int,
    ));
    assert(spec_closest(objects, Option::Some(0usize), origin).0 == l);
    let step = spec_vscale(vdir, l);
    let pos2 = spec_vadd(origin, step);
    assert(spec_sat(0 + l) == l);
    assert(m == spec_march(
        objects,
        Option::Some(0usize),
        pos2,
        vdir,
        l,
        (MAX_MARCH_IT - 1) as nat,
    ));
    assert(m == (-1int, pos2));

    let diff = spec_vsub(pos2, origin);
    if cx >= cy && cx >= cz {
        lemma_unit_comp_big(vtl.x as int, dist);
        lemma_step_comp_big(vdir.x as int);
        lemma_diff_comp_big(origin.x as int, step.x as int);
        lemma_sq_term_saturates(diff.x as int);
    } else if cy >= cz {
        lemma_unit_comp_big(vtl.y as int, dist);
        lemma_step_comp_big(vdir.y as int);
        lemma_diff_comp_big(origin.y as int, step.y as int);
        lemma_sq_term_saturates(diff.y as int);
    } else {
        lemma_unit_comp_big(vtl.z as int, dist);
        lemma_step_comp_big(vdir.z as int);
        lemma_diff_comp_big(origin.z as int, step.z as int);
        lemma_sq_term_saturates(diff.z as int);
    }
    lemma_square_nonneg(diff.x as int);
    lemma_square_nonneg(diff.y as int);
    lemma_square_nonneg(diff.z as int);
    assert(spec_mag_sqd(diff) == l);
    assert(spec_mag(diff) == 0x80000000) by {
        lemma_sqrt_unique(l * s, 0x80000000);
    }
    assert(spec_sat(dist + 3 * SMALL_DISTANCE) < 0x80000000);
}

/// Bilinear lightmap sampling at an exact grid-cell centre returns that
/// cell's stored value unchanged, provided the stored value is not the
/// zero "never baked" marker (which would trigger the repair shift).
pub proof fn lemma_sample_lightmap_center(o: SceneObject, p: Vec3, u0: int, v0: int)
    requires
        o.wf(),
        spec_has_lightmap(o),
        0 <= u0 < 8,
        0 <= v0 < 8,
        spec_sample_uv(o, p).0 == u0 * FX_ONE,
        spec_sample_uv(o, p).1 == v0 * FX_ONE,
        spec_mag_sqd(spec_lightmap_view(o)[u0 * 8 + v0]) != 0,
    ensures
        spec_sample_lightmap(o, p) == spec_lightmap_view(o)[u0 * 8 + v0],
{
    let s = FX_ONE as int;
    let lm = spec_lightmap_view(o);
    let q = lm[u0 * 8 + v0];
    assert(q.wf());
    vstd::arithmetic::div_mod::lemma_div_multiples_vanish(u0, s);
    vstd::arithmetic::div_mod::lemma_div_multiples_vanish(v0, s);
    assert(u0 * s == s * u0) by (nonlinear_arith);
    assert(v0 * s == s * v0) by (nonlinear_arith);
    assert(crate::objects::spec_floor_cell(u0 * s) == u0);
    assert(crate::objects::spec_floor_cell(v0 * s) == v0);
    let u1 = if u0 + 1 >= 8 { u0 } else { u0 + 1 };
    let v1 = if v0 + 1 >= 8 { v0 } else { v0 + 1 };
    let z10 = spec_mag_sqd(lm[u1 * 8 + v0]) == 0;
    let z01 = spec_mag_sqd(lm[u0 * 8 + v1]) == 0;
    let u1a = if z10 { crate::objects::spec_dec(u1) } else { u1 };
    let v1a = if z01 { crate::objects::spec_dec(v1) } else { v1 };
    let u1b = if u0 == u1a { u1a + 1 } else { u1a };
    let v1b = if v0 == v1a { v1a + 1 } else { v1a };
    assert(u1b == u0 + 1);
    assert(v1b == v0 + 1);
    let pts = seq![
        ((u0 * 65536) as i64, (v0 * 65536) as i64, lm[u0 * 8 + v0]),
        ((u0 * 65536) as i64, (v1b * 65536) as i64, lm[u0 * 8 + v1a]),
        ((u1b * 65536) as i64, (v0 * 65536) as i64, lm[u1a * 8 + v0]),
        ((u1b * 65536) as i64, (v1b * 65536) as i64, lm[u1a * 8 + v1a]),
    ];
    assert(crate::colour::rect_x1(pts) == u0 * s);
    assert(crate::colour::rect_x2(pts) == (u0 + 1) * s);
    assert(crate::colour::rect_y1(pts) == v0 * s);
    assert(crate::colour::rect_y2(pts) == (v0 + 1) * s);
    assert(crate::colour::corner_colour(pts, u0 * s, v0 * s) == q);
    crate::vector::lemma_tdiv_by_one_scale(s);
    assert(spec_mul(s, s) == s);
    assert((u0 + 1) * s - u0 * s == s);
    assert((v0 + 1) * s - v0 * s == s);
    assert(tdiv(0, s) == 0);
    assert(spec_mul(0, s) == 0 && spec_mul(s, 0) == 0 && spec_mul(0, 0) == 0) by {
        assert(iabs(0int) / iabs(s) == 0);
    }
    lemma_vscale_one(q);
    let zero = Vec3 { x: 0, y: 0, z: 0 };
    lemma_vscale_zero(pts[1].2);
    lemma_vscale_zero(pts[2].2);
    lemma_vscale_zero(pts[3].2);
    lemma_vadd_zero(q);
    assert(spec_vadd(q, zero) == q);
    assert(crate::vector::spec_vscale(q, spec_mul(s, s)) == q);
    lemma_vdiv_one(q);
    assert(crate::colour::spec_bilerp(pts, u0 * s, v0 * s) == q);
}

} // verus!
