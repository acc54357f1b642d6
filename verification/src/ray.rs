//! Sphere tracing: the primary-visibility march and the soft-shadow march.

use vstd::prelude::*;

use crate::engine::{MAX_MARCH_DISTANCE, MAX_MARCH_IT, MAX_SHAD_IT, SMALL_DISTANCE};
use crate::fixed::{
    fx_add, fx_clamp, fx_div, fx_min, fx_mul, fx_smoothstep, imin, in_fx, spec_clamp, spec_div,
    spec_mul, spec_sat, spec_smoothstep, FX_LIM, FX_ONE,
};
use crate::objects::{spec_sdf, SceneObject};
use crate::vector::{spec_vadd, spec_vscale, Vec3};

verus! {

/// Every object in the scene is well formed.
pub open spec fn wf_objects(s: Seq<SceneObject>) -> bool {
    forall|i: int| 0 <= i < s.len() ==> (#[trigger] s[i]).wf()
}

/// Whether object `i` is the one a march was told to ignore.
pub open spec fn spec_is_ignored(ignore: Option<usize>, i: int) -> bool {
    match ignore {
        Option::Some(g) => g == i,
        Option::None => false,
    }
}

/// The least distance-field value over the first `n` objects (skipping the
/// ignored one) and the index attaining it; `(FX_LIM, usize::MAX)` when no
/// object is eligible.
pub open spec fn spec_closest_upto(
    objects: Seq<SceneObject>,
    ignore: Option<usize>,
    pos: Vec3,
    n: int,
) -> (int, int)
    decreases n,
{
    if n <= 0 {
        (FX_LIM as int, usize::MAX as int)
    } else {
        let prev = spec_closest_upto(objects, ignore, pos, n - 1);
        if spec_is_ignored(ignore, n - 1) {
            prev
        } else {
            let d = spec_sdf(objects[n - 1], pos);
            if d < prev.0 {
                (d, n - 1)
            } else {
                prev
            }
        }
    }
}

/// The least distance-field value over the whole scene.
pub open spec fn spec_closest(objects: Seq<SceneObject>, ignore: Option<usize>, pos: Vec3) -> (
    int,
    int,
) {
    spec_closest_upto(objects, ignore, pos, objects.len() as int)
}

/// What `spec_closest_upto` returns: either the no-object sentinel, or a
/// valid non-ignored index attaining the minimum.
pub proof fn lemma_closest_upto_props(
    objects: Seq<SceneObject>,
    ignore: Option<usize>,
    pos: Vec3,
    n: int,
)
    requires
        0 <= n <= objects.len(),
    ensures
        ({
            let c = spec_closest_upto(objects, ignore, pos, n);
            &&& c.0 <= FX_LIM
            &&& (c.1 == usize::MAX as int && c.0 == FX_LIM as int) || (0 <= c.1 < n
                && !spec_is_ignored(ignore, c.1) && c.0 == spec_sdf(objects[c.1], pos))
            &&& forall|j: int|
                0 <= j < n && !spec_is_ignored(ignore, j) ==> c.0 <= spec_sdf(objects[j], pos)
        }),
    decreases n,
{
    if n > 0 {
        lemma_closest_upto_props(objects, ignore, pos, n - 1);
    }
}

/// The outcome of a sphere-tracing march from `pos` along `dir`: the hit
/// object's index (or -1 for a miss) and the final ray position.
pub open spec fn spec_march(
    objects: Seq<SceneObject>,
    ignore: Option<usize>,
    pos: Vec3,
    dir: Vec3,
    travelled: int,
    fuel: nat,
) -> (int, Vec3)
    decreases fuel,
{
    if fuel == 0 || travelled >= MAX_MARCH_DISTANCE {
        (-1, pos)
    } else {
        let c = spec_closest(objects, ignore, pos);
        if c.0 < SMALL_DISTANCE {
            (c.1, pos)
        } else {
            spec_march(
                objects,
                ignore,
                spec_vadd(pos, spec_vscale(dir, c.0)),
                dir,
                spec_sat(travelled + c.0),
                (fuel - 1) as nat,
            )
        }
    }
}

/// The soft-shadow factor accumulated by marching from `pos` along `dir`
/// toward a light at distance `light_dist`, starting from `shade`.
pub open spec fn spec_shadow(
    objects: Seq<SceneObject>,
    ignore: usize,
    pos: Vec3,
    dir: Vec3,
    travelled: int,
    shade: int,
    light_dist: int,
    k: int,
    fuel: nat,
) -> int
    decreases fuel,
{
    if fuel == 0 {
        spec_clamp(shade, 0, FX_ONE as int)
    } else {
        let d = spec_closest(objects, Option::Some(ignore), pos).0;
        let frac = if travelled <= 0 {
            FX_ONE as int
        } else {
            spec_clamp(spec_div(spec_mul(k, d), travelled), 0, FX_ONE as int)
        };
        let s2 = imin(shade, spec_smoothstep(frac));
        let t2 = spec_sat(travelled + d);
        let p2 = spec_vadd(pos, spec_vscale(dir, d));
        if d < SMALL_DISTANCE || t2 > light_dist {
            spec_clamp(s2, 0, FX_ONE as int)
        } else {
            spec_shadow(objects, ignore, p2, dir, t2, s2, light_dist, k, (fuel - 1) as nat)
        }
    }
}

/// The least distance-field value at `pos` over the scene, and the index of
/// the object attaining it (skipping `ignore`).
pub fn closest_distance(objects: &Vec<SceneObject>, ignore: Option<usize>, pos: Vec3) -> (r: (
    i64,
    usize,
))
    requires
        wf_objects(objects@),
        pos.wf(),
    ensures
        (r.0 as int, r.1 as int) == spec_closest(objects@, ignore, pos),
        in_fx(r.0 as int),
{
    let mut distance: i64 = FX_LIM;
    let mut closest_object: usize = usize::MAX;
    let mut i: usize = 0;
    while i < objects.len()
        invariant
            wf_objects(objects@),
            pos.wf(),
            i <= objects@.len(),
            in_fx(distance as int),
            (distance as int, closest_object as int) == spec_closest_upto(
                objects@,
                ignore,
                pos,
                i as int,
            ),
        decreases objects@.len() - i,
    {
        let skip: bool = match ignore {
            Option::Some(g) => g == i,
            Option::None => false,
        };
        if !skip {
            let obj_distance: i64 = objects[i].sdf(pos);
            if obj_distance < distance {
                distance = obj_distance;
                closest_object = i;
            }
        }
        i = i + 1;
    }
    (distance, closest_object)
}

/// A ray: a current position and a unit direction.  The position advances
/// as the ray marches.
pub struct Ray {
    pub position: Vec3,
    pub direction: Vec3,
}

impl Ray {
    /// Sphere-trace this ray through the scene: repeatedly step by the
    /// least object distance until it drops below `SMALL_DISTANCE` (a hit
    /// on the closest object, the ray left at the hit point) or the
    /// travelled distance or iteration budget is exhausted (a miss).
    ///
    /// Sphere tracing never steps past a surface only if every object's
    /// distance function is a true lower bound on its distance.
    pub fn march(&mut self, objects: &Vec<SceneObject>, ignore_object: Option<usize>) -> (r:
        Option<usize>)
        requires
            wf_objects(objects@),
            old(self).position.wf(),
            old(self).direction.wf(),
        ensures
            final(self).direction == old(self).direction,
            final(self).position.wf(),
            ({
                let m = spec_march(
                    objects@,
                    ignore_object,
                    old(self).position,
                    old(self).direction,
                    0,
                    MAX_MARCH_IT as nat,
                );
                &&& (match r {
                    Option::Some(i) => i as int,
                    Option::None => -1,
                }) == m.0
                &&& final(self).position == m.1
            }),
            match r {
                Option::Some(i) => {
                    &&& i < objects@.len()
                    &&& !spec_is_ignored(ignore_object, i as int)
                    &&& spec_sdf(objects@[i as int], final(self).position) < SMALL_DISTANCE
                    &&& forall|j: int|
                        0 <= j < objects@.len() && !spec_is_ignored(ignore_object, j)
                            ==> spec_sdf(objects@[i as int], final(self).position) <= spec_sdf(
                            objects@[j],
                            final(self).position,
                        )
                },
                Option::None => true,
            },
    {
        let ghost pos0 = self.position;
        let ghost dir0 = self.direction;
        let mut distance_travelled: i64 = 0;
        let mut it: u32 = 0;
        while it < MAX_MARCH_IT && distance_travelled < MAX_MARCH_DISTANCE
            invariant
                wf_objects(objects@),
                self.position.wf(),
                self.direction.wf(),
                self.direction == dir0,
                pos0 == old(self).position,
                dir0 == old(self).direction,
                it <= MAX_MARCH_IT,
                in_fx(distance_travelled as int),
                spec_march(objects@, ignore_object, pos0, dir0, 0, MAX_MARCH_IT as nat)
                    == spec_march(
                    objects@,
                    ignore_object,
                    self.position,
                    dir0,
                    distance_travelled as int,
                    (MAX_MARCH_IT - it) as nat,
                ),
            decreases MAX_MARCH_IT - it,
        {
            let c: (i64, usize) = closest_distance(objects, ignore_object, self.position);
            let distance: i64 = c.0;
            let closest_object: usize = c.1;
            proof {
                lemma_closest_upto_props(
                    objects@,
                    ignore_object,
                    self.position,
                    objects@.len() as int,
                );
            }
            if distance < SMALL_DISTANCE {
                proof {
                    assert(spec_march(
                        objects@,
                        ignore_object,
                        self.position,
                        dir0,
                        distance_travelled as int,
                        (MAX_MARCH_IT - it) as nat,
                    ) == (closest_object as int, self.position));
                }
                return Option::Some(closest_object);
            }
            let ghost pre_pos = self.position;
            let ghost pre_trav = distance_travelled as int;
            let ghost fuel = (MAX_MARCH_IT - it) as nat;
            distance_travelled = fx_add(distance_travelled, distance);
            self.position = self.position.add(self.direction.mul_scalar(distance));
            it = it + 1;
            proof {
                assert(spec_march(objects@, ignore_object, pre_pos, dir0, pre_trav, fuel)
                    == spec_march(
                    objects@,
                    ignore_object,
                    self.position,
                    dir0,
                    distance_travelled as int,
                    (MAX_MARCH_IT - it) as nat,
                ));
            }
        }
        proof {
            assert(spec_march(
                objects@,
                ignore_object,
                self.position,
                dir0,
                distance_travelled as int,
                (MAX_MARCH_IT - it) as nat,
            ) == (-1int, self.position));
        }
        Option::None
    }

    /// March toward a light, accumulating a penumbra factor in `[0, 1]`:
    /// each step darkens the factor by the smoothstepped ratio of the
    /// scene distance to the distance already travelled.  Stops at a
    /// surface (full occlusion), past the light, or after `MAX_SHAD_IT`
    /// steps.
    pub fn smooth_shadow_march(
        &mut self,
        objects: &Vec<SceneObject>,
        ignore_obj_index: usize,
        light_dist: i64,
        shading_k: i64,
    ) -> (r: i64)
        requires
            wf_objects(objects@),
            old(self).position.wf(),
            old(self).direction.wf(),
            in_fx(light_dist as int),
            in_fx(shading_k as int),
        ensures
            final(self).direction == old(self).direction,
            final(self).position.wf(),
            r == spec_shadow(
                objects@,
                ignore_obj_index,
                old(self).position,
                old(self).direction,
                0,
                FX_ONE as int,
                light_dist as int,
                shading_k as int,
                MAX_SHAD_IT as nat,
            ),
            0 <= r <= FX_ONE,
    {
        let ghost pos0 = self.position;
        let ghost dir0 = self.direction;
        let mut distance_travelled: i64 = 0;
        let mut shade: i64 = FX_ONE;
        let mut it: u32 = 0;
        while it < MAX_SHAD_IT
            invariant
                wf_objects(objects@),
                self.position.wf(),
                self.direction.wf(),
                self.direction == dir0,
                pos0 == old(self).position,
                dir0 == old(self).direction,
                it <= MAX_SHAD_IT,
                in_fx(distance_travelled as int),
                0 <= shade <= FX_ONE,
                in_fx(shading_k as int),
                in_fx(light_dist as int),
                spec_shadow(
                    objects@,
                    ignore_obj_index,
                    pos0,
                    dir0,
                    0,
                    FX_ONE as int,
                    light_dist as int,
                    shading_k as int,
                    MAX_SHAD_IT as nat,
                ) == spec_shadow(
                    objects@,
                    ignore_obj_index,
                    self.position,
                    dir0,
                    distance_travelled as int,
                    shade as int,
                    light_dist as int,
                    shading_k as int,
                    (MAX_SHAD_IT - it) as nat,
                ),
            decreases MAX_SHAD_IT - it,
        {
            let ghost pre_pos = self.position;
            let ghost pre_trav = distance_travelled as int;
            let ghost pre_shade = shade as int;
            let ghost fuel = (MAX_SHAD_IT - it) as nat;
            let c: (i64, usize) = closest_distance(
                objects,
                Option::Some(ignore_obj_index),
                self.position,
            );
            let distance: i64 = c.0;
            let frac: i64 = if distance_travelled <= 0 {
                FX_ONE
            } else {
                fx_clamp(fx_div(fx_mul(shading_k, distance), distance_travelled), 0, FX_ONE)
            };
            shade = fx_min(shade, fx_smoothstep(frac));
            distance_travelled = fx_add(distance_travelled, distance);
            self.position = self.position.add(self.direction.mul_scalar(distance));
            it = it + 1;
            if distance < SMALL_DISTANCE || distance_travelled > light_dist {
                proof {
                    assert(spec_shadow(
                        objects@,
                        ignore_obj_index,
                        pre_pos,
                        dir0,
                        pre_trav,
                        pre_shade,
                        light_dist as int,
                        shading_k as int,
                        fuel,
                    ) == spec_clamp(shade as int, 0, FX_ONE as int));
                }
                return fx_clamp(shade, 0, FX_ONE);
            }
            proof {
                assert(spec_shadow(
                    objects@,
                    ignore_obj_index,
                    pre_pos,
                    dir0,
                    pre_trav,
                    pre_shade,
                    light_dist as int,
                    shading_k as int,
                    fuel,
                ) == spec_shadow(
                    objects@,
                    ignore_obj_index,
                    self.position,
                    dir0,
                    distance_travelled as int,
                    shade as int,
                    light_dist as int,
                    shading_k as int,
                    (MAX_SHAD_IT - it) as nat,
                ));
            }
        }
        fx_clamp(shade, 0, FX_ONE)
    }
}

} // verus!
