//! Radiosity lightmaps: the per-object patch grids and the baking passes
//! (direct lighting and patch-to-patch bounces).

use vstd::prelude::*;

use crate::colour::{spec_light_intensity, Colour};
use crate::engine::{MAX_MARCH_IT, SMALL_DISTANCE};
use crate::fixed::{fx_add, fx_div, fx_max, fx_mul, fx_neg, imax, spec_div, spec_mul,
    spec_sat, FX_LIM};
use crate::objects::{spec_normal, PointLight, SceneObject};
use crate::ray::{spec_march, wf_objects, Ray};
use crate::trig::PI_FX;
use crate::vector::{spec_dot, spec_mag, spec_vadd, spec_vdiv, spec_velem,
    spec_vneg, spec_vscale, spec_vsub, Vec3};

verus! {

/// Lightmaps are square grids of `MAP_SIZE` by `MAP_SIZE` patches.
pub const MAP_SIZE: usize = 8;

/// The number of patches in one lightmap.
pub const MAP_CELLS: usize = 64;

/// The all-zero patch grid ("unlit / unknown").
pub open spec fn spec_zero_map() -> Seq<Vec3> {
    Seq::new(MAP_CELLS as nat, |i: int| Vec3 { x: 0, y: 0, z: 0 })
}

/// A well-formed patch grid: 64 well-formed colours.
pub open spec fn wf_map(s: Seq<Vec3>) -> bool {
    s.len() == MAP_CELLS && forall|i: int| 0 <= i < s.len() ==> (#[trigger] s[i]).wf()
}

/// A fixed-size grid of radiance samples, one patch per cell, stored row by
/// row (`cell = u * MAP_SIZE + v`).
#[derive(Clone, Debug)]
pub struct Lightmap {
    pub sample_map: Vec<Colour>,
}

impl Lightmap {
    /// The grid has 64 well-formed entries.
    pub open spec fn wf(self) -> bool {
        wf_map(self.sample_map@)
    }

    /// The patch stored at cell `(u, v)`.
    pub open spec fn at(self, u: int, v: int) -> Vec3 {
        self.sample_map@[u * MAP_SIZE + v]
    }

    /// A lightmap with every patch zero.
    pub fn new() -> (r: Lightmap)
        ensures
            r.sample_map@ =~= spec_zero_map(),
            r.wf(),
    {
        let mut m: Vec<Colour> = Vec::new();
        let mut i: usize = 0;
        while i < MAP_CELLS
            invariant
                i <= MAP_CELLS,
                m@.len() == i,
                forall|j: int| 0 <= j < i ==> m@[j] == (Vec3 { x: 0, y: 0, z: 0 }),
            decreases MAP_CELLS - i,
        {
            m.push(Vec3 { x: 0, y: 0, z: 0 });
            i = i + 1;
        }
        Lightmap { sample_map: m }
    }

    /// Read the patch at cell `(u, v)`.
    pub fn get(&self, u: usize, v: usize) -> (r: Colour)
        requires
            self.wf(),
            u < MAP_SIZE,
            v < MAP_SIZE,
        ensures
            r == self.at(u as int, v as int),
            r.wf(),
    {
        self.sample_map[u * MAP_SIZE + v]
    }

    /// Store a patch at cell `(u, v)`.
    pub fn set(&mut self, u: usize, v: usize, c: Colour)
        requires
            old(self).wf(),
            u < MAP_SIZE,
            v < MAP_SIZE,
            c.wf(),
        ensures
            final(self).wf(),
            final(self).sample_map@ == old(self).sample_map@.update(
                u as int * MAP_SIZE + v,
                c,
            ),
    {
        let i: usize = u * MAP_SIZE + v;
        self.sample_map[i] = c;
    }

    /// Read the patch at flat cell index `i`.
    pub fn get_cell(&self, i: usize) -> (r: Colour)
        requires
            self.wf(),
            i < MAP_CELLS,
        ensures
            r == self.sample_map@[i as int],
            r.wf(),
    {
        self.sample_map[i]
    }

    /// Store a patch at flat cell index `i`.
    pub fn set_cell(&mut self, i: usize, c: Colour)
        requires
            old(self).wf(),
            i < MAP_CELLS,
            c.wf(),
        ensures
            final(self).wf(),
            final(self).sample_map@ == old(self).sample_map@.update(i as int, c),
    {
        self.sample_map[i] = c;
    }

    /// A deep copy of the grid.
    pub fn duplicate(&self) -> (r: Lightmap)
        requires
            self.wf(),
        ensures
            r.sample_map@ =~= self.sample_map@,
            r.wf(),
    {
        let mut m: Vec<Colour> = Vec::new();
        let mut i: usize = 0;
        while i < MAP_CELLS
            invariant
                i <= MAP_CELLS,
                self.wf(),
                m@.len() == i,
                forall|j: int| 0 <= j < i ==> m@[j] == self.sample_map@[j],
            decreases MAP_CELLS - i,
        {
            m.push(self.sample_map[i]);
            i = i + 1;
        }
        Lightmap { sample_map: m }
    }
}

impl Default for Lightmap {
    /// The default lightmap is all zero.
    fn default() -> (r: Lightmap)
        ensures
            r.sample_map@ =~= spec_zero_map(),
            r.wf(),
    {
        Lightmap::new()
    }
}

/// A well-formed per-object grid of vectors (one entry per patch).
pub open spec fn wf_grid(s: Seq<Vec3>) -> bool {
    s.len() == MAP_CELLS && forall|i: int| 0 <= i < s.len() ==> (#[trigger] s[i]).wf()
}

/// A well-formed cloud: one 64-entry grid per object.
pub open spec fn wf_cloud(s: Seq<Vec<Vec3>>) -> bool {
    forall|i: int| 0 <= i < s.len() ==> wf_grid((#[trigger] s[i])@)
}

/// Parallel per-object grids of sample positions and sample colours.
pub struct SampleCloud {
    /// position of each sample point
    pub point_cloud: Vec<Vec<Vec3>>,
    /// map of every sample point's colour
    pub colour_cloud: Vec<Vec<Vec3>>,
}

fn zero_grid() -> (r: Vec<Vec3>)
    ensures
        r@.len() == MAP_CELLS,
        forall|j: int| 0 <= j < MAP_CELLS ==> r@[j] == (Vec3 { x: 0, y: 0, z: 0 }),
        wf_grid(r@),
{
    let mut g: Vec<Vec3> = Vec::new();
    let mut i: usize = 0;
    while i < MAP_CELLS
        invariant
            i <= MAP_CELLS,
            g@.len() == i,
            forall|j: int| 0 <= j < i ==> g@[j] == (Vec3 { x: 0, y: 0, z: 0 }),
        decreases MAP_CELLS - i,
    {
        g.push(Vec3 { x: 0, y: 0, z: 0 });
        i = i + 1;
    }
    g
}

impl SampleCloud {
    /// Both clouds hold one grid per object.
    pub open spec fn wf(self) -> bool {
        &&& self.point_cloud@.len() == self.colour_cloud@.len()
        &&& wf_cloud(self.point_cloud@)
        &&& wf_cloud(self.colour_cloud@)
    }

    /// Clouds of `len` all-zero grids.
    pub fn new(len: usize) -> (r: SampleCloud)
        ensures
            r.point_cloud@.len() == len,
            r.colour_cloud@.len() == len,
            forall|i: int, j: int|
                0 <= i < len && 0 <= j < MAP_CELLS ==> (#[trigger] r.point_cloud@[i]@[j])
                    == (Vec3 { x: 0, y: 0, z: 0 }),
            forall|i: int, j: int|
                0 <= i < len && 0 <= j < MAP_CELLS ==> (#[trigger] r.colour_cloud@[i]@[j])
                    == (Vec3 { x: 0, y: 0, z: 0 }),
            r.wf(),
    {
        let mut point_cloud: Vec<Vec<Vec3>> = Vec::new();
        let mut colour_cloud: Vec<Vec<Vec3>> = Vec::new();
        let mut i: usize = 0;
        while i < len
            invariant
                i <= len,
                point_cloud@.len() == i,
                colour_cloud@.len() == i,
                forall|a: int| 0 <= a < i ==> wf_grid((#[trigger] point_cloud@[a])@),
                forall|a: int| 0 <= a < i ==> wf_grid((#[trigger] colour_cloud@[a])@),
                forall|a: int, j: int|
                    0 <= a < i && 0 <= j < MAP_CELLS ==> (#[trigger] point_cloud@[a]@[j])
                        == (Vec3 { x: 0, y: 0, z: 0 }),
                forall|a: int, j: int|
                    0 <= a < i && 0 <= j < MAP_CELLS ==> (#[trigger] colour_cloud@[a]@[j])
                        == (Vec3 { x: 0, y: 0, z: 0 }),
            decreases len - i,
        {
            point_cloud.push(zero_grid());
            colour_cloud.push(zero_grid());
            i = i + 1;
        }
        SampleCloud { point_cloud, colour_cloud }
    }
}

/// One lightmap patch prepared for the bounce pass: its world position,
/// colour, normal, and the indices of its object in the cloud and in the
/// scene.
pub struct Sample {
    pub pos: Vec3,
    pub colour: Vec3,
    pub normal: Vec3,
    pub obj_cloud_index: usize,
    pub obj_eng_index: usize,
}

/// The per-object grids of a cloud, as plain sequences.
pub open spec fn cloud_view(v: Seq<Vec<Vec3>>) -> Seq<Seq<Vec3>> {
    v.map_values(|g: Vec<Vec3>| g@)
}

/// The patch grids of a sequence of lightmaps, as plain sequences.
pub open spec fn maps_view(v: Seq<Lightmap>) -> Seq<Seq<Vec3>> {
    v.map_values(|l: Lightmap| l.sample_map@)
}

/// Every map in the sequence is well formed.
pub open spec fn wf_maps(s: Seq<Lightmap>) -> bool {
    forall|i: int| 0 <= i < s.len() ==> (#[trigger] s[i]).wf()
}

/// The direct-lighting value of one patch: zero when the shadow march from
/// the patch toward the light stops short of it, else the clamped cosine
/// times the inverse-square light intensity, scaled into the patch colour.
pub open spec fn spec_direct_patch(
    light: PointLight,
    objects: Seq<SceneObject>,
    obj_index: usize,
    origin: Vec3,
    colour: Vec3,
) -> Vec3 {
    let vtl = spec_vsub(light.position, origin);
    let dist = spec_mag(vtl);
    let vdir = if dist == 0 { vtl } else { spec_vdiv(vtl, dist) };
    let m = spec_march(objects, Option::Some(obj_index), origin, vdir, 0, MAX_MARCH_IT as nat);
    if spec_mag(spec_vsub(m.1, origin)) < spec_sat(dist + 3 * SMALL_DISTANCE) {
        Vec3 { x: 0, y: 0, z: 0 }
    } else {
        let n = spec_normal(objects[obj_index as int], origin);
        let diffuse = spec_mul(
            imax(0, spec_dot(n, vdir)),
            spec_light_intensity(light.intensity as int, dist),
        );
        spec_vscale(colour, diffuse)
    }
}

/// One emitting patch's addition to a receiving patch: zero when the
/// visibility ray from the emitter hits anything but the receiver, else the
/// product of the two cosines over the squared distance, scaled into the
/// emitted radiance.
pub open spec fn spec_bounce_term(
    objects: Seq<SceneObject>,
    pc: Seq<Seq<Vec3>>,
    nc: Seq<Seq<Vec3>>,
    em: Seq<Seq<Vec3>>,
    spos: Vec3,
    snormal: Vec3,
    eng_idx: usize,
    lci: int,
    k: int,
) -> Vec3 {
    let light_source = pc[lci][k];
    let light_colour = em[lci][k];
    let light_normal = nc[lci][k];
    let vtl = spec_vsub(light_source, spos);
    let dist = spec_mag(vtl);
    let vdir = if dist == 0 { vtl } else { spec_vdiv(vtl, dist) };
    let origin = spec_vadd(light_source, spec_vscale(spec_vneg(vdir), 3 * SMALL_DISTANCE as int));
    let m = spec_march(objects, Option::None, origin, spec_vneg(vdir), 0, MAX_MARCH_IT as nat);
    if m.0 >= 0 && m.0 != eng_idx {
        Vec3 { x: 0, y: 0, z: 0 }
    } else {
        let att = spec_mul(spec_dot(snormal, vdir), -spec_dot(light_normal, vdir));
        let dd = spec_mul(dist, dist);
        let diffuse = if dd == 0 { 0 } else { spec_div(imax(0, att), dd) };
        spec_vscale(light_colour, diffuse)
    }
}

/// The incident radiance accumulated after summing all patches of the first
/// `lci` emitting grids and the first `k` patches of grid `lci`, skipping
/// the receiver's own grid (no self-illumination).
pub open spec fn spec_incident_prefix(
    objects: Seq<SceneObject>,
    pc: Seq<Seq<Vec3>>,
    nc: Seq<Seq<Vec3>>,
    em: Seq<Seq<Vec3>>,
    spos: Vec3,
    snormal: Vec3,
    cloud_idx: usize,
    eng_idx: usize,
    lci: int,
    k: int,
) -> Vec3
    decreases lci, k,
{
    if k <= 0 {
        if lci <= 0 {
            Vec3 { x: 0, y: 0, z: 0 }
        } else {
            spec_incident_prefix(
                objects,
                pc,
                nc,
                em,
                spos,
                snormal,
                cloud_idx,
                eng_idx,
                lci - 1,
                MAP_CELLS as int,
            )
        }
    } else {
        let prev = spec_incident_prefix(
            objects,
            pc,
            nc,
            em,
            spos,
            snormal,
            cloud_idx,
            eng_idx,
            lci,
            k - 1,
        );
        if lci == cloud_idx {
            prev
        } else {
            spec_vadd(
                prev,
                spec_bounce_term(objects, pc, nc, em, spos, snormal, eng_idx, lci, k - 1),
            )
        }
    }
}

/// The total incident radiance on a receiving patch from every patch of
/// every other grid.
pub open spec fn spec_patch_incident(
    objects: Seq<SceneObject>,
    pc: Seq<Seq<Vec3>>,
    nc: Seq<Seq<Vec3>>,
    em: Seq<Seq<Vec3>>,
    spos: Vec3,
    snormal: Vec3,
    cloud_idx: usize,
    eng_idx: usize,
) -> Vec3 {
    spec_incident_prefix(
        objects,
        pc,
        nc,
        em,
        spos,
        snormal,
        cloud_idx,
        eng_idx,
        pc.len() as int,
        0,
    )
}

/// Compute the direct lighting on every lightmap patch: each patch casts a
/// ray toward the light (ignoring its own object) and receives the
/// Lambertian inverse-square term only if the ray reaches past the light.
pub fn compute_direct_lighting(
    light: &PointLight,
    obj_indexes: &Vec<usize>,
    objects: &Vec<SceneObject>,
    point_cloud: &Vec<Vec<Vec3>>,
    colour_cloud: &Vec<Vec<Vec3>>,
) -> (r: Vec<Lightmap>)
    requires
        light.wf(),
        wf_objects(objects@),
        forall|i: int| 0 <= i < obj_indexes@.len() ==> (#[trigger] obj_indexes@[i]) < objects@.len(),
        point_cloud@.len() == obj_indexes@.len(),
        colour_cloud@.len() == obj_indexes@.len(),
        wf_cloud(point_cloud@),
        wf_cloud(colour_cloud@),
    ensures
        r@.len() == obj_indexes@.len(),
        wf_maps(r@),
        forall|ci: int, k: int|
            0 <= ci < r@.len() && 0 <= k < MAP_CELLS ==> (#[trigger] r@[ci].sample_map@[k])
                == spec_direct_patch(
                *light,
                objects@,
                obj_indexes@[ci],
                point_cloud@[ci]@[k],
                colour_cloud@[ci]@[k],
            ),
{
    let light_pos: Vec3 = light.get_position();
    let light_intensity: i64 = light.get_intensity();
    let mut emissive_maps: Vec<Lightmap> = Vec::new();
    let mut ci: usize = 0;
    while ci < obj_indexes.len()
        invariant
            light.wf(),
            light_pos == light.position,
            light_intensity == light.intensity,
            wf_objects(objects@),
            forall|i: int|
                0 <= i < obj_indexes@.len() ==> (#[trigger] obj_indexes@[i]) < objects@.len(),
            point_cloud@.len() == obj_indexes@.len(),
            colour_cloud@.len() == obj_indexes@.len(),
            wf_cloud(point_cloud@),
            wf_cloud(colour_cloud@),
            ci <= obj_indexes@.len(),
            emissive_maps@.len() == ci,
            wf_maps(emissive_maps@),
            forall|a: int, k: int|
                0 <= a < ci && 0 <= k < MAP_CELLS ==> (#[trigger] emissive_maps@[a].sample_map@[k])
                    == spec_direct_patch(
                    *light,
                    objects@,
                    obj_indexes@[a],
                    point_cloud@[a]@[k],
                    colour_cloud@[a]@[k],
                ),
        decreases obj_indexes@.len() - ci,
    {
        let obj_index: usize = obj_indexes[ci];
        let mut emissive_map: Lightmap = Lightmap::new();
        let mut k: usize = 0;
        while k < MAP_CELLS
            invariant
                light.wf(),
                light_pos == light.position,
                light_intensity == light.intensity,
                wf_objects(objects@),
                forall|i: int|
                    0 <= i < obj_indexes@.len() ==> (#[trigger] obj_indexes@[i]) < objects@.len(),
                point_cloud@.len() == obj_indexes@.len(),
                colour_cloud@.len() == obj_indexes@.len(),
                wf_cloud(point_cloud@),
                wf_cloud(colour_cloud@),
                ci < obj_indexes@.len(),
                obj_index == obj_indexes@[ci as int],
                k <= MAP_CELLS,
                emissive_map.wf(),
                forall|j: int|
                    0 <= j < k ==> (#[trigger] emissive_map.sample_map@[j]) == spec_direct_patch(
                        *light,
                        objects@,
                        obj_indexes@[ci as int],
                        point_cloud@[ci as int]@[j],
                        colour_cloud@[ci as int]@[j],
                    ),
            decreases MAP_CELLS - k,
        {
            let origin: Vec3 = point_cloud[ci][k];
            let colour: Vec3 = colour_cloud[ci][k];
            let vtl: Vec3 = light_pos.sub(origin);
            let dist: i64 = vtl.mag();
            let vdir: Vec3 = if dist == 0 {
                vtl
            } else {
                vtl.div_scalar(dist)
            };
            let mut shadow_ray: Ray = Ray { position: origin, direction: vdir };
            let _hit: Option<usize> = shadow_ray.march(objects, Option::Some(obj_index));
            let reach: i64 = shadow_ray.position.sub(origin).mag();
            let value: Vec3 = if reach < fx_add(dist, 3 * SMALL_DISTANCE) {
                Vec3 { x: 0, y: 0, z: 0 }
            } else {
                let n: Vec3 = objects[obj_index].calculate_normal(origin);
                let dd: i64 = fx_mul(dist, dist);
                let li: i64 = if dd == 0 {
                    FX_LIM
                } else {
                    fx_div(light_intensity, dd)
                };
                let diffuse: i64 = fx_mul(fx_max(0, n.dot(vdir)), li);
                colour.mul_scalar(diffuse)
            };
            emissive_map.set_cell(k, value);
            k = k + 1;
        }
        emissive_maps.push(emissive_map);
        ci = ci + 1;
    }
    emissive_maps
}

/// Sum the radiance arriving at one receiving patch from every patch of
/// every other lightmap-bearing object, gating each pair by a visibility
/// ray that must reach the receiver.
pub fn compute_patch_radiosity(
    objects: &Vec<SceneObject>,
    point_cloud: &Vec<Vec<Vec3>>,
    normal_cloud: &Vec<Vec<Vec3>>,
    emissive_maps: &Vec<Lightmap>,
    sample: Sample,
) -> (r: Colour)
    requires
        wf_objects(objects@),
        wf_cloud(point_cloud@),
        wf_cloud(normal_cloud@),
        wf_maps(emissive_maps@),
        normal_cloud@.len() == point_cloud@.len(),
        emissive_maps@.len() == point_cloud@.len(),
        sample.pos.wf(),
        sample.normal.wf(),
    ensures
        r == spec_patch_incident(
            objects@,
            cloud_view(point_cloud@),
            cloud_view(normal_cloud@),
            maps_view(emissive_maps@),
            sample.pos,
            sample.normal,
            sample.obj_cloud_index,
            sample.obj_eng_index,
        ),
        r.wf(),
{
    let mut incident: Colour = Vec3 { x: 0, y: 0, z: 0 };
    let mut lci: usize = 0;
    while lci < point_cloud.len()
        invariant
            wf_objects(objects@),
            wf_cloud(point_cloud@),
            wf_cloud(normal_cloud@),
            wf_maps(emissive_maps@),
            normal_cloud@.len() == point_cloud@.len(),
            emissive_maps@.len() == point_cloud@.len(),
            sample.pos.wf(),
            sample.normal.wf(),
            lci <= point_cloud@.len(),
            incident.wf(),
            incident == spec_incident_prefix(
                objects@,
                cloud_view(point_cloud@),
                cloud_view(normal_cloud@),
                maps_view(emissive_maps@),
                sample.pos,
                sample.normal,
                sample.obj_cloud_index,
                sample.obj_eng_index,
                lci as int,
                0,
            ),
        decreases point_cloud@.len() - lci,
    {
        if lci != sample.obj_cloud_index {
            let mut k: usize = 0;
            while k < MAP_CELLS
                invariant
                    wf_objects(objects@),
                    wf_cloud(point_cloud@),
                    wf_cloud(normal_cloud@),
                    wf_maps(emissive_maps@),
                    normal_cloud@.len() == point_cloud@.len(),
                    emissive_maps@.len() == point_cloud@.len(),
                    sample.pos.wf(),
                    sample.normal.wf(),
                    lci < point_cloud@.len(),
                    lci != sample.obj_cloud_index,
                    k <= MAP_CELLS,
                    incident.wf(),
                    incident == spec_incident_prefix(
                        objects@,
                        cloud_view(point_cloud@),
                        cloud_view(normal_cloud@),
                        maps_view(emissive_maps@),
                        sample.pos,
                        sample.normal,
                        sample.obj_cloud_index,
                        sample.obj_eng_index,
                        lci as int,
                        k as int,
                    ),
                decreases MAP_CELLS - k,
            {
                let light_source: Vec3 = point_cloud[lci][k];
                let light_colour: Colour = emissive_maps[lci].get_cell(k);
                let light_normal: Vec3 = normal_cloud[lci][k];
                let vtl: Vec3 = light_source.sub(sample.pos);
                let dist: i64 = vtl.mag();
                let vdir: Vec3 = if dist == 0 {
                    vtl
                } else {
                    vtl.div_scalar(dist)
                };
                let ndir: Vec3 = vdir.neg();
                let mut shadow_ray: Ray = Ray {
                    position: light_source.add(ndir.mul_scalar(3 * SMALL_DISTANCE)),
                    direction: ndir,
                };
                let hit: Option<usize> = shadow_ray.march(objects, Option::None);
                let blocked: bool = match hit {
                    Option::Some(h) => h != sample.obj_eng_index,
                    Option::None => false,
                };
                let term: Vec3 = if blocked {
                    Vec3 { x: 0, y: 0, z: 0 }
                } else {
                    let att: i64 = fx_mul(
                        sample.normal.dot(vdir),
                        fx_neg(light_normal.dot(vdir)),
                    );
                    let dd: i64 = fx_mul(dist, dist);
                    let diffuse: i64 = if dd == 0 {
                        0
                    } else {
                        fx_div(fx_max(0, att), dd)
                    };
                    light_colour.mul_scalar(diffuse)
                };
                incident = incident.add(term);
                k = k + 1;
            }
        }
        proof {
            assert(spec_incident_prefix(
                objects@,
                cloud_view(point_cloud@),
                cloud_view(normal_cloud@),
                maps_view(emissive_maps@),
                sample.pos,
                sample.normal,
                sample.obj_cloud_index,
                sample.obj_eng_index,
                lci as int + 1,
                0,
            ) == spec_incident_prefix(
                objects@,
                cloud_view(point_cloud@),
                cloud_view(normal_cloud@),
                maps_view(emissive_maps@),
                sample.pos,
                sample.normal,
                sample.obj_cloud_index,
                sample.obj_eng_index,
                lci as int,
                MAP_CELLS as int,
            ));
            if lci == sample.obj_cloud_index {
                assert(spec_incident_prefix(
                    objects@,
                    cloud_view(point_cloud@),
                    cloud_view(normal_cloud@),
                    maps_view(emissive_maps@),
                    sample.pos,
                    sample.normal,
                    sample.obj_cloud_index,
                    sample.obj_eng_index,
                    lci as int,
                    MAP_CELLS as int,
                ) == spec_incident_prefix(
                    objects@,
                    cloud_view(point_cloud@),
                    cloud_view(normal_cloud@),
                    maps_view(emissive_maps@),
                    sample.pos,
                    sample.normal,
                    sample.obj_cloud_index,
                    sample.obj_eng_index,
                    lci as int,
                    0,
                )) by {
                    lemma_incident_prefix_skip(
                        objects@,
                        cloud_view(point_cloud@),
                        cloud_view(normal_cloud@),
                        maps_view(emissive_maps@),
                        sample.pos,
                        sample.normal,
                        sample.obj_cloud_index,
                        sample.obj_eng_index,
                        lci as int,
                        MAP_CELLS as int,
                    );
                }
            }
        }
        lci = lci + 1;
    }
    incident
}

/// On the receiver's own grid the prefix sum does not move.
proof fn lemma_incident_prefix_skip(
    objects: Seq<SceneObject>,
    pc: Seq<Seq<Vec3>>,
    nc: Seq<Seq<Vec3>>,
    em: Seq<Seq<Vec3>>,
    spos: Vec3,
    snormal: Vec3,
    cloud_idx: usize,
    eng_idx: usize,
    lci: int,
    k: int,
)
    requires
        lci == cloud_idx,
        k >= 0,
    ensures
        spec_incident_prefix(objects, pc, nc, em, spos, snormal, cloud_idx, eng_idx, lci, k)
            == spec_incident_prefix(objects, pc, nc, em, spos, snormal, cloud_idx, eng_idx, lci, 0),
    decreases k,
{
    if k > 0 {
        lemma_incident_prefix_skip(
            objects,
            pc,
            nc,
            em,
            spos,
            snormal,
            cloud_idx,
            eng_idx,
            lci,
            k - 1,
        );
    }
}

/// One bounce step for one object: add the (Lambertian-normalized) incident
/// radiance of each patch to the object's accumulated lightmap, and emit it
/// scaled by the patch albedo as the next iteration's emissive map.
pub fn compute_object_radiosity(
    objects: &Vec<SceneObject>,
    base: &Lightmap,
    obj_cloud_index: usize,
    obj_eng_index: usize,
    point_cloud: &Vec<Vec<Vec3>>,
    colour_cloud: &Vec<Vec<Vec3>>,
    normal_cloud: &Vec<Vec<Vec3>>,
    emissive_maps: &Vec<Lightmap>,
) -> (r: (Lightmap, Lightmap))
    requires
        wf_objects(objects@),
        base.wf(),
        wf_cloud(point_cloud@),
        wf_cloud(colour_cloud@),
        wf_cloud(normal_cloud@),
        wf_maps(emissive_maps@),
        normal_cloud@.len() == point_cloud@.len(),
        colour_cloud@.len() == point_cloud@.len(),
        emissive_maps@.len() == point_cloud@.len(),
        obj_cloud_index < point_cloud@.len(),
    ensures
        r.0.wf(),
        r.1.wf(),
        forall|k: int|
            0 <= k < MAP_CELLS ==> (#[trigger] r.0.sample_map@[k]) == spec_vadd(
                base.sample_map@[k],
                spec_vdiv(
                    spec_patch_incident(
                        objects@,
                        cloud_view(point_cloud@),
                        cloud_view(normal_cloud@),
                        maps_view(emissive_maps@),
                        point_cloud@[obj_cloud_index as int]@[k],
                        normal_cloud@[obj_cloud_index as int]@[k],
                        obj_cloud_index,
                        obj_eng_index,
                    ),
                    PI_FX as int,
                ),
            ),
        forall|k: int|
            0 <= k < MAP_CELLS ==> (#[trigger] r.1.sample_map@[k]) == spec_velem(
                spec_vdiv(
                    spec_patch_incident(
                        objects@,
                        cloud_view(point_cloud@),
                        cloud_view(normal_cloud@),
                        maps_view(emissive_maps@),
                        point_cloud@[obj_cloud_index as int]@[k],
                        normal_cloud@[obj_cloud_index as int]@[k],
                        obj_cloud_index,
                        obj_eng_index,
                    ),
                    PI_FX as int,
                ),
                colour_cloud@[obj_cloud_index as int]@[k],
            ),
{
    let mut obj_lightmap: Lightmap = base.duplicate();
    let mut new_emissive_map: Lightmap = Lightmap::new();
    let mut k: usize = 0;
    while k < MAP_CELLS
        invariant
            wf_objects(objects@),
            base.wf(),
            wf_cloud(point_cloud@),
            wf_cloud(colour_cloud@),
            wf_cloud(normal_cloud@),
            wf_maps(emissive_maps@),
            normal_cloud@.len() == point_cloud@.len(),
            colour_cloud@.len() == point_cloud@.len(),
            emissive_maps@.len() == point_cloud@.len(),
            obj_cloud_index < point_cloud@.len(),
            k <= MAP_CELLS,
            obj_lightmap.wf(),
            new_emissive_map.wf(),
            forall|j: int|
                k <= j < MAP_CELLS ==> (#[trigger] obj_lightmap.sample_map@[j])
                    == base.sample_map@[j],
            forall|j: int|
                0 <= j < k ==> (#[trigger] obj_lightmap.sample_map@[j]) == spec_vadd(
                    base.sample_map@[j],
                    spec_vdiv(
                        spec_patch_incident(
                            objects@,
                            cloud_view(point_cloud@),
                            cloud_view(normal_cloud@),
                            maps_view(emissive_maps@),
                            point_cloud@[obj_cloud_index as int]@[j],
                            normal_cloud@[obj_cloud_index as int]@[j],
                            obj_cloud_index,
                            obj_eng_index,
                        ),
                        PI_FX as int,
                    ),
                ),
            forall|j: int|
                0 <= j < k ==> (#[trigger] new_emissive_map.sample_map@[j]) == spec_velem(
                    spec_vdiv(
                        spec_patch_incident(
                            objects@,
                            cloud_view(point_cloud@),
                            cloud_view(normal_cloud@),
                            maps_view(emissive_maps@),
                            point_cloud@[obj_cloud_index as int]@[j],
                            normal_cloud@[obj_cloud_index as int]@[j],
                            obj_cloud_index,
                            obj_eng_index,
                        ),
                        PI_FX as int,
                    ),
                    colour_cloud@[obj_cloud_index as int]@[j],
                ),
        decreases MAP_CELLS - k,
    {
        let patch_pos: Vec3 = point_cloud[obj_cloud_index][k];
        let obj_pos_colour: Vec3 = colour_cloud[obj_cloud_index][k];
        let n: Vec3 = normal_cloud[obj_cloud_index][k];
        let sample: Sample = Sample {
            pos: patch_pos,
            colour: obj_pos_colour,
            normal: n,
            obj_cloud_index,
            obj_eng_index,
        };
        let incident: Colour = compute_patch_radiosity(
            objects,
            point_cloud,
            normal_cloud,
            emissive_maps,
            sample,
        );
        let incident: Colour = incident.div_scalar(PI_FX);
        let base: Colour = obj_lightmap.get_cell(k);
        obj_lightmap.set_cell(k, base.add(incident));
        new_emissive_map.set_cell(k, incident.element_mul(obj_pos_colour));
        k = k + 1;
    }
    (obj_lightmap, new_emissive_map)
}

} // verus!
