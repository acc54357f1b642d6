//! The frame driver: sight-ray casting, Phong shading with reflections,
//! frame assembly and the lightmap bake orchestration.

use vstd::prelude::*;

use crate::colour::{
    phong_ds, sky_colour, spec_aces, spec_light_intensity, spec_phong_diffuse,
    spec_phong_specular, spec_rgb, ACESFilm, Colour, Pixel,
};
use crate::fixed::{
    fx_add, fx_clamp, fx_div, fx_mul, fx_powi, fx_sub, in_fx, spec_clamp, spec_div, spec_mul,
    spec_powi, spec_sat, FX_ONE,
};
use crate::material::Material;
use crate::objects::{
    spec_colour_of, spec_has_lightmap, spec_material_of, spec_normal, spec_sample_lightmap,
    spec_sample_pos, spec_same_but_lightmap, spec_lightmap_view, PointLight, SceneObject,
};
use crate::radiosity::{
    cloud_view, compute_direct_lighting, compute_object_radiosity, maps_view, spec_direct_patch,
    spec_patch_incident, wf_cloud, wf_maps, Lightmap, MAP_CELLS, MAP_SIZE,
};
use crate::ray::{spec_march, spec_shadow, wf_objects, Ray};
use crate::vector::{
    spec_dot, spec_mag, spec_mag_sqd, spec_normalized, spec_reflect, spec_vadd, spec_vdiv,
    spec_velem, spec_vneg, spec_vscale, spec_vsub, sv, Vec3,
};

verus! {

/// Default frame width in pixels.
pub const WIDTH: usize = 800;

/// Default frame height in pixels.
pub const HEIGHT: usize = 600;

/// A sight ray that travels this far (in fixed point) without a hit is a
/// miss.
pub const MAX_MARCH_DISTANCE: i64 = 3276800;

/// Distances below this threshold (about 0.001 world units) count as a
/// surface hit.
pub const SMALL_DISTANCE: i64 = 66;

/// Iteration budget of the soft-shadow march.
pub const MAX_SHAD_IT: u32 = 64;

/// Defensive iteration ceiling of the sphere-tracing march, bounding its
/// cost even on distance fields that make no progress.
pub const MAX_MARCH_IT: u32 = 256;

/// Reflection recursion depth cap.
pub const MAX_REFLECT_DEPTH: u32 = 4;

/// A material reflects only above this threshold (about `1e-3`).
pub const REFLECT_EPS: i64 = 66;

/// The penumbra sharpness constant handed to the soft-shadow march
/// (`16.0` in fixed point).
pub const SHADOW_K: i64 = 1048576;

/// The renderer: the scene objects, the camera position and the light.
pub struct Engine {
    pub objects: Vec<SceneObject>,
    pub camera_position: Vec3,
    pub light: PointLight,
}

/// The colour returned by shading a hit on object `obj_index` at
/// `position`, seen along `direction`, with `depth` reflection bounces
/// left: lightmap-or-flat ambient, shadow-scaled Phong direct light, and a
/// Fresnel-boosted reflection where the material reflects.
pub open spec fn spec_shade(
    objects: Seq<SceneObject>,
    light: PointLight,
    obj_index: usize,
    position: Vec3,
    direction: Vec3,
    depth: nat,
) -> Vec3
    decreases depth, 0int,
{
    let object = objects[obj_index as int];
    let object_colour = spec_colour_of(object);
    let mat = spec_material_of(object);
    let n = spec_normal(object, position);
    let ambient0 = if !spec_has_lightmap(object) {
        spec_vscale(object_colour, mat.ambient as int)
    } else {
        spec_sample_lightmap(object, position)
    };
    let ambient1 = if spec_mag_sqd(ambient0) < spec_mul(mat.ambient as int, mat.ambient as int) {
        spec_vscale(spec_normalized(ambient0), mat.ambient as int)
    } else {
        ambient0
    };
    let ambient = spec_velem(ambient1, object_colour);
    let vtl_raw = spec_vsub(light.position, position);
    let dist = spec_mag(vtl_raw);
    if dist == 0 {
        ambient
    } else {
        let vtl = spec_vdiv(vtl_raw, dist);
        let li = spec_light_intensity(light.intensity as int, dist);
        let diffuse = spec_phong_diffuse(mat, li, n, vtl);
        let specular = if diffuse > 0 {
            spec_phong_specular(mat, li, n, vtl, direction)
        } else {
            0
        };
        let shade = spec_shadow(
            objects,
            obj_index,
            position,
            vtl,
            0,
            FX_ONE as int,
            dist,
            SHADOW_K as int,
            MAX_SHAD_IT as nat,
        );
        let base = spec_vadd(
            ambient,
            spec_vscale(object_colour, spec_mul(shade, spec_sat(diffuse + specular))),
        );
        if mat.reflectivity > REFLECT_EPS && depth > 0 {
            let fresnel = spec_powi(
                spec_clamp(spec_sat(FX_ONE - spec_dot(n, spec_vneg(direction))), 0, FX_ONE as int),
                5,
            );
            let refl_vec = spec_reflect(direction, n);
            let refl_col = spec_cast(
                objects,
                light,
                spec_vadd(position, spec_vscale(refl_vec, 3 * SMALL_DISTANCE as int)),
                refl_vec,
                (depth - 1) as nat,
            );
            let kr = spec_clamp(spec_sat(fresnel + mat.reflectivity), 0, FX_ONE as int);
            spec_vadd(base, spec_vscale(spec_velem(refl_col, object_colour), kr))
        } else {
            base
        }
    }
}

/// The colour seen along a sight ray: the sky where the march misses, the
/// shaded hit otherwise.
pub open spec fn spec_cast(
    objects: Seq<SceneObject>,
    light: PointLight,
    position: Vec3,
    direction: Vec3,
    depth: nat,
) -> Vec3
    decreases depth, 1int,
{
    let m = spec_march(objects, Option::None, position, direction, 0, MAX_MARCH_IT as nat);
    if m.0 < 0 {
        spec_rgb(135, 206, 235)
    } else {
        spec_shade(objects, light, m.0 as usize, m.1, direction, depth)
    }
}

/// The camera-space rotation by yaw/pitch whose sines and cosines are
/// given.
pub open spec fn spec_rot(v: Vec3, sx: int, cx: int, sy: int, cy: int) -> Vec3 {
    let y1 = spec_sat(spec_mul(v.y as int, cy) - spec_mul(v.z as int, sy));
    let z1 = spec_sat(spec_mul(v.y as int, sy) + spec_mul(v.z as int, cy));
    let x1 = spec_sat(spec_mul(v.x as int, cx) - spec_mul(z1, sx));
    let z2 = spec_sat(spec_mul(v.x as int, sx) + spec_mul(z1, cx));
    sv(x1, y1, z2)
}

/// One 8-bit output channel: `round(clamp(255 * c, 0, 255))`.
pub open spec fn spec_to_pixel_range(c: int) -> int {
    spec_clamp(spec_sat(spec_sat(c * 255) + 32768) / (FX_ONE as int), 0, 255)
}

/// The pixel at column `x`, inverted row `y_inv` of a `w` by `h` frame:
/// the sight-ray direction built from normalized device coordinates and
/// the camera rotation, cast into the scene, tone mapped, gamma encoded
/// and quantized, channel-swizzled for a BGRA target.
pub open spec fn spec_render_pixel(
    objects: Seq<SceneObject>,
    light: PointLight,
    cam: Vec3,
    w: int,
    h: int,
    sx: int,
    cx: int,
    sy: int,
    cy: int,
    zdepth: int,
    x: int,
    y_inv: int,
) -> Pixel {
    let y = h - y_inv;
    let u = spec_div(2 * x * FX_ONE - w * FX_ONE, h * FX_ONE);
    let v = spec_div(2 * y * FX_ONE - h * FX_ONE, h * FX_ONE);
    let dir = spec_normalized(spec_rot(sv(u, v, zdepth), sx, cx, sy, cy));
    let col = spec_cast(objects, light, cam, dir, MAX_REFLECT_DEPTH as nat);
    let srgb = crate::vector::spec_vsqrt(spec_aces(col));
    Pixel {
        r: spec_to_pixel_range(srgb.z as int) as u8,
        g: spec_to_pixel_range(srgb.y as int) as u8,
        b: spec_to_pixel_range(srgb.x as int) as u8,
        a: 0,
    }
}

fn rot(vector: Vec3, sx: i64, cx: i64, sy: i64, cy: i64) -> (r: Vec3)
    requires
        vector.wf(),
        in_fx(sx as int),
        in_fx(cx as int),
        in_fx(sy as int),
        in_fx(cy as int),
    ensures
        r == spec_rot(vector, sx as int, cx as int, sy as int, cy as int),
        r.wf(),
{
    let y1: i64 = fx_sub(fx_mul(vector.y, cy), fx_mul(vector.z, sy));
    let z1: i64 = fx_add(fx_mul(vector.y, sy), fx_mul(vector.z, cy));
    let x1: i64 = fx_sub(fx_mul(vector.x, cx), fx_mul(z1, sx));
    let z2: i64 = fx_add(fx_mul(vector.x, sx), fx_mul(z1, cx));
    Vec3 { x: x1, y: y1, z: z2 }
}

fn to_pixel_range(i: i64) -> (r: u8)
    requires
        in_fx(i as int),
    ensures
        r == spec_to_pixel_range(i as int),
{
    let q: i64 = crate::fixed::fx_scale_int(i, 255);
    let h: i64 = fx_add(q, 32768);
    let f: i64 = crate::fixed::fx_floor(h);
    let c: i64 = fx_clamp(f, 0, 255);
    c as u8
}

impl Engine {
    /// The scene, camera and light are well formed.
    pub open spec fn wf(self) -> bool {
        wf_objects(self.objects@) && self.camera_position.wf() && self.light.wf()
    }

    /// Cast a sight ray: march it through the scene and return the sky
    /// colour on a miss or the shaded hit colour, with `depth` reflection
    /// bounces left.
    pub fn cast_sight_ray(&self, position: Vec3, direction: Vec3, depth: u32) -> (r: Colour)
        requires
            self.wf(),
            position.wf(),
            direction.wf(),
        ensures
            r == spec_cast(self.objects@, self.light, position, direction, depth as nat),
            r.wf(),
        decreases depth, 1int,
    {
        let mut ray: Ray = Ray { position, direction };
        let has_hit: Option<usize> = ray.march(&self.objects, Option::None);
        match has_hit {
            Option::None => sky_colour(),
            Option::Some(obj_index) => self.shade_object(obj_index, ray.position, direction, depth),
        }
    }

    /// Shade a surface hit: ambient from the lightmap (or a flat term),
    /// shadow-scaled Phong direct light, and a reflection bounce where the
    /// material reflects and depth remains.
    pub fn shade_object(&self, obj_index: usize, position: Vec3, direction: Vec3, depth: u32) -> (r:
        Colour)
        requires
            self.wf(),
            obj_index < self.objects@.len(),
            position.wf(),
            direction.wf(),
        ensures
            r == spec_shade(
                self.objects@,
                self.light,
                obj_index,
                position,
                direction,
                depth as nat,
            ),
            r.wf(),
        decreases depth, 0int,
    {
        let object: &SceneObject = &self.objects[obj_index];
        let object_colour: Colour = object.colour(position);
        let object_mat: Material = object.material();
        let n: Vec3 = object.calculate_normal(position);
        let mut ambient: Colour = match object.get_lightmap() {
            Option::None => object_colour.mul_scalar(object_mat.ambient),
            Option::Some(_) => object.sample_lightmap(position),
        };
        if ambient.mag_sqd() < fx_mul(object_mat.ambient, object_mat.ambient) {
            ambient = ambient.normalized().mul_scalar(object_mat.ambient);
        }
        let ambient: Colour = ambient.element_mul(object_colour);
        let vtl_raw: Vec3 = self.light.get_position().sub(position);
        let distance_to_light: i64 = vtl_raw.mag();
        if distance_to_light == 0 {
            return ambient;
        }
        let vector_to_light: Vec3 = vtl_raw.div_scalar(distance_to_light);
        let ds: (i64, i64) = phong_ds(
            n,
            vector_to_light,
            distance_to_light,
            self.light.get_intensity(),
            &object_mat,
            direction,
        );
        let mut shadow_ray: Ray = Ray { position, direction: vector_to_light };
        let shade: i64 = shadow_ray.smooth_shadow_march(
            &self.objects,
            obj_index,
            distance_to_light,
            SHADOW_K,
        );
        let mut final_colour: Colour = ambient.add(
            object_colour.mul_scalar(fx_mul(shade, fx_add(ds.0, ds.1))),
        );
        if object_mat.reflectivity > REFLECT_EPS && depth > 0 {
            let fresnel: i64 = fx_powi(
                fx_clamp(fx_sub(FX_ONE, n.dot(direction.neg())), 0, FX_ONE),
                5,
            );
            let reflection_vector: Vec3 = direction.reflect(n);
            let reflection_colour: Colour = self.cast_sight_ray(
                position.add(reflection_vector.mul_scalar(3 * SMALL_DISTANCE)),
                reflection_vector,
                depth - 1,
            );
            let kr: i64 = fx_clamp(fx_add(fresnel, object_mat.reflectivity), 0, FX_ONE);
            final_colour = final_colour.add(
                reflection_colour.element_mul(object_colour).mul_scalar(kr),
            );
        }
        final_colour
    }

    /// Render the pixel at column `x`, inverted row `y_inv` of a `width`
    /// by `height` frame; `sx, cx, sy, cy` are the sines and cosines of
    /// the camera yaw and pitch, `zdepth` the focal length.
    pub fn render_pixel(
        &self,
        width: usize,
        height: usize,
        sx: i64,
        cx: i64,
        sy: i64,
        cy: i64,
        zdepth: i64,
        x: usize,
        y_inv: usize,
    ) -> (r: Pixel)
        requires
            self.wf(),
            in_fx(sx as int),
            in_fx(cx as int),
            in_fx(sy as int),
            in_fx(cy as int),
            in_fx(zdepth as int),
            1 <= height <= 4096,
            width <= 4096,
            x < width,
            y_inv < height,
        ensures
            r == spec_render_pixel(
                self.objects@,
                self.light,
                self.camera_position,
                width as int,
                height as int,
                sx as int,
                cx as int,
                sy as int,
                cy as int,
                zdepth as int,
                x as int,
                y_inv as int,
            ),
    {
        let y: usize = height - y_inv;
        let a: i64 = 2 * (x as i64) * 65536 - (width as i64) * 65536;
        let b: i64 = 2 * (y as i64) * 65536 - (height as i64) * 65536;
        let hfx: i64 = (height as i64) * 65536;
        let u: i64 = fx_div(a, hfx);
        let v: i64 = fx_div(b, hfx);
        let dir: Vec3 = rot(Vec3::new(u, v, zdepth), sx, cx, sy, cy).normalized();
        let col: Colour = self.cast_sight_ray(self.camera_position, dir, MAX_REFLECT_DEPTH);
        let srgb: Colour = ACESFilm(col).sqrt();
        Pixel {
            r: to_pixel_range(srgb.z()),
            g: to_pixel_range(srgb.y()),
            b: to_pixel_range(srgb.x()),
            a: 0,
        }
    }

    /// Render a full frame into a row-major pixel buffer (BGRA channel
    /// order), one sight ray per pixel.
    pub fn render(
        &self,
        width: usize,
        height: usize,
        sx: i64,
        cx: i64,
        sy: i64,
        cy: i64,
        zdepth: i64,
    ) -> (r: Vec<Pixel>)
        requires
            self.wf(),
            in_fx(sx as int),
            in_fx(cx as int),
            in_fx(sy as int),
            in_fx(cy as int),
            in_fx(zdepth as int),
            1 <= height <= 4096,
            1 <= width <= 4096,
        ensures
            r@.len() == width * height,
            forall|i: int|
                0 <= i < r@.len() ==> r@[i] == spec_render_pixel(
                    self.objects@,
                    self.light,
                    self.camera_position,
                    width as int,
                    height as int,
                    sx as int,
                    cx as int,
                    sy as int,
                    cy as int,
                    zdepth as int,
                    i % width as int,
                    i / width as int,
                ),
    {
        proof {
            assert((width as int) * (height as int) <= 16777216) by (nonlinear_arith)
                requires 1 <= width as int <= 4096 && 1 <= height as int <= 4096;
        }
        let total: usize = width * height;
        let mut buf: Vec<Pixel> = Vec::new();
        let mut i: usize = 0;
        while i < total
            invariant
                self.wf(),
                in_fx(sx as int),
                in_fx(cx as int),
                in_fx(sy as int),
                in_fx(cy as int),
                in_fx(zdepth as int),
                1 <= height <= 4096,
                1 <= width <= 4096,
                total == width * height,
                i <= total,
                buf@.len() == i,
                forall|j: int|
                    0 <= j < i ==> buf@[j] == spec_render_pixel(
                        self.objects@,
                        self.light,
                        self.camera_position,
                        width as int,
                        height as int,
                        sx as int,
                        cx as int,
                        sy as int,
                        cy as int,
                        zdepth as int,
                        j % width as int,
                        j / width as int,
                    ),
            decreases total - i,
        {
            let x: usize = i % width;
            let y_inv: usize = i / width;
            proof {
                assert((i as int) / (width as int) < (height as int)) by (nonlinear_arith)
                    requires
                        width as int >= 1,
                        (i as int) < (width as int) * (height as int);
                assert((i as int) % (width as int) < (width as int)) by (nonlinear_arith)
                    requires width as int >= 1;
            }
            let p: Pixel = self.render_pixel(width, height, sx, cx, sy, cy, zdepth, x, y_inv);
            buf.push(p);
            i = i + 1;
        }
        buf
    }
}

/// The scene indices of the lightmap-bearing objects among the first `n`,
/// in increasing order.
pub open spec fn spec_lightmap_indexes(objects: Seq<SceneObject>, n: int) -> Seq<usize>
    decreases n,
{
    if n <= 0 {
        Seq::empty()
    } else {
        let p = spec_lightmap_indexes(objects, n - 1);
        if spec_has_lightmap(objects[n - 1]) {
            p.push((n - 1) as usize)
        } else {
            p
        }
    }
}

/// Each collected index is a lightmap-bearing object, the indices grow,
/// and the count of indices collected up to a collected index recovers its
/// place in the sequence.
pub proof fn lemma_lightmap_indexes_props(objects: Seq<SceneObject>, n: int)
    requires
        0 <= n <= objects.len(),
        objects.len() <= usize::MAX,
    ensures
        ({
            let idxs = spec_lightmap_indexes(objects, n);
            forall|j: int|
                0 <= j < idxs.len() ==> (#[trigger] idxs[j]) < n && spec_has_lightmap(
                    objects[idxs[j] as int],
                ) && spec_lightmap_indexes(objects, idxs[j] as int).len() == j
        }),
    decreases n,
{
    if n > 0 {
        lemma_lightmap_indexes_props(objects, n - 1);
        let prev = spec_lightmap_indexes(objects, n - 1);
        let idxs = spec_lightmap_indexes(objects, n);
        if spec_has_lightmap(objects[n - 1]) {
            assert(idxs == prev.push((n - 1) as usize));
            assert forall|j: int| 0 <= j < idxs.len() implies (#[trigger] idxs[j]) < n
                && spec_has_lightmap(objects[idxs[j] as int]) && spec_lightmap_indexes(
                objects,
                idxs[j] as int,
            ).len() == j by {
                if j < prev.len() {
                    assert(spec_lightmap_indexes(objects, n - 1)[j] < n - 1
                        && spec_has_lightmap(
                        objects[spec_lightmap_indexes(objects, n - 1)[j] as int],
                    ) && spec_lightmap_indexes(
                        objects,
                        spec_lightmap_indexes(objects, n - 1)[j] as int,
                    ).len() == j);
                    assert(idxs[j] == prev[j]);
                } else {
                    assert(j == prev.len());
                    assert(idxs[j] == (n - 1) as usize);
                    assert(spec_lightmap_indexes(objects, n - 1).len() == j);
                }
            }
        }
    }
}

/// Collecting over a longer prefix only appends indices.
pub proof fn lemma_lightmap_indexes_monotone(objects: Seq<SceneObject>, n: int, m: int)
    requires
        0 <= n <= m,
    ensures
        spec_lightmap_indexes(objects, n).len() <= spec_lightmap_indexes(objects, m).len(),
        forall|j: int|
            0 <= j < spec_lightmap_indexes(objects, n).len() ==> #[trigger] spec_lightmap_indexes(
                objects,
                m,
            )[j] == spec_lightmap_indexes(objects, n)[j],
    decreases m - n,
{
    if n < m {
        lemma_lightmap_indexes_monotone(objects, n, m - 1);
    }
}

/// The world positions of the lightmap cells of the indexed objects.
pub open spec fn spec_bake_points(objects: Seq<SceneObject>, idxs: Seq<usize>) -> Seq<Seq<Vec3>> {
    Seq::new(
        idxs.len(),
        |ci: int|
            Seq::new(
                MAP_CELLS as nat,
                |k: int| spec_sample_pos(objects[idxs[ci] as int], k / 8, k % 8),
            ),
    )
}

/// The base colours of the lightmap cells of the indexed objects.
pub open spec fn spec_bake_colours(objects: Seq<SceneObject>, idxs: Seq<usize>) -> Seq<Seq<Vec3>> {
    Seq::new(
        idxs.len(),
        |ci: int| Seq::new(MAP_CELLS as nat, |k: int| spec_colour_of(objects[idxs[ci] as int])),
    )
}

/// The surface normals at the lightmap cells of the indexed objects.
pub open spec fn spec_bake_normals(objects: Seq<SceneObject>, idxs: Seq<usize>) -> Seq<Seq<Vec3>> {
    Seq::new(
        idxs.len(),
        |ci: int|
            Seq::new(
                MAP_CELLS as nat,
                |k: int|
                    spec_normal(
                        objects[idxs[ci] as int],
                        spec_sample_pos(objects[idxs[ci] as int], k / 8, k % 8),
                    ),
            ),
    )
}

/// The per-object direct-lighting maps.
pub open spec fn spec_direct_maps(
    objects: Seq<SceneObject>,
    light: PointLight,
    idxs: Seq<usize>,
) -> Seq<Seq<Vec3>> {
    Seq::new(
        idxs.len(),
        |ci: int|
            Seq::new(
                MAP_CELLS as nat,
                |k: int|
                    spec_direct_patch(
                        light,
                        objects,
                        idxs[ci],
                        spec_bake_points(objects, idxs)[ci][k],
                        spec_bake_colours(objects, idxs)[ci][k],
                    ),
            ),
    )
}

/// The Lambertian-normalized incident radiance of one receiving cell given
/// the emissive maps `em`.
pub open spec fn spec_cell_inc(
    objects: Seq<SceneObject>,
    idxs: Seq<usize>,
    em: Seq<Seq<Vec3>>,
    ci: int,
    k: int,
) -> Vec3 {
    let pc = spec_bake_points(objects, idxs);
    let nc = spec_bake_normals(objects, idxs);
    spec_vdiv(
        spec_patch_incident(objects, pc, nc, em, pc[ci][k], nc[ci][k], ci as usize, idxs[ci]),
        crate::trig::PI_FX as int,
    )
}

/// The accumulated lightmaps and the emissive maps after `rounds` bounce
/// iterations, starting from the direct-lighting pass.
pub open spec fn spec_bake_state(
    objects: Seq<SceneObject>,
    light: PointLight,
    idxs: Seq<usize>,
    rounds: nat,
) -> (Seq<Seq<Vec3>>, Seq<Seq<Vec3>>)
    decreases rounds,
{
    if rounds == 0 {
        let d = spec_direct_maps(objects, light, idxs);
        (d, d)
    } else {
        let prev = spec_bake_state(objects, light, idxs, (rounds - 1) as nat);
        let lm2 = Seq::new(
            idxs.len(),
            |ci: int|
                Seq::new(
                    MAP_CELLS as nat,
                    |k: int| spec_vadd(prev.0[ci][k], spec_cell_inc(objects, idxs, prev.1, ci, k)),
                ),
        );
        let em2 = Seq::new(
            idxs.len(),
            |ci: int|
                Seq::new(
                    MAP_CELLS as nat,
                    |k: int|
                        spec_velem(
                            spec_cell_inc(objects, idxs, prev.1, ci, k),
                            spec_colour_of(objects[idxs[ci] as int]),
                        ),
                ),
        );
        (lm2, em2)
    }
}

impl Engine {
    /// Bake the radiosity lightmaps: collect the lightmap-bearing objects,
    /// build their sample clouds, run the direct-lighting pass, iterate
    /// four bounce rounds, and store the accumulated maps in the objects.
    pub fn compute_lightmaps(&mut self)
        requires
            old(self).wf(),
        ensures
            final(self).wf(),
            final(self).camera_position == old(self).camera_position,
            final(self).light == old(self).light,
            final(self).objects@.len() == old(self).objects@.len(),
            forall|i: int|
                0 <= i < old(self).objects@.len() ==> spec_same_but_lightmap(
                    old(self).objects@[i],
                    #[trigger] final(self).objects@[i],
                ),
            forall|i: int|
                0 <= i < old(self).objects@.len() && !spec_has_lightmap(old(self).objects@[i])
                    ==> #[trigger] final(self).objects@[i] == old(self).objects@[i],
            ({
                let objs = old(self).objects@;
                let idxs = spec_lightmap_indexes(objs, objs.len() as int);
                let bake = spec_bake_state(objs, old(self).light, idxs, 4);
                forall|ci: int|
                    0 <= ci < idxs.len() ==> spec_lightmap_view(
                        #[trigger] final(self).objects@[idxs[ci] as int],
                    ) == bake.0[ci]
            }),
    {
        let ghost objs0 = self.objects@;
        let ghost light0 = self.light;
        let n: usize = self.objects.len();
        let mut obj_indexes: Vec<usize> = Vec::new();
        let mut i: usize = 0;
        while i < n
            invariant
                *self == *old(self),
                old(self).wf(),
                objs0 == old(self).objects@,
                n == objs0.len(),
                i <= n,
                obj_indexes@ == spec_lightmap_indexes(objs0, i as int),
            decreases n - i,
        {
            let has: bool = match self.objects[i].get_lightmap() {
                Option::Some(_) => true,
                Option::None => false,
            };
            if has {
                obj_indexes.push(i);
            }
            i = i + 1;
        }
        proof {
            lemma_lightmap_indexes_props(objs0, n as int);
        }
        let ghost idxs = spec_lightmap_indexes(objs0, n as int);
        let m: usize = obj_indexes.len();
        let mut point_cloud: Vec<Vec<Vec3>> = Vec::new();
        let mut colour_cloud: Vec<Vec<Vec3>> = Vec::new();
        let mut normal_cloud: Vec<Vec<Vec3>> = Vec::new();
        let mut ci: usize = 0;
        while ci < m
            invariant
                *self == *old(self),
                old(self).wf(),
                objs0 == old(self).objects@,
                n == objs0.len(),
                idxs == spec_lightmap_indexes(objs0, n as int),
                obj_indexes@ == idxs,
                m == idxs.len(),
                forall|j: int|
                    0 <= j < m ==> (#[trigger] idxs[j]) < n && spec_has_lightmap(
                        objs0[idxs[j] as int],
                    ),
                ci <= m,
                point_cloud@.len() == ci,
                colour_cloud@.len() == ci,
                normal_cloud@.len() == ci,
                wf_cloud(point_cloud@),
                wf_cloud(colour_cloud@),
                wf_cloud(normal_cloud@),
                forall|a: int|
                    0 <= a < ci ==> (#[trigger] point_cloud@[a])@ == spec_bake_points(
                        objs0,
                        idxs,
                    )[a],
                forall|a: int|
                    0 <= a < ci ==> (#[trigger] colour_cloud@[a])@ == spec_bake_colours(
                        objs0,
                        idxs,
                    )[a],
                forall|a: int|
                    0 <= a < ci ==> (#[trigger] normal_cloud@[a])@ == spec_bake_normals(
                        objs0,
                        idxs,
                    )[a],
            decreases m - ci,
        {
            let obj_index: usize = obj_indexes[ci];
            let mut pgrid: Vec<Vec3> = Vec::new();
            let mut cgrid: Vec<Vec3> = Vec::new();
            let mut ngrid: Vec<Vec3> = Vec::new();
            let mut k: usize = 0;
            while k < MAP_CELLS
                invariant
                    *self == *old(self),
                    old(self).wf(),
                    objs0 == old(self).objects@,
                    n == objs0.len(),
                    obj_index < n,
                    k <= MAP_CELLS,
                    pgrid@.len() == k,
                    cgrid@.len() == k,
                    ngrid@.len() == k,
                    forall|j: int|
                        0 <= j < k ==> (#[trigger] pgrid@[j]) == spec_sample_pos(
                            objs0[obj_index as int],
                            j / 8,
                            j % 8,
                        ) && pgrid@[j].wf(),
                    forall|j: int|
                        0 <= j < k ==> (#[trigger] cgrid@[j]) == spec_colour_of(
                            objs0[obj_index as int],
                        ) && cgrid@[j].wf(),
                    forall|j: int|
                        0 <= j < k ==> (#[trigger] ngrid@[j]) == spec_normal(
                            objs0[obj_index as int],
                            spec_sample_pos(objs0[obj_index as int], j / 8, j % 8),
                        ) && ngrid@[j].wf(),
                decreases MAP_CELLS - k,
            {
                let u: usize = k / MAP_SIZE;
                let v: usize = k % MAP_SIZE;
                let sample_pos: Vec3 = self.objects[obj_index].get_sample_pos(u, v);
                let colour: Colour = self.objects[obj_index].colour(sample_pos);
                let normal: Vec3 = self.objects[obj_index].calculate_normal(sample_pos);
                pgrid.push(sample_pos);
                cgrid.push(colour);
                ngrid.push(normal);
                k = k + 1;
            }
            proof {
                assert(pgrid@ =~= spec_bake_points(objs0, idxs)[ci as int]);
                assert(cgrid@ =~= spec_bake_colours(objs0, idxs)[ci as int]);
                assert(ngrid@ =~= spec_bake_normals(objs0, idxs)[ci as int]);
            }
            point_cloud.push(pgrid);
            colour_cloud.push(cgrid);
            normal_cloud.push(ngrid);
            ci = ci + 1;
        }
        proof {
            assert(cloud_view(point_cloud@) =~~= spec_bake_points(objs0, idxs));
            assert(cloud_view(colour_cloud@) =~~= spec_bake_colours(objs0, idxs));
            assert(cloud_view(normal_cloud@) =~~= spec_bake_normals(objs0, idxs));
        }
        let mut emissive_maps: Vec<Lightmap> = compute_direct_lighting(
            &self.light,
            &obj_indexes,
            &self.objects,
            &point_cloud,
            &colour_cloud,
        );
        proof {
            assert forall|a: int| 0 <= a < m implies #[trigger] maps_view(emissive_maps@)[a]
                =~= spec_direct_maps(objs0, light0, idxs)[a] by {
                assert(maps_view(emissive_maps@)[a] == emissive_maps@[a].sample_map@);
            }
            assert(maps_view(emissive_maps@) =~~= spec_direct_maps(objs0, light0, idxs));
            assert(spec_bake_state(objs0, light0, idxs, 0).0 == spec_direct_maps(
                objs0,
                light0,
                idxs,
            ));
        }
        let mut lightmaps_acc: Vec<Lightmap> = Vec::new();
        ci = 0;
        while ci < m
            invariant
                ci <= m,
                emissive_maps@.len() == m,
                wf_maps(emissive_maps@),
                lightmaps_acc@.len() == ci,
                wf_maps(lightmaps_acc@),
                forall|a: int|
                    0 <= a < ci ==> (#[trigger] lightmaps_acc@[a]).sample_map@
                        == emissive_maps@[a].sample_map@,
            decreases m - ci,
        {
            let d: Lightmap = emissive_maps[ci].duplicate();
            lightmaps_acc.push(d);
            ci = ci + 1;
        }
        proof {
            assert(maps_view(lightmaps_acc@) =~~= maps_view(emissive_maps@));
        }
        let mut round: u32 = 0;
        while round < 4
            invariant
                *self == *old(self),
                old(self).wf(),
                objs0 == old(self).objects@,
                light0 == old(self).light,
                n == objs0.len(),
                idxs == spec_lightmap_indexes(objs0, n as int),
                obj_indexes@ == idxs,
                m == idxs.len(),
                forall|j: int|
                    0 <= j < m ==> (#[trigger] idxs[j]) < n && spec_has_lightmap(
                        objs0[idxs[j] as int],
                    ),
                point_cloud@.len() == m,
                colour_cloud@.len() == m,
                normal_cloud@.len() == m,
                wf_cloud(point_cloud@),
                wf_cloud(colour_cloud@),
                wf_cloud(normal_cloud@),
                cloud_view(point_cloud@) == spec_bake_points(objs0, idxs),
                cloud_view(colour_cloud@) == spec_bake_colours(objs0, idxs),
                cloud_view(normal_cloud@) == spec_bake_normals(objs0, idxs),
                round <= 4,
                lightmaps_acc@.len() == m,
                emissive_maps@.len() == m,
                wf_maps(lightmaps_acc@),
                wf_maps(emissive_maps@),
                maps_view(lightmaps_acc@) == spec_bake_state(objs0, light0, idxs, round as nat).0,
                maps_view(emissive_maps@) == spec_bake_state(objs0, light0, idxs, round as nat).1,
            decreases 4 - round,
        {
            let mut new_lightmaps: Vec<Lightmap> = Vec::new();
            let mut new_emissives: Vec<Lightmap> = Vec::new();
            let mut ci2: usize = 0;
            while ci2 < m
                invariant
                    *self == *old(self),
                    old(self).wf(),
                    objs0 == old(self).objects@,
                    light0 == old(self).light,
                    n == objs0.len(),
                    idxs == spec_lightmap_indexes(objs0, n as int),
                    obj_indexes@ == idxs,
                    m == idxs.len(),
                    forall|j: int|
                        0 <= j < m ==> (#[trigger] idxs[j]) < n && spec_has_lightmap(
                            objs0[idxs[j] as int],
                        ),
                    point_cloud@.len() == m,
                    colour_cloud@.len() == m,
                    normal_cloud@.len() == m,
                    wf_cloud(point_cloud@),
                    wf_cloud(colour_cloud@),
                    wf_cloud(normal_cloud@),
                    cloud_view(point_cloud@) == spec_bake_points(objs0, idxs),
                    cloud_view(colour_cloud@) == spec_bake_colours(objs0, idxs),
                    cloud_view(normal_cloud@) == spec_bake_normals(objs0, idxs),
                    round < 4,
                    lightmaps_acc@.len() == m,
                    emissive_maps@.len() == m,
                    wf_maps(lightmaps_acc@),
                    wf_maps(emissive_maps@),
                    maps_view(lightmaps_acc@) == spec_bake_state(
                        objs0,
                        light0,
                        idxs,
                        round as nat,
                    ).0,
                    maps_view(emissive_maps@) == spec_bake_state(
                        objs0,
                        light0,
                        idxs,
                        round as nat,
                    ).1,
                    ci2 <= m,
                    new_lightmaps@.len() == ci2,
                    new_emissives@.len() == ci2,
                    wf_maps(new_lightmaps@),
                    wf_maps(new_emissives@),
                    forall|a: int, k: int|
                        0 <= a < ci2 && 0 <= k < MAP_CELLS ==> (
                        #[trigger] new_lightmaps@[a].sample_map@[k]) == spec_vadd(
                            spec_bake_state(objs0, light0, idxs, round as nat).0[a][k],
                            spec_cell_inc(
                                objs0,
                                idxs,
                                spec_bake_state(objs0, light0, idxs, round as nat).1,
                                a,
                                k,
                            ),
                        ),
                    forall|a: int, k: int|
                        0 <= a < ci2 && 0 <= k < MAP_CELLS ==> (
                        #[trigger] new_emissives@[a].sample_map@[k]) == spec_velem(
                            spec_cell_inc(
                                objs0,
                                idxs,
                                spec_bake_state(objs0, light0, idxs, round as nat).1,
                                a,
                                k,
                            ),
                            spec_colour_of(objs0[idxs[a] as int]),
                        ),
                decreases m - ci2,
            {
                let base: &Lightmap = &lightmaps_acc[ci2];
                let pair: (Lightmap, Lightmap) = compute_object_radiosity(
                    &self.objects,
                    base,
                    ci2,
                    obj_indexes[ci2],
                    &point_cloud,
                    &colour_cloud,
                    &normal_cloud,
                    &emissive_maps,
                );
                proof {
                    assert(base.sample_map@ == maps_view(lightmaps_acc@)[ci2 as int]);
                    assert(point_cloud@[ci2 as int]@ == cloud_view(point_cloud@)[ci2 as int]);
                    assert(normal_cloud@[ci2 as int]@ == cloud_view(normal_cloud@)[ci2 as int]);
                    assert(colour_cloud@[ci2 as int]@ == cloud_view(colour_cloud@)[ci2 as int]);
                    assert forall|k: int| 0 <= k < MAP_CELLS implies #[trigger] colour_cloud@[ci2 as int]@[k]
                        == spec_colour_of(objs0[idxs[ci2 as int] as int]) by {
                        assert(spec_bake_colours(objs0, idxs)[ci2 as int][k] == spec_colour_of(
                            objs0[idxs[ci2 as int] as int],
                        ));
                    }
                }
                new_lightmaps.push(pair.0);
                new_emissives.push(pair.1);
                ci2 = ci2 + 1;
            }
            proof {
                let next = spec_bake_state(objs0, light0, idxs, (round + 1) as nat);
                assert forall|a: int| 0 <= a < m implies #[trigger] maps_view(new_lightmaps@)[a]
                    =~= next.0[a] by {
                    assert(maps_view(new_lightmaps@)[a] == new_lightmaps@[a].sample_map@);
                }
                assert forall|a: int| 0 <= a < m implies #[trigger] maps_view(new_emissives@)[a]
                    =~= next.1[a] by {
                    assert(maps_view(new_emissives@)[a] == new_emissives@[a].sample_map@);
                }
                assert(maps_view(new_lightmaps@) =~~= next.0);
                assert(maps_view(new_emissives@) =~~= next.1);
            }
            lightmaps_acc = new_lightmaps;
            emissive_maps = new_emissives;
            round = round + 1;
        }
        let ghost bake4 = spec_bake_state(objs0, light0, idxs, 4);
        let mut new_objects: Vec<SceneObject> = Vec::new();
        let mut ci3: usize = 0;
        i = 0;
        while i < n
            invariant
                old(self).wf(),
                self.camera_position == old(self).camera_position,
                self.light == old(self).light,
                objs0 == old(self).objects@,
                light0 == old(self).light,
                n == objs0.len(),
                idxs == spec_lightmap_indexes(objs0, n as int),
                m == idxs.len(),
                bake4 == spec_bake_state(objs0, light0, idxs, 4),
                i <= n,
                self.objects@ == objs0.subrange(i as int, n as int),
                lightmaps_acc@.len() == m,
                wf_maps(lightmaps_acc@),
                maps_view(lightmaps_acc@) == bake4.0,
                ci3 == spec_lightmap_indexes(objs0, i as int).len(),
                ci3 <= m,
                new_objects@.len() == i,
                forall|j: int|
                    0 <= j < i ==> spec_same_but_lightmap(
                        objs0[j],
                        #[trigger] new_objects@[j],
                    ) && new_objects@[j].wf(),
                forall|j: int|
                    0 <= j < i && !spec_has_lightmap(objs0[j]) ==> (#[trigger] new_objects@[j])
                        == objs0[j],
                forall|j: int|
                    0 <= j < i && spec_has_lightmap(objs0[j]) ==> spec_lightmap_view(
                        #[trigger] new_objects@[j],
                    ) == bake4.0[spec_lightmap_indexes(objs0, j).len() as int],
            decreases n - i,
        {
            proof {
                assert(self.objects@[0] == objs0[i as int]);
                lemma_lightmap_indexes_monotone(objs0, i as int + 1, n as int);
            }
            let mut o: SceneObject = self.objects.remove(0);
            let has: bool = match o.get_lightmap() {
                Option::Some(_) => true,
                Option::None => false,
            };
            if has {
                let newlm: Lightmap = lightmaps_acc[ci3].duplicate();
                proof {
                    assert(newlm.sample_map@ == maps_view(lightmaps_acc@)[ci3 as int]);
                }
                o.set_lightmap(newlm);
                ci3 = ci3 + 1;
            }
            new_objects.push(o);
            i = i + 1;
            proof {
                assert(self.objects@ =~= objs0.subrange(i as int, n as int));
            }
        }
        self.objects = new_objects;
        proof {
            lemma_lightmap_indexes_props(objs0, n as int);
        }
    }
}

/// Build the default scene: a mirror sphere and a glossy sphere resting
/// between six axis-aligned walls.
pub fn construct_objects() -> (r: Vec<SceneObject>)
    ensures
        r@.len() == 8,
        wf_objects(r@),
        forall|i: int| 0 <= i < r@.len() ==> spec_has_lightmap(#[trigger] r@[i]),
{
    let basic: Material = Material::basic();
    let mirror: Material = Material {
        ambient: 3277,
        diffuse: 1966,
        specular: 13107,
        shininess: 16,
        reflectivity: 65536,
    };
    let glossy: Material = Material {
        ambient: 6554,
        diffuse: 65536,
        specular: 58982,
        shininess: 32,
        reflectivity: 16384,
    };
    let mut objects: Vec<SceneObject> = Vec::new();
    objects.push(
        SceneObject::Sphere(
            crate::objects::Sphere {
                position: Vec3::new(-78643, -65536, 6554),
                radius: 65536,
                material: mirror,
                colour: crate::colour::white(),
                lightmap: Lightmap::new(),
            },
        ),
    );
    objects.push(
        SceneObject::Sphere(
            crate::objects::Sphere {
                position: Vec3::new(65536, -65536, -45875),
                radius: 65536,
                material: glossy,
                colour: crate::colour::soft_yellow(),
                lightmap: Lightmap::new(),
            },
        ),
    );
    objects.push(
        SceneObject::YPlane(
            crate::objects::YPlane::new(-131072, 65536, basic, crate::colour::soft_gray()),
        ),
    );
    objects.push(
        SceneObject::YPlane(
            crate::objects::YPlane::new(262144, -65536, basic, crate::colour::soft_gray()),
        ),
    );
    objects.push(
        SceneObject::XPlane(
            crate::objects::XPlane::new(-196608, 65536, basic, crate::colour::soft_red()),
        ),
    );
    objects.push(
        SceneObject::XPlane(
            crate::objects::XPlane::new(196608, -65536, basic, crate::colour::soft_green()),
        ),
    );
    objects.push(
        SceneObject::ZPlane(
            crate::objects::ZPlane::new(131072, -65536, basic, crate::colour::soft_gray()),
        ),
    );
    objects.push(
        SceneObject::ZPlane(
            crate::objects::ZPlane::new(-262144, 65536, basic, crate::colour::soft_gray()),
        ),
    );
    objects
}

} // verus!
