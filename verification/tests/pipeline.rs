//! Tests of the marching, shading and baking pipeline.

use raymarch::colour::{soft_gray, white};
use raymarch::engine::{Engine, MAX_REFLECT_DEPTH, SHADOW_K, SMALL_DISTANCE};
use raymarch::fixed::{fx_div, fx_mul, FX_ONE};
use raymarch::material::Material;
use raymarch::objects::{PointLight, SceneObject, Sphere, YPlane};
use raymarch::radiosity::{compute_direct_lighting, Lightmap, MAP_SIZE};
use raymarch::ray::Ray;
use raymarch::vector::Vec3;

fn unit_sphere_at(x: i64, y: i64, z: i64, material: Material, colour: raymarch::colour::Colour)
    -> SceneObject {
    SceneObject::Sphere(Sphere {
        position: Vec3::new(x, y, z),
        radius: FX_ONE,
        material,
        colour,
        lightmap: Lightmap::new(),
    })
}

fn ground_plane(y: i64) -> SceneObject {
    SceneObject::YPlane(YPlane::new(y, FX_ONE, Material::basic(), soft_gray()))
}

#[test]
fn march_hits_sphere_surface_from_outside() {
    // a ray pointed at a unit sphere stops within SMALL_DISTANCE of the
    // analytic surface
    let objects = vec![unit_sphere_at(0, 0, 0, Material::basic(), white())];
    let mut ray = Ray {
        position: Vec3::new(0, 0, -3 * FX_ONE),
        direction: Vec3::new(0, 0, FX_ONE),
    };
    let hit = ray.march(&objects, None);
    assert_eq!(hit, Some(0));
    let d = objects[0].sdf(ray.position);
    assert!(d.abs() < SMALL_DISTANCE, "sdf at hit = {d}");
    assert_eq!(ray.position.z(), -FX_ONE);
    // a ray pointed away misses
    let mut away = Ray {
        position: Vec3::new(0, 0, -3 * FX_ONE),
        direction: Vec3::new(0, 0, -FX_ONE),
    };
    assert_eq!(away.march(&objects, None), None);
}

#[test]
fn sample_points_lie_on_the_surface() {
    // distance(sample_point(u, v)) is approximately zero for every object
    let objects = vec![
        unit_sphere_at(0, -FX_ONE, 0, Material::basic(), white()),
        ground_plane(-2 * FX_ONE),
    ];
    for u in 0..MAP_SIZE {
        for v in 0..MAP_SIZE {
            let p = objects[0].get_sample_pos(u, v);
            let d = objects[0].sdf(p);
            assert!(d.abs() < SMALL_DISTANCE, "sphere cell ({u},{v}): sdf {d}");
            let q = objects[1].get_sample_pos(u, v);
            assert_eq!(objects[1].sdf(q), 0, "plane cell ({u},{v})");
        }
    }
}

#[test]
fn occluder_closer_to_light_darkens_shadow() {
    // moving an opaque occluder along the shadow ray toward the light
    // lowers (or keeps) the soft-shadow factor
    let thin = Material::basic();
    let mut shades: Vec<i64> = Vec::new();
    for centre_y in [3 * FX_ONE, 8 * FX_ONE] {
        let objects = vec![
            ground_plane(0),
            SceneObject::Sphere(Sphere {
                position: Vec3::new(0, centre_y, FX_ONE),
                radius: 58982, // 0.9
                material: thin,
                colour: white(),
                lightmap: Lightmap::new(),
            }),
        ];
        let mut ray = Ray {
            position: Vec3::new(0, 0, 0),
            direction: Vec3::new(0, FX_ONE, 0),
        };
        let s = ray.smooth_shadow_march(&objects, 0, 10 * FX_ONE, SHADOW_K);
        assert!(0 <= s && s <= FX_ONE);
        shades.push(s);
    }
    assert!(
        shades[1] <= shades[0],
        "occluder nearer the light must not brighten: {} -> {}",
        shades[0],
        shades[1]
    );
    assert!(shades[1] < FX_ONE, "the near-grazing occluder must darken");
}

#[test]
fn direct_pass_matches_closed_form_on_single_plane() {
    // with a single isolated lit plane, the direct pass equals
    // n.l * intensity / d^2 scaled into the patch colour
    let objects = vec![ground_plane(-2 * FX_ONE)];
    let light = PointLight {
        position: Vec3::new(32768, 3 * FX_ONE, -32768),
        intensity: 229376, // 3.5
    };
    let indexes = vec![0usize];
    let mut points: Vec<Vec3> = Vec::new();
    let mut colours: Vec<Vec3> = Vec::new();
    for u in 0..MAP_SIZE {
        for v in 0..MAP_SIZE {
            let p = objects[0].get_sample_pos(u, v);
            points.push(p);
            colours.push(objects[0].colour(p));
        }
    }
    let maps = compute_direct_lighting(&light, &indexes, &objects, &vec![points.clone()], &vec![
        colours.clone(),
    ]);
    assert_eq!(maps.len(), 1);
    for u in 0..MAP_SIZE {
        for v in 0..MAP_SIZE {
            let k = u * MAP_SIZE + v;
            let origin = points[k];
            let vtl = light.get_position().sub(origin);
            let dist = vtl.mag();
            let vdir = vtl.div_scalar(dist);
            let n = objects[0].calculate_normal(origin);
            let cos = n.dot(vdir).max(0);
            let li = fx_div(light.get_intensity(), fx_mul(dist, dist));
            let expected = colours[k].mul_scalar(fx_mul(cos, li));
            let got = maps[0].get(u, v);
            assert_eq!((got.x(), got.y(), got.z()), (expected.x(), expected.y(), expected.z()),
                "patch ({u},{v})");
        }
    }
}

#[test]
fn lightmap_sampling_at_cell_center_is_identity() {
    // bilinear sampling at an exact grid-cell centre returns the stored
    // patch unchanged
    let mut plane = YPlane::new(-2 * FX_ONE, FX_ONE, Material::basic(), soft_gray());
    let mut lm = Lightmap::new();
    for u in 0..MAP_SIZE {
        for v in 0..MAP_SIZE {
            let c = Vec3::new(
                (u as i64 + 1) * 1000,
                (v as i64 + 1) * 2000,
                (u as i64 + v as i64 + 1) * 300,
            );
            lm.set(u, v, c);
        }
    }
    plane.lightmap = lm;
    let object = SceneObject::YPlane(plane);
    for u in 0..MAP_SIZE {
        for v in 0..MAP_SIZE {
            let centre = object.get_sample_pos(u, v);
            let sampled = object.sample_lightmap(centre);
            let stored = match &object {
                SceneObject::YPlane(p) => p.lightmap.get(u, v),
                _ => unreachable!(),
            };
            assert_eq!(
                (sampled.x(), sampled.y(), sampled.z()),
                (stored.x(), stored.y(), stored.z()),
                "cell ({u},{v})"
            );
        }
    }
}

#[test]
fn brightest_column_faces_the_light_and_shadow_darkens_plane() {
    // one white diffuse sphere over a plane, lit from straight above: the
    // brightest rendered column is the centre one, and the plane point in
    // the sphere's shadow is darker than an unshadowed plane point
    let diffuse_only = Material {
        ambient: 16384,
        diffuse: FX_ONE,
        specular: 0,
        shininess: 4,
        reflectivity: 0,
    };
    let engine = Engine {
        objects: vec![
            unit_sphere_at(0, -FX_ONE, 0, diffuse_only, white()),
            ground_plane(-2 * FX_ONE),
        ],
        camera_position: Vec3::new(0, FX_ONE / 2, -229376),
        light: PointLight {
            position: Vec3::new(0, 98304, 0),
            intensity: 6 * FX_ONE,
        },
    };
    let width = 33usize;
    let height = 25usize;
    let frame = engine.render(width, height, 0, FX_ONE, 0, FX_ONE, FX_ONE);
    assert_eq!(frame.len(), width * height);
    let mut best = (0usize, -1i64);
    for (i, p) in frame.iter().enumerate() {
        let lum = p.r as i64 + p.g as i64 + p.b as i64;
        if lum > best.1 {
            best = (i % width, lum);
        }
    }
    let centre = width / 2;
    assert!(
        (best.0 as i64 - centre as i64).abs() <= 2,
        "brightest column {} not near centre {centre}",
        best.0
    );
    // pre-tonemap radiance on the plane, in and out of the shadow: the
    // first ray reaches the plane inside the sphere's analytic shadow,
    // the second well outside it
    let shadowed = engine.cast_sight_ray(
        engine.camera_position,
        Vec3::new(FX_ONE, -163840, 229376).normalized(),
        MAX_REFLECT_DEPTH,
    );
    let lit = engine.cast_sight_ray(
        engine.camera_position,
        Vec3::new(3 * FX_ONE, -163840, 229376).normalized(),
        MAX_REFLECT_DEPTH,
    );
    let ls = shadowed.x() + shadowed.y() + shadowed.z();
    let ll = lit.x() + lit.y() + lit.z();
    assert!(ls < ll, "shadowed {ls} should be darker than lit {ll}");
}

#[test]
fn light_intensity_scales_linear_radiance() {
    // tripling the light intensity triples the pre-tonemap radiance of a
    // directly lit diffuse pixel, measured before any encoding
    let mut engine = Engine {
        objects: vec![SceneObject::YPlane(YPlane::new(
            0,
            FX_ONE,
            Material::basic(),
            white(),
        ))],
        camera_position: Vec3::new(0, 2 * FX_ONE, 0),
        light: PointLight {
            position: Vec3::new(0, 2 * FX_ONE, 0),
            intensity: 2 * FX_ONE,
        },
    };
    let down = Vec3::new(0, -FX_ONE, 0);
    let c1 = engine.cast_sight_ray(engine.camera_position, down, MAX_REFLECT_DEPTH);
    engine.light.intensity = 6 * FX_ONE;
    let c3 = engine.cast_sight_ray(engine.camera_position, down, MAX_REFLECT_DEPTH);
    assert!(c1.x() > 0, "the plane must be lit: {}", c1.x());
    assert_eq!(c3.x(), 3 * c1.x());
    assert_eq!(c3.y(), 3 * c1.y());
    assert_eq!(c3.z(), 3 * c1.z());
}

#[test]
fn bake_fills_lightmaps_and_keeps_geometry() {
    let mut engine = Engine {
        objects: raymarch::engine::construct_objects(),
        camera_position: Vec3::new(0, FX_ONE / 2, -229376),
        light: PointLight {
            position: Vec3::new(2 * FX_ONE, -FX_ONE, 98304),
            intensity: 229376,
        },
    };
    assert_eq!(engine.objects.len(), 8);
    engine.compute_lightmaps();
    assert_eq!(engine.objects.len(), 8);
    // at least one patch of the floor plane received direct light
    let mut lit_patches = 0;
    for o in &engine.objects {
        if let Some(lm) = o.get_lightmap() {
            for u in 0..MAP_SIZE {
                for v in 0..MAP_SIZE {
                    let c = lm.get(u, v);
                    if c.x() != 0 || c.y() != 0 || c.z() != 0 {
                        lit_patches += 1;
                    }
                }
            }
        }
    }
    assert!(lit_patches > 0, "the bake must light some patches");
}
