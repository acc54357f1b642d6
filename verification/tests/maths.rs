//! Tests of the fixed-point scalar, vector and colour building blocks.

use raymarch::colour::{rgb, soft_red, white, ACESFilm};
use raymarch::fixed::{
    fx_add, fx_clamp, fx_div, fx_floor, fx_mul, fx_powi, fx_smoothstep, fx_sqrt, FX_LIM, FX_ONE,
};
use raymarch::material::Material;
use raymarch::radiosity::Lightmap;
use raymarch::texture::Texture;
use raymarch::trig::{fx_atan2, fx_cos, fx_sin, HALF_PI_FX, PI_FX};
use raymarch::vector::Vec3;

#[test]
fn fixed_point_basics() {
    assert_eq!(fx_add(FX_ONE, FX_ONE), 2 * FX_ONE);
    assert_eq!(fx_mul(2 * FX_ONE, 3 * FX_ONE), 6 * FX_ONE);
    assert_eq!(fx_mul(-2 * FX_ONE, 3 * FX_ONE), -6 * FX_ONE);
    assert_eq!(fx_div(6 * FX_ONE, 3 * FX_ONE), 2 * FX_ONE);
    assert_eq!(fx_div(FX_ONE, 2 * FX_ONE), 32768);
    assert_eq!(fx_floor(3 * FX_ONE + 123), 3);
    assert_eq!(fx_floor(-FX_ONE - 1), -2);
    assert_eq!(fx_clamp(99, 0, 50), 50);
}

#[test]
fn fixed_point_saturates() {
    assert_eq!(fx_add(FX_LIM, FX_LIM), FX_LIM);
    assert_eq!(fx_mul(FX_LIM, FX_LIM), FX_LIM);
    assert_eq!(fx_add(-FX_LIM, -FX_LIM), -FX_LIM);
}

#[test]
fn sqrt_of_four_is_two() {
    assert_eq!(fx_sqrt(4 * FX_ONE), 2 * FX_ONE);
    assert_eq!(fx_sqrt(0), 0);
    assert_eq!(fx_sqrt(25 * FX_ONE), 5 * FX_ONE);
}

#[test]
fn power_is_repeated_product() {
    assert_eq!(fx_powi(2 * FX_ONE, 5), 32 * FX_ONE);
    assert_eq!(fx_powi(FX_ONE / 2, 2), FX_ONE / 4);
    assert_eq!(fx_powi(123, 0), FX_ONE);
}

#[test]
fn smoothstep_fixed_points() {
    assert_eq!(fx_smoothstep(0), 0);
    assert_eq!(fx_smoothstep(FX_ONE), FX_ONE);
    assert_eq!(fx_smoothstep(FX_ONE / 2), FX_ONE / 2);
    assert_eq!(fx_smoothstep(-5 * FX_ONE), 0);
    assert_eq!(fx_smoothstep(5 * FX_ONE), FX_ONE);
}

#[test]
fn trig_landmarks() {
    // the Bhaskara approximation is exact at 0, pi/2 and pi
    assert_eq!(fx_sin(0), 0);
    assert_eq!(fx_sin(PI_FX), 0);
    let s = fx_sin(HALF_PI_FX);
    assert!((s - FX_ONE).abs() < 700, "sin(pi/2) = {s}");
    let c = fx_cos(0);
    assert!((c - FX_ONE).abs() < 700, "cos(0) = {c}");
    // atan2 quadrant landmarks
    assert_eq!(fx_atan2(0, FX_ONE), 0);
    let q = fx_atan2(FX_ONE, 0);
    assert!((q - HALF_PI_FX).abs() < 100, "atan2(1, 0) = {q}");
    let h = fx_atan2(FX_ONE, FX_ONE);
    assert!((h - PI_FX / 4).abs() < 200, "atan2(1, 1) = {h}");
}

#[test]
fn vector_operations() {
    let a = Vec3::new(FX_ONE, 2 * FX_ONE, -3 * FX_ONE);
    let b = Vec3::new(4 * FX_ONE, -5 * FX_ONE, 6 * FX_ONE);
    let s = a.add(b);
    assert_eq!((s.x(), s.y(), s.z()), (5 * FX_ONE, -3 * FX_ONE, 3 * FX_ONE));
    let d = a.sub(b);
    assert_eq!((d.x(), d.y(), d.z()), (-3 * FX_ONE, 7 * FX_ONE, -9 * FX_ONE));
    assert_eq!(a.dot(b), (4 - 10 - 18) * FX_ONE);
    let e = a.element_mul(b);
    assert_eq!((e.x(), e.y(), e.z()), (4 * FX_ONE, -10 * FX_ONE, -18 * FX_ONE));
    let m = Vec3::new(3 * FX_ONE, 4 * FX_ONE, 0).mag();
    assert_eq!(m, 5 * FX_ONE);
    let q = Vec3::new(4 * FX_ONE, 0, 9 * FX_ONE).sqrt();
    assert_eq!((q.x(), q.y(), q.z()), (2 * FX_ONE, 0, 3 * FX_ONE));
}

#[test]
fn normalized_vector_is_unit() {
    let v = Vec3::new(3 * FX_ONE, 4 * FX_ONE, 0).normalized();
    assert_eq!((v.x(), v.y(), v.z()), (39321, 52428, 0));
    assert!((v.mag() - FX_ONE).abs() <= 32);
    let z = Vec3::new(0, 0, 0).normalized();
    assert_eq!((z.x(), z.y(), z.z()), (0, 0, 0));
}

#[test]
fn reflection_preserves_unit_magnitude() {
    // normalize(reflect(v, n)) has unit magnitude for unit v and unit n
    let v = Vec3::new(3 * FX_ONE, 4 * FX_ONE, 0).normalized();
    let n = Vec3::new(0, FX_ONE, 0);
    let r = v.reflect(n);
    assert_eq!((r.x(), r.y(), r.z()), (39321, -52428, 0));
    let rn = r.normalized();
    assert!((rn.mag() - FX_ONE).abs() <= 32);
    // a second, skew normal
    let n2 = Vec3::new(FX_ONE, FX_ONE, 0).normalized();
    let r2 = v.reflect(n2).normalized();
    assert!((r2.mag() - FX_ONE).abs() <= 32);
}

#[test]
fn rgb_decodes_squared_channels() {
    let w = white();
    assert_eq!((w.x(), w.y(), w.z()), (FX_ONE, FX_ONE, FX_ONE));
    let r = soft_red();
    assert_eq!((r.x(), r.y(), r.z()), (46154, 6612, 6612));
    let k = rgb(0, 0, 0);
    assert_eq!((k.x(), k.y(), k.z()), (0, 0, 0));
}

#[test]
fn tone_mapping_curve_values() {
    let c = ACESFilm(white());
    assert_eq!((c.x(), c.y(), c.z()), (52677, 52677, 52677));
    let z = ACESFilm(rgb(0, 0, 0));
    assert_eq!((z.x(), z.y(), z.z()), (0, 0, 0));
}

#[test]
fn refraction_straight_through_and_total_internal() {
    // head-on incidence passes straight through
    let v = Vec3::new(0, -FX_ONE, 0);
    let n = Vec3::new(0, FX_ONE, 0);
    let r = v.refract(n, FX_ONE / 2);
    assert_eq!((r.x(), r.y(), r.z()), (0, -FX_ONE, 0));
    // grazing incidence at a high relative index reflects internally
    let g = Vec3::new(FX_ONE, 0, 0);
    let t = g.refract(n, 2 * FX_ONE);
    assert_eq!((t.x(), t.y(), t.z()), (0, 0, 0));
}

#[test]
fn smoothstep_is_monotone_on_samples() {
    let mut prev = -1i64;
    let mut x = -2 * FX_ONE;
    while x <= 3 * FX_ONE {
        let s = fx_smoothstep(x);
        assert!(s >= prev, "smoothstep must not decrease at {x}");
        prev = s;
        x += 777;
    }
}

#[test]
fn texture_sampling_tiles_and_picks_texels() {
    let texels = vec![
        rgb(10, 0, 0),
        rgb(0, 10, 0),
        rgb(0, 0, 10),
        rgb(10, 10, 0),
    ];
    let tex = Texture::new(texels.clone(), 2, 2, FX_ONE, FX_ONE);
    let a = tex.sample(0, 0);
    assert_eq!(a.x(), texels[0].x());
    let b = tex.sample(FX_ONE + FX_ONE / 2, 0);
    assert_eq!(b.y(), texels[1].y());
    let c = tex.sample(0, FX_ONE);
    assert_eq!(c.z(), texels[2].z());
    // tiling wraps whole extents
    let d = tex.sample(2 * FX_ONE, 3 * FX_ONE);
    assert_eq!(d.x(), texels[2].x());
}

#[test]
fn lightmap_set_get_roundtrip() {
    let mut lm = Lightmap::new();
    let c = Vec3::new(123, 456, 789);
    lm.set(3, 5, c);
    let got = lm.get(3, 5);
    assert_eq!((got.x(), got.y(), got.z()), (123, 456, 789));
    let untouched = lm.get(3, 4);
    assert_eq!((untouched.x(), untouched.y(), untouched.z()), (0, 0, 0));
    let copy = lm.duplicate();
    let again = copy.get(3, 5);
    assert_eq!((again.x(), again.y(), again.z()), (123, 456, 789));
}

#[test]
fn default_material_is_basic() {
    let d = Material::default();
    let b = Material::basic();
    assert_eq!(d, b);
    assert_eq!(b.ambient, 16384);
    assert_eq!(b.diffuse, FX_ONE);
    assert_eq!(b.shininess, 4);
}
