use forgedtiles::accum::RunningMean;
use forgedtiles::bsdf::{face_forward, luminance, onb, power_heuristic, to_local, to_world};
use forgedtiles::expression::{FTExpressionParam, FTExpressionRole, FTExpressions};
use forgedtiles::fixed::FP_SCALE;
use forgedtiles::hit::FTHitStruct;
use forgedtiles::material::BSDFMaterial;
use forgedtiles::ray::Ray;
use forgedtiles::sdf::{fp_cos, fp_sin, sdf_box2d};
use forgedtiles::vecfp::{vec2fp, vec3fp, Vec3Fp};
use forgedtiles::ForgedTiles;

#[test]
fn fixed_multiplication_is_exact() {
    assert_eq!(forgedtiles::fixed::fp_mul(1_500_000, 2_000_000), 3_000_000);
    assert_eq!(forgedtiles::fixed::fp_mul(-1_500_000, 2_000_000), -3_000_000);
    assert_eq!(forgedtiles::fixed::fp_div(FP_SCALE, 3_000_000), 333_333);
    assert_eq!(forgedtiles::fixed::fp_div(1, 0), i64::MAX);
}

#[test]
fn fixed_length_is_exact_on_pythagorean_triples() {
    assert_eq!(forgedtiles::fixed::fp_len(3_000_000, 4_000_000), 5_000_000);
    assert_eq!(forgedtiles::fixed::fp_len3(2_000_000, 3_000_000, 6_000_000), 7_000_000);
    assert_eq!(forgedtiles::fixed::fp_sqrt(4_000_000), 2_000_000);
}

#[test]
fn fixed_floor_and_round() {
    assert_eq!(forgedtiles::fixed::fp_floor(1_700_000), 1_000_000);
    assert_eq!(forgedtiles::fixed::fp_floor(-1_700_000), -2_000_000);
    assert_eq!(forgedtiles::fixed::fp_round(1_500_000), 2_000_000);
    assert_eq!(forgedtiles::fixed::fp_round(1_499_999), 1_000_000);
}

#[test]
fn hash_is_deterministic_and_bounded() {
    let a = forgedtiles::fixed::hash21(5_000_000, 7_000_000);
    let b = forgedtiles::fixed::hash21(5_000_000, 7_000_000);
    assert_eq!(a, b);
    assert!(0 <= a && a < FP_SCALE);
    let c = forgedtiles::fixed::hash21(6_000_000, 7_000_000);
    assert_ne!(a, c);
}

#[test]
fn trig_is_exact_at_zero_and_bounded() {
    assert_eq!(fp_cos(0), FP_SCALE);
    assert_eq!(fp_sin(0), 0);
    for a in [-3_141_593i64, -1_000_000, 500_000, 3_000_000, 7_000_000] {
        assert!(fp_cos(a).abs() <= FP_SCALE + 2_000);
        assert!(fp_sin(a).abs() <= FP_SCALE + 2_000);
    }
}

#[test]
fn box_sdf_exact_values() {
    // the centre of a unit box is half a unit inside
    let d = sdf_box2d(vec2fp(0, 0), vec2fp(0, 0), 500_000, 500_000, 0);
    assert_eq!(d, -500_000);
    // one unit to the right of the box edge
    let d2 = sdf_box2d(vec2fp(1_500_000, 0), vec2fp(0, 0), 500_000, 500_000, 0);
    assert_eq!(d2, 1_000_000);
}

#[test]
fn expression_evaluates_exactly() {
    let mut e = FTExpressions::new();
    e.add(FTExpressionRole::Roughness, "0.25+0.5*0.5");
    let r = e.eval(FTExpressionRole::Roughness, vec![], 0);
    assert_eq!(r, 500_000);
}

#[test]
fn expression_reads_the_hash_parameter() {
    let mut e = FTExpressions::new();
    e.add(FTExpressionRole::Metallic, "hash*2");
    let r = e.eval(
        FTExpressionRole::Metallic,
        vec![(FTExpressionParam::Hash, 250_000)],
        -1,
    );
    assert_eq!(r, 500_000);
}

#[test]
fn expression_missing_parameter_falls_back() {
    let mut e = FTExpressions::new();
    e.add(FTExpressionRole::Sheen, "thickness");
    let r = e.eval(FTExpressionRole::Sheen, vec![(FTExpressionParam::Hash, 1)], 42);
    assert_eq!(r, 42);
}

#[test]
fn expression_unparsable_formula_is_skipped() {
    let mut e = FTExpressions::new();
    e.add(FTExpressionRole::Sheen, "((");
    assert_eq!(e.expressions.len(), 0);
    assert_eq!(e.eval(FTExpressionRole::Sheen, vec![], 7), 7);
}

#[test]
fn expression_division_by_zero_saturates() {
    let mut e = FTExpressions::new();
    e.add(FTExpressionRole::IOR, "1/0");
    let r = e.eval(FTExpressionRole::IOR, vec![], 0);
    assert_eq!(r, i64::MAX);
}

#[test]
fn expression_parentheses_and_negation() {
    let mut e = FTExpressions::new();
    e.add(FTExpressionRole::Annular, "-(0.5-0.25)/2");
    let r = e.eval(FTExpressionRole::Annular, vec![], 0);
    assert_eq!(r, -125_000);
}

#[test]
fn power_heuristic_weights() {
    // equal densities split the weight in half
    assert_eq!(power_heuristic(FP_SCALE, FP_SCALE), 500_000);
    for (a, b) in [(0i64, 0i64), (3_000_000, 1_000_000), (0, 2_000_000), (-1_000_000, 500_000)] {
        let w = power_heuristic(a, b);
        assert!(0 <= w && w <= FP_SCALE);
    }
}

#[test]
fn luminance_of_white_is_one() {
    let white = vec3fp(FP_SCALE, FP_SCALE, FP_SCALE);
    assert_eq!(luminance(white), FP_SCALE);
}

#[test]
fn basis_and_frame_round_trip() {
    let n = vec3fp(0, 0, FP_SCALE);
    let mut t = Vec3Fp::zero();
    let mut b = Vec3Fp::zero();
    onb(n, &mut t, &mut b);
    let v = vec3fp(250_000, 330_000, 500_000);
    let local = to_local(t, b, n, v);
    let back = to_world(t, b, n, local);
    assert!((back.x - v.x).abs() <= 2);
    assert!((back.y - v.y).abs() <= 2);
    assert!((back.z - v.z).abs() <= 2);
}

#[test]
fn face_forward_flips_against_the_normal() {
    let a = vec3fp(0, 0, FP_SCALE);
    let b = vec3fp(0, 0, -FP_SCALE);
    assert_eq!(face_forward(a, b), vec3fp(0, 0, FP_SCALE));
    assert_eq!(face_forward(a, a), a);
}

#[test]
fn ray_hits_a_unit_sphere_head_on() {
    let ray = Ray::new(vec3fp(0, 0, -2 * FP_SCALE), vec3fp(0, 0, FP_SCALE));
    let t = ray.sphere(vec3fp(0, 0, 0), FP_SCALE);
    assert_eq!(t, Some(FP_SCALE));
    let miss = Ray::new(vec3fp(0, 3 * FP_SCALE, -2 * FP_SCALE), vec3fp(0, 0, FP_SCALE));
    assert_eq!(miss.sphere(vec3fp(0, 0, 0), FP_SCALE), None);
    // the sphere behind the origin is not hit
    let behind = Ray::new(vec3fp(0, 0, 2 * FP_SCALE), vec3fp(0, 0, FP_SCALE));
    assert_eq!(behind.sphere(vec3fp(0, 0, 0), FP_SCALE), None);
}

#[test]
fn ray_at_walks_the_direction() {
    let ray = Ray::new(vec3fp(FP_SCALE, 0, 0), vec3fp(0, FP_SCALE, 0));
    assert_eq!(ray.at(2 * FP_SCALE), vec3fp(FP_SCALE, 2 * FP_SCALE, 0));
}

#[test]
fn running_mean_is_the_exact_average() {
    let mut m = RunningMean::new();
    m.add(1_000_000);
    m.add(2_000_000);
    m.add(4_000_000);
    assert_eq!(m.mean(), 2_333_333); // floor(7/3)
    m.add(0);
    assert_eq!(m.mean(), 1_750_000);
}

#[test]
fn running_mean_is_independent_of_order() {
    let mut a = RunningMean::new();
    for v in [5_000_000i64, -1_000_000, 2_000_000] {
        a.add(v);
    }
    let mut b = RunningMean::new();
    for v in [2_000_000i64, 5_000_000, -1_000_000] {
        b.add(v);
    }
    assert_eq!(a.mean(), b.mean());
}

#[test]
fn material_resolves_from_hit() {
    let ft = ForgedTiles::new();
    let code = "let m = Material<BSDF>: color = #336699, roughness = 0.25;\nlet b = Shape<Box>: length = 1, material = m;";
    let ctx = ft.compile_code(code.to_string()).unwrap();
    let mut hit = FTHitStruct::new();
    ctx.distance(1, vec2fp(0, 0), vec2fp(0, 0), &mut hit);
    let mat = BSDFMaterial::from_hit(&ctx, &hit);
    assert_eq!(mat.roughness, 250_000);
    assert_eq!(mat.base_color.x, 0x33 * FP_SCALE / 255);
    assert_eq!(mat.base_color.y, 0x66 * FP_SCALE / 255);
    assert_eq!(mat.base_color.z, 0x99 * FP_SCALE / 255);
}

#[test]
fn meta_material_overrides_by_id() {
    let ft = ForgedTiles::new();
    let code = "let m1 = Material<BSDF>: color = #ff0000;\nlet m2 = Material<BSDF>: color = #00ff00;\nlet b = Shape<Box>: length = 1, material = m1;\nlet o = Meta<Material>: content = [0], material = m2;";
    let ctx = ft.compile_code(code.to_string()).unwrap();
    let mut hit = FTHitStruct::new();
    ctx.distance(2, vec2fp(0, 0), vec2fp(0, 0), &mut hit);
    // the hit's ids are zero, and the override lists id zero
    let mat = BSDFMaterial::from_hit(&ctx, &hit);
    assert_eq!(mat.base_color.y, FP_SCALE);
    assert_eq!(mat.base_color.x, 0);
}

#[test]
fn material_mix_interpolates() {
    let a = BSDFMaterial::new();
    let mut b = BSDFMaterial::new();
    b.roughness = 0;
    b.metallic = FP_SCALE;
    let mut out = BSDFMaterial::new();
    out.mix(&a, &b, 500_000);
    assert_eq!(out.roughness, 250_000);
    assert_eq!(out.metallic, 500_000);
}
