use forgedtiles::fixed::{FP_INF, FP_SCALE};
use forgedtiles::hit::FTHitStruct;
use forgedtiles::vecfp::{vec2fp, vec3fp};
use forgedtiles::ForgedTiles;

fn compile(code: &str) -> forgedtiles::context::FTContext {
    ForgedTiles::new().compile_code(code.to_string()).unwrap()
}

#[test]
fn disc_distance_is_exact() {
    // distance(p) == |p - center| - radius, exactly
    let ctx = compile("let a = Shape<Disc>: radius = 0.5;");
    let mut hit = FTHitStruct::new();
    let d = ctx.distance(0, vec2fp(2 * FP_SCALE, 0), vec2fp(0, 0), &mut hit);
    assert_eq!(d, 1_500_000);
    assert_eq!(hit.distance, FP_INF); // positive distances never win the surface
    assert_eq!(hit.node, Some(0));
}

#[test]
fn disc_boundary_distance_is_zero() {
    let ctx = compile("let a = Shape<Disc>: radius = 0.5;");
    let mut hit = FTHitStruct::new();
    let d = ctx.distance(0, vec2fp(500_000, 0), vec2fp(0, 0), &mut hit);
    assert_eq!(d, 0);
    assert_eq!(hit.distance, 0); // the boundary counts as a hit
}

#[test]
fn disc_inside_is_negative() {
    // a 3-4-5 triangle keeps the square root exact
    let ctx = compile("let a = Shape<Disc>: radius = 1;");
    let mut hit = FTHitStruct::new();
    let d = ctx.distance(0, vec2fp(300_000, 400_000), vec2fp(0, 0), &mut hit);
    assert_eq!(d, -500_000);
    assert!(!hit.is_cut_out);
}

#[test]
fn box_center_is_inside() {
    let ctx = compile("let b = Shape<Box>: length = 1, height = 1;");
    let mut hit = FTHitStruct::new();
    let d = ctx.distance(0, vec2fp(0, 0), vec2fp(0, 0), &mut hit);
    assert_eq!(d, -500_000);
}

#[test]
fn box_outside_is_positive() {
    let ctx = compile("let b = Shape<Box>: length = 1, height = 1;");
    let mut hit = FTHitStruct::new();
    let d = ctx.distance(0, vec2fp(2 * FP_SCALE, 0), vec2fp(0, 0), &mut hit);
    assert_eq!(d, 1_500_000);
}

#[test]
fn meta_delete_skips_disc_but_cuts_box() {
    // the intentional asymmetry: a suppressed disc leaves the hit alone, a
    // suppressed box raises is_cut_out
    let code = "let a = Shape<Disc>: radius = 0.5;\nlet b = Shape<Box>: length = 1;\nlet d = Meta<Delete>: content = [0];";
    let ctx = compile(code);
    assert_eq!(ctx.meta_delete, vec![0]);

    let mut hit = FTHitStruct::new();
    let d0 = ctx.distance(0, vec2fp(0, 0), vec2fp(0, 0), &mut hit);
    assert_eq!(d0, FP_INF); // skip: the previous winning distance comes back
    assert_eq!(hit, FTHitStruct::new()); // and the accumulator is untouched

    let mut hit2 = FTHitStruct::new();
    let d1 = ctx.distance(1, vec2fp(0, 0), vec2fp(0, 0), &mut hit2);
    assert_eq!(d1, FP_INF);
    assert!(hit2.is_cut_out); // the box renders as a hard cutout
}

#[test]
fn repeat_is_periodic_across_cells() {
    // moving by a whole cell leaves the wrapped distance unchanged
    let code = "let a = Shape<Disc>: radius = 0.4;\nlet r = Pattern<Repeat>: content = [a], spacing = 0.2;";
    let ctx = compile(code);
    let cell = 1_000_000; // disc diameter 0.8 + spacing 0.2
    for k in 1..4i64 {
        let mut hit1 = FTHitStruct::new();
        let d1 = ctx.distance(1, vec2fp(130_000, 250_000), vec2fp(0, 0), &mut hit1);
        let mut hit2 = FTHitStruct::new();
        let d2 = ctx.distance(1, vec2fp(130_000 + k * cell, 250_000), vec2fp(0, 0), &mut hit2);
        assert_eq!(d1, d2);
    }
}

#[test]
fn repeat_hashes_differ_across_cells() {
    let code = "let a = Shape<Disc>: radius = 0.4;\nlet r = Pattern<Repeat>: content = [a], spacing = 0.2;";
    let ctx = compile(code);
    let mut hit1 = FTHitStruct::new();
    ctx.distance(1, vec2fp(130_000, 250_000), vec2fp(0, 0), &mut hit1);
    let mut hit2 = FTHitStruct::new();
    ctx.distance(1, vec2fp(130_000 + 1_000_000, 250_000), vec2fp(0, 0), &mut hit2);
    assert_ne!(hit1.working_pattern_hash, hit2.working_pattern_hash);
}

#[test]
fn stack_places_rows_up_the_face() {
    let code = "let b = Shape<Box>: length = 1, height = 0.25;\nlet s = Pattern<Stack>: content = [b], spacing = 0.05;";
    let ctx = compile(code);
    let mut hit = FTHitStruct::new();
    hit.face = vec3fp(FP_SCALE, FP_SCALE, 100_000);
    // a point inside the first row wins the surface
    ctx.distance(1, vec2fp(500_000, 125_000), vec2fp(0, 0), &mut hit);
    assert!(hit.distance < 0);
    // a point between the first and second rows, inside the spacing gap
    let mut hit2 = FTHitStruct::new();
    hit2.face = vec3fp(FP_SCALE, FP_SCALE, 100_000);
    ctx.distance(1, vec2fp(500_000, 275_000), vec2fp(0, 0), &mut hit2);
    assert!(hit2.distance > 0);
}

#[test]
fn group_cutout_carves_and_marks() {
    let code = "let c = Shape<Box>: length = 0.5, height = 0.5;\nlet g = Pattern<Group>: cutout = [c];";
    let ctx = compile(code);
    let mut hit = FTHitStruct::new();
    // the group origin is (0,0); the cutout box is centred at (0.25, 0.25)
    ctx.distance(1, vec2fp(250_000, 250_000), vec2fp(0, 0), &mut hit);
    assert!(hit.is_cut_out);
    assert_eq!(hit.node, None);
}

#[test]
fn face_floor_scenario_hits_center_and_misses_far() {
    // one box as a floor face: the projected center is on the surface, a
    // point far above it is not
    let code = "let b = Shape<Box>: length = 1, height = 1;\nlet f = Face*<Floor>: length = 1, height = 1, content = [b];";
    let ctx = compile(code);
    let near = ctx.distance_to_face(
        vec3fp(500_000, 40_000, 500_000),
        0,
        vec2fp(0, 0),
        false,
    );
    assert!(near.distance < 100_000);
    let far = ctx.distance_to_face(
        vec3fp(500_000, 5 * FP_SCALE, 500_000),
        0,
        vec2fp(0, 0),
        false,
    );
    assert!(far.distance > FP_SCALE);
}

#[test]
fn face_normal_points_up_from_the_floor() {
    let code = "let b = Shape<Box>: length = 1, height = 1;\nlet f = Face*<Floor>: length = 1, height = 1, content = [b];";
    let ctx = compile(code);
    let n = ctx.face_normal(vec3fp(500_000, 50_000, 500_000), 0, vec2fp(0, 0));
    assert!(n.y > 0);
    assert!(n.y >= n.x.abs() && n.y >= n.z.abs());
}

#[test]
fn missing_face_yields_sentinel() {
    let ctx = compile("let b = Shape<Box>: length = 1;");
    let hit = ctx.distance_to_face(vec3fp(0, 0, 0), 0, vec2fp(0, 0), false);
    assert_eq!(hit.distance, FP_INF);
}

#[test]
fn meta_data_at_inside_and_outside() {
    let code = "let b = Shape<Box>: length = 2, height = 2;\nlet f = Face*<Floor>: length = 1, height = 1, content = [b];";
    let ctx = compile(code);
    // the box spans the whole unit face, so a center probe lands inside
    let inside = ctx.meta_data_at(32, 32, 64, 64);
    assert!(inside.is_some());
    assert_eq!(inside.unwrap().node, Some(0));
}

#[test]
fn render_pixel_shows_material_color() {
    let code = "let m = Material<BSDF>: color = #ff0000;\nlet b = Shape<Box>: length = 4, height = 4, material = m;\nlet f = Face*<Floor>: length = 1, height = 1, content = [b];";
    let ctx = compile(code);
    let (r, g, b, a) = ctx.render_pixel(32, 32, 64, 64);
    assert_eq!((r, g, b, a), (255, 0, 0, 255));
}

#[test]
fn render_pixel_outside_is_black() {
    let code = "let b = Shape<Box>: length = 0.0001, height = 0.0001;\nlet f = Face*<Floor>: length = 1, height = 1, content = [b];";
    let ctx = compile(code);
    let (r, g, b, _a) = ctx.render_pixel(63, 1, 64, 64);
    assert_eq!((r, g, b), (0, 0, 0));
}

#[test]
fn face_pixel_at_grey_without_material() {
    let code = "let b = Shape<Box>: length = 4, height = 4;\nlet f = Face*<Floor>: length = 1, height = 1, content = [b];";
    let ctx = compile(code);
    let px = ctx.face_pixel_at(vec2fp(500_000, 500_000));
    assert_eq!(px, Some((127, 127, 127, 255)));
}

#[test]
fn empty_graph_yields_nothing() {
    let ctx = compile("");
    assert_eq!(ctx.meta_data_at(0, 0, 8, 8), None);
    assert_eq!(ctx.face_pixel_at(vec2fp(0, 0)), None);
}

#[test]
fn annular_box_is_a_ring() {
    // annular mode: distance = |base| - hole
    let code = "let b = Shape<Box>: length = 1, height = 1, annular = 0.1;";
    let ctx = compile(code);
    let mut hit = FTHitStruct::new();
    // the very center of a solid box is deep inside; in annular mode the
    // hole carves it back out
    let d = ctx.distance(0, vec2fp(0, 0), vec2fp(0, 0), &mut hit);
    // base distance at the center is -(0.5 - 0.1) = -0.4; ring: 0.4 - 0.1
    assert_eq!(d, 300_000);
    // a point on the box edge lies inside the ring band
    let mut hit2 = FTHitStruct::new();
    let d2 = ctx.distance(0, vec2fp(400_000, 0), vec2fp(0, 0), &mut hit2);
    assert_eq!(d2, -100_000);
}

#[test]
fn rotated_box_changes_its_distance() {
    // a quarter-turn formula rotates the query point; the box is wider
    // than tall, so a point on the long axis moves in or out
    let plain = compile("let b = Shape<Box>: length = 2, height = 0.5;");
    let turned = compile("let b = Shape<Box>: length = 2, height = 0.5, rotation = 3.14159265;");
    let mut h1 = FTHitStruct::new();
    let mut h2 = FTHitStruct::new();
    h2.working_pattern_hash = 1_000_000; // (hash - 0.5) * rotation = a half turn
    let p = vec2fp(900_000, 0);
    let d1 = plain.distance(0, p, vec2fp(0, 0), &mut h1);
    let d2 = turned.distance(0, p, vec2fp(0, 0), &mut h2);
    assert!(d1 < 0);
    // rotated by half pi the long side faces away; allow the polynomial
    // trig a little slack
    assert!(d2 > 500_000);
}

#[test]
fn extrusion_expression_controls_thickness() {
    let thin = compile(
        "let b = Shape<Box>: length = 2, height = 2;\nlet f = Face*<Floor>: length = 1, height = 1, thickness = 0.1, content = [b];",
    );
    let thick = compile(
        "let b = Shape<Box>: length = 2, height = 2, extrusion = thickness*4;\nlet f = Face*<Floor>: length = 1, height = 1, thickness = 0.1, content = [b];",
    );
    let p = vec3fp(500_000, 150_000, 500_000);
    let d_thin = thin.distance_to_face(p, 0, vec2fp(0, 0), false).distance;
    let d_thick = thick.distance_to_face(p, 0, vec2fp(0, 0), false).distance;
    // the thicker floor reaches closer to the probe point
    assert!(d_thick < d_thin);
}

#[test]
fn stack_cycles_through_its_children() {
    let code = "let a = Shape<Box>: length = 1, height = 0.2;\nlet b = Shape<Disc>: radius = 0.1;\nlet s = Pattern<Stack>: content = [a, b];";
    let ctx = compile(code);
    let mut hit = FTHitStruct::new();
    hit.face = vec3fp(FP_SCALE, FP_SCALE, 100_000);
    ctx.distance(2, vec2fp(500_000, 100_000), vec2fp(0, 0), &mut hit);
    // the first row (the box) wins at its own center
    assert!(hit.distance < 0);
    assert_eq!(hit.node, Some(0));
}

#[test]
fn group_offsets_its_children() {
    let code = "let b = Shape<Box>: length = 0.5, height = 0.5;\nlet g = Pattern<Group>: content = [b], x = 0.25, y = 0.25;";
    let ctx = compile(code);
    // the box is centred at the group origin plus half its size
    let mut hit = FTHitStruct::new();
    ctx.distance(1, vec2fp(500_000, 500_000), vec2fp(0, 0), &mut hit);
    assert_eq!(hit.distance, -250_000);
    let mut hit2 = FTHitStruct::new();
    ctx.distance(1, vec2fp(0, 0), vec2fp(0, 0), &mut hit2);
    assert!(hit2.distance > 0 || hit2.distance == forgedtiles::fixed::FP_INF);
}

#[test]
fn repeat_offset_shifts_the_cells() {
    let code = "let a = Shape<Disc>: radius = 0.5;\nlet r = Pattern<Repeat>: content = [a], offset = 0.5;";
    let plain_code = "let a = Shape<Disc>: radius = 0.5;\nlet r = Pattern<Repeat>: content = [a];";
    let shifted = compile(code);
    let plain = compile(plain_code);
    let mut h1 = FTHitStruct::new();
    let mut h2 = FTHitStruct::new();
    let d_shifted = shifted.distance(1, vec2fp(0, 500_000), vec2fp(0, 0), &mut h1);
    let d_plain = plain.distance(1, vec2fp(0, 500_000), vec2fp(0, 0), &mut h2);
    assert_ne!(d_shifted, d_plain);
}
