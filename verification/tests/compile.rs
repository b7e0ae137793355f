use forgedtiles::compiler::Compiler;
use forgedtiles::expression::{FTExpressionParam, FTExpressionRole};
use forgedtiles::fixed::FP_SCALE;
use forgedtiles::node::{NodeRole, NodeSubRole};
use forgedtiles::value::FTValueRole;
use forgedtiles::ForgedTiles;

#[test]
fn compile_simple_box() {
    let ft = ForgedTiles::new();
    let ctx = ft
        .compile_code("let a = Shape<Box>: length = 2, height = 1.5;".to_string())
        .unwrap();
    assert_eq!(ctx.nodes.len(), 1);
    assert_eq!(ctx.nodes[0].role, NodeRole::Shape);
    assert_eq!(ctx.nodes[0].sub_role, NodeSubRole::Box);
    assert_eq!(ctx.nodes[0].name, "a");
    let length = ctx.nodes[0].values.get(FTValueRole::Length, vec![]);
    assert_eq!(length, vec![2 * FP_SCALE]);
    let height = ctx.nodes[0].values.get(FTValueRole::Height, vec![]);
    assert_eq!(height, vec![1_500_000]);
    assert_eq!(ctx.shapes, vec![0u8]);
}

#[test]
fn compile_unknown_type_is_an_error() {
    let ft = ForgedTiles::new();
    let err = ft.compile_code("let a = Widget<Box>;".to_string()).unwrap_err();
    assert_eq!(err.description, "Unknown type 'Widget'.");
    assert_eq!(err.line, 1);
}

#[test]
fn compile_error_reports_later_line() {
    let ft = ForgedTiles::new();
    let code = "let a = Shape<Box>: length = 1;\nlet b = Nope<Disc>;".to_string();
    let err = ft.compile_code(code).unwrap_err();
    assert_eq!(err.line, 2);
}

#[test]
fn compile_missing_identifier_is_an_error() {
    let ft = ForgedTiles::new();
    let err = ft.compile_code("let = Shape<Box>;".to_string()).unwrap_err();
    assert_eq!(err.description, "Expected an identifier after 'let'.");
}

#[test]
fn compile_unknown_variable_in_content() {
    let ft = ForgedTiles::new();
    let code = "let f = Face<Floor>: content = [ghost];".to_string();
    let err = ft.compile_code(code).unwrap_err();
    assert!(err.description.contains("Unknown variable"));
}

#[test]
fn compile_face_with_content_links() {
    let ft = ForgedTiles::new();
    let code = "let a = Shape<Box>: length = 1;\nlet f = Face<Floor>: length = 1, height = 1, content = [a];"
        .to_string();
    let ctx = ft.compile_code(code).unwrap();
    assert_eq!(ctx.nodes.len(), 2);
    assert_eq!(ctx.faces, vec![1u8]);
    assert_eq!(ctx.nodes[1].links, vec![0i32]);
}

#[test]
fn compile_star_marks_output() {
    let ft = ForgedTiles::new();
    let code = "let a = Shape<Box>;\nlet f = Face*<Floor>: content = [a];".to_string();
    let ctx = ft.compile_code(code).unwrap();
    assert_eq!(ctx.output, Some(1));
}

#[test]
fn compile_meta_delete_collects_ids() {
    let ft = ForgedTiles::new();
    let code = "let d = Meta<Delete>: content = [3, 7, 11];".to_string();
    let ctx = ft.compile_code(code).unwrap();
    assert_eq!(ctx.meta_delete, vec![3, 7, 11]);
    // the ids move out of the node itself, as an append drains its source
    assert!(ctx.nodes[0].links.is_empty());
}

#[test]
fn compile_hex_color_scales_channels() {
    let ft = ForgedTiles::new();
    let code = "let m = Material<BSDF>: color = #ff0080;".to_string();
    let ctx = ft.compile_code(code).unwrap();
    let color = ctx.nodes[0].values.get(FTValueRole::Color, vec![]);
    assert_eq!(color.len(), 3);
    assert_eq!(color[0], FP_SCALE); // 255/255
    assert_eq!(color[1], 0); // 0/255
    assert_eq!(color[2], 128 * FP_SCALE / 255); // 0x80/255
}

#[test]
fn compile_invalid_hex_color_is_an_error() {
    let ft = ForgedTiles::new();
    let code = "let m = Material<BSDF>: color = #ff00;".to_string();
    let err = ft.compile_code(code).unwrap_err();
    assert!(err.description.contains("Invalid hex color"));
}

#[test]
fn compile_material_reference_resolves() {
    let ft = ForgedTiles::new();
    let code = "let m = Material<BSDF>: color = #102030;\nlet a = Shape<Box>: material = m;"
        .to_string();
    let ctx = ft.compile_code(code).unwrap();
    assert_eq!(ctx.nodes[1].material, Some(0));
}

#[test]
fn compile_material_none_is_skipped() {
    let ft = ForgedTiles::new();
    let code = "let a = Shape<Box>: material = None;".to_string();
    let ctx = ft.compile_code(code).unwrap();
    assert_eq!(ctx.nodes[0].material, None);
}

#[test]
fn compile_rotation_property_becomes_expression() {
    let ft = ForgedTiles::new();
    let code = "let a = Shape<Box>: rotation = 0.5;".to_string();
    let ctx = ft.compile_code(code).unwrap();
    assert_eq!(ctx.nodes[0].expressions.expressions.len(), 1);
    assert_eq!(
        ctx.nodes[0].expressions.expressions[0].0,
        FTExpressionRole::Rotation
    );
}

#[test]
fn compile_shadowed_name_resolves_to_newest() {
    let ft = ForgedTiles::new();
    let code = "let a = Shape<Box>: length = 1;\nlet a = Shape<Disc>: radius = 0.25;\nlet f = Face<Floor>: content = [a];"
        .to_string();
    let ctx = ft.compile_code(code).unwrap();
    assert_eq!(ctx.nodes[2].links, vec![1i32]);
}

#[test]
fn value_role_from_string_roundtrip() {
    assert_eq!(FTValueRole::from_string("radius"), Some(FTValueRole::Radius));
    assert_eq!(FTValueRole::from_string("spacing"), Some(FTValueRole::Spacing));
    assert_eq!(FTValueRole::from_string("z"), Some(FTValueRole::Z));
    assert_eq!(FTValueRole::from_string("bogus"), None);
    assert_eq!(FTValueRole::from_string(""), None);
}

#[test]
fn expression_role_from_string_roundtrip() {
    assert_eq!(
        FTExpressionRole::from_string("clearcoat_gloss"),
        Some(FTExpressionRole::ClearcoatGloss)
    );
    assert_eq!(
        FTExpressionRole::from_string("extrusion"),
        Some(FTExpressionRole::Extrusion)
    );
    assert_eq!(FTExpressionRole::from_string("radius"), None);
}

#[test]
fn expression_param_from_string_roundtrip() {
    assert_eq!(FTExpressionParam::from_string("hash"), Some(FTExpressionParam::Hash));
    assert_eq!(
        FTExpressionParam::from_string("thickness"),
        Some(FTExpressionParam::Thickness)
    );
    assert_eq!(FTExpressionParam::from_string("width"), None);
}

#[test]
fn compiler_new_starts_clean() {
    let mut compiler = Compiler::new();
    let ctx = compiler.compile(String::new()).unwrap();
    assert_eq!(ctx.nodes.len(), 0);
    assert_eq!(ctx.output, None);
}

#[test]
fn compile_comments_and_blank_lines() {
    let ft = ForgedTiles::new();
    let code = "// a tile\n\nlet a = Shape<Disc>: radius = 0.5; // trailing\n".to_string();
    let ctx = ft.compile_code(code).unwrap();
    assert_eq!(ctx.nodes.len(), 1);
    assert_eq!(ctx.nodes[0].sub_role, NodeSubRole::Disc);
}

#[test]
fn compile_binds_each_declaration_to_its_index() {
    let ft = ForgedTiles::new();
    let code = "let a = Shape<Box>: length = 1;\nlet m = Material<BSDF>;\nlet f = Face<Floor>: content = [a];".to_string();
    let ctx = ft.compile_code(code).unwrap();
    assert_eq!(ctx.nodes.len(), 3);
    assert_eq!(
        ctx.variables,
        vec![
            ("a".to_string(), 0usize),
            ("m".to_string(), 1usize),
            ("f".to_string(), 2usize)
        ]
    );
    assert_eq!(ctx.shapes, vec![0u8]);
    assert_eq!(ctx.materials, vec![1u8]);
    assert_eq!(ctx.faces, vec![2u8]);
}

#[test]
fn compile_leaves_graph_unchanged_after_error() {
    let ft = ForgedTiles::new();
    // the second declaration fails before a node can be built
    let code = "let a = Shape<Box>: length = 1;\nlet b = Shape<Wobble>;".to_string();
    let err = ft.compile_code(code).unwrap_err();
    assert_eq!(err.description, "Unknown shape 'Wobble'.");
    assert_eq!(err.line, 2);
}
