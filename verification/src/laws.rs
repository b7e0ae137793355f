//! The engine's governing laws, stated and proved over the same spec
//! functions the executable code is verified against.
use vstd::prelude::*;

use vstd::arithmetic::div_mod::{lemma_div_nonincreasing, lemma_div_pos_is_pos,
    lemma_fundamental_div_mod, lemma_fundamental_div_mod_converse_div, lemma_div_is_ordered,
    lemma_div_multiples_vanish};

use crate::context::{spec_contains_id, spec_distance, spec_first_value, spec_repeat_cell,
    spec_repeat_wrap, spec_op_extrusion_x, spec_stack_loop, spec_hash_id, STACK_MAX};
use crate::fixed::hash21_spec;
use crate::fixed::{fp_add_spec, fp_div_spec, fp_floor_spec, fp_mul_spec, fp_round_spec,
    fp_sub_spec, floor_div, lemma_sqrt_floor, lemma_sqrt_floor_unique, sat_i64, sqrt_floor,
    FP_HALF, FP_SCALE};
use crate::hit::FTHitStruct;
use crate::node::{NodeRole, NodeSubRole, Node};
use crate::value::FTValueRole;
use crate::vecfp::Vec2Fp;

verus! {

/// Shifting the dividend by a multiple of the divisor shifts the floor
/// quotient by exactly that multiple.
pub proof fn lemma_div_shift(a: int, m: int, c: int)
    requires
        c > 0,
    ensures
        (a + m * c) / c == a / c + m,
{
    lemma_fundamental_div_mod(a, c);
    assert(a + m * c == (a / c + m) * c + a % c) by (nonlinear_arith)
        requires a == c * (a / c) + a % c;
    lemma_fundamental_div_mod_converse_div(a + m * c, c, a / c + m, a % c);
}

/// Dividing by a positive number keeps the quotient between zero and the
/// dividend.
pub proof fn lemma_div_magnitude(a: int, c: int)
    requires
        c >= 1,
    ensures
        a >= 0 ==> 0 <= a / c <= a,
        a < 0 ==> a <= a / c <= 0,
{
    if a >= 0 {
        lemma_div_pos_is_pos(a, c);
        lemma_div_nonincreasing(a, c);
    } else {
        lemma_fundamental_div_mod(a, c);
        assert(a <= a / c <= 0) by (nonlinear_arith)
            requires a == c * (a / c) + a % c && 0 <= a % c < c && c >= 1 && a < 0;
    }
}

/// The tiling combinator is periodic: the wrapped local coordinate is
/// unchanged when the query point moves by any whole number of cells (all
/// quantities within a million units, so that nothing saturates).
pub proof fn lemma_repeat_wrap_periodic(px: int, cell: int, k: int)
    requires
        1 <= cell <= 1_000_000_000_000,
        -1_000_000_000_000 <= px <= 1_000_000_000_000,
        -1000 <= k <= 1000,
    ensures
        spec_repeat_wrap(px + k * cell, cell) == spec_repeat_wrap(px, cell),
{
    let s = FP_SCALE as int;
    let h = FP_HALF as int;
    let a0 = px * s;
    let q0 = a0 / cell;
    // the quotient of the shifted point is the quotient shifted by k cells
    assert((px + k * cell) * s == a0 + (k * s) * cell) by (nonlinear_arith)
        requires a0 == px * s;
    lemma_div_shift(a0, k * s, cell);
    let q1 = (a0 + (k * s) * cell) / cell;
    assert(q1 == q0 + k * s);
    // neither quotient saturates
    lemma_div_magnitude(a0, cell);
    assert(-1_000_000_000_000_000_000 <= q0 <= 1_000_000_000_000_000_000);
    assert(fp_div_spec(px, cell) == q0);
    assert(fp_div_spec(px + k * cell, cell) == q1);
    // rounding shifts by exactly k whole units
    let t0 = (q0 + h) / s;
    lemma_div_shift(q0 + h, k, s);
    assert(q1 + h == (q0 + h) + k * s);
    let t1 = (q1 + h) / s;
    assert(t1 == t0 + k);
    lemma_fundamental_div_mod(q0 + h, s);
    let rem0 = (q0 + h) % s;
    assert(s * t0 == q0 + h - rem0);
    assert(fp_round_spec(q0) == t0 * s) by {
        assert(sat_i64(q0 + h) == q0 + h);
        assert(t0 * s == s * t0) by (nonlinear_arith);
        assert(sat_i64(t0 * s) == t0 * s);
    };
    assert(fp_round_spec(q1) == t1 * s) by {
        assert(sat_i64(q1 + h) == q1 + h);
        assert(t1 * s == s * t0 + k * s) by (nonlinear_arith)
            requires t1 == t0 + k;
        assert(sat_i64(t1 * s) == t1 * s);
    };
    // multiplying back by the cell width shifts by exactly k cells
    lemma_fundamental_div_mod(a0, cell);
    assert(cell * q0 == a0 - a0 % cell);
    assert(cell * rem0 <= 1_000_000_000_000_000_000 && cell * rem0 >= 0) by (nonlinear_arith)
        requires 1 <= cell <= 1_000_000_000_000 && 0 <= rem0 < 1_000_000;
    assert(cell * (t0 * s) == cell * q0 + cell * h - cell * rem0) by (nonlinear_arith)
        requires s * t0 == q0 + h - rem0;
    assert(cell * h <= 500_000_000_000_000_000 && cell * h >= 0) by (nonlinear_arith)
        requires 1 <= cell <= 1_000_000_000_000 && h == 500_000;
    assert(cell * (t0 * s) == s * (cell * t0)) by (nonlinear_arith);
    let m0 = (cell * (t0 * s)) / s;
    assert(m0 == cell * t0) by {
        lemma_div_multiples_vanish(cell * t0, s);
    };
    assert(-3_000_000_000_000_000_000 <= cell * (t0 * s) <= 3_000_000_000_000_000_000);
    assert(-3_000_000_000_000 <= m0 <= 3_000_000_000_000) by (nonlinear_arith)
        requires
            m0 == cell * t0,
            cell * (t0 * s) == s * (cell * t0),
            s == 1_000_000,
            -3_000_000_000_000_000_000 <= cell * (t0 * s) <= 3_000_000_000_000_000_000;
    assert(fp_mul_spec(cell, t0 * s) == m0);
    let m1 = (cell * (t1 * s)) / s;
    assert(m1 == m0 + k * cell) by {
        assert(cell * (t1 * s) == s * (cell * t0 + k * cell)) by (nonlinear_arith)
            requires t1 == t0 + k && cell * (t0 * s) == s * (cell * t0);
        lemma_div_multiples_vanish(cell * t0 + k * cell, s);
        assert(cell * t0 == m0);
    };
    assert(fp_mul_spec(cell, t1 * s) == m1) by {
        assert(-1_000_000_000_000_000 <= k * cell <= 1_000_000_000_000_000) by (nonlinear_arith)
            requires -1000 <= k <= 1000 && 1 <= cell <= 1_000_000_000_000;
        assert(cell * (t1 * s) == s * (cell * t0 + k * cell)) by (nonlinear_arith)
            requires t1 == t0 + k && cell * (t0 * s) == s * (cell * t0);
        assert(sat_i64(m1) == m1);
    };
    // the two wraps agree
    assert(-1_000_000_000_000_000 <= k * cell <= 1_000_000_000_000_000) by (nonlinear_arith)
        requires -1000 <= k <= 1000 && 1 <= cell <= 1_000_000_000_000;
    assert(fp_sub_spec(px + k * cell, m1) == fp_sub_spec(px, m0));
}

/// The tiling combinator's distance is periodic end to end: with a disc
/// child and no suppressed ids, querying a point and the same point moved
/// by any whole number of cells yields the same distance — only the
/// per-cell hash in the accumulator may differ.
pub proof fn lemma_repeat_disc_periodic(
    nodes: Seq<Node>,
    md: Seq<i32>,
    index: usize,
    p: Vec2Fp,
    pos: Vec2Fp,
    hit: FTHitStruct,
    k: int,
)
    requires
        (index as int) < nodes.len(),
        nodes[index as int].role == NodeRole::Pattern,
        nodes[index as int].sub_role == NodeSubRole::Repeat,
        nodes[index as int].links@.len() > 0,
        0 <= nodes[index as int].links@[0],
        (nodes[index as int].links@[0] as int) < index as int,
        nodes[nodes[index as int].links@[0] as int].role == NodeRole::Shape,
        nodes[nodes[index as int].links@[0] as int].sub_role == NodeSubRole::Disc,
        md.len() == 0,
        -1000 <= k <= 1000,
        -100_000_000_000 <= p.x <= 100_000_000_000,
        ({
            let content = nodes[index as int].links@[0];
            let cdim = nodes[content as int].spec_shape_dim();
            let spacing = spec_first_value(nodes[index as int], FTValueRole::Spacing, 0);
            let offset = spec_first_value(nodes[index as int], FTValueRole::Offset, 0);
            &&& -100_000_000_000 <= cdim.x <= 100_000_000_000
            &&& 1 <= fp_add_spec(cdim.x as int, spacing as int) <= 1_000_000_000_000
            &&& -100_000_000_000 <= fp_mul_spec(offset as int, cdim.x as int)
                <= 100_000_000_000
        }),
    ensures
        ({
            let content = nodes[index as int].links@[0];
            let cdim = nodes[content as int].spec_shape_dim();
            let spacing = spec_first_value(nodes[index as int], FTValueRole::Spacing, 0);
            let cell = fp_add_spec(cdim.x as int, spacing as int);
            let p2 = Vec2Fp { x: (p.x + k * cell) as i64, y: p.y };
            crate::context::spec_repeat_case(nodes, md, index, p2, pos, hit).0
                == crate::context::spec_repeat_case(nodes, md, index, p, pos, hit).0
        }),
{
    let node = nodes[index as int];
    let content = node.links@[0];
    let cdim = nodes[content as int].spec_shape_dim();
    let spacing = spec_first_value(node, FTValueRole::Spacing, 0);
    let offset = spec_first_value(node, FTValueRole::Offset, 0);
    let cell = fp_add_spec(cdim.x as int, spacing as int);
    let m = fp_mul_spec(offset as int, cdim.x as int);
    let shift = fp_sub_spec(cdim.x as int / 2, m);
    assert(-1_000_000_000_000_000 <= k * cell && k * cell <= 1_000_000_000_000_000) by (
    nonlinear_arith)
        requires -1000 <= k <= 1000 && 1 <= cell <= 1_000_000_000_000;
    let p2 = Vec2Fp { x: (p.x + k * cell) as i64, y: p.y };
    assert(p2.x as int == p.x + k * cell);
    // half of the child width stays in range
    lemma_div_magnitude(cdim.x as int, 2);
    lemma_div_magnitude(-(cdim.x as int), 2);
    assert(-100_000_000_000 <= cdim.x as int / 2 <= 100_000_000_000) by {
        if cdim.x < 0 {
            assert(cdim.x as int / 2 == crate::fixed::floor_div(cdim.x as int, 2));
        }
    };
    assert(-200_000_000_001 <= shift <= 200_000_000_001);
    let px = fp_sub_spec(p.x as int, shift);
    let px2 = fp_sub_spec(p2.x as int, shift);
    assert(px == p.x - shift);
    assert(px2 == px + k * cell);
    assert(-1_000_000_000_000 <= px <= 1_000_000_000_000);
    lemma_repeat_wrap_periodic(px, cell, k);
    assert(spec_repeat_wrap(px2, cell) == spec_repeat_wrap(px, cell));
    // the wrapped point, the anchor and the sizes agree, so the disc child
    // sees the same query both times; only the cell hash differs
    let rp = Vec2Fp { x: spec_repeat_wrap(px, cell) as i64, y: p.y };
    let pos2 = Vec2Fp { x: pos.x, y: fp_add_spec(pos.y as int, cdim.y as int / 2) as i64 };
    assert(!spec_contains_id(md, hit.working_seed_id));
    assert(forall|id: i32| !spec_contains_id(md, id));
    let r1 = crate::context::spec_repeat_case(nodes, md, index, p, pos, hit);
    let r2 = crate::context::spec_repeat_case(nodes, md, index, p2, pos, hit);
    assert(r1.0 == r2.0);
}

/// The cell a point falls into shifts by exactly `k` whole units when the
/// point moves by `k` cells, so adjacent cells hash from distinct inputs.
pub proof fn lemma_repeat_cell_shift(u: int, cell: int, k: int)
    requires
        1 <= cell <= 1_000_000_000_000,
        -1_000_000_000_000 <= u <= 1_000_000_000_000,
        -1000 <= k <= 1000,
    ensures
        spec_repeat_cell(u + k * cell, cell) == spec_repeat_cell(u, cell) + k * FP_SCALE as int,
{
    let s = FP_SCALE as int;
    let a0 = u * s;
    let q0 = a0 / cell;
    assert((u + k * cell) * s == a0 + (k * s) * cell) by (nonlinear_arith)
        requires a0 == u * s;
    lemma_div_shift(a0, k * s, cell);
    let q1 = (a0 + (k * s) * cell) / cell;
    lemma_div_magnitude(a0, cell);
    assert(fp_div_spec(u, cell) == q0);
    assert(fp_div_spec(u + k * cell, cell) == q1);
    let t0 = q0 / s;
    lemma_div_shift(q0, k, s);
    assert(q1 / s == t0 + k);
    lemma_fundamental_div_mod(q0, s);
    assert(s * t0 == q0 - q0 % s);
    assert(fp_floor_spec(q0) == t0 * s) by {
        assert(t0 * s == s * t0) by (nonlinear_arith);
        assert(sat_i64(t0 * s) == t0 * s);
    };
    assert(fp_floor_spec(q1) == (t0 + k) * s) by {
        assert((t0 + k) * s == s * t0 + k * s) by (nonlinear_arith);
        assert(sat_i64((t0 + k) * s) == (t0 + k) * s);
    };
    assert((t0 + k) * s == t0 * s + k * s) by (nonlinear_arith);
}

/// A disc's distance is exactly `|p − center| − radius` whenever its ids
/// are not suppressed.
pub proof fn lemma_disc_distance_exact(
    nodes: Seq<Node>,
    md: Seq<i32>,
    index: usize,
    p: Vec2Fp,
    pos: Vec2Fp,
    hit: FTHitStruct,
)
    requires
        index < nodes.len(),
        nodes[index as int].role == NodeRole::Shape,
        nodes[index as int].sub_role == NodeSubRole::Disc,
        !spec_contains_id(md, hit.working_seed_id),
        !spec_contains_id(md, hit.working_pattern_id),
    ensures
        spec_distance(nodes, md, index, p, pos, hit).0 == fp_sub_spec(
            p.spec_sub(pos).spec_length(),
            spec_first_value(nodes[index as int], FTValueRole::Radius, 500_000) as int,
        ),
{
}

/// A point strictly outside a disc gets a strictly positive distance.
pub proof fn lemma_disc_strictly_outside(
    nodes: Seq<Node>,
    md: Seq<i32>,
    index: usize,
    p: Vec2Fp,
    pos: Vec2Fp,
    hit: FTHitStruct,
)
    requires
        index < nodes.len(),
        nodes[index as int].role == NodeRole::Shape,
        nodes[index as int].sub_role == NodeSubRole::Disc,
        !spec_contains_id(md, hit.working_seed_id),
        !spec_contains_id(md, hit.working_pattern_id),
        p.spec_sub(pos).spec_length() > spec_first_value(
            nodes[index as int],
            FTValueRole::Radius,
            500_000,
        ),
    ensures
        spec_distance(nodes, md, index, p, pos, hit).0 > 0,
{
}

/// The square root respects ordering.
pub proof fn lemma_sqrt_floor_mono(a: nat, b: nat)
    requires
        a <= b,
    ensures
        sqrt_floor(a) <= sqrt_floor(b),
{
    lemma_sqrt_floor(a);
    lemma_sqrt_floor(b);
    if sqrt_floor(a) > sqrt_floor(b) {
        assert((sqrt_floor(b) + 1) * (sqrt_floor(b) + 1) <= sqrt_floor(a) * sqrt_floor(a)) by (
        nonlinear_arith)
            requires sqrt_floor(b) + 1 <= sqrt_floor(a);
    }
}

/// A perfect square roots back to its base.
pub proof fn lemma_sqrt_floor_square(d: nat)
    ensures
        sqrt_floor(d * d) == d,
{
    assert(d * d < (d + 1) * (d + 1)) by (nonlinear_arith);
    lemma_sqrt_floor_unique(d * d, d);
}

/// The shared extrusion formula keeps a point outside: with a positive 2D
/// distance `d` it evaluates to a positive value for any axis offset `w`.
pub proof fn lemma_extrusion_form_positive(w: int, d: int)
    requires
        0 < d <= i64::MAX,
    ensures
        fp_add_spec(
            crate::fixed::fp_min_spec(crate::fixed::fp_max_spec(d, w), 0),
            crate::fixed::fp_len_spec(crate::fixed::fp_max_spec(d, 0), crate::fixed::fp_max_spec(w, 0)),
        ) > 0,
{
    assert(crate::fixed::fp_min_spec(crate::fixed::fp_max_spec(d, w), 0) == 0);
    let gx = crate::fixed::fp_max_spec(d, 0);
    let gy = crate::fixed::fp_max_spec(w, 0);
    assert(gx == d && gy >= 0);
    assert(gy * gy >= 0 && gx * gx == d * d && d * d >= 0) by (nonlinear_arith)
        requires gx == d;
    let n = (gx * gx + gy * gy) as nat;
    assert(n >= (d * d) as nat);
    lemma_sqrt_floor_square(d as nat);
    lemma_sqrt_floor_mono((d * d) as nat, n);
    assert(sqrt_floor(n) >= d as nat);
    assert(crate::fixed::fp_len_spec(gx, gy) >= d || crate::fixed::fp_len_spec(gx, gy)
        == i64::MAX as int);
    assert(crate::fixed::fp_len_spec(gx, gy) > 0);
}

/// Extrusion along X keeps a point outside: a positive 2D distance
/// extrudes to a positive 3D distance, whatever the extrusion depth.
pub proof fn lemma_extrusion_keeps_outside(p: crate::vecfp::Vec3Fp, d: int, h: int)
    requires
        0 < d <= i64::MAX,
        i64::MIN <= h <= i64::MAX,
    ensures
        spec_op_extrusion_x(p, d, h) > 0,
{
    lemma_extrusion_form_positive(fp_sub_spec(crate::fixed::fp_abs_spec(p.x as int), h), d);
}

/// A point whose clipped 2D distance to a face's surface is positive stays
/// strictly outside after extrusion, for every face orientation: no face
/// claims a point that lies outside all of its children.
pub proof fn lemma_face_extrude_keeps_outside(
    node: Node,
    p: crate::vecfp::Vec3Fp,
    tile_id: Vec2Fp,
    d2d: int,
    ft: int,
)
    requires
        0 < d2d <= i64::MAX,
        i64::MIN <= ft <= i64::MAX,
    ensures
        crate::context::spec_face_extrude(node, p, tile_id, d2d, ft) > 0,
{
    let ft_half = ft / 2;
    if node.sub_role == NodeSubRole::Left || node.sub_role == NodeSubRole::MiddleY
        || node.sub_role == NodeSubRole::Right {
        let qx = if node.sub_role == NodeSubRole::Left {
            fp_sub_spec(p.x as int, fp_add_spec(tile_id.x as int, ft_half))
        } else if node.sub_role == NodeSubRole::MiddleY {
            fp_sub_spec(p.x as int, fp_add_spec(tile_id.x as int, 500_000))
        } else {
            fp_sub_spec(
                p.x as int,
                fp_sub_spec(fp_add_spec(tile_id.x as int, FP_SCALE as int), ft_half),
            )
        };
        lemma_extrusion_form_positive(
            fp_sub_spec(crate::fixed::fp_abs_spec(qx), ft),
            d2d,
        );
    } else if node.sub_role == NodeSubRole::Back || node.sub_role == NodeSubRole::MiddleX
        || node.sub_role == NodeSubRole::Front {
        let qz = if node.sub_role == NodeSubRole::Back {
            fp_sub_spec(p.z as int, fp_add_spec(tile_id.y as int, ft_half))
        } else if node.sub_role == NodeSubRole::MiddleX {
            fp_sub_spec(p.z as int, fp_add_spec(tile_id.y as int, 500_000))
        } else {
            fp_sub_spec(
                p.z as int,
                fp_sub_spec(fp_add_spec(tile_id.y as int, FP_SCALE as int), ft_half),
            )
        };
        lemma_extrusion_form_positive(
            fp_sub_spec(crate::fixed::fp_abs_spec(qz), ft),
            d2d,
        );
    } else if node.sub_role == NodeSubRole::Floor {
        let off = spec_first_value(node, FTValueRole::Offset, 0);
        let qy = fp_sub_spec(
            p.y as int,
            fp_add_spec(fp_add_spec(tile_id.y as int, ft_half), off as int),
        );
        lemma_extrusion_form_positive(
            fp_sub_spec(crate::fixed::fp_abs_spec(qy), ft),
            d2d,
        );
    }
}

/// The stacking walk places consecutive rows exactly one row apart: after
/// evaluating the current child, it either stops at the face top or
/// continues from a cursor exactly the child's height plus the spacing
/// above the current one — so no two rows overlap in Y beyond the spacing.
pub proof fn lemma_stack_rows_spaced(
    nodes: Seq<Node>,
    md: Seq<i32>,
    index: usize,
    p: Vec2Fp,
    pos: Vec2Fp,
    hit: FTHitStruct,
    d: i64,
    counter: usize,
    spacing: i64,
    top_end: i64,
)
    requires
        counter < STACK_MAX,
        (index as int) < nodes.len(),
        nodes[index as int].links@.len() > 0,
        ({
            let len = nodes[index as int].links@.len() as int;
            let c = nodes[index as int].links@[counter as int % len];
            0 <= c && (c as int) < index as int
        }),
        -1_000_000_000_000 <= pos.y <= 1_000_000_000_000,
        -1_000_000_000_000 <= spacing <= 1_000_000_000_000,
    ensures
        ({
            let h = hash21_spec(pos.x, pos.y) as i64;
            let hit2 = FTHitStruct { working_seed: h, working_seed_id: spec_hash_id(h), ..hit };
            let len = nodes[index as int].links@.len() as int;
            let c = nodes[index as int].links@[counter as int % len];
            let res = spec_distance(nodes, md, c as usize, p, pos, hit2);
            let rowh = res.1.last_size.y as int;
            (-1_000_000_000_000 <= rowh <= 1_000_000_000_000) ==> {
                let next = Vec2Fp { x: pos.x, y: (pos.y + rowh + spacing) as i64 };
                spec_stack_loop(nodes, md, index, p, pos, hit, d, counter, spacing, top_end) == (
                if pos.y + rowh + spacing + rowh > top_end {
                    res
                } else {
                    spec_stack_loop(
                        nodes,
                        md,
                        index,
                        p,
                        next,
                        res.1,
                        res.0,
                        (counter + 1) as usize,
                        spacing,
                        top_end,
                    )
                })
            }
        }),
{
    let h = hash21_spec(pos.x, pos.y) as i64;
    let hit2 = FTHitStruct { working_seed: h, working_seed_id: spec_hash_id(h), ..hit };
    let len = nodes[index as int].links@.len() as int;
    let c = nodes[index as int].links@[counter as int % len];
    let res = spec_distance(nodes, md, c as usize, p, pos, hit2);
    let rowh = res.1.last_size.y as int;
    if -1_000_000_000_000 <= rowh <= 1_000_000_000_000 {
        assert(fp_add_spec(rowh, spacing as int) == rowh + spacing as int);
        assert(fp_add_spec(pos.y as int, rowh + spacing as int) == pos.y + rowh + spacing);
        assert(fp_add_spec(pos.y + rowh + spacing, rowh) == pos.y + rowh + spacing + rowh);
    }
}

/// Two consecutive stack rows are separated by exactly the lower child's
/// height plus the spacing: within representable range, the cursor the
/// walk passes to the next row is `y + height + spacing`.
pub proof fn lemma_stack_advance(y: int, height: int, spacing: int)
    requires
        -1_000_000_000_000_000_000 <= y <= 1_000_000_000_000_000_000,
        -1_000_000_000_000_000_000 <= height <= 1_000_000_000_000_000_000,
        -1_000_000_000_000_000_000 <= spacing <= 1_000_000_000_000_000_000,
    ensures
        fp_add_spec(y, fp_add_spec(height, spacing)) == y + height + spacing,
{
}

/// The stacking walk is geometrically bounded: if every row advances the
/// cursor by at least `hmin`, at most `(top − start)/hmin` rows fit below
/// `top`, so the loop stops after at most one more iteration.
pub proof fn lemma_stack_iteration_bound(start: int, top: int, hmin: int, n: int)
    requires
        hmin >= 1,
        n >= 0,
        start + n * hmin <= top,
    ensures
        n <= (top - start) / hmin,
{
    assert(n * hmin <= top - start) by (nonlinear_arith)
        requires start + n * hmin <= top;
    lemma_div_is_ordered(n * hmin, top - start, hmin);
    assert(n * hmin == hmin * n) by (nonlinear_arith);
    lemma_div_multiples_vanish(n, hmin);
    assert((n * hmin) / hmin == n);
}

/// Meta-delete skips a disc outright: the accumulator comes back exactly
/// as it went in, and the winning distance is unchanged.
pub proof fn lemma_meta_delete_disc_skips(
    nodes: Seq<Node>,
    md: Seq<i32>,
    index: usize,
    p: Vec2Fp,
    pos: Vec2Fp,
    hit: FTHitStruct,
)
    requires
        index < nodes.len(),
        nodes[index as int].role == NodeRole::Shape,
        nodes[index as int].sub_role == NodeSubRole::Disc,
        spec_contains_id(md, hit.working_seed_id) || spec_contains_id(md, hit.working_pattern_id),
    ensures
        spec_distance(nodes, md, index, p, pos, hit) == (hit.distance, hit),
{
}

/// Meta-delete renders a box as a hard cutout: the accumulator comes back
/// with `is_cut_out` raised and nothing else changed — the intentional
/// asymmetry with the disc's plain skip.
pub proof fn lemma_meta_delete_box_cuts(
    nodes: Seq<Node>,
    md: Seq<i32>,
    index: usize,
    p: Vec2Fp,
    pos: Vec2Fp,
    hit: FTHitStruct,
)
    requires
        index < nodes.len(),
        nodes[index as int].role == NodeRole::Shape,
        nodes[index as int].sub_role == NodeSubRole::Box,
        spec_contains_id(md, hit.working_seed_id) || spec_contains_id(md, hit.working_pattern_id),
    ensures
        spec_distance(nodes, md, index, p, pos, hit) == (
            hit.distance,
            (FTHitStruct { is_cut_out: true, ..hit }),
        ),
{
}

/// The running average over any sample path equals the floor of the true
/// mean: restated from the accumulator's own contract, over the sum of the
/// recorded history.
pub proof fn lemma_running_average_exact(s: Seq<i64>)
    requires
        s.len() > 0,
    ensures
        floor_div(crate::accum::spec_seq_sum(s), s.len() as int) == crate::accum::spec_seq_sum(s)
            / s.len() as int,
{
}

} // verus!
