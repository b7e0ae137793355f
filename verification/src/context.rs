//! The compiled scene graph and its distance-field evaluator.
use vstd::prelude::*;

use crate::expression::{spec_expressions_eval, FTExpressionParam, FTExpressionRole};
use crate::fixed::{fp_add, fp_add_spec, fp_div, fp_div_spec, fp_divi, fp_max, fp_max_spec,
    fp_min, fp_min_spec, fp_mul, fp_mul_spec, fp_neg, fp_round, fp_round_spec, fp_sub,
    fp_sub_spec, fp_abs, fp_abs_spec, fp_floor, fp_floor_spec, hash21, hash21_spec, sat_i64,
    FP_INF, FP_SCALE};
use crate::hit::FTHitStruct;
use crate::node::{Node, NodeRole, NodeSubRole};
use crate::sdf::{sdf_box2d, spec_sdf_box2d, rot_apply, spec_rot_apply};
use crate::value::FTValueRole;
use crate::vecfp::{vec2fp, Vec2Fp, Vec3Fp};

verus! {

/// How many rows a stacking combinator will at most lay out in one query.
pub const STACK_MAX: usize = 1024;

/// The compiled scene graph: the nodes, per-role index lists, name
/// bindings, the render target and the globally suppressed ids.
#[derive(Clone, Debug)]
pub struct FTContext {
    pub nodes: Vec<Node>,
    pub shapes: Vec<u8>,
    pub patterns: Vec<u8>,
    pub faces: Vec<u8>,
    pub materials: Vec<u8>,
    /// Name bindings made during compilation; a later binding of the same
    /// name shadows an earlier one.
    pub variables: Vec<(String, usize)>,
    /// The node marked `*` as the render target, defaulting to the last.
    pub output: Option<usize>,
    /// Ids suppressed everywhere at query time.
    pub meta_delete: Vec<i32>,
}

/// The newest binding of a name, searching from the back.
pub open spec fn spec_var_lookup(vs: Seq<(String, usize)>, name: Seq<char>) -> Option<usize>
    decreases vs.len(),
{
    if vs.len() == 0 {
        None
    } else if vs.last().0@ == name {
        Some(vs.last().1)
    } else {
        spec_var_lookup(vs.drop_last(), name)
    }
}

impl Default for FTContext {
    fn default() -> (r: Self)
        ensures
            r.nodes@.len() == 0,
            r.output is None,
    {
        FTContext::new()
    }
}

impl FTContext {
    pub fn new() -> (r: FTContext)
        ensures
            r.nodes@.len() == 0,
            r.shapes@.len() == 0,
            r.patterns@.len() == 0,
            r.faces@.len() == 0,
            r.materials@.len() == 0,
            r.variables@.len() == 0,
            r.output is None,
            r.meta_delete@.len() == 0,
    {
        FTContext {
            nodes: Vec::new(),
            shapes: Vec::new(),
            patterns: Vec::new(),
            faces: Vec::new(),
            materials: Vec::new(),
            variables: Vec::new(),
            output: None,
            meta_delete: Vec::new(),
        }
    }

    /// The index bound to a name, preferring the newest binding.
    pub fn variable_lookup(&self, name: &String) -> (r: Option<usize>)
        ensures
            r == spec_var_lookup(self.variables@, name@),
    {
        let n: usize = self.variables.len();
        let mut i: usize = n;
        proof {
            assert(self.variables@.take(n as int) =~= self.variables@);
        }
        while i > 0
            invariant
                i <= n,
                n == self.variables@.len(),
                spec_var_lookup(self.variables@, name@) == spec_var_lookup(
                    self.variables@.take(i as int),
                    name@,
                ),
            decreases i,
        {
            i -= 1;
            proof {
                assert(self.variables@.take(i as int + 1).last() == self.variables@[i as int]);
            }
            if self.variables[i].0.eq(name) {
                return Some(self.variables[i].1);
            }
            proof {
                assert(self.variables@.take(i as int + 1).drop_last() =~= self.variables@.take(
                    i as int,
                ));
            }
        }
        None
    }

    /// Whether an id is globally suppressed.
    pub fn meta_contains(&self, v: i32) -> (r: bool)
        ensures
            r == spec_contains_id(self.meta_delete@, v),
    {
        let n: usize = self.meta_delete.len();
        let mut i: usize = 0;
        while i < n
            invariant
                i <= n,
                n == self.meta_delete@.len(),
                forall|j: int| 0 <= j < i ==> self.meta_delete@[j] != v,
            decreases n - i,
        {
            if self.meta_delete[i] == v {
                return true;
            }
            i += 1;
        }
        false
    }

    /// Bind a name to a node index.
    pub fn variable_insert(&mut self, name: String, index: usize)
        ensures
            final(self).variables@ == old(self).variables@.push((name, index)),
            final(self).nodes == old(self).nodes,
            final(self).shapes == old(self).shapes,
            final(self).patterns == old(self).patterns,
            final(self).faces == old(self).faces,
            final(self).materials == old(self).materials,
            final(self).output == old(self).output,
            final(self).meta_delete == old(self).meta_delete,
    {
        self.variables.push((name, index));
    }

    /// Returns the distance and other meta data for the given node; exactly
    /// `spec_distance` over the graph and the suppressed ids.
    pub fn distance(&self, index: usize, p: Vec2Fp, pos: Vec2Fp, hit: &mut FTHitStruct) -> (r:
        i64)
        ensures
            (r, *final(hit)) == spec_distance(
                self.nodes@,
                self.meta_delete@,
                index,
                p,
                pos,
                *old(hit),
            ),
        decreases index, 3int, 0int,
    {
        if index >= self.nodes.len() {
            return FP_INF;
        }
        let role = self.nodes[index].role;
        let sub_role = self.nodes[index].sub_role;
        if role == NodeRole::Shape && sub_role == NodeSubRole::Disc {
            self.distance_disc(index, p, pos, hit)
        } else if role == NodeRole::Shape && sub_role == NodeSubRole::Box {
            self.distance_box(index, p, pos, hit)
        } else if role == NodeRole::Pattern && sub_role == NodeSubRole::Repeat {
            self.distance_repeat(index, p, pos, hit)
        } else if role == NodeRole::Pattern && sub_role == NodeSubRole::Stack {
            self.distance_stack(index, p, pos, hit)
        } else if role == NodeRole::Pattern && sub_role == NodeSubRole::Group {
            self.distance_group(index, p, pos, hit)
        } else {
            FP_INF
        }
    }

    /// The disc primitive: meta-deleted ids are skipped with the hit left
    /// as it was; otherwise the exact distance `|p - pos| - radius`.
    fn distance_disc(&self, index: usize, p: Vec2Fp, pos: Vec2Fp, hit: &mut FTHitStruct) -> (r:
        i64)
        requires
            index < self.nodes@.len(),
            self.nodes@[index as int].role == NodeRole::Shape,
            self.nodes@[index as int].sub_role == NodeSubRole::Disc,
        ensures
            (r, *final(hit)) == spec_distance(
                self.nodes@,
                self.meta_delete@,
                index,
                p,
                pos,
                *old(hit),
            ),
    {
        if self.meta_contains(hit.working_seed_id) || self.meta_contains(hit.working_pattern_id) {
            return hit.distance;
        }
        let radius: i64 = self.nodes[index].first_value(FTValueRole::Radius, 500_000);
        let d: i64 = fp_sub(p.sub(pos).length(), radius);
        Self::adjust_distances(index, d, hit);
        d
    }

    /// The rounded box primitive: a meta-deleted id renders as a hard
    /// cutout, otherwise the rotated, optionally annular box distance.
    fn distance_box(&self, index: usize, p: Vec2Fp, pos: Vec2Fp, hit: &mut FTHitStruct) -> (r:
        i64)
        requires
            index < self.nodes@.len(),
            self.nodes@[index as int].role == NodeRole::Shape,
            self.nodes@[index as int].sub_role == NodeSubRole::Box,
        ensures
            (r, *final(hit)) == spec_distance(
                self.nodes@,
                self.meta_delete@,
                index,
                p,
                pos,
                *old(hit),
            ),
    {
        if self.meta_contains(hit.working_seed_id) || self.meta_contains(hit.working_pattern_id) {
            hit.is_cut_out = true;
            return hit.distance;
        }
        let length: i64 = fp_add(
            self.nodes[index].first_value(FTValueRole::Length, FP_SCALE),
            hit.shape_adder,
        );
        let height: i64 = fp_add(
            self.nodes[index].first_value(FTValueRole::Height, FP_SCALE),
            hit.shape_adder,
        );
        let rounding: i64 = self.eval_hash_expr(
            index,
            FTExpressionRole::Rounding,
            hit.working_pattern_hash,
            0,
        );
        let hole: i64 = self.eval_hash_expr(
            index,
            FTExpressionRole::Annular,
            hit.working_pattern_hash,
            0,
        );
        let rotation: i64 = self.eval_hash_expr(
            index,
            FTExpressionRole::Rotation,
            hit.working_pattern_hash,
            0,
        );
        let angle: i64 = fp_mul(fp_sub(hit.working_pattern_hash, 500_000), rotation);
        let rp: Vec2Fp = rot_apply(angle, p);
        let d0: i64 = sdf_box2d(
            rp,
            pos,
            fp_sub(fp_divi(length, 2), hole),
            fp_sub(fp_divi(height, 2), hole),
            rounding,
        );
        let d: i64 = if hole > 0 {
            fp_sub(fp_abs(d0), hole)
        } else {
            d0
        };
        hit.last_size = self.nodes[index].get_shape_dim();
        Self::adjust_distances(index, d, hit);
        d
    }

    /// The periodic tiling combinator: wrap the point into its cell, hash
    /// the cell into the provisional pattern randomness, and recurse.
    fn distance_repeat(&self, index: usize, p: Vec2Fp, pos: Vec2Fp, hit: &mut FTHitStruct) -> (r:
        i64)
        requires
            index < self.nodes@.len(),
            self.nodes@[index as int].role == NodeRole::Pattern,
            self.nodes@[index as int].sub_role == NodeSubRole::Repeat,
        ensures
            (r, *final(hit)) == spec_distance(
                self.nodes@,
                self.meta_delete@,
                index,
                p,
                pos,
                *old(hit),
            ),
        decreases index, 2int, 0int,
    {
        if self.nodes[index].links.len() == 0 {
            return FP_INF;
        }
        let content: i32 = self.nodes[index].links[0];
        if !(0 <= content && (content as usize) < index) {
            return FP_INF;
        }
        let cdim: Vec2Fp = self.nodes[content as usize].get_shape_dim();
        let spacing: i64 = self.nodes[index].first_value(FTValueRole::Spacing, 0);
        let offset: i64 = self.nodes[index].first_value(FTValueRole::Offset, 0);
        hit.last_size = cdim;
        let pos2: Vec2Fp = vec2fp(pos.x, fp_add(pos.y, fp_divi(cdim.y, 2)));
        let cell: i64 = fp_add(cdim.x, spacing);
        let px: i64 = fp_sub(p.x, fp_sub(fp_divi(cdim.x, 2), fp_mul(offset, cdim.x)));
        let rx: i64 = fp_sub(px, fp_mul(cell, fp_round(fp_div(px, cell))));
        let rp: Vec2Fp = vec2fp(rx, p.y);
        let ux0: i64 = fp_sub(fp_sub(p.x, fp_mul(offset, cdim.x)), hit.tile_id.x);
        let uy0: i64 = fp_sub(p.y, fp_sub(pos2.y, fp_divi(cdim.y, 2)));
        let ux: i64 = fp_div(ux0, cell);
        let uy: i64 = fp_div(uy0, fp_add(cdim.y, pos2.y));
        let h: i64 = hash21(
            fp_add(fp_floor(ux), hit.working_seed),
            fp_add(fp_floor(uy), hit.working_seed),
        );
        hit.working_pattern_hash = h;
        hit.working_pattern_id = hash_id(h);
        self.distance(content as usize, rp, pos2, hit)
    }

    /// The stacking combinator: set the cursor up from the group origin and
    /// run the greedy packing walk.
    #[verifier::rlimit(100)]
    #[verifier::spinoff_prover]
    fn distance_stack(&self, index: usize, p: Vec2Fp, pos: Vec2Fp, hit: &mut FTHitStruct) -> (r:
        i64)
        requires
            index < self.nodes@.len(),
            self.nodes@[index as int].role == NodeRole::Pattern,
            self.nodes@[index as int].sub_role == NodeSubRole::Stack,
        ensures
            (r, *final(hit)) == spec_distance(
                self.nodes@,
                self.meta_delete@,
                index,
                p,
                pos,
                *old(hit),
            ),
        decreases index, 2int, 0int,
    {
        if self.nodes[index].links.len() == 0 {
            return FP_INF;
        }
        let spacing: i64 = self.nodes[index].first_value(FTValueRole::Spacing, 0);
        let content0: i32 = self.nodes[index].links[0];
        let shaped: bool = 0 <= content0 && (content0 as usize) < self.nodes.len()
            && self.nodes[content0 as usize].role == NodeRole::Shape;
        let pos2: Vec2Fp = if shaped {
            let dim: Vec2Fp = self.nodes[content0 as usize].get_shape_dim();
            vec2fp(
                fp_add(hit.origin.x, fp_divi(dim.x, 2)),
                fp_add(hit.origin.y, fp_divi(dim.y, 2)),
            )
        } else {
            hit.origin
        };
        let top_end: i64 = if shaped {
            let dim: Vec2Fp = self.nodes[content0 as usize].get_shape_dim();
            fp_add(hit.face.y, fp_divi(dim.y, 2))
        } else {
            hit.face.y
        };
        self.stack_loop(index, p, pos2, hit, FP_INF, 0, spacing, top_end)
    }

    /// The group combinator: shift into the group origin, carve out an
    /// optional boolean-subtraction cutout, then walk the children.
    #[verifier::rlimit(100)]
    #[verifier::spinoff_prover]
    fn distance_group(&self, index: usize, p: Vec2Fp, pos: Vec2Fp, hit: &mut FTHitStruct) -> (r:
        i64)
        requires
            index < self.nodes@.len(),
            self.nodes@[index as int].role == NodeRole::Pattern,
            self.nodes@[index as int].sub_role == NodeSubRole::Group,
        ensures
            (r, *final(hit)) == spec_distance(
                self.nodes@,
                self.meta_delete@,
                index,
                p,
                pos,
                *old(hit),
            ),
        decreases index, 2int, 0int,
    {
        let group_pos: Vec2Fp = vec2fp(
            fp_add(hit.tile_id.x, self.nodes[index].first_value(FTValueRole::X, 0)),
            self.nodes[index].first_value(FTValueRole::Y, 0),
        );
        let old_origin: Vec2Fp = hit.origin;
        hit.origin = group_pos;
        let ghost hit1g = *hit;
        let mut dist: i64 = FP_INF;
        let cut: Option<i64> = match self.nodes[index].values.get_option(FTValueRole::Cutout) {
            Some(vs) => {
                if vs.len() > 0 {
                    Some(vs[0])
                } else {
                    None
                }
            },
            None => None,
        };
        if let Some(cv) = cut {
            let ci: i64 = crate::fixed::fp_units(cv);
            if 0 <= ci && (ci as u64) < (index as u64) {
                let ciu: usize = ci as usize;
                let cdim: Vec2Fp = self.nodes[ciu].get_shape_dim();
                let cpos: Vec2Fp = vec2fp(
                    fp_add(group_pos.x, fp_divi(cdim.x, 2)),
                    fp_add(group_pos.y, fp_divi(cdim.y, 2)),
                );
                let mut cut_out_hit: FTHitStruct = FTHitStruct::new();
                let cd: i64 = self.distance(ciu, p, cpos, &mut cut_out_hit);
                let dd: i64 = fp_max(hit.distance, fp_neg(cd));
                dist = dd;
                hit.distance = dd;
                if cd < 0 {
                    hit.group_uv = vec2fp(
                        fp_div(fp_sub(p.x, group_pos.x), cdim.x),
                        fp_sub(FP_SCALE, fp_div(fp_sub(p.y, group_pos.y), cdim.y)),
                    );
                    hit.min_distance = 1000;
                    hit.node = None;
                    hit.pattern_hash = 0;
                    hit.pattern_id = 0;
                    hit.seed = 0;
                    hit.seed_id = 0;
                    hit.is_cut_out = true;
                } else {
                    hit.is_cut_out = false;
                }
            }
        }
        proof {
            let cutspec = match crate::value::spec_find_role(
                self.nodes@[index as int].values.view_entries(),
                FTValueRole::Cutout,
            ) {
                Some(vs) => if vs.len() > 0 {
                    Some(vs[0])
                } else {
                    None
                },
                None => None,
            };
            let stepped = if cutspec is Some {
                spec_group_cutout(
                    self.nodes@,
                    self.meta_delete@,
                    index,
                    p,
                    group_pos,
                    cutspec->Some_0,
                    hit1g,
                )
            } else {
                (FP_INF, hit1g)
            };
            assert(dist == stepped.0);
            assert(*hit == stepped.1);
        }
        let d2: i64 = self.group_loop(index, 0, p, group_pos, dist, hit);
        hit.origin = old_origin;
        d2
    }

    /// One step of the stacking combinator per call; exactly
    /// `spec_stack_loop`.
    fn stack_loop(
        &self,
        index: usize,
        p: Vec2Fp,
        pos: Vec2Fp,
        hit: &mut FTHitStruct,
        d: i64,
        counter: usize,
        spacing: i64,
        top_end: i64,
    ) -> (r: i64)
        ensures
            (r, *final(hit)) == spec_stack_loop(
                self.nodes@,
                self.meta_delete@,
                index,
                p,
                pos,
                *old(hit),
                d,
                counter,
                spacing,
                top_end,
            ),
        decreases index, 1int, STACK_MAX - counter,
    {
        if counter >= STACK_MAX {
            return d;
        }
        let h: i64 = hash21(pos.x, pos.y);
        hit.working_seed = h;
        hit.working_seed_id = hash_id(h);
        if index >= self.nodes.len() || self.nodes[index].links.len() == 0 {
            return d;
        }
        let len: usize = self.nodes[index].links.len();
        let c: i32 = self.nodes[index].links[counter % len];
        if !(0 <= c && (c as usize) < index) {
            return d;
        }
        let d2: i64 = self.distance(c as usize, p, pos, hit);
        let pos2: Vec2Fp = vec2fp(pos.x, fp_add(pos.y, fp_add(hit.last_size.y, spacing)));
        if fp_add(pos2.y, hit.last_size.y) > top_end {
            return d2;
        }
        self.stack_loop(index, p, pos2, hit, d2, counter + 1, spacing, top_end)
    }

    /// The group combinator's walk over its children; exactly
    /// `spec_group_loop`.
    fn group_loop(
        &self,
        index: usize,
        k: usize,
        p: Vec2Fp,
        group_pos: Vec2Fp,
        d: i64,
        hit: &mut FTHitStruct,
    ) -> (r: i64)
        ensures
            (r, *final(hit)) == spec_group_loop(
                self.nodes@,
                self.meta_delete@,
                index,
                k as int,
                p,
                group_pos,
                d,
                *old(hit),
            ),
        decreases index, 1int,
            (if index < self.nodes@.len() {
                self.nodes@[index as int].links@.len() - k
            } else {
                0int
            }),
    {
        if index >= self.nodes.len() || k >= self.nodes[index].links.len() {
            return d;
        }
        let c: i32 = self.nodes[index].links[k];
        if !(0 <= c && (c as usize) < index) {
            return self.group_loop(index, k + 1, p, group_pos, d, hit);
        }
        let cpos: Vec2Fp = if self.nodes[c as usize].role == NodeRole::Shape {
            let dim: Vec2Fp = self.nodes[c as usize].get_shape_dim();
            vec2fp(fp_add(group_pos.x, fp_divi(dim.x, 2)), fp_add(group_pos.y, fp_divi(dim.y, 2)))
        } else {
            group_pos
        };
        let d2: i64 = self.distance(c as usize, p, cpos, hit);
        self.group_loop(index, k + 1, p, group_pos, d2, hit)
    }

    /// A formula of the node evaluated on the hash parameter alone.
    fn eval_hash_expr(&self, index: usize, role: FTExpressionRole, h: i64, default: i64) -> (r:
        i64)
        requires
            index < self.nodes@.len(),
        ensures
            r == spec_eval_hash_expr(self.nodes@[index as int], role, h, default),
    {
        let mut params: Vec<(FTExpressionParam, i64)> = Vec::new();
        params.push((FTExpressionParam::Hash, h));
        proof {
            assert(params@ =~= spec_hash_params(h));
        }
        self.nodes[index].expressions.eval(role, params, default)
    }

    /// Get the distance to a face: the face's children evaluated in its 2D
    /// plane, clipped to the face rectangle and extruded along the face's
    /// axis; exactly `spec_distance_to_face`.
    #[verifier::rlimit(100)]
    #[verifier::spinoff_prover]
    pub fn distance_to_face(
        &self,
        p: Vec3Fp,
        face_index: usize,
        tile_id: Vec2Fp,
        use_bbox: bool,
    ) -> (hit: FTHitStruct)
        ensures
            hit == spec_distance_to_face(
                self.nodes@,
                self.meta_delete@,
                self.faces@,
                p,
                face_index,
                tile_id,
                use_bbox,
            ),
    {
        let mut hit: FTHitStruct = FTHitStruct::new();
        hit.tile_id = tile_id;
        if self.faces.len() == 0 || face_index >= self.faces.len()
            || self.faces[face_index] as usize >= self.nodes.len() {
            hit.distance = FP_INF;
            return hit;
        }
        let fi: usize = self.faces[face_index] as usize;
        let face_length: i64 = self.nodes[fi].first_value(FTValueRole::Length, FP_SCALE);
        let face_height: i64 = self.nodes[fi].first_value(FTValueRole::Height, FP_SCALE);
        let ft0: i64 = self.nodes[fi].first_value(FTValueRole::Thickness, 100_000);
        let half_length: i64 = fp_divi(face_length, 2);
        let sub_role = self.nodes[fi].sub_role;
        let face3: Vec3Fp = Vec3Fp { x: face_length, y: face_height, z: ft0 };
        let mut p2d: Vec2Fp = Vec2Fp::zero();
        let mut pos: Vec2Fp = Vec2Fp::zero();
        if sub_role == NodeSubRole::MiddleX || sub_role == NodeSubRole::Back || sub_role
            == NodeSubRole::Front {
            hit.face = face3;
            p2d = vec2fp(p.x, p.y);
            pos = vec2fp(fp_add(tile_id.x, half_length), fp_divi(face_height, 2));
        } else if sub_role == NodeSubRole::MiddleY || sub_role == NodeSubRole::Left || sub_role
            == NodeSubRole::Right {
            hit.face = face3;
            hit.tile_id = vec2fp(tile_id.y, tile_id.x);
            p2d = vec2fp(p.z, p.y);
            pos = vec2fp(fp_add(tile_id.y, half_length), fp_divi(face_height, 2));
        } else if sub_role == NodeSubRole::Floor {
            hit.face = face3;
            p2d = vec2fp(p.x, fp_sub(face_height, p.z));
            pos = vec2fp(fp_add(tile_id.x, half_length), fp_divi(face_height, 2));
        }
        proof {
            assert((p2d, pos, hit) == spec_face_frame(
                self.nodes@[fi as int],
                p,
                tile_id,
                face_length,
                face_height,
                ft0,
                (FTHitStruct { tile_id, ..FTHitStruct::spec_new() }),
            ));
        }
        let bbox_dist: i64 = sdf_box2d(
            p2d,
            vec2fp(pos.x, fp_divi(hit.face.y, 2)),
            fp_divi(face_length, 2),
            fp_divi(hit.face.y, 2),
            0,
        );
        if !use_bbox {
            self.face_loop(fi, 0, p2d, pos, &mut hit);
        }
        let dist_2d_min: i64 = if use_bbox {
            bbox_dist
        } else {
            fp_max(hit.min_distance, bbox_dist)
        };
        let mut ft1: i64 = ft0;
        if let Some(n) = hit.node {
            if n < self.nodes.len() {
                let mut params: Vec<(FTExpressionParam, i64)> = Vec::new();
                params.push((FTExpressionParam::Hash, hit.pattern_hash));
                params.push((FTExpressionParam::Thickness, ft0));
                proof {
                    assert(params@ =~= seq![
                        (FTExpressionParam::Hash, hit.pattern_hash),
                        (FTExpressionParam::Thickness, ft0),
                    ]);
                }
                ft1 = crate::fixed::fp_clamp(
                    self.nodes[n].expressions.eval(FTExpressionRole::Extrusion, params, ft0),
                    0,
                    10 * FP_SCALE,
                );
            }
        }
        let ft: i64 = fp_divi(ft1, 2);
        let ft_half: i64 = fp_divi(ft, 2);
        let dist: i64 = if sub_role == NodeSubRole::Left {
            op_extrusion_x(
                Vec3Fp { x: fp_sub(p.x, fp_add(tile_id.x, ft_half)), y: p.y, z: p.z },
                dist_2d_min,
                ft,
            )
        } else if sub_role == NodeSubRole::MiddleY {
            op_extrusion_x(
                Vec3Fp { x: fp_sub(p.x, fp_add(tile_id.x, 500_000)), y: p.y, z: p.z },
                dist_2d_min,
                ft,
            )
        } else if sub_role == NodeSubRole::Right {
            op_extrusion_x(
                Vec3Fp {
                    x: fp_sub(p.x, fp_sub(fp_add(tile_id.x, FP_SCALE), ft_half)),
                    y: p.y,
                    z: p.z,
                },
                dist_2d_min,
                ft,
            )
        } else if sub_role == NodeSubRole::Back {
            op_extrusion_z(
                Vec3Fp { x: p.x, y: p.y, z: fp_sub(p.z, fp_add(tile_id.y, ft_half)) },
                dist_2d_min,
                ft,
            )
        } else if sub_role == NodeSubRole::MiddleX {
            op_extrusion_z(
                Vec3Fp { x: p.x, y: p.y, z: fp_sub(p.z, fp_add(tile_id.y, 500_000)) },
                dist_2d_min,
                ft,
            )
        } else if sub_role == NodeSubRole::Front {
            op_extrusion_z(
                Vec3Fp {
                    x: p.x,
                    y: p.y,
                    z: fp_sub(p.z, fp_sub(fp_add(tile_id.y, FP_SCALE), ft_half)),
                },
                dist_2d_min,
                ft,
            )
        } else if sub_role == NodeSubRole::Floor {
            let off: i64 = self.nodes[fi].first_value(FTValueRole::Offset, 0);
            fp_max(
                op_extrusion_y(
                    Vec3Fp {
                        x: p.x,
                        y: fp_sub(p.y, fp_add(fp_add(tile_id.y, ft_half), off)),
                        z: p.z,
                    },
                    dist_2d_min,
                    ft,
                ),
                fp_neg(p.y),
            )
        } else {
            FP_INF
        };
        hit.distance = dist;
        hit
    }

    /// A face's children evaluated in the 2D plane; exactly
    /// `spec_face_loop`.
    fn face_loop(&self, fi: usize, k: usize, p2d: Vec2Fp, pos: Vec2Fp, hit: &mut FTHitStruct)
        ensures
            *final(hit) == spec_face_loop(
                self.nodes@,
                self.meta_delete@,
                fi,
                k as int,
                p2d,
                pos,
                *old(hit),
            ),
        decreases
            (if fi < self.nodes@.len() {
                self.nodes@[fi as int].links@.len() - k
            } else {
                0int
            }),
    {
        if fi >= self.nodes.len() || k >= self.nodes[fi].links.len() {
            return ;
        }
        let c: i32 = self.nodes[fi].links[k];
        if !(0 <= c && (c as u64) < (fi as u64)) {
            return self.face_loop(fi, k + 1, p2d, pos, hit);
        }
        let pp: Vec2Fp = if self.nodes[c as usize].role == NodeRole::Pattern {
            Vec2Fp::zero()
        } else {
            pos
        };
        self.distance(c as usize, p2d, pp, hit);
        self.face_loop(fi, k + 1, p2d, pos, hit)
    }

    /// Get the face normal at the given position, by a tetrahedral
    /// finite-difference gradient of the face's distance field.
    pub fn face_normal(&self, p: Vec3Fp, face_index: usize, tile_id: Vec2Fp) -> (r: Vec3Fp)
        ensures
            r == spec_face_normal(self.nodes@, self.meta_delete@, self.faces@, p, face_index, tile_id),
    {
        let s: i64 = 10_000;
        let e1: Vec3Fp = Vec3Fp { x: s, y: -s, z: -s };
        let e2: Vec3Fp = Vec3Fp { x: -s, y: -s, z: s };
        let e3: Vec3Fp = Vec3Fp { x: -s, y: s, z: -s };
        let e4: Vec3Fp = Vec3Fp { x: s, y: s, z: s };
        let d1: i64 = self.distance_to_face(p.add(e1), face_index, tile_id, false).distance;
        let d2: i64 = self.distance_to_face(p.add(e2), face_index, tile_id, false).distance;
        let d3: i64 = self.distance_to_face(p.add(e3), face_index, tile_id, false).distance;
        let d4: i64 = self.distance_to_face(p.add(e4), face_index, tile_id, false).distance;
        let n: Vec3Fp = e1.scale(d1).add(e2.scale(d2)).add(e3.scale(d3)).add(e4.scale(d4));
        n.normalize()
    }

    /// Get the meta data at the given position of a face: the hit of the
    /// render target's children at the probed pixel, or nothing when the
    /// probe lies outside all surfaces.
    pub fn meta_data_at(&self, x: i32, y: i32, width: usize, height: usize) -> (r: Option<
        FTHitStruct,
    >)
        ensures
            r == spec_meta_data_at(
                self.nodes@,
                self.meta_delete@,
                self.output,
                x as int,
                y as int,
                width as int,
                height as int,
            ),
    {
        if self.nodes.len() == 0 {
            return None;
        }
        let output: usize = match self.output {
            Some(o) => o,
            None => self.nodes.len() - 1,
        };
        if output >= self.nodes.len() {
            return None;
        }
        let w: i64 = Self::scale_usize(width);
        let h: i64 = Self::scale_usize(height);
        let height_value: i64 = self.nodes[output].first_value(FTValueRole::Height, FP_SCALE);
        let p: Vec2Fp = vec2fp(
            fp_div((x as i64) * FP_SCALE, w),
            fp_sub(height_value, fp_div((y as i64) * FP_SCALE, h)),
        );
        let mut hit: FTHitStruct = FTHitStruct::new();
        hit.face = Vec3Fp { x: 100 * FP_SCALE, y: 100 * FP_SCALE, z: 100 * FP_SCALE };
        self.probe_loop(output, 0, p, &mut hit);
        if hit.distance <= 0 {
            Some(hit)
        } else {
            None
        }
    }

    /// The probe's walk over the render target's children, stopping at the
    /// first child whose distance goes negative; exactly `spec_probe_loop`.
    fn probe_loop(&self, output: usize, k: usize, p: Vec2Fp, hit: &mut FTHitStruct)
        requires
            output < self.nodes@.len(),
        ensures
            *final(hit) == spec_probe_loop(
                self.nodes@,
                self.meta_delete@,
                output,
                k as int,
                p,
                *old(hit),
            ),
        decreases self.nodes@[output as int].links@.len() - k,
    {
        if k >= self.nodes[output].links.len() {
            return ;
        }
        let c: i32 = self.nodes[output].links[k];
        if !(0 <= c && (c as u64) < (output as u64)) {
            return self.probe_loop(output, k + 1, p, hit);
        }
        self.distance(c as usize, p, Vec2Fp::zero(), hit);
        if hit.distance < 0 {
            return ;
        }
        self.probe_loop(output, k + 1, p, hit)
    }

    /// The flat 2D color of one pixel of the render target: the resolved
    /// material's base color inside a surface, black outside; exactly
    /// `spec_render_pixel`.
    pub fn render_pixel(&self, x: usize, y: usize, width: usize, height: usize) -> (r: (
        u8,
        u8,
        u8,
        u8,
    ))
        ensures
            r == spec_render_pixel(
                self.nodes@,
                self.meta_delete@,
                self.output,
                x as int,
                y as int,
                width as int,
                height as int,
            ),
    {
        if self.nodes.len() == 0 || width == 0 || height == 0 {
            return (0, 0, 0, 255);
        }
        let output: usize = match self.output {
            Some(o) => o,
            None => self.nodes.len() - 1,
        };
        if output >= self.nodes.len() {
            return (0, 0, 0, 255);
        }
        let face: Vec3Fp = if self.nodes[output].role == NodeRole::Face {
            Vec3Fp {
                x: self.nodes[output].first_value(FTValueRole::Length, FP_SCALE),
                y: self.nodes[output].first_value(FTValueRole::Height, FP_SCALE),
                z: self.nodes[output].first_value(FTValueRole::Thickness, 200_000),
            }
        } else {
            Vec3Fp { x: FP_SCALE, y: FP_SCALE, z: FP_SCALE }
        };
        let xx: i64 = fp_div(Self::scale_usize(x), Self::scale_usize(width));
        let yy: i64 = fp_div(Self::scale_usize(y), Self::scale_usize(height));
        let p: Vec2Fp = vec2fp(fp_mul(xx, face.x), fp_mul(yy, face.y));
        let mut hit: FTHitStruct = FTHitStruct::new();
        hit.face = face;
        if self.nodes[output].role != NodeRole::Face {
            self.distance(output, p, Vec2Fp::zero(), &mut hit);
        } else {
            self.face_loop(output, 0, p, Vec2Fp::zero(), &mut hit);
        }
        if hit.distance < 0 {
            let mat = crate::material::BSDFMaterial::from_hit(self, &hit);
            (
                Self::channel_u8(mat.base_color.x),
                Self::channel_u8(mat.base_color.y),
                Self::channel_u8(mat.base_color.z),
                255,
            )
        } else {
            (0, 0, 0, 255)
        }
    }

    /// Computes the pixel at the given position for the flat 2D preview:
    /// transparent outside every surface, inside a cutout or on a
    /// transmissive material, else the material color jittered by the
    /// committed pattern hash; exactly `spec_face_pixel_at`.
    #[verifier::rlimit(100)]
    #[verifier::spinoff_prover]
    pub fn face_pixel_at(&self, p: Vec2Fp) -> (r: Option<(u8, u8, u8, u8)>)
        ensures
            r == spec_face_pixel_at(self.nodes@, self.meta_delete@, self.output, p),
    {
        if self.nodes.len() == 0 {
            return None;
        }
        let output: usize = match self.output {
            Some(o) => o,
            None => self.nodes.len() - 1,
        };
        if output >= self.nodes.len() {
            return None;
        }
        let face: Vec3Fp = if self.nodes[output].role == NodeRole::Face {
            Vec3Fp {
                x: self.nodes[output].first_value(FTValueRole::Length, FP_SCALE),
                y: self.nodes[output].first_value(FTValueRole::Height, FP_SCALE),
                z: self.nodes[output].first_value(FTValueRole::Thickness, 200_000),
            }
        } else {
            Vec3Fp { x: FP_SCALE, y: FP_SCALE, z: FP_SCALE }
        };
        let mut hit: FTHitStruct = FTHitStruct::new();
        hit.face = face;
        // hide seam artifacts in the flat preview
        hit.shape_adder = 25_000;
        let pq: Vec2Fp = vec2fp(p.x, fp_mul(p.y, face.y));
        if self.nodes[output].role != NodeRole::Face {
            let pos: Vec2Fp = if self.nodes[output].role == NodeRole::Shape {
                vec2fp(500_000, 500_000)
            } else {
                Vec2Fp::zero()
            };
            self.distance(output, pq, pos, &mut hit);
        } else {
            self.pixel_loop(output, 0, pq, &mut hit);
        }
        if hit.is_cut_out {
            return None;
        }
        if hit.distance <= 0 {
            if let Some(node) = hit.node {
                if node < self.nodes.len() {
                    if let Some(material) = self.nodes[node].material {
                        if (material as usize) < self.nodes.len() {
                            let m: usize = material as usize;
                            let spec_trans: i64 = self.eval_hash_expr(
                                m,
                                FTExpressionRole::Transmission,
                                hit.pattern_hash,
                                0,
                            );
                            if spec_trans > 500_000 {
                                return None;
                            }
                            let mut default_color: Vec<i64> = Vec::new();
                            default_color.push(500_000);
                            default_color.push(500_000);
                            default_color.push(500_000);
                            proof {
                                assert(default_color@ =~= seq![500_000i64, 500_000i64, 500_000i64]);
                            }
                            let col: Vec<i64> = self.nodes[m].values.get(
                                FTValueRole::Color,
                                default_color,
                            );
                            let jitter: i64 = fp_mul(fp_sub(hit.pattern_hash, 500_000), 500_000);
                            let c0: i64 = if col.len() > 0 {
                                col[0]
                            } else {
                                500_000
                            };
                            let c1: i64 = if col.len() > 1 {
                                col[1]
                            } else {
                                500_000
                            };
                            let c2: i64 = if col.len() > 2 {
                                col[2]
                            } else {
                                500_000
                            };
                            return Some(
                                (
                                    Self::channel_u8(fp_add(c0, jitter)),
                                    Self::channel_u8(fp_add(c1, jitter)),
                                    Self::channel_u8(fp_add(c2, jitter)),
                                    255,
                                ),
                            );
                        }
                    }
                }
                return Some((127, 127, 127, 255));
            } else {
                return Some((127, 127, 127, 255));
            }
        }
        Some((0, 0, 0, 255))
    }

    /// The flat preview's walk over the render target's children; exactly
    /// `spec_pixel_loop`.
    fn pixel_loop(&self, output: usize, k: usize, p: Vec2Fp, hit: &mut FTHitStruct)
        requires
            output < self.nodes@.len(),
        ensures
            *final(hit) == spec_pixel_loop(
                self.nodes@,
                self.meta_delete@,
                output,
                k as int,
                p,
                *old(hit),
            ),
        decreases self.nodes@[output as int].links@.len() - k,
    {
        if k >= self.nodes[output].links.len() {
            return ;
        }
        let c: i32 = self.nodes[output].links[k];
        if !(0 <= c && (c as u64) < (output as u64)) {
            return self.pixel_loop(output, k + 1, p, hit);
        }
        let pos: Vec2Fp = if self.nodes[c as usize].role == NodeRole::Shape {
            vec2fp(500_000, 500_000)
        } else {
            Vec2Fp::zero()
        };
        self.distance(c as usize, p, pos, hit);
        self.pixel_loop(output, k + 1, p, hit)
    }

    /// A pixel count as a fixed-point value, clamped to the `i64` range.
    fn scale_usize(n: usize) -> (r: i64)
        ensures
            r == sat_i64(n as int * FP_SCALE as int),
    {
        proof {
            assert((n as int) * (FP_SCALE as int) <= u128::MAX && (n as int) * (FP_SCALE as int)
                >= 0) by (nonlinear_arith)
                requires 0 <= n <= u64::MAX;
        }
        let w: u128 = (n as u128) * (FP_SCALE as u128);
        if w > i64::MAX as u128 {
            i64::MAX
        } else {
            w as i64
        }
    }

    /// A fixed-point color channel quantized to a byte.
    pub fn channel_u8(c: i64) -> (r: u8)
        ensures
            r == spec_channel_u8(c as int),
    {
        let scaled: i64 = crate::fixed::fp_units(fp_mul(c, 255 * FP_SCALE));
        if scaled < 0 {
            0
        } else if scaled > 255 {
            255
        } else {
            scaled as u8
        }
    }

    /// The nearest-node bookkeeping; exactly `spec_adjust_distances`.
    fn adjust_distances(index: usize, distance: i64, hit: &mut FTHitStruct)
        ensures
            *final(hit) == spec_adjust_distances(index, distance, *old(hit)),
    {
        if distance <= 0 {
            hit.distance = distance;
            hit.is_cut_out = false;
        }
        if distance < hit.min_distance {
            hit.min_distance = distance;
            hit.node = Some(index);
            hit.seed = hit.working_seed;
            hit.seed_id = hit.working_seed_id;
            hit.pattern_hash = hit.working_pattern_hash;
            hit.pattern_id = hit.working_pattern_id;
        }
        if hit.node.is_none() {
            hit.node = Some(index);
            hit.seed = hit.working_seed;
            hit.seed_id = hit.working_seed_id;
            hit.pattern_hash = hit.working_pattern_hash;
            hit.pattern_id = hit.working_pattern_id;
        }
    }
}

/// Whether `v` occurs in the id list.
pub open spec fn spec_contains_id(s: Seq<i32>, v: i32) -> bool {
    exists|i: int| 0 <= i < s.len() && s[i] == v
}

/// The bounded id carved out of a hash: its third to sixth decimal digits.
pub open spec fn spec_hash_id(h: i64) -> i32 {
    (((h as int) / 100) % 10000) as i32
}

pub fn hash_id(h: i64) -> (r: i32)
    requires
        h >= 0,
    ensures
        r == spec_hash_id(h),
{
    (((h as u64) / 100) % 10000) as i32
}

/// First value registered on a node for a role, or the default.
pub open spec fn spec_first_value(n: Node, role: FTValueRole, default: i64) -> i64 {
    match crate::value::spec_find_role(n.values.view_entries(), role) {
        Some(vs) => if vs.len() > 0 {
            vs[0]
        } else {
            default
        },
        None => default,
    }
}

/// The nearest-node bookkeeping every shape applies after computing its
/// distance: a non-positive distance wins the surface, a new minimum or a
/// first sighting attributes the node and commits the provisional
/// randomness.
pub open spec fn spec_adjust_distances(index: usize, distance: i64, hit: FTHitStruct) -> FTHitStruct {
    let h1 = if distance <= 0 {
        FTHitStruct { distance, is_cut_out: false, ..hit }
    } else {
        hit
    };
    let h2 = if distance < h1.min_distance {
        FTHitStruct {
            min_distance: distance,
            node: Some(index),
            seed: h1.working_seed,
            seed_id: h1.working_seed_id,
            pattern_hash: h1.working_pattern_hash,
            pattern_id: h1.working_pattern_id,
            ..h1
        }
    } else {
        h1
    };
    if h2.node is None {
        FTHitStruct {
            node: Some(index),
            seed: h2.working_seed,
            seed_id: h2.working_seed_id,
            pattern_hash: h2.working_pattern_hash,
            pattern_id: h2.working_pattern_id,
            ..h2
        }
    } else {
        h2
    }
}

/// One hash parameter binding for an expression evaluation.
pub open spec fn spec_hash_params(h: i64) -> Seq<(FTExpressionParam, i64)> {
    seq![(FTExpressionParam::Hash, h)]
}

/// A formula of the node evaluated on the hash parameter alone.
pub open spec fn spec_eval_hash_expr(n: Node, role: FTExpressionRole, h: i64, default: i64) -> i64 {
    spec_expressions_eval(n.expressions.view_entries(), role, spec_hash_params(h), default)
}

/// What `distance` computes: the signed distance of the node's subtree at
/// `p`, and the updated hit accumulator. Links are followed only towards
/// earlier nodes — the order the compiler guarantees — so evaluation always
/// terminates; any other link is treated as dangling and skipped.
pub open spec fn spec_distance(
    nodes: Seq<Node>,
    md: Seq<i32>,
    index: usize,
    p: Vec2Fp,
    pos: Vec2Fp,
    hit: FTHitStruct,
) -> (i64, FTHitStruct)
    decreases index, 3int, 0int,
{
    if index >= nodes.len() {
        (FP_INF, hit)
    } else {
        let node = nodes[index as int];
        if node.role == NodeRole::Shape && node.sub_role == NodeSubRole::Disc {
            spec_disc_case(nodes, md, index, p, pos, hit)
        } else if node.role == NodeRole::Shape && node.sub_role == NodeSubRole::Box {
            spec_box_case(nodes, md, index, p, pos, hit)
        } else if node.role == NodeRole::Pattern && node.sub_role == NodeSubRole::Repeat {
            spec_repeat_case(nodes, md, index, p, pos, hit)
        } else if node.role == NodeRole::Pattern && node.sub_role == NodeSubRole::Stack {
            spec_stack_case(nodes, md, index, p, hit)
        } else if node.role == NodeRole::Pattern && node.sub_role == NodeSubRole::Group {
            spec_group_case(nodes, md, index, p, hit)
        } else {
            (FP_INF, hit)
        }
    }
}

/// The disc primitive: a suppressed id is skipped outright; otherwise the
/// distance is exactly `|p - pos| - radius`.
pub open spec fn spec_disc_case(
    nodes: Seq<Node>,
    md: Seq<i32>,
    index: usize,
    p: Vec2Fp,
    pos: Vec2Fp,
    hit: FTHitStruct,
) -> (i64, FTHitStruct)
    recommends
        index < nodes.len(),
{
    let node = nodes[index as int];
    if spec_contains_id(md, hit.working_seed_id) || spec_contains_id(md, hit.working_pattern_id) {
        (hit.distance, hit)
    } else {
        let radius = spec_first_value(node, FTValueRole::Radius, 500_000);
        let len = p.spec_sub(pos).spec_length();
        let d = fp_sub_spec(len, radius as int) as i64;
        (d, spec_adjust_distances(index, d, hit))
    }
}

/// The rounded box primitive: a suppressed id renders as a hard cutout;
/// otherwise the rotated, optionally annular box distance.
pub open spec fn spec_box_case(
    nodes: Seq<Node>,
    md: Seq<i32>,
    index: usize,
    p: Vec2Fp,
    pos: Vec2Fp,
    hit: FTHitStruct,
) -> (i64, FTHitStruct)
    recommends
        index < nodes.len(),
{
    let node = nodes[index as int];
    if spec_contains_id(md, hit.working_seed_id) || spec_contains_id(md, hit.working_pattern_id) {
        (hit.distance, (FTHitStruct { is_cut_out: true, ..hit }))
    } else {
        let length = fp_add_spec(
            spec_first_value(node, FTValueRole::Length, FP_SCALE) as int,
            hit.shape_adder as int,
        );
        let height = fp_add_spec(
            spec_first_value(node, FTValueRole::Height, FP_SCALE) as int,
            hit.shape_adder as int,
        );
        let rounding = spec_eval_hash_expr(
            node,
            FTExpressionRole::Rounding,
            hit.working_pattern_hash,
            0,
        );
        let hole = spec_eval_hash_expr(node, FTExpressionRole::Annular, hit.working_pattern_hash, 0);
        let rotation = spec_eval_hash_expr(
            node,
            FTExpressionRole::Rotation,
            hit.working_pattern_hash,
            0,
        );
        let angle = fp_mul_spec(
            fp_sub_spec(hit.working_pattern_hash as int, 500_000),
            rotation as int,
        );
        let rp = spec_rot_apply(angle, p);
        let d0 = spec_sdf_box2d(
            rp,
            pos,
            fp_sub_spec(length / 2, hole as int),
            fp_sub_spec(height / 2, hole as int),
            rounding as int,
        );
        let d = if hole > 0 {
            fp_sub_spec(fp_abs_spec(d0), hole as int) as i64
        } else {
            d0 as i64
        };
        let hit2 = FTHitStruct { last_size: node.spec_shape_dim(), ..hit };
        (d, spec_adjust_distances(index, d, hit2))
    }
}

/// The wrapped local coordinate of the tiling combinator:
/// `px − cell·round(px/cell)`.
pub open spec fn spec_repeat_wrap(px: int, cell: int) -> int {
    fp_sub_spec(px, fp_mul_spec(cell, fp_round_spec(fp_div_spec(px, cell))))
}

/// The whole-unit cell coordinate a point falls into: `floor(u/cell)` as a
/// fixed-point value.
pub open spec fn spec_repeat_cell(u: int, cell: int) -> int {
    fp_floor_spec(fp_div_spec(u, cell))
}

/// The periodic tiling combinator: wrap the point into its cell, hash the
/// cell (with the committed row seed) into the provisional pattern
/// randomness, and evaluate the single child there.
pub open spec fn spec_repeat_case(
    nodes: Seq<Node>,
    md: Seq<i32>,
    index: usize,
    p: Vec2Fp,
    pos: Vec2Fp,
    hit: FTHitStruct,
) -> (i64, FTHitStruct)
    recommends
        index < nodes.len(),
    decreases index, 2int, 0int,
{
    if index >= nodes.len() {
        (FP_INF, hit)
    } else {
        let node = nodes[index as int];
        if node.links@.len() == 0 {
            (FP_INF, hit)
        } else {
            let content = node.links@[0];
            if !(0 <= content && (content as int) < index as int) {
                (FP_INF, hit)
            } else {
                let cdim = nodes[content as int].spec_shape_dim();
                let spacing = spec_first_value(node, FTValueRole::Spacing, 0);
                let offset = spec_first_value(node, FTValueRole::Offset, 0);
                let hit2 = FTHitStruct { last_size: cdim, ..hit };
                let pos2 = Vec2Fp { x: pos.x, y: fp_add_spec(pos.y as int, cdim.y as int / 2) as i64 };
                let cell = fp_add_spec(cdim.x as int, spacing as int);
                let px = fp_sub_spec(
                    p.x as int,
                    fp_sub_spec(cdim.x as int / 2, fp_mul_spec(offset as int, cdim.x as int)),
                );
                let rx = spec_repeat_wrap(px, cell);
                let rp = Vec2Fp { x: rx as i64, y: p.y };
                let ux0 = fp_sub_spec(
                    fp_sub_spec(p.x as int, fp_mul_spec(offset as int, cdim.x as int)),
                    hit.tile_id.x as int,
                );
                let uy0 = fp_sub_spec(p.y as int, fp_sub_spec(pos2.y as int, cdim.y as int / 2));
                let hx = fp_add_spec(spec_repeat_cell(ux0, cell), hit.working_seed as int);
                let hy = fp_add_spec(
                    spec_repeat_cell(uy0, fp_add_spec(cdim.y as int, pos2.y as int)),
                    hit.working_seed as int,
                );
                let h = hash21_spec(hx as i64, hy as i64) as i64;
                let hit3 = FTHitStruct {
                    working_pattern_hash: h,
                    working_pattern_id: spec_hash_id(h),
                    ..hit2
                };
                spec_distance(nodes, md, content as usize, rp, pos2, hit3)
            }
        }
    }
}

/// The stacking combinator: start the cursor at the group origin (shape
/// children are centred) and run the greedy packing walk.
pub open spec fn spec_stack_case(
    nodes: Seq<Node>,
    md: Seq<i32>,
    index: usize,
    p: Vec2Fp,
    hit: FTHitStruct,
) -> (i64, FTHitStruct)
    recommends
        index < nodes.len(),
    decreases index, 2int, 0int,
{
    if index >= nodes.len() {
        (FP_INF, hit)
    } else {
        let node = nodes[index as int];
        if node.links@.len() == 0 {
            (FP_INF, hit)
        } else {
            let spacing = spec_first_value(node, FTValueRole::Spacing, 0);
            let content0 = node.links@[0];
            let shaped = 0 <= content0 && (content0 as int) < nodes.len()
                && nodes[content0 as int].role == NodeRole::Shape;
            let pos2 = if shaped {
                let dim = nodes[content0 as int].spec_shape_dim();
                Vec2Fp {
                    x: fp_add_spec(hit.origin.x as int, dim.x as int / 2) as i64,
                    y: fp_add_spec(hit.origin.y as int, dim.y as int / 2) as i64,
                }
            } else {
                hit.origin
            };
            let top_end = if shaped {
                let dim = nodes[content0 as int].spec_shape_dim();
                fp_add_spec(hit.face.y as int, dim.y as int / 2) as i64
            } else {
                hit.face.y
            };
            spec_stack_loop(nodes, md, index, p, pos2, hit, FP_INF, 0, spacing, top_end)
        }
    }
}

/// The group combinator: shift into the group origin, carve out an optional
/// boolean-subtraction cutout, then walk the children.
pub open spec fn spec_group_case(
    nodes: Seq<Node>,
    md: Seq<i32>,
    index: usize,
    p: Vec2Fp,
    hit: FTHitStruct,
) -> (i64, FTHitStruct)
    recommends
        index < nodes.len(),
    decreases index, 2int, 0int,
{
    if index >= nodes.len() {
        (FP_INF, hit)
    } else {
        let node = nodes[index as int];
        let group_pos = Vec2Fp {
            x: fp_add_spec(
                hit.tile_id.x as int,
                spec_first_value(node, FTValueRole::X, 0) as int,
            ) as i64,
            y: spec_first_value(node, FTValueRole::Y, 0),
        };
        let old_origin = hit.origin;
        let hit1 = FTHitStruct { origin: group_pos, ..hit };
        let cut = match crate::value::spec_find_role(
            node.values.view_entries(),
            FTValueRole::Cutout,
        ) {
            Some(vs) => if vs.len() > 0 {
                Some(vs[0])
            } else {
                None
            },
            None => None,
        };
        let stepped = if cut is Some {
            spec_group_cutout(nodes, md, index, p, group_pos, cut->Some_0, hit1)
        } else {
            (FP_INF, hit1)
        };
        let looped = spec_group_loop(nodes, md, index, 0, p, group_pos, stepped.0, stepped.1);
        (looped.0, (FTHitStruct { origin: old_origin, ..looped.1 }))
    }
}

/// The group's boolean-subtraction cutout: the cutout child's distance is
/// subtracted, and standing inside it clears the attribution and marks the
/// accumulator cut out.
pub open spec fn spec_group_cutout(
    nodes: Seq<Node>,
    md: Seq<i32>,
    index: usize,
    p: Vec2Fp,
    group_pos: Vec2Fp,
    cv: i64,
    hit1: FTHitStruct,
) -> (i64, FTHitStruct)
    decreases index, 1int, 0int,
{
    let ci = crate::fixed::fp_units_spec(cv as int);
    if 0 <= ci && ci < index as int {
        let cdim = nodes[ci].spec_shape_dim();
        let cpos = Vec2Fp {
            x: fp_add_spec(group_pos.x as int, cdim.x as int / 2) as i64,
            y: fp_add_spec(group_pos.y as int, cdim.y as int / 2) as i64,
        };
        let cres = spec_distance(nodes, md, ci as usize, p, cpos, FTHitStruct::spec_new());
        let cd = cres.0;
        let dd = fp_max_spec(hit1.distance as int, sat_i64(-(cd as int))) as i64;
        let hit1b = FTHitStruct { distance: dd, ..hit1 };
        if cd < 0 {
            let uv = Vec2Fp {
                x: fp_div_spec(fp_sub_spec(p.x as int, group_pos.x as int), cdim.x as int) as i64,
                y: fp_sub_spec(
                    FP_SCALE as int,
                    fp_div_spec(fp_sub_spec(p.y as int, group_pos.y as int), cdim.y as int),
                ) as i64,
            };
            (
                dd,
                FTHitStruct {
                    group_uv: uv,
                    min_distance: 1000,
                    node: None,
                    pattern_hash: 0,
                    pattern_id: 0,
                    seed: 0,
                    seed_id: 0,
                    is_cut_out: true,
                    ..hit1b
                },
            )
        } else {
            (dd, (FTHitStruct { is_cut_out: false, ..hit1b }))
        }
    } else {
        (FP_INF, hit1)
    }
}

/// Extrusion of a 2D distance `d` along the X axis over half-depth `h`:
/// `min(max(d, |p.x|-h), 0) + |(max(d,0), max(|p.x|-h, 0))|`.
pub open spec fn spec_op_extrusion_x(p: Vec3Fp, d: int, h: int) -> int {
    let wy = fp_sub_spec(fp_abs_spec(p.x as int), h);
    fp_add_spec(
        fp_min_spec(fp_max_spec(d, wy), 0),
        crate::fixed::fp_len_spec(fp_max_spec(d, 0), fp_max_spec(wy, 0)),
    )
}

pub fn op_extrusion_x(p: Vec3Fp, d: i64, h: i64) -> (r: i64)
    ensures
        r == spec_op_extrusion_x(p, d as int, h as int),
{
    let wy: i64 = fp_sub(fp_abs(p.x), h);
    fp_add(
        fp_min(fp_max(d, wy), 0),
        crate::fixed::fp_len(fp_max(d, 0), fp_max(wy, 0)),
    )
}

/// Extrusion along the Y axis.
pub open spec fn spec_op_extrusion_y(p: Vec3Fp, d: int, h: int) -> int {
    let wy = fp_sub_spec(fp_abs_spec(p.y as int), h);
    fp_add_spec(
        fp_min_spec(fp_max_spec(d, wy), 0),
        crate::fixed::fp_len_spec(fp_max_spec(d, 0), fp_max_spec(wy, 0)),
    )
}

pub fn op_extrusion_y(p: Vec3Fp, d: i64, h: i64) -> (r: i64)
    ensures
        r == spec_op_extrusion_y(p, d as int, h as int),
{
    let wy: i64 = fp_sub(fp_abs(p.y), h);
    fp_add(
        fp_min(fp_max(d, wy), 0),
        crate::fixed::fp_len(fp_max(d, 0), fp_max(wy, 0)),
    )
}

/// Extrusion along the Z axis.
pub open spec fn spec_op_extrusion_z(p: Vec3Fp, d: int, h: int) -> int {
    let wy = fp_sub_spec(fp_abs_spec(p.z as int), h);
    fp_add_spec(
        fp_min_spec(fp_max_spec(d, wy), 0),
        crate::fixed::fp_len_spec(fp_max_spec(d, 0), fp_max_spec(wy, 0)),
    )
}

pub fn op_extrusion_z(p: Vec3Fp, d: i64, h: i64) -> (r: i64)
    ensures
        r == spec_op_extrusion_z(p, d as int, h as int),
{
    let wy: i64 = fp_sub(fp_abs(p.z), h);
    fp_add(
        fp_min(fp_max(d, wy), 0),
        crate::fixed::fp_len(fp_max(d, 0), fp_max(wy, 0)),
    )
}

/// A face's children evaluated in its 2D plane: patterns anchor at the
/// local origin, shapes at the face centre.
pub open spec fn spec_face_loop(
    nodes: Seq<Node>,
    md: Seq<i32>,
    fi: usize,
    k: int,
    p2d: Vec2Fp,
    pos: Vec2Fp,
    hit: FTHitStruct,
) -> FTHitStruct
    decreases
        (if fi < nodes.len() {
            nodes[fi as int].links@.len() - k
        } else {
            0int
        }),
{
    if fi >= nodes.len() || k < 0 || k >= nodes[fi as int].links@.len() {
        hit
    } else {
        let c = nodes[fi as int].links@[k];
        if !(0 <= c && (c as int) < fi as int) {
            spec_face_loop(nodes, md, fi, k + 1, p2d, pos, hit)
        } else {
            let pp = if nodes[c as int].role == NodeRole::Pattern {
                Vec2Fp::spec_zero()
            } else {
                pos
            };
            let res = spec_distance(nodes, md, c as usize, p2d, pp, hit);
            spec_face_loop(nodes, md, fi, k + 1, p2d, pos, res.1)
        }
    }
}

/// What `distance_to_face` computes: the face's children evaluated in its
/// 2D plane, clipped to the face rectangle and extruded along the face's
/// axis; a query that names no face yields the sentinel distance.
pub open spec fn spec_distance_to_face(
    nodes: Seq<Node>,
    md: Seq<i32>,
    faces: Seq<u8>,
    p: Vec3Fp,
    face_index: usize,
    tile_id: Vec2Fp,
    use_bbox: bool,
) -> FTHitStruct {
    let hit = FTHitStruct { tile_id, ..FTHitStruct::spec_new() };
    if faces.len() == 0 || face_index >= faces.len() || faces[face_index as int] as int
        >= nodes.len() {
        FTHitStruct { distance: FP_INF, ..hit }
    } else {
        let fi = faces[face_index as int] as usize;
        let node = nodes[fi as int];
        let face_length = spec_first_value(node, FTValueRole::Length, FP_SCALE);
        let face_height = spec_first_value(node, FTValueRole::Height, FP_SCALE);
        let ft0 = spec_first_value(node, FTValueRole::Thickness, 100_000);
        let half_length = face_length as int / 2;
        let framed = spec_face_frame(node, p, tile_id, face_length, face_height, ft0, hit);
        let p2d = framed.0;
        let pos = framed.1;
        let hit2 = framed.2;
        let bbox_dist = spec_sdf_box2d(
            p2d,
            (Vec2Fp { x: pos.x, y: (hit2.face.y as int / 2) as i64 }),
            face_length as int / 2,
            hit2.face.y as int / 2,
            0,
        );
        let hit3 = if !use_bbox {
            spec_face_loop(nodes, md, fi, 0, p2d, pos, hit2)
        } else {
            hit2
        };
        let dist_2d_min = if use_bbox {
            bbox_dist
        } else {
            fp_max_spec(hit3.min_distance as int, bbox_dist)
        };
        let ft1 = if hit3.node is Some && hit3.node->Some_0 < nodes.len() {
            crate::fixed::fp_clamp_spec(
                spec_expressions_eval(
                    nodes[hit3.node->Some_0 as int].expressions.view_entries(),
                    FTExpressionRole::Extrusion,
                    seq![
                        (FTExpressionParam::Hash, hit3.pattern_hash),
                        (FTExpressionParam::Thickness, ft0),
                    ],
                    ft0,
                ) as int,
                0,
                10 * FP_SCALE as int,
            ) as i64
        } else {
            ft0
        };
        let ft = ft1 as int / 2;
        let dist = spec_face_extrude(node, p, tile_id, dist_2d_min, ft);
        FTHitStruct { distance: dist as i64, ..hit3 }
    }
}

/// The face's 2D frame: the projected query point, the anchor of its
/// children, and the accumulator seeded with the face extents (side faces
/// swap the tile coordinates).
pub open spec fn spec_face_frame(
    node: Node,
    p: Vec3Fp,
    tile_id: Vec2Fp,
    face_length: i64,
    face_height: i64,
    ft0: i64,
    hit: FTHitStruct,
) -> (Vec2Fp, Vec2Fp, FTHitStruct) {
    let half_length = face_length as int / 2;
    let face3 = Vec3Fp { x: face_length, y: face_height, z: ft0 };
    if node.sub_role == NodeSubRole::MiddleX || node.sub_role == NodeSubRole::Back
        || node.sub_role == NodeSubRole::Front {
        (
            Vec2Fp { x: p.x, y: p.y },
            Vec2Fp {
                x: fp_add_spec(tile_id.x as int, half_length) as i64,
                y: (face_height as int / 2) as i64,
            },
            FTHitStruct { face: face3, ..hit },
        )
    } else if node.sub_role == NodeSubRole::MiddleY || node.sub_role == NodeSubRole::Left
        || node.sub_role == NodeSubRole::Right {
        (
            Vec2Fp { x: p.z, y: p.y },
            Vec2Fp {
                x: fp_add_spec(tile_id.y as int, half_length) as i64,
                y: (face_height as int / 2) as i64,
            },
            FTHitStruct {
                face: face3,
                tile_id: (Vec2Fp { x: tile_id.y, y: tile_id.x }),
                ..hit
            },
        )
    } else if node.sub_role == NodeSubRole::Floor {
        (
            Vec2Fp { x: p.x, y: fp_sub_spec(face_height as int, p.z as int) as i64 },
            Vec2Fp {
                x: fp_add_spec(tile_id.x as int, half_length) as i64,
                y: (face_height as int / 2) as i64,
            },
            FTHitStruct { face: face3, ..hit },
        )
    } else {
        (Vec2Fp::spec_zero(), Vec2Fp::spec_zero(), hit)
    }
}

/// The final extrusion of the clipped 2D distance along the face's axis,
/// at the face's position within the tile.
pub open spec fn spec_face_extrude(
    node: Node,
    p: Vec3Fp,
    tile_id: Vec2Fp,
    d2d: int,
    ft: int,
) -> int {
    let ft_half = ft / 2;
    if node.sub_role == NodeSubRole::Left {
        let q = Vec3Fp {
            x: fp_sub_spec(p.x as int, fp_add_spec(tile_id.x as int, ft_half)) as i64,
            y: p.y,
            z: p.z,
        };
        spec_op_extrusion_x(q, d2d, ft)
    } else if node.sub_role == NodeSubRole::MiddleY {
        let q = Vec3Fp {
            x: fp_sub_spec(p.x as int, fp_add_spec(tile_id.x as int, 500_000)) as i64,
            y: p.y,
            z: p.z,
        };
        spec_op_extrusion_x(q, d2d, ft)
    } else if node.sub_role == NodeSubRole::Right {
        let q = Vec3Fp {
            x: fp_sub_spec(
                p.x as int,
                fp_sub_spec(fp_add_spec(tile_id.x as int, FP_SCALE as int), ft_half),
            ) as i64,
            y: p.y,
            z: p.z,
        };
        spec_op_extrusion_x(q, d2d, ft)
    } else if node.sub_role == NodeSubRole::Back {
        let q = Vec3Fp {
            x: p.x,
            y: p.y,
            z: fp_sub_spec(p.z as int, fp_add_spec(tile_id.y as int, ft_half)) as i64,
        };
        spec_op_extrusion_z(q, d2d, ft)
    } else if node.sub_role == NodeSubRole::MiddleX {
        let q = Vec3Fp {
            x: p.x,
            y: p.y,
            z: fp_sub_spec(p.z as int, fp_add_spec(tile_id.y as int, 500_000)) as i64,
        };
        spec_op_extrusion_z(q, d2d, ft)
    } else if node.sub_role == NodeSubRole::Front {
        let q = Vec3Fp {
            x: p.x,
            y: p.y,
            z: fp_sub_spec(
                p.z as int,
                fp_sub_spec(fp_add_spec(tile_id.y as int, FP_SCALE as int), ft_half),
            ) as i64,
        };
        spec_op_extrusion_z(q, d2d, ft)
    } else if node.sub_role == NodeSubRole::Floor {
        let off = spec_first_value(node, FTValueRole::Offset, 0);
        let q = Vec3Fp {
            x: p.x,
            y: fp_sub_spec(
                p.y as int,
                fp_add_spec(fp_add_spec(tile_id.y as int, ft_half), off as int),
            ) as i64,
            z: p.z,
        };
        fp_max_spec(spec_op_extrusion_y(q, d2d, ft), sat_i64(-(p.y as int)))
    } else {
        FP_INF as int
    }
}

/// What `face_normal` computes: a tetrahedral finite-difference gradient
/// of the face's distance field, normalized. The probe step is a hundredth
/// of a unit, wide enough for the fixed-point quantization to resolve.
pub open spec fn spec_face_normal(
    nodes: Seq<Node>,
    md: Seq<i32>,
    faces: Seq<u8>,
    p: Vec3Fp,
    face_index: usize,
    tile_id: Vec2Fp,
) -> Vec3Fp {
    let e1 = Vec3Fp { x: 10_000i64, y: -10_000i64, z: -10_000i64 };
    let e2 = Vec3Fp { x: -10_000i64, y: -10_000i64, z: 10_000i64 };
    let e3 = Vec3Fp { x: -10_000i64, y: 10_000i64, z: -10_000i64 };
    let e4 = Vec3Fp { x: 10_000i64, y: 10_000i64, z: 10_000i64 };
    let d1 = spec_distance_to_face(nodes, md, faces, p.spec_add(e1), face_index, tile_id, false).distance;
    let d2 = spec_distance_to_face(nodes, md, faces, p.spec_add(e2), face_index, tile_id, false).distance;
    let d3 = spec_distance_to_face(nodes, md, faces, p.spec_add(e3), face_index, tile_id, false).distance;
    let d4 = spec_distance_to_face(nodes, md, faces, p.spec_add(e4), face_index, tile_id, false).distance;
    e1.spec_scale(d1 as int).spec_add(e2.spec_scale(d2 as int)).spec_add(
        e3.spec_scale(d3 as int),
    ).spec_add(e4.spec_scale(d4 as int)).spec_normalize()
}

/// The render target: the starred node, defaulting to the last.
pub open spec fn spec_output_index(nodes: Seq<Node>, output: Option<usize>) -> int {
    match output {
        Some(o) => o as int,
        None => nodes.len() - 1,
    }
}

/// The probe's walk over the render target's children, stopping at the
/// first child whose distance goes negative.
pub open spec fn spec_probe_loop(
    nodes: Seq<Node>,
    md: Seq<i32>,
    output: usize,
    k: int,
    p: Vec2Fp,
    hit: FTHitStruct,
) -> FTHitStruct
    recommends
        (output as int) < nodes.len(),
    decreases
        (if (output as int) < nodes.len() {
            nodes[output as int].links@.len() - k
        } else {
            0int
        }),
{
    if output as int >= nodes.len() || k < 0 || k >= nodes[output as int].links@.len() {
        hit
    } else {
        let c = nodes[output as int].links@[k];
        if !(0 <= c && (c as int) < output as int) {
            spec_probe_loop(nodes, md, output, k + 1, p, hit)
        } else {
            let res = spec_distance(nodes, md, c as usize, p, Vec2Fp::spec_zero(), hit);
            if res.1.distance < 0 {
                res.1
            } else {
                spec_probe_loop(nodes, md, output, k + 1, p, res.1)
            }
        }
    }
}

/// What `meta_data_at` computes: the probed hit when the probe point lies
/// inside a surface of the render target, and nothing otherwise.
pub open spec fn spec_meta_data_at(
    nodes: Seq<Node>,
    md: Seq<i32>,
    output: Option<usize>,
    x: int,
    y: int,
    width: int,
    height: int,
) -> Option<FTHitStruct> {
    if nodes.len() == 0 || spec_output_index(nodes, output) >= nodes.len() {
        None
    } else {
        let o = spec_output_index(nodes, output) as usize;
        let w = sat_i64(width * FP_SCALE as int);
        let h = sat_i64(height * FP_SCALE as int);
        let height_value = spec_first_value(nodes[o as int], FTValueRole::Height, FP_SCALE);
        let p = Vec2Fp {
            x: fp_div_spec(x * FP_SCALE as int, w) as i64,
            y: fp_sub_spec(
                height_value as int,
                fp_div_spec(y * FP_SCALE as int, h),
            ) as i64,
        };
        let hit0 = FTHitStruct {
            face: (Vec3Fp {
                x: (100 * FP_SCALE as int) as i64,
                y: (100 * FP_SCALE as int) as i64,
                z: (100 * FP_SCALE as int) as i64,
            }),
            ..FTHitStruct::spec_new()
        };
        let hit = spec_probe_loop(nodes, md, o, 0, p, hit0);
        if hit.distance <= 0 {
            Some(hit)
        } else {
            None
        }
    }
}

/// A fixed-point color channel quantized to a byte.
pub open spec fn spec_channel_u8(c: int) -> u8 {
    let scaled = crate::fixed::fp_units_spec(fp_mul_spec(c, 255 * FP_SCALE as int));
    if scaled < 0 {
        0u8
    } else if scaled > 255 {
        255u8
    } else {
        scaled as u8
    }
}

/// What `render_pixel` computes: the resolved material's base color at a
/// pixel inside a surface, black outside.
pub open spec fn spec_render_pixel(
    nodes: Seq<Node>,
    md: Seq<i32>,
    output: Option<usize>,
    x: int,
    y: int,
    width: int,
    height: int,
) -> (u8, u8, u8, u8) {
    if nodes.len() == 0 || width == 0 || height == 0 || spec_output_index(nodes, output)
        >= nodes.len() {
        (0u8, 0u8, 0u8, 255u8)
    } else {
        let o = spec_output_index(nodes, output) as usize;
        let face = if nodes[o as int].role == NodeRole::Face {
            Vec3Fp {
                x: spec_first_value(nodes[o as int], FTValueRole::Length, FP_SCALE),
                y: spec_first_value(nodes[o as int], FTValueRole::Height, FP_SCALE),
                z: spec_first_value(nodes[o as int], FTValueRole::Thickness, 200_000),
            }
        } else {
            Vec3Fp { x: FP_SCALE, y: FP_SCALE, z: FP_SCALE }
        };
        let xx = fp_div_spec(sat_i64(x * FP_SCALE as int), sat_i64(width * FP_SCALE as int));
        let yy = fp_div_spec(sat_i64(y * FP_SCALE as int), sat_i64(height * FP_SCALE as int));
        let p = Vec2Fp {
            x: fp_mul_spec(xx, face.x as int) as i64,
            y: fp_mul_spec(yy, face.y as int) as i64,
        };
        let hit0 = FTHitStruct { face, ..FTHitStruct::spec_new() };
        let hit = if nodes[o as int].role != NodeRole::Face {
            spec_distance(nodes, md, o, p, Vec2Fp::spec_zero(), hit0).1
        } else {
            spec_face_loop(nodes, md, o, 0, p, Vec2Fp::spec_zero(), hit0)
        };
        if hit.distance < 0 {
            let mat = crate::material::spec_from_hit(nodes, hit);
            (
                spec_channel_u8(mat.base_color.x as int),
                spec_channel_u8(mat.base_color.y as int),
                spec_channel_u8(mat.base_color.z as int),
                255u8,
            )
        } else {
            (0u8, 0u8, 0u8, 255u8)
        }
    }
}

/// The flat preview's walk over the render target's children, shape
/// children centred on the tile.
pub open spec fn spec_pixel_loop(
    nodes: Seq<Node>,
    md: Seq<i32>,
    output: usize,
    k: int,
    p: Vec2Fp,
    hit: FTHitStruct,
) -> FTHitStruct
    recommends
        (output as int) < nodes.len(),
    decreases
        (if (output as int) < nodes.len() {
            nodes[output as int].links@.len() - k
        } else {
            0int
        }),
{
    if output as int >= nodes.len() || k < 0 || k >= nodes[output as int].links@.len() {
        hit
    } else {
        let c = nodes[output as int].links@[k];
        if !(0 <= c && (c as int) < output as int) {
            spec_pixel_loop(nodes, md, output, k + 1, p, hit)
        } else {
            let pos = if nodes[c as int].role == NodeRole::Shape {
                Vec2Fp { x: 500_000, y: 500_000 }
            } else {
                Vec2Fp::spec_zero()
            };
            let res = spec_distance(nodes, md, c as usize, p, pos, hit);
            spec_pixel_loop(nodes, md, output, k + 1, p, res.1)
        }
    }
}

/// What `face_pixel_at` computes: nothing outside every surface of the
/// render target, inside an active cutout, or on a transmissive material;
/// otherwise the material color jittered by the committed pattern hash, or
/// plain grey without a material.
pub open spec fn spec_face_pixel_at(
    nodes: Seq<Node>,
    md: Seq<i32>,
    output: Option<usize>,
    p: Vec2Fp,
) -> Option<(u8, u8, u8, u8)> {
    if nodes.len() == 0 || spec_output_index(nodes, output) >= nodes.len() {
        None
    } else {
        let o = spec_output_index(nodes, output) as usize;
        let face = if nodes[o as int].role == NodeRole::Face {
            Vec3Fp {
                x: spec_first_value(nodes[o as int], FTValueRole::Length, FP_SCALE),
                y: spec_first_value(nodes[o as int], FTValueRole::Height, FP_SCALE),
                z: spec_first_value(nodes[o as int], FTValueRole::Thickness, 200_000),
            }
        } else {
            Vec3Fp { x: FP_SCALE, y: FP_SCALE, z: FP_SCALE }
        };
        let hit0 = FTHitStruct {
            face,
            shape_adder: 25_000,
            ..FTHitStruct::spec_new()
        };
        let pq = Vec2Fp { x: p.x, y: fp_mul_spec(p.y as int, face.y as int) as i64 };
        let hit = if nodes[o as int].role != NodeRole::Face {
            let pos = if nodes[o as int].role == NodeRole::Shape {
                Vec2Fp { x: 500_000, y: 500_000 }
            } else {
                Vec2Fp::spec_zero()
            };
            spec_distance(nodes, md, o, pq, pos, hit0).1
        } else {
            spec_pixel_loop(nodes, md, o, 0, pq, hit0)
        };
        if hit.is_cut_out {
            None
        } else if hit.distance <= 0 {
            if hit.node is Some && (hit.node->Some_0 as int) < nodes.len() && nodes[hit.node->Some_0 as int].material is Some
                && (nodes[hit.node->Some_0 as int].material->Some_0 as int) < nodes.len() {
                let m = nodes[hit.node->Some_0 as int].material->Some_0 as int;
                let spec_trans = spec_eval_hash_expr(
                    nodes[m],
                    FTExpressionRole::Transmission,
                    hit.pattern_hash,
                    0,
                );
                if spec_trans > 500_000 {
                    None
                } else {
                    let col = match crate::value::spec_find_role(
                        nodes[m].values.view_entries(),
                        FTValueRole::Color,
                    ) {
                        Some(vs) => vs,
                        None => seq![500_000i64, 500_000i64, 500_000i64],
                    };
                    let jitter = fp_mul_spec(
                        fp_sub_spec(hit.pattern_hash as int, 500_000),
                        500_000,
                    );
                    Some(
                        (
                            spec_channel_u8(
                                fp_add_spec(
                                    crate::material::spec_color_channel(col, 0) as int,
                                    jitter,
                                ),
                            ),
                            spec_channel_u8(
                                fp_add_spec(
                                    crate::material::spec_color_channel(col, 1) as int,
                                    jitter,
                                ),
                            ),
                            spec_channel_u8(
                                fp_add_spec(
                                    crate::material::spec_color_channel(col, 2) as int,
                                    jitter,
                                ),
                            ),
                            255u8,
                        ),
                    )
                }
            } else {
                Some((127u8, 127u8, 127u8, 255u8))
            }
        } else {
            Some((0u8, 0u8, 0u8, 255u8))
        }
    }
}

/// The stacking combinator's greedy packing walk: hash the cursor into a
/// provisional row seed, evaluate the next child, advance the cursor by the
/// child's height plus the spacing, and stop once the cursor would pass the
/// face's top (or after `STACK_MAX` rows).
pub open spec fn spec_stack_loop(
    nodes: Seq<Node>,
    md: Seq<i32>,
    index: usize,
    p: Vec2Fp,
    pos: Vec2Fp,
    hit: FTHitStruct,
    d: i64,
    counter: usize,
    spacing: i64,
    top_end: i64,
) -> (i64, FTHitStruct)
    decreases index, 1int, STACK_MAX - counter,
{
    if counter >= STACK_MAX {
        (d, hit)
    } else {
        let h = hash21_spec(pos.x, pos.y) as i64;
        let hit2 = FTHitStruct { working_seed: h, working_seed_id: spec_hash_id(h), ..hit };
        if index >= nodes.len() || nodes[index as int].links@.len() == 0 {
            (d, hit2)
        } else {
            let len = nodes[index as int].links@.len();
            let c = nodes[index as int].links@[(counter as int) % (len as int)];
            if !(0 <= c && (c as int) < index as int) {
                (d, hit2)
            } else {
                let res = spec_distance(nodes, md, c as usize, p, pos, hit2);
                let hit3 = res.1;
                let pos2 = Vec2Fp {
                    x: pos.x,
                    y: fp_add_spec(
                        pos.y as int,
                        fp_add_spec(hit3.last_size.y as int, spacing as int),
                    ) as i64,
                };
                if fp_add_spec(pos2.y as int, hit3.last_size.y as int) > top_end as int {
                    (res.0, hit3)
                } else {
                    spec_stack_loop(
                        nodes,
                        md,
                        index,
                        p,
                        pos2,
                        hit3,
                        res.0,
                        (counter + 1) as usize,
                        spacing,
                        top_end,
                    )
                }
            }
        }
    }
}

/// The group combinator's walk over its children, each shape child centred
/// on the group origin.
pub open spec fn spec_group_loop(
    nodes: Seq<Node>,
    md: Seq<i32>,
    index: usize,
    k: int,
    p: Vec2Fp,
    group_pos: Vec2Fp,
    d: i64,
    hit: FTHitStruct,
) -> (i64, FTHitStruct)
    decreases index, 1int,
        (if index < nodes.len() {
            nodes[index as int].links@.len() - k
        } else {
            0int
        }),
{
    if index >= nodes.len() || k < 0 || k >= nodes[index as int].links@.len() {
        (d, hit)
    } else {
        let c = nodes[index as int].links@[k];
        if !(0 <= c && (c as int) < index as int) {
            spec_group_loop(nodes, md, index, k + 1, p, group_pos, d, hit)
        } else {
            let cpos = if nodes[c as int].role == NodeRole::Shape {
                let dim = nodes[c as int].spec_shape_dim();
                Vec2Fp {
                    x: fp_add_spec(group_pos.x as int, dim.x as int / 2) as i64,
                    y: fp_add_spec(group_pos.y as int, dim.y as int / 2) as i64,
                }
            } else {
                group_pos
            };
            let res = spec_distance(nodes, md, c as usize, p, cpos, hit);
            spec_group_loop(nodes, md, index, k + 1, p, group_pos, res.0, res.1)
        }
    }
}

} // verus!
