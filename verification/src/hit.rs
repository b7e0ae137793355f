//! The hit accumulator threaded through every distance query.
use vstd::prelude::*;

use crate::fixed::FP_INF;
use crate::vecfp::{Vec2Fp, Vec3Fp};

verus! {

/// Cross-cutting state of one distance query: the winning surface so far,
/// the attributed node, the committed and provisional per-cell randomness,
/// and the enclosing face's extents.
#[derive(PartialEq, Eq, Structural, Clone, Copy, Debug)]
pub struct FTHitStruct {
    /// Signed distance of the winning surface; `FP_INF` while nothing hit.
    pub distance: i64,
    /// Smallest distance seen so far, for nearest-node attribution.
    pub min_distance: i64,
    /// Index of the attributed node, once one was seen.
    pub node: Option<usize>,
    /// Bounding size of the most recently evaluated child.
    pub last_size: Vec2Fp,
    /// Length, height and thickness of the enclosing face.
    pub face: Vec3Fp,
    /// Local-space offset of the active group.
    pub origin: Vec2Fp,
    /// Offset of the queried tile.
    pub tile_id: Vec2Fp,
    /// Committed per-cell id of a tiling combinator.
    pub pattern_id: i32,
    /// Committed per-cell hash of a tiling combinator.
    pub pattern_hash: i64,
    /// Provisional per-cell id, committed on attribution.
    pub working_pattern_id: i32,
    /// Provisional per-cell hash, committed on attribution.
    pub working_pattern_hash: i64,
    /// Provisional per-row seed of a stacking combinator.
    pub working_seed: i64,
    /// Provisional per-row id of a stacking combinator.
    pub working_seed_id: i32,
    /// Committed per-row seed.
    pub seed: i64,
    /// Committed per-row id.
    pub seed_id: i32,
    /// Whether a boolean-subtraction cutout currently wins.
    pub is_cut_out: bool,
    /// Inflation applied to shapes in flat 2D rendering.
    pub shape_adder: i64,
    /// Local UV inside an active cutout.
    pub group_uv: Vec2Fp,
}

impl Default for FTHitStruct {
    fn default() -> (r: Self)
        ensures
            r == FTHitStruct::spec_new(),
    {
        FTHitStruct::new()
    }
}

impl FTHitStruct {
    /// The accumulator before any surface was seen.
    pub open spec fn spec_new() -> FTHitStruct {
        FTHitStruct {
            distance: FP_INF,
            min_distance: FP_INF,
            node: None,
            last_size: Vec2Fp::spec_zero(),
            face: Vec3Fp::spec_zero(),
            origin: Vec2Fp::spec_zero(),
            tile_id: Vec2Fp::spec_zero(),
            pattern_id: 0,
            pattern_hash: 0,
            working_pattern_id: 0,
            working_pattern_hash: 0,
            working_seed: 0,
            working_seed_id: 0,
            seed: 0,
            seed_id: 0,
            is_cut_out: false,
            shape_adder: 0,
            group_uv: Vec2Fp::spec_zero(),
        }
    }

    pub fn new() -> (r: FTHitStruct)
        ensures
            r == FTHitStruct::spec_new(),
    {
        FTHitStruct {
            distance: FP_INF,
            min_distance: FP_INF,
            node: None,
            last_size: Vec2Fp::zero(),
            face: Vec3Fp::zero(),
            origin: Vec2Fp::zero(),
            tile_id: Vec2Fp::zero(),
            pattern_id: 0,
            pattern_hash: 0,
            working_pattern_id: 0,
            working_pattern_hash: 0,
            working_seed: 0,
            working_seed_id: 0,
            seed: 0,
            seed_id: 0,
            is_cut_out: false,
            shape_adder: 0,
            group_uv: Vec2Fp::zero(),
        }
    }
}

} // verus!
