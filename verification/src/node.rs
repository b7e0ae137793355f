//! Graph vertices: shapes, patterns, faces, materials and meta-directives.
use vstd::prelude::*;

use crate::expression::FTExpressions;
use crate::fixed::{fp_mul, fp_mul_spec, fp_units, fp_units_spec, FP_SCALE};
use crate::value::{spec_find_role, FTValueRole, FTValues};
use crate::vecfp::Vec2Fp;

verus! {

#[derive(PartialEq, Eq, Structural, Clone, Copy, Debug)]
pub enum NodeRole {
    Shape,
    Pattern,
    Face,
    Material,
    Meta,
}

#[derive(PartialEq, Eq, Structural, Clone, Copy, Debug)]
pub enum NodeSubRole {
    Disc,
    Box,
    Repeat,
    Offset,
    Stack,
    Group,
    Floor,
    Left,
    Top,
    Right,
    Bottom,
    Front,
    Back,
    MiddleX,
    MiddleY,
    BSDF,
    MetaMaterial,
    MetaDelete,
}

/// One graph vertex: its role, its named values and formulas, its child
/// links (or target ids for meta-directives) and an optional material.
#[derive(Clone, Debug)]
pub struct Node {
    pub role: NodeRole,
    pub sub_role: NodeSubRole,
    pub name: String,
    /// Fixed-point values keyed by value role (length, height, ...).
    pub values: FTValues,
    /// Compiled formulas keyed by expression role (extrusion, ...).
    pub expressions: FTExpressions,
    /// String lists keyed by property name (texture, ...).
    pub map: Vec<(String, Vec<String>)>,
    /// Indices of child nodes, or target ids for meta-directives.
    pub links: Vec<i32>,
    /// Index of the node's material, if any.
    pub material: Option<u8>,
}

impl Node {
    pub fn new(role: NodeRole, sub_role: NodeSubRole) -> (r: Node)
        ensures
            r.role == role,
            r.sub_role == sub_role,
            r.name@ == Seq::<char>::empty(),
            r.values.view_entries() == Seq::<(FTValueRole, Seq<i64>)>::empty(),
            r.expressions.view_entries().len() == 0,
            r.map@.len() == 0,
            r.links@.len() == 0,
            r.material is None,
    {
        let values = FTValues::new();
        let expressions = FTExpressions::new();
        Node {
            role,
            sub_role,
            name: String::new(),
            values,
            expressions,
            map: Vec::new(),
            links: Vec::new(),
            material: None,
        }
    }

    /// The children to evaluate when this node is the render target: a
    /// face's registered content list, or the node itself.
    pub fn content_indices(&self, index: usize) -> (r: Vec<usize>)
        ensures
            self.role != NodeRole::Face ==> r@ == seq![index],
            self.role == NodeRole::Face ==> r@.len() == match spec_find_role(
                self.values.view_entries(),
                FTValueRole::Content,
            ) {
                Some(vs) => vs.len(),
                None => 0,
            },
    {
        match self.role {
            NodeRole::Face => {
                let indices: Vec<i64> = self.values.get(FTValueRole::Content, Vec::new());
                let mut out: Vec<usize> = Vec::new();
                let n: usize = indices.len();
                let mut i: usize = 0;
                while i < n
                    invariant
                        i <= n,
                        n == indices@.len(),
                        out@.len() == i,
                    decreases n - i,
                {
                    let units: i64 = fp_units(indices[i]);
                    if units >= 0 && units <= usize::MAX as i64 {
                        out.push(units as usize);
                    } else {
                        out.push(0);
                    }
                    i += 1;
                }
                out
            },
            _ => {
                let mut out: Vec<usize> = Vec::new();
                out.push(index);
                proof {
                    assert(out@ =~= seq![index]);
                }
                out
            },
        }
    }

    /// Nominal bounding size of a shape: a disc's diameter in both axes,
    /// otherwise its length and height (one unit by default).
    pub open spec fn spec_shape_dim(&self) -> Vec2Fp {
        match self.sub_role {
            NodeSubRole::Disc => {
                let radius = match spec_find_role(
                    self.values.view_entries(),
                    FTValueRole::Radius,
                ) {
                    Some(vs) => if vs.len() > 0 {
                        vs[0]
                    } else {
                        500_000
                    },
                    None => 500_000,
                };
                let d = fp_mul_spec(radius as int, 2 * FP_SCALE as int) as i64;
                Vec2Fp { x: d, y: d }
            },
            _ => {
                let length = match spec_find_role(
                    self.values.view_entries(),
                    FTValueRole::Length,
                ) {
                    Some(vs) => if vs.len() > 0 {
                        vs[0]
                    } else {
                        FP_SCALE
                    },
                    None => FP_SCALE,
                };
                let height = match spec_find_role(
                    self.values.view_entries(),
                    FTValueRole::Height,
                ) {
                    Some(vs) => if vs.len() > 0 {
                        vs[0]
                    } else {
                        FP_SCALE
                    },
                    None => FP_SCALE,
                };
                Vec2Fp { x: length, y: height }
            },
        }
    }

    /// Return the length and height of the shape.
    pub fn get_shape_dim(&self) -> (r: Vec2Fp)
        ensures
            r == self.spec_shape_dim(),
    {
        match self.sub_role {
            NodeSubRole::Disc => {
                let radius: i64 = self.first_value(FTValueRole::Radius, 500_000);
                let d: i64 = fp_mul(radius, 2 * FP_SCALE);
                Vec2Fp { x: d, y: d }
            },
            _ => {
                let length: i64 = self.first_value(FTValueRole::Length, FP_SCALE);
                let height: i64 = self.first_value(FTValueRole::Height, FP_SCALE);
                Vec2Fp { x: length, y: height }
            },
        }
    }

    /// First value registered for `role`, or `default`.
    pub fn first_value(&self, role: FTValueRole, default: i64) -> (r: i64)
        ensures
            r == match spec_find_role(self.values.view_entries(), role) {
                Some(vs) => if vs.len() > 0 {
                    vs[0]
                } else {
                    default
                },
                None => default,
            },
    {
        match self.values.get_option(role) {
            Some(vs) => {
                if vs.len() > 0 {
                    vs[0]
                } else {
                    default
                }
            },
            None => default,
        }
    }
}

} // verus!
