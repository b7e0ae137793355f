//! The material resolver: from a resolved hit to a fully populated
//! physical material, applying meta-material overrides.
use vstd::prelude::*;

use crate::context::{spec_eval_hash_expr, FTContext};
use crate::expression::FTExpressionRole;
use crate::fixed::{fp_add, fp_add_spec, fp_clamp, fp_clamp_spec, fp_lerp, fp_lerp_spec, fp_mul,
    fp_mul_spec, fp_sub, fp_sub_spec};
use crate::hit::FTHitStruct;
use crate::node::{Node, NodeSubRole};
use crate::value::{spec_find_role, FTValueRole};
use crate::vecfp::Vec3Fp;

verus! {

/// A participating-medium placeholder, carried but not yet sampled.
#[derive(Clone, Debug)]
pub struct BSDFMedium {
    pub type_: i32,
    pub density: i64,
    pub color: Vec3Fp,
    pub anisotropy: i64,
}

impl Default for BSDFMedium {
    fn default() -> (r: Self)
        ensures
            r == BSDFMedium::spec_new(),
    {
        BSDFMedium::new()
    }
}

impl BSDFMedium {
    pub open spec fn spec_new() -> BSDFMedium {
        BSDFMedium { type_: 0, density: 0, color: Vec3Fp::spec_zero(), anisotropy: 0 }
    }

    pub fn new() -> (r: Self)
        ensures
            r == BSDFMedium::spec_new(),
    {
        BSDFMedium { type_: 0, density: 0, color: Vec3Fp::zero(), anisotropy: 0 }
    }
}

/// Resolved physical parameters of a surface point.
#[derive(Clone, Debug)]
pub struct BSDFMaterial {
    pub base_color: Vec3Fp,
    pub opacity: i64,
    pub alpha_mode: i32,
    pub alpha_cutoff: i64,
    pub emission: Vec3Fp,
    pub anisotropic: i64,
    pub metallic: i64,
    pub roughness: i64,
    pub subsurface: i64,
    pub specular_tint: i64,
    pub sheen: i64,
    pub sheen_tint: i64,
    pub clearcoat: i64,
    pub clearcoat_roughness: i64,
    pub spec_trans: i64,
    pub ior: i64,
    pub ax: i64,
    pub ay: i64,
    pub medium: BSDFMedium,
    pub texture: Option<String>,
}

/// A channel of a color list, a mid grey when the channel is missing.
pub open spec fn spec_color_channel(vs: Seq<i64>, i: int) -> i64 {
    if 0 <= i < vs.len() {
        vs[i]
    } else {
        500_000
    }
}

/// The first meta-material node whose target ids name the hit, yielding its
/// material index.
pub open spec fn spec_meta_scan(nodes: Seq<Node>, k: int, seed_id: i32, pattern_id: i32) -> Option<
    usize,
>
    decreases nodes.len() - k,
{
    if k < 0 || k >= nodes.len() {
        None
    } else {
        let node = nodes[k];
        if node.sub_role == NodeSubRole::MetaMaterial && (crate::context::spec_contains_id(
            node.links@,
            seed_id,
        ) || crate::context::spec_contains_id(node.links@, pattern_id)) && node.material is Some {
            Some(node.material->Some_0 as usize)
        } else {
            spec_meta_scan(nodes, k + 1, seed_id, pattern_id)
        }
    }
}

/// What `from_hit` computes: the hit node's material (or its meta-material
/// override), with every parameter evaluated on the committed pattern hash.
pub open spec fn spec_from_hit(nodes: Seq<Node>, hit: FTHitStruct) -> BSDFMaterial {
    let mat0 = BSDFMaterial::spec_new();
    if hit.node is Some && (hit.node->Some_0 as int) < nodes.len() {
        let own = nodes[hit.node->Some_0 as int].material;
        let meta = spec_meta_scan(nodes, 0, hit.seed_id, hit.pattern_id);
        let chosen = if meta is Some {
            meta
        } else if own is Some {
            Some(own->Some_0 as usize)
        } else {
            None
        };
        if chosen is Some && (chosen->Some_0 as int) < nodes.len() {
            spec_material_params(nodes[chosen->Some_0 as int], hit)
        } else {
            mat0
        }
    } else {
        mat0
    }
}

/// Every physical parameter of the chosen material node, evaluated on the
/// committed pattern hash with its fixed default.
pub open spec fn spec_material_params(m: Node, hit: FTHitStruct) -> BSDFMaterial {
    let c = match spec_find_role(m.values.view_entries(), FTValueRole::Color) {
        Some(vs) => vs,
        None => seq![500_000i64, 500_000i64, 500_000i64],
    };
    let modifier = fp_clamp_spec(
        spec_eval_hash_expr(
            m,
            FTExpressionRole::Modifier,
            fp_sub_spec(hit.pattern_hash as int, 500_000) as i64,
            0,
        ) as int,
        0,
        crate::fixed::FP_SCALE as int,
    );
    let base = Vec3Fp {
        x: fp_add_spec(spec_color_channel(c, 0) as int, modifier) as i64,
        y: fp_add_spec(spec_color_channel(c, 1) as int, modifier) as i64,
        z: fp_add_spec(spec_color_channel(c, 2) as int, modifier) as i64,
    };
    let h = hit.pattern_hash;
    let emission_level = spec_eval_hash_expr(m, FTExpressionRole::Emission, h, 0);
    BSDFMaterial {
        base_color: base,
        emission: Vec3Fp {
            x: fp_mul_spec(emission_level as int, base.x as int) as i64,
            y: fp_mul_spec(emission_level as int, base.y as int) as i64,
            z: fp_mul_spec(emission_level as int, base.z as int) as i64,
        },
        anisotropic: spec_eval_hash_expr(m, FTExpressionRole::Anisotropic, h, 0),
        metallic: spec_eval_hash_expr(m, FTExpressionRole::Metallic, h, 0),
        roughness: spec_eval_hash_expr(m, FTExpressionRole::Roughness, h, 500_000),
        subsurface: spec_eval_hash_expr(m, FTExpressionRole::Subsurface, h, 0),
        specular_tint: spec_eval_hash_expr(m, FTExpressionRole::SpecularTint, h, 0),
        sheen: spec_eval_hash_expr(m, FTExpressionRole::Sheen, h, 0),
        sheen_tint: spec_eval_hash_expr(m, FTExpressionRole::SheenTint, h, 0),
        clearcoat: spec_eval_hash_expr(m, FTExpressionRole::Clearcoat, h, 0),
        clearcoat_roughness: spec_eval_hash_expr(m, FTExpressionRole::ClearcoatGloss, h, 0),
        spec_trans: spec_eval_hash_expr(m, FTExpressionRole::Transmission, h, 0),
        ior: spec_eval_hash_expr(m, FTExpressionRole::IOR, h, 1_500_000),
        texture: spec_texture_of(m),
        ..BSDFMaterial::spec_new()
    }
}

/// The first texture name registered on the node, if any.
pub open spec fn spec_texture_of(m: Node) -> Option<String> {
    match spec_find_map_entry(m.map@, 0) {
        Some(vs) => if vs.len() > 0 {
            Some(vs[0])
        } else {
            None
        },
        None => None,
    }
}

/// The string list of the first map entry keyed "texture".
pub open spec fn spec_find_map_entry(entries: Seq<(String, Vec<String>)>, k: int) -> Option<
    Seq<String>,
>
    decreases entries.len() - k,
{
    if k < 0 || k >= entries.len() {
        None
    } else if entries[k].0@ == "texture"@ {
        Some(entries[k].1@)
    } else {
        spec_find_map_entry(entries, k + 1)
    }
}

impl Default for BSDFMaterial {
    fn default() -> (r: Self)
        ensures
            r == BSDFMaterial::spec_new(),
    {
        BSDFMaterial::new()
    }
}

impl BSDFMaterial {
    /// The defaults of an unresolved surface: mid grey, half rough, glassless.
    pub open spec fn spec_new() -> BSDFMaterial {
        BSDFMaterial {
            base_color: Vec3Fp { x: 500_000, y: 500_000, z: 500_000 },
            opacity: 1_000_000,
            alpha_mode: 0,
            alpha_cutoff: 0,
            emission: Vec3Fp::spec_zero(),
            anisotropic: 0,
            metallic: 0,
            roughness: 500_000,
            subsurface: 0,
            specular_tint: 0,
            sheen: 0,
            sheen_tint: 0,
            clearcoat: 0,
            clearcoat_roughness: 0,
            spec_trans: 0,
            ior: 1_500_000,
            ax: 0,
            ay: 0,
            medium: BSDFMedium::spec_new(),
            texture: None,
        }
    }

    pub fn new() -> (r: Self)
        ensures
            r == BSDFMaterial::spec_new(),
    {
        BSDFMaterial {
            base_color: Vec3Fp { x: 500_000, y: 500_000, z: 500_000 },
            opacity: 1_000_000,
            alpha_mode: 0,
            alpha_cutoff: 0,
            emission: Vec3Fp::zero(),
            anisotropic: 0,
            metallic: 0,
            roughness: 500_000,
            subsurface: 0,
            specular_tint: 0,
            sheen: 0,
            sheen_tint: 0,
            clearcoat: 0,
            clearcoat_roughness: 0,
            spec_trans: 0,
            ior: 1_500_000,
            ax: 0,
            ay: 0,
            medium: BSDFMedium::new(),
            texture: None,
        }
    }

    /// Fill the BSDF material from the given shape hit; exactly
    /// `spec_from_hit`.
    pub fn from_hit(ctx: &FTContext, hit: &FTHitStruct) -> (r: BSDFMaterial)
        ensures
            r == spec_from_hit(ctx.nodes@, *hit),
    {
        let mut material: Option<usize> = None;
        if let Some(index) = hit.node {
            if index < ctx.nodes.len() {
                if let Some(own) = ctx.nodes[index].material {
                    material = Some(own as usize);
                }
                if let Some(meta) = Self::meta_scan(ctx, hit.seed_id, hit.pattern_id) {
                    material = Some(meta);
                }
                if let Some(m) = material {
                    if m < ctx.nodes.len() {
                        return Self::material_params(&ctx.nodes[m], hit);
                    }
                }
                return BSDFMaterial::new();
            }
        }
        BSDFMaterial::new()
    }

    /// The first meta-material override naming the hit; exactly
    /// `spec_meta_scan`.
    fn meta_scan(ctx: &FTContext, seed_id: i32, pattern_id: i32) -> (r: Option<usize>)
        ensures
            r == spec_meta_scan(ctx.nodes@, 0, seed_id, pattern_id),
    {
        let n: usize = ctx.nodes.len();
        let mut k: usize = 0;
        while k < n
            invariant
                k <= n,
                n == ctx.nodes@.len(),
                spec_meta_scan(ctx.nodes@, 0, seed_id, pattern_id) == spec_meta_scan(
                    ctx.nodes@,
                    k as int,
                    seed_id,
                    pattern_id,
                ),
            decreases n - k,
        {
            if ctx.nodes[k].sub_role == NodeSubRole::MetaMaterial {
                let hit_listed = Self::links_contain(&ctx.nodes[k].links, seed_id)
                    || Self::links_contain(&ctx.nodes[k].links, pattern_id);
                if hit_listed {
                    if let Some(m) = ctx.nodes[k].material {
                        return Some(m as usize);
                    }
                }
            }
            k += 1;
        }
        None
    }

    /// Whether an id list names the id.
    fn links_contain(links: &Vec<i32>, v: i32) -> (r: bool)
        ensures
            r == crate::context::spec_contains_id(links@, v),
    {
        let n: usize = links.len();
        let mut i: usize = 0;
        while i < n
            invariant
                i <= n,
                n == links@.len(),
                forall|j: int| 0 <= j < i ==> links@[j] != v,
            decreases n - i,
        {
            if links[i] == v {
                return true;
            }
            i += 1;
        }
        false
    }

    /// Every physical parameter of the chosen material node; exactly
    /// `spec_material_params`.
    #[verifier::rlimit(100)]
    fn material_params(m: &Node, hit: &FTHitStruct) -> (r: BSDFMaterial)
        ensures
            r == spec_material_params(*m, *hit),
    {
        let mut mat = BSDFMaterial::new();
        let mut default_color: Vec<i64> = Vec::new();
        default_color.push(500_000);
        default_color.push(500_000);
        default_color.push(500_000);
        proof {
            assert(default_color@ =~= seq![500_000i64, 500_000i64, 500_000i64]);
        }
        let c: Vec<i64> = m.values.get(FTValueRole::Color, default_color);
        let modifier: i64 = fp_clamp(
            Self::eval_hash(m, FTExpressionRole::Modifier, fp_sub(hit.pattern_hash, 500_000), 0),
            0,
            crate::fixed::FP_SCALE,
        );
        let c0: i64 = if c.len() > 0 {
            c[0]
        } else {
            500_000
        };
        let c1: i64 = if c.len() > 1 {
            c[1]
        } else {
            500_000
        };
        let c2: i64 = if c.len() > 2 {
            c[2]
        } else {
            500_000
        };
        mat.base_color = Vec3Fp {
            x: fp_add(c0, modifier),
            y: fp_add(c1, modifier),
            z: fp_add(c2, modifier),
        };
        let h: i64 = hit.pattern_hash;
        mat.anisotropic = Self::eval_hash(m, FTExpressionRole::Anisotropic, h, 0);
        mat.metallic = Self::eval_hash(m, FTExpressionRole::Metallic, h, 0);
        mat.roughness = Self::eval_hash(m, FTExpressionRole::Roughness, h, 500_000);
        mat.subsurface = Self::eval_hash(m, FTExpressionRole::Subsurface, h, 0);
        mat.specular_tint = Self::eval_hash(m, FTExpressionRole::SpecularTint, h, 0);
        mat.sheen = Self::eval_hash(m, FTExpressionRole::Sheen, h, 0);
        mat.sheen_tint = Self::eval_hash(m, FTExpressionRole::SheenTint, h, 0);
        mat.clearcoat = Self::eval_hash(m, FTExpressionRole::Clearcoat, h, 0);
        mat.clearcoat_roughness = Self::eval_hash(m, FTExpressionRole::ClearcoatGloss, h, 0);
        let emission_level: i64 = Self::eval_hash(m, FTExpressionRole::Emission, h, 0);
        mat.emission = Vec3Fp {
            x: fp_mul(emission_level, mat.base_color.x),
            y: fp_mul(emission_level, mat.base_color.y),
            z: fp_mul(emission_level, mat.base_color.z),
        };
        mat.spec_trans = Self::eval_hash(m, FTExpressionRole::Transmission, h, 0);
        mat.ior = Self::eval_hash(m, FTExpressionRole::IOR, h, 1_500_000);
        mat.texture = Self::texture_of(m);
        mat
    }

    /// The first texture name registered on the node; exactly
    /// `spec_texture_of`.
    fn texture_of(m: &Node) -> (r: Option<String>)
        ensures
            r == spec_texture_of(*m),
    {
        let n: usize = m.map.len();
        let mut k: usize = 0;
        while k < n
            invariant
                k <= n,
                n == m.map@.len(),
                spec_find_map_entry(m.map@, 0) == spec_find_map_entry(m.map@, k as int),
            decreases n - k,
        {
            let key: &String = &m.map[k].0;
            if crate::text::chars_match_str(&crate::text::chars_of(key.as_str()), "texture") {
                let vs: &Vec<String> = &m.map[k].1;
                if vs.len() > 0 {
                    return Some(vs[0].clone());
                }
                return None;
            }
            k += 1;
        }
        None
    }

    /// A formula of the node evaluated on the hash parameter alone.
    fn eval_hash(m: &Node, role: FTExpressionRole, h: i64, default: i64) -> (r: i64)
        ensures
            r == spec_eval_hash_expr(*m, role, h, default),
    {
        let mut params: Vec<(crate::expression::FTExpressionParam, i64)> = Vec::new();
        params.push((crate::expression::FTExpressionParam::Hash, h));
        proof {
            assert(params@ =~= crate::context::spec_hash_params(h));
        }
        m.expressions.eval(role, params, default)
    }

    /// Mixes two materials by linear interpolation.
    pub fn mix(&mut self, mat1: &BSDFMaterial, mat2: &BSDFMaterial, t: i64)
        ensures
            final(self).base_color == (Vec3Fp {
                x: fp_lerp_spec(mat1.base_color.x as int, mat2.base_color.x as int, t as int) as i64,
                y: fp_lerp_spec(mat1.base_color.y as int, mat2.base_color.y as int, t as int) as i64,
                z: fp_lerp_spec(mat1.base_color.z as int, mat2.base_color.z as int, t as int) as i64,
            }),
            final(self).emission == (Vec3Fp {
                x: fp_lerp_spec(mat1.emission.x as int, mat2.emission.x as int, t as int) as i64,
                y: fp_lerp_spec(mat1.emission.y as int, mat2.emission.y as int, t as int) as i64,
                z: fp_lerp_spec(mat1.emission.z as int, mat2.emission.z as int, t as int) as i64,
            }),
            final(self).anisotropic == fp_lerp_spec(
                mat1.anisotropic as int,
                mat2.anisotropic as int,
                t as int,
            ),
            final(self).metallic == fp_lerp_spec(mat1.metallic as int, mat2.metallic as int, t as int),
            final(self).roughness == fp_lerp_spec(
                mat1.roughness as int,
                mat2.roughness as int,
                t as int,
            ),
            final(self).subsurface == fp_lerp_spec(
                mat1.subsurface as int,
                mat2.subsurface as int,
                t as int,
            ),
            final(self).specular_tint == fp_lerp_spec(
                mat1.specular_tint as int,
                mat2.specular_tint as int,
                t as int,
            ),
            final(self).sheen == fp_lerp_spec(mat1.sheen as int, mat2.sheen as int, t as int),
            final(self).sheen_tint == fp_lerp_spec(
                mat1.sheen_tint as int,
                mat2.sheen_tint as int,
                t as int,
            ),
            final(self).clearcoat == fp_lerp_spec(
                mat1.clearcoat as int,
                mat2.clearcoat as int,
                t as int,
            ),
            final(self).clearcoat_roughness == fp_lerp_spec(
                mat1.clearcoat_roughness as int,
                mat2.clearcoat_roughness as int,
                t as int,
            ),
            final(self).spec_trans == fp_lerp_spec(
                mat1.spec_trans as int,
                mat2.spec_trans as int,
                t as int,
            ),
            final(self).ior == fp_lerp_spec(mat1.ior as int, mat2.ior as int, t as int),
    {
        self.base_color = Vec3Fp {
            x: fp_lerp(mat1.base_color.x, mat2.base_color.x, t),
            y: fp_lerp(mat1.base_color.y, mat2.base_color.y, t),
            z: fp_lerp(mat1.base_color.z, mat2.base_color.z, t),
        };
        self.emission = Vec3Fp {
            x: fp_lerp(mat1.emission.x, mat2.emission.x, t),
            y: fp_lerp(mat1.emission.y, mat2.emission.y, t),
            z: fp_lerp(mat1.emission.z, mat2.emission.z, t),
        };
        self.anisotropic = fp_lerp(mat1.anisotropic, mat2.anisotropic, t);
        self.metallic = fp_lerp(mat1.metallic, mat2.metallic, t);
        self.roughness = fp_lerp(mat1.roughness, mat2.roughness, t);
        self.subsurface = fp_lerp(mat1.subsurface, mat2.subsurface, t);
        self.specular_tint = fp_lerp(mat1.specular_tint, mat2.specular_tint, t);
        self.sheen = fp_lerp(mat1.sheen, mat2.sheen, t);
        self.sheen_tint = fp_lerp(mat1.sheen_tint, mat2.sheen_tint, t);
        self.clearcoat = fp_lerp(mat1.clearcoat, mat2.clearcoat, t);
        self.clearcoat_roughness = fp_lerp(mat1.clearcoat_roughness, mat2.clearcoat_roughness, t);
        self.spec_trans = fp_lerp(mat1.spec_trans, mat2.spec_trans, t);
        self.ior = fp_lerp(mat1.ior, mat2.ior, t);
    }
}

} // verus!
