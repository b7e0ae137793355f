//! Shading-frame helpers of the path tracer that are pure fixed-point
//! arithmetic: basis construction, frame changes, luminance and the
//! multiple-importance-sampling power heuristic.
use vstd::prelude::*;

use crate::fixed::{fp_abs, fp_abs_spec, fp_add, fp_add_spec, fp_div, fp_div_spec, fp_mul,
    fp_mul_spec, FP_SCALE};
use crate::vecfp::{Vec3Fp, vec3fp};

verus! {

/// `b` flipped to lie in the hemisphere of `a`.
pub open spec fn spec_face_forward(a: Vec3Fp, b: Vec3Fp) -> Vec3Fp {
    if a.spec_dot(b) < 0 {
        b.spec_neg()
    } else {
        b
    }
}

pub fn face_forward(a: Vec3Fp, b: Vec3Fp) -> (r: Vec3Fp)
    ensures
        r == spec_face_forward(a, b),
{
    if a.dot(b) < 0 {
        b.neg()
    } else {
        b
    }
}

/// Rec. 709 luminance of a linear color.
pub open spec fn spec_luminance(c: Vec3Fp) -> int {
    fp_add_spec(
        fp_add_spec(fp_mul_spec(212_671, c.x as int), fp_mul_spec(715_160, c.y as int)),
        fp_mul_spec(72_169, c.z as int),
    )
}

pub fn luminance(c: Vec3Fp) -> (r: i64)
    ensures
        r == spec_luminance(c),
{
    fp_add(fp_add(fp_mul(212_671, c.x), fp_mul(715_160, c.y)), fp_mul(72_169, c.z))
}

/// The power heuristic `a²/(a²+b²)` for combining two sampling strategies;
/// densities whose squares both vanish in fixed point get weight zero.
pub open spec fn spec_power_heuristic(a: int, b: int) -> int {
    let t = fp_mul_spec(a, a);
    let denom = fp_add_spec(fp_mul_spec(b, b), t);
    if denom == 0 {
        0
    } else {
        fp_div_spec(t, denom)
    }
}

/// The combined weight always lies in `[0, 1]`.
pub fn power_heuristic(a: i64, b: i64) -> (r: i64)
    ensures
        r == spec_power_heuristic(a as int, b as int),
        0 <= r <= FP_SCALE,
{
    let t: i64 = fp_mul(a, a);
    let denom: i64 = fp_add(fp_mul(b, b), t);
    proof {
        lemma_power_heuristic_bounds(a as int, b as int);
    }
    if denom == 0 {
        0
    } else {
        fp_div(t, denom)
    }
}

/// The power heuristic is a proper weight: it lies between zero and one
/// for every pair of densities.
pub proof fn lemma_power_heuristic_bounds(a: int, b: int)
    requires
        i64::MIN <= a <= i64::MAX,
        i64::MIN <= b <= i64::MAX,
    ensures
        0 <= spec_power_heuristic(a, b) <= FP_SCALE as int,
{
    let t = fp_mul_spec(a, a);
    let u = fp_mul_spec(b, b);
    assert(a * a >= 0 && b * b >= 0) by (nonlinear_arith);
    vstd::arithmetic::div_mod::lemma_div_pos_is_pos(a * a, FP_SCALE as int);
    vstd::arithmetic::div_mod::lemma_div_pos_is_pos(b * b, FP_SCALE as int);
    assert(t >= 0 && u >= 0);
    let denom = fp_add_spec(u, t);
    assert(denom >= t >= 0);
    if denom != 0 {
        assert(t * FP_SCALE as int >= 0) by (nonlinear_arith)
            requires t >= 0;
        vstd::arithmetic::div_mod::lemma_div_pos_is_pos(t * FP_SCALE as int, denom);
        assert(t * FP_SCALE as int <= denom * FP_SCALE as int) by (nonlinear_arith)
            requires t <= denom && FP_SCALE as int > 0;
        vstd::arithmetic::div_mod::lemma_div_multiples_vanish(FP_SCALE as int, denom);
        vstd::arithmetic::div_mod::lemma_div_is_ordered(
            t * FP_SCALE as int,
            denom * FP_SCALE as int,
            denom,
        );
        assert(crate::fixed::floor_div(t * FP_SCALE as int, denom) <= FP_SCALE as int);
    }
}

/// An orthonormal-ish basis around a normal, by crossing with whichever
/// axis is further from it.
pub fn onb(n: Vec3Fp, t: &mut Vec3Fp, b: &mut Vec3Fp)
    ensures
        ({
            let up = if fp_abs_spec(n.z as int) < 999_999 {
                (Vec3Fp { x: 0, y: 0, z: FP_SCALE })
            } else {
                (Vec3Fp { x: FP_SCALE, y: 0, z: 0 })
            };
            *final(t) == n.spec_cross(up).spec_normalize() && *final(b) == n.spec_cross(*final(t))
        }),
{
    let up: Vec3Fp = if fp_abs(n.z) < 999_999 {
        vec3fp(0, 0, FP_SCALE)
    } else {
        vec3fp(FP_SCALE, 0, 0)
    };
    *t = n.cross(up).normalize();
    *b = n.cross(*t);
}

/// A local-frame vector expressed in world space.
pub open spec fn spec_to_world(x: Vec3Fp, y: Vec3Fp, z: Vec3Fp, v: Vec3Fp) -> Vec3Fp {
    x.spec_scale(v.x as int).spec_add(y.spec_scale(v.y as int)).spec_add(z.spec_scale(v.z as int))
}

pub fn to_world(x: Vec3Fp, y: Vec3Fp, z: Vec3Fp, v: Vec3Fp) -> (r: Vec3Fp)
    ensures
        r == spec_to_world(x, y, z, v),
{
    x.scale(v.x).add(y.scale(v.y)).add(z.scale(v.z))
}

/// A world-space vector expressed in the local frame.
pub open spec fn spec_to_local(x: Vec3Fp, y: Vec3Fp, z: Vec3Fp, v: Vec3Fp) -> Vec3Fp {
    Vec3Fp { x: v.spec_dot(x) as i64, y: v.spec_dot(y) as i64, z: v.spec_dot(z) as i64 }
}

pub fn to_local(x: Vec3Fp, y: Vec3Fp, z: Vec3Fp, v: Vec3Fp) -> (r: Vec3Fp)
    ensures
        r == spec_to_local(x, y, z, v),
{
    Vec3Fp { x: v.dot(x), y: v.dot(y), z: v.dot(z) }
}

} // verus!
