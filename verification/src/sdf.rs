//! Signed distance primitives: the rounded box and a rotation whose sine
//! and cosine come from a fixed polynomial approximation.
use vstd::prelude::*;

use crate::fixed::{fp_abs, fp_abs_spec, fp_add, fp_add_spec, fp_divi, fp_len, fp_len_spec,
    fp_max, fp_max_spec, fp_min, fp_min_spec, fp_mod, fp_mul, fp_mul_spec, fp_neg, fp_sub,
    fp_sub_spec, sat_i64, FP_SCALE};
use crate::vecfp::Vec2Fp;

verus! {

/// One half turn, in raw fixed-point steps.
pub const FP_PI: i64 = 3_141_593;

/// One full turn, in raw fixed-point steps.
pub const FP_TAU: i64 = 6_283_185;

/// A quarter turn, in raw fixed-point steps.
pub const FP_HALF_PI: i64 = 1_570_796;

/// The even polynomial `1 - t²/2 + t⁴/24 - t⁶/720 + t⁸/40320` that stands
/// in for the cosine on a quarter turn.
pub open spec fn spec_cos_poly(t: int) -> int {
    let t2 = fp_mul_spec(t, t);
    let t4 = fp_mul_spec(t2, t2);
    let t6 = fp_mul_spec(t4, t2);
    let t8 = fp_mul_spec(t4, t4);
    sat_i64(
        sat_i64(sat_i64(sat_i64(FP_SCALE as int - t2 / 2) + t4 / 24) - t6 / 720) + t8 / 40320,
    )
}

fn cos_poly(t: i64) -> (r: i64)
    ensures
        r == spec_cos_poly(t as int),
{
    let t2: i64 = fp_mul(t, t);
    let t4: i64 = fp_mul(t2, t2);
    let t6: i64 = fp_mul(t4, t2);
    let t8: i64 = fp_mul(t4, t4);
    let mut acc: i64 = fp_sub(FP_SCALE, fp_divi(t2, 2));
    acc = fp_add(acc, fp_divi(t4, 24));
    acc = fp_sub(acc, fp_divi(t6, 720));
    acc = fp_add(acc, fp_divi(t8, 40320));
    acc
}

/// The approximate cosine of an angle given in fixed-point radians: the
/// angle is reduced to a quarter turn and fed to `spec_cos_poly`.
pub open spec fn spec_fp_cos(a: int) -> int {
    let m = a % FP_TAU as int;
    let t = if m > FP_PI as int {
        FP_TAU as int - m
    } else {
        m
    };
    if t > FP_HALF_PI as int {
        sat_i64(-spec_cos_poly(FP_PI as int - t))
    } else {
        spec_cos_poly(t)
    }
}

pub fn fp_cos(a: i64) -> (r: i64)
    ensures
        r == spec_fp_cos(a as int),
{
    let m: i64 = fp_mod(a, FP_TAU);
    let t: i64 = if m > FP_PI {
        FP_TAU - m
    } else {
        m
    };
    if t > FP_HALF_PI {
        fp_neg(cos_poly(FP_PI - t))
    } else {
        cos_poly(t)
    }
}

/// The odd polynomial `t - t³/6 + t⁵/120 - t⁷/5040` that stands in for
/// the sine on a quarter turn; exactly zero at zero.
pub open spec fn spec_sin_poly(t: int) -> int {
    let t2 = fp_mul_spec(t, t);
    let t3 = fp_mul_spec(t2, t);
    let t5 = fp_mul_spec(t3, t2);
    let t7 = fp_mul_spec(t5, t2);
    sat_i64(sat_i64(sat_i64(t - t3 / 6) + t5 / 120) - t7 / 5040)
}

fn sin_poly(t: i64) -> (r: i64)
    ensures
        r == spec_sin_poly(t as int),
{
    let t2: i64 = fp_mul(t, t);
    let t3: i64 = fp_mul(t2, t);
    let t5: i64 = fp_mul(t3, t2);
    let t7: i64 = fp_mul(t5, t2);
    let mut acc: i64 = fp_sub(t, fp_divi(t3, 6));
    acc = fp_add(acc, fp_divi(t5, 120));
    acc = fp_sub(acc, fp_divi(t7, 5040));
    acc
}

/// The approximate sine of an angle given in fixed-point radians, by the
/// same reduction as the cosine.
pub open spec fn spec_fp_sin(a: int) -> int {
    let m = a % FP_TAU as int;
    if m > FP_PI as int {
        let t = m - FP_PI as int;
        if t > FP_HALF_PI as int {
            sat_i64(-spec_sin_poly(FP_PI as int - t))
        } else {
            sat_i64(-spec_sin_poly(t))
        }
    } else {
        if m > FP_HALF_PI as int {
            spec_sin_poly(FP_PI as int - m)
        } else {
            spec_sin_poly(m)
        }
    }
}

pub fn fp_sin(a: i64) -> (r: i64)
    ensures
        r == spec_fp_sin(a as int),
{
    let m: i64 = fp_mod(a, FP_TAU);
    if m > FP_PI {
        let t: i64 = m - FP_PI;
        if t > FP_HALF_PI {
            fp_neg(sin_poly(FP_PI - t))
        } else {
            fp_neg(sin_poly(t))
        }
    } else {
        if m > FP_HALF_PI {
            sin_poly(FP_PI - m)
        } else {
            sin_poly(m)
        }
    }
}

/// A point rotated by an angle: `(cos·x − sin·y, sin·x + cos·y)`.
pub open spec fn spec_rot_apply(a: int, p: Vec2Fp) -> Vec2Fp {
    let c = spec_fp_cos(a);
    let s = spec_fp_sin(a);
    Vec2Fp {
        x: fp_sub_spec(fp_mul_spec(c, p.x as int), fp_mul_spec(s, p.y as int)) as i64,
        y: fp_add_spec(fp_mul_spec(s, p.x as int), fp_mul_spec(c, p.y as int)) as i64,
    }
}

pub fn rot_apply(a: i64, p: Vec2Fp) -> (r: Vec2Fp)
    ensures
        r == spec_rot_apply(a as int, p),
{
    let c: i64 = fp_cos(a);
    let s: i64 = fp_sin(a);
    Vec2Fp { x: fp_sub(fp_mul(c, p.x), fp_mul(s, p.y)), y: fp_add(fp_mul(s, p.x), fp_mul(c, p.y)) }
}

/// The rounded-rectangle signed distance: negative inside the box of the
/// given half-extents centred on `pos`, positive outside, with corner
/// radius `r`.
pub open spec fn spec_sdf_box2d(p: Vec2Fp, pos: Vec2Fp, width: int, height: int, r: int) -> int {
    let dx = fp_add_spec(fp_sub_spec(fp_abs_spec(fp_sub_spec(p.x as int, pos.x as int)), width), r);
    let dy = fp_add_spec(
        fp_sub_spec(fp_abs_spec(fp_sub_spec(p.y as int, pos.y as int)), height),
        r,
    );
    let outside = fp_len_spec(fp_max_spec(dx, 0), fp_max_spec(dy, 0));
    let inside = fp_min_spec(fp_max_spec(dx, dy), 0);
    fp_sub_spec(fp_add_spec(outside, inside), r)
}

pub fn sdf_box2d(p: Vec2Fp, pos: Vec2Fp, width: i64, height: i64, r: i64) -> (d: i64)
    ensures
        d == spec_sdf_box2d(p, pos, width as int, height as int, r as int),
{
    let dx: i64 = fp_add(fp_sub(fp_abs(fp_sub(p.x, pos.x)), width), r);
    let dy: i64 = fp_add(fp_sub(fp_abs(fp_sub(p.y, pos.y)), height), r);
    let outside: i64 = fp_len(fp_max(dx, 0), fp_max(dy, 0));
    let inside: i64 = fp_min(fp_max(dx, dy), 0);
    fp_sub(fp_add(outside, inside), r)
}

} // verus!
