//! Signed fixed-point arithmetic: every quantity of the tile engine is an
//! `i64` counting units of `1/FP_SCALE`. All operations carry exact integer
//! contracts; results outside the `i64` range saturate.
use vstd::prelude::*;

verus! {

/// One unit, in raw fixed-point steps.
pub const FP_SCALE: i64 = 1_000_000;

/// Half a unit, in raw fixed-point steps.
pub const FP_HALF: i64 = 500_000;

/// Sentinel for "no surface": the greatest representable distance.
pub const FP_INF: i64 = 9_223_372_036_854_775_807;

/// Clamp a mathematical integer into the `i64` range.
pub open spec fn sat_i64(x: int) -> int {
    if x > i64::MAX as int {
        i64::MAX as int
    } else if x < i64::MIN as int {
        i64::MIN as int
    } else {
        x
    }
}

/// Floor of `x / d` for any nonzero divisor, as mathematical integers.
pub open spec fn floor_div(x: int, d: int) -> int
    recommends
        d != 0,
{
    if d > 0 {
        x / d
    } else {
        (-x) / (-d)
    }
}

/// Floor of the square root of a natural number.
pub open spec fn sqrt_floor(n: nat) -> nat
    decreases n,
{
    if n == 0 {
        0
    } else if (sqrt_floor((n - 1) as nat) + 1) * (sqrt_floor((n - 1) as nat) + 1) <= n {
        sqrt_floor((n - 1) as nat) + 1
    } else {
        sqrt_floor((n - 1) as nat)
    }
}

/// `sqrt_floor` brackets its argument between consecutive squares.
pub proof fn lemma_sqrt_floor(n: nat)
    ensures
        sqrt_floor(n) * sqrt_floor(n) <= n,
        n < (sqrt_floor(n) + 1) * (sqrt_floor(n) + 1),
    decreases n,
{
    reveal_with_fuel(sqrt_floor, 2);
    if n == 0 {
        assert(sqrt_floor(n) == 0);
        assert(n < (sqrt_floor(n) + 1) * (sqrt_floor(n) + 1)) by (nonlinear_arith)
            requires n == 0 && sqrt_floor(n) == 0;
    } else {
        lemma_sqrt_floor((n - 1) as nat);
        let s = sqrt_floor((n - 1) as nat);
        if (s + 1) * (s + 1) <= n {
            assert(sqrt_floor(n) == s + 1);
            assert(n < (sqrt_floor(n) + 1) * (sqrt_floor(n) + 1)) by (nonlinear_arith)
                requires n <= (s + 1) * (s + 1) && s >= 0 && sqrt_floor(n) == s + 1;
        } else {
            assert(sqrt_floor(n) == s);
            assert(n < (sqrt_floor(n) + 1) * (sqrt_floor(n) + 1)) by (nonlinear_arith)
                requires n < (s + 1) * (s + 1) && sqrt_floor(n) == s;
        }
    }
}

/// The bracketing between consecutive squares determines the root.
pub proof fn lemma_sqrt_floor_unique(n: nat, r: nat)
    requires
        r * r <= n,
        n < (r + 1) * (r + 1),
    ensures
        r == sqrt_floor(n),
{
    lemma_sqrt_floor(n);
    let s = sqrt_floor(n);
    if r < s {
        assert((r + 1) * (r + 1) <= s * s) by (nonlinear_arith)
            requires r + 1 <= s;
    }
    if s < r {
        assert((s + 1) * (s + 1) <= r * r) by (nonlinear_arith)
            requires s + 1 <= r;
    }
}

/// Floor of the square root of a 128-bit integer.
pub fn isqrt128(n: u128) -> (r: u128)
    ensures
        r == sqrt_floor(n as nat),
{
    let mut lo: u128 = 0;
    let mut hi: u128 = 18_446_744_073_709_551_616;
    assert(n < hi * hi) by (nonlinear_arith)
        requires n <= u128::MAX && hi == 18_446_744_073_709_551_616u128;
    while lo + 1 < hi
        invariant
            lo < hi <= 18_446_744_073_709_551_616u128,
            lo * lo <= n,
            n < hi * hi,
        decreases hi - lo,
    {
        let mid: u128 = lo + (hi - lo) / 2;
        assert(mid * mid <= u128::MAX) by (nonlinear_arith)
            requires mid < 18_446_744_073_709_551_616u128;
        if mid * mid <= n {
            lo = mid;
        } else {
            hi = mid;
        }
    }
    proof {
        lemma_sqrt_floor_unique(n as nat, lo as nat);
    }
    lo
}

/// Floor division of a 128-bit value by a positive divisor.
fn floor_div_i128(x: i128, d: i128) -> (r: i128)
    requires
        d > 0,
        x > i128::MIN,
    ensures
        r == x as int / d as int,
{
    if x >= 0 {
        let q: u128 = (x as u128) / (d as u128);
        proof {
            vstd::arithmetic::div_mod::lemma_fundamental_div_mod(x as int, d as int);
            assert((q as int) <= x as int) by (nonlinear_arith)
                requires
                    x as int == (d as int) * (q as int) + (x as int) % (d as int),
                    d as int >= 1,
                    (x as int) % (d as int) >= 0,
                    (q as int) >= 0;
        }
        q as i128
    } else {
        let m: u128 = (-x) as u128;
        let du: u128 = d as u128;
        let q0: u128 = m / du;
        let rem: u128 = m % du;
        proof {
            let mi = m as int;
            let di = du as int;
            // m == q0 * du + rem with 0 <= rem < du
            vstd::arithmetic::div_mod::lemma_fundamental_div_mod(mi, di);
            assert((q0 as int) <= mi) by (nonlinear_arith)
                requires
                    mi == di * (q0 as int) + (rem as int),
                    di >= 1,
                    (rem as int) >= 0,
                    (q0 as int) >= 0;
            if rem == 0 {
                assert(x as int == (-(q0 as int)) * di + 0) by (nonlinear_arith)
                    requires mi == di * (q0 as int) && x as int == -mi;
                vstd::arithmetic::div_mod::lemma_fundamental_div_mod_converse_div(
                    x as int,
                    d as int,
                    -(q0 as int),
                    0,
                );
            } else {
                assert(x as int == (-(q0 as int) - 1) * di + (di - rem as int)) by (nonlinear_arith)
                    requires mi == di * (q0 as int) + (rem as int) && x as int == -mi;
                vstd::arithmetic::div_mod::lemma_fundamental_div_mod_converse_div(
                    x as int,
                    d as int,
                    -(q0 as int) - 1,
                    d as int - rem as int,
                );
            }
        }
        if rem == 0 {
            -(q0 as i128)
        } else {
            -(q0 as i128) - 1
        }
    }
}

/// Saturating fixed-point product: floor(`a`·`b` / `FP_SCALE`), clamped to `i64`.
pub open spec fn fp_mul_spec(a: int, b: int) -> int {
    sat_i64(floor_div(a * b, FP_SCALE as int))
}

pub fn fp_mul(a: i64, b: i64) -> (r: i64)
    ensures
        r == fp_mul_spec(a as int, b as int),
{
    assert(i128::MIN < (a as int) * (b as int) && (a as int) * (b as int) < i128::MAX)
        by (nonlinear_arith)
        requires i64::MIN <= a <= i64::MAX && i64::MIN <= b <= i64::MAX;
    let p: i128 = (a as i128) * (b as i128);
    let q: i128 = floor_div_i128(p, FP_SCALE as i128);
    if q > i64::MAX as i128 {
        i64::MAX
    } else if q < i64::MIN as i128 {
        i64::MIN
    } else {
        q as i64
    }
}

/// Saturating fixed-point quotient: floor(`a`·`FP_SCALE` / `b`), clamped to
/// `i64`; division by zero yields `FP_INF`.
pub open spec fn fp_div_spec(a: int, b: int) -> int {
    if b == 0 {
        FP_INF as int
    } else {
        sat_i64(floor_div(a * FP_SCALE as int, b))
    }
}

pub fn fp_div(a: i64, b: i64) -> (r: i64)
    ensures
        r == fp_div_spec(a as int, b as int),
{
    if b == 0 {
        return FP_INF;
    }
    assert(i128::MIN < (a as int) * (FP_SCALE as int) && (a as int) * (FP_SCALE as int) < i128::MAX)
        by (nonlinear_arith)
        requires i64::MIN <= a <= i64::MAX;
    let p: i128 = (a as i128) * (FP_SCALE as i128);
    let q: i128 = if b > 0 {
        floor_div_i128(p, b as i128)
    } else {
        floor_div_i128(-p, -(b as i128))
    };
    if q > i64::MAX as i128 {
        i64::MAX
    } else if q < i64::MIN as i128 {
        i64::MIN
    } else {
        q as i64
    }
}

/// Saturating sum.
pub open spec fn fp_add_spec(a: int, b: int) -> int {
    sat_i64(a + b)
}

pub fn fp_add(a: i64, b: i64) -> (r: i64)
    ensures
        r == fp_add_spec(a as int, b as int),
{
    match a.checked_add(b) {
        Some(s) => s,
        None => if a > 0 {
            i64::MAX
        } else {
            i64::MIN
        },
    }
}

/// Saturating difference.
pub open spec fn fp_sub_spec(a: int, b: int) -> int {
    sat_i64(a - b)
}

pub fn fp_sub(a: i64, b: i64) -> (r: i64)
    ensures
        r == fp_sub_spec(a as int, b as int),
{
    match a.checked_sub(b) {
        Some(s) => s,
        None => if a >= 0 {
            i64::MAX
        } else {
            i64::MIN
        },
    }
}

/// Saturating negation.
pub fn fp_neg(a: i64) -> (r: i64)
    ensures
        r == sat_i64(-(a as int)),
{
    if a == i64::MIN {
        i64::MAX
    } else {
        -a
    }
}

/// Absolute value, clamped to `i64::MAX`.
pub open spec fn fp_abs_spec(a: int) -> int {
    if a < 0 {
        sat_i64(-a)
    } else {
        a
    }
}

pub fn fp_abs(a: i64) -> (r: i64)
    ensures
        r == fp_abs_spec(a as int),
{
    if a < 0 {
        fp_neg(a)
    } else {
        a
    }
}

pub open spec fn fp_min_spec(a: int, b: int) -> int {
    if a < b {
        a
    } else {
        b
    }
}

pub fn fp_min(a: i64, b: i64) -> (r: i64)
    ensures
        r == fp_min_spec(a as int, b as int),
{
    if a < b {
        a
    } else {
        b
    }
}

pub open spec fn fp_max_spec(a: int, b: int) -> int {
    if a < b {
        b
    } else {
        a
    }
}

pub fn fp_max(a: i64, b: i64) -> (r: i64)
    ensures
        r == fp_max_spec(a as int, b as int),
{
    if a < b {
        b
    } else {
        a
    }
}

pub open spec fn fp_clamp_spec(a: int, lo: int, hi: int) -> int {
    fp_min_spec(fp_max_spec(a, lo), hi)
}

pub fn fp_clamp(a: i64, lo: i64, hi: i64) -> (r: i64)
    ensures
        r == fp_clamp_spec(a as int, lo as int, hi as int),
{
    fp_min(fp_max(a, lo), hi)
}

/// Largest whole-unit value not above `a`: floor to a multiple of `FP_SCALE`,
/// clamped to the `i64` range.
pub open spec fn fp_floor_spec(a: int) -> int {
    sat_i64(floor_div(a, FP_SCALE as int) * FP_SCALE as int)
}

pub fn fp_floor(a: i64) -> (r: i64)
    ensures
        r == fp_floor_spec(a as int),
{
    let q: i128 = floor_div_i128(a as i128, FP_SCALE as i128);
    proof {
        vstd::arithmetic::div_mod::lemma_fundamental_div_mod(a as int, FP_SCALE as int);
    }
    let m: i128 = q * (FP_SCALE as i128);
    if m > i64::MAX as i128 {
        i64::MAX
    } else if m < i64::MIN as i128 {
        i64::MIN
    } else {
        m as i64
    }
}

/// Whole-unit part of `a` as a plain count of units (floor).
pub open spec fn fp_units_spec(a: int) -> int {
    floor_div(a, FP_SCALE as int)
}

pub fn fp_units(a: i64) -> (r: i64)
    ensures
        r == fp_units_spec(a as int),
{
    let q: i128 = floor_div_i128(a as i128, FP_SCALE as i128);
    proof {
        vstd::arithmetic::div_mod::lemma_fundamental_div_mod(a as int, FP_SCALE as int);
    }
    q as i64
}

/// Nearest whole-unit value: floor(`a` + half a unit).
pub open spec fn fp_round_spec(a: int) -> int {
    fp_floor_spec(sat_i64(a + FP_HALF as int))
}

pub fn fp_round(a: i64) -> (r: i64)
    ensures
        r == fp_round_spec(a as int),
{
    fp_floor(fp_add(a, FP_HALF))
}

/// Euclidean length of a raw vector, clamped to `i64::MAX`.
pub open spec fn fp_len_spec(x: int, y: int) -> int {
    sat_i64(sqrt_floor((x * x + y * y) as nat) as int)
}

pub fn fp_len(x: i64, y: i64) -> (r: i64)
    ensures
        r == fp_len_spec(x as int, y as int),
{
    assert(0 <= (x as int) * (x as int) && (x as int) * (x as int) < i128::MAX
        && 0 <= (y as int) * (y as int) && (y as int) * (y as int) < i128::MAX
        && (x as int) * (x as int) + (y as int) * (y as int) <= u128::MAX) by (nonlinear_arith)
        requires i64::MIN <= x <= i64::MAX && i64::MIN <= y <= i64::MAX;
    let xx: i128 = (x as i128) * (x as i128);
    let yy: i128 = (y as i128) * (y as i128);
    let s: u128 = (xx as u128) + (yy as u128);
    let r: u128 = isqrt128(s);
    if r > i64::MAX as u128 {
        i64::MAX
    } else {
        r as i64
    }
}

/// Deterministic mix of two raw coordinates into a fixed-point value in
/// `[0, 1)`, i.e. a raw result in `[0, FP_SCALE)`. A pure function: equal
/// cell coordinates always give equal hashes.
pub open spec fn hash21_spec(x: i64, y: i64) -> u64 {
    let a = (x - i64::MIN) as u64;
    let b = (y - i64::MIN) as u64;
    let z0 = vstd::wrapping::u64_specs::wrapping_add(
        vstd::wrapping::u64_specs::wrapping_mul(a, 0x9E3779B97F4A7C15),
        vstd::wrapping::u64_specs::wrapping_mul(b, 0xBF58476D1CE4E5B9),
    );
    let z1 = z0 ^ (z0 >> 30);
    let z2 = vstd::wrapping::u64_specs::wrapping_mul(z1, 0x94D049BB133111EB);
    let z3 = z2 ^ (z2 >> 27);
    z3 % 1_000_000u64
}

pub fn hash21(x: i64, y: i64) -> (r: i64)
    ensures
        r == hash21_spec(x, y),
        0 <= r < FP_SCALE,
{
    let a: u64 = ((x as i128) - (i64::MIN as i128)) as u64;
    let b: u64 = ((y as i128) - (i64::MIN as i128)) as u64;
    let z0: u64 = a.wrapping_mul(0x9E3779B97F4A7C15).wrapping_add(
        b.wrapping_mul(0xBF58476D1CE4E5B9),
    );
    let z1: u64 = z0 ^ (z0 >> 30);
    let z2: u64 = z1.wrapping_mul(0x94D049BB133111EB);
    let z3: u64 = z2 ^ (z2 >> 27);
    let m: u64 = z3 % 1_000_000;
    m as i64
}

/// Floor division of a raw value by a positive constant.
pub fn fp_divi(a: i64, n: i64) -> (r: i64)
    requires
        n > 0,
    ensures
        r == a as int / n as int,
{
    let q: i128 = floor_div_i128(a as i128, n as i128);
    proof {
        vstd::arithmetic::div_mod::lemma_fundamental_div_mod(a as int, n as int);
        assert(i64::MIN as int <= q && q <= i64::MAX as int) by (nonlinear_arith)
            requires
                q == a as int / n as int,
                a as int == (n as int) * (a as int / n as int) + (a as int % n as int),
                0 <= (a as int % n as int) && (a as int % n as int) < n as int,
                n as int >= 1,
                i64::MIN <= a <= i64::MAX;
    }
    q as i64
}

/// Euclidean remainder of a raw value by a positive modulus.
pub fn fp_mod(a: i64, m: i64) -> (r: i64)
    requires
        m > 0,
    ensures
        r == a as int % m as int,
        0 <= r < m,
{
    let q: i128 = floor_div_i128(a as i128, m as i128);
    proof {
        vstd::arithmetic::div_mod::lemma_fundamental_div_mod(a as int, m as int);
        assert(i64::MIN as int <= q && q <= i64::MAX as int && i128::MIN < q * (m as int) && q * (m as int) < i128::MAX
            && a as int - q * (m as int) == a as int % m as int) by (nonlinear_arith)
            requires
                q == a as int / m as int,
                a as int == (m as int) * (a as int / m as int) + (a as int % m as int),
                0 <= (a as int % m as int) && (a as int % m as int) < m as int,
                m as int >= 1,
                i64::MIN <= a <= i64::MAX;
    }
    (a as i128 - q * (m as i128)) as i64
}

/// Euclidean length of a raw 3-vector, clamped to `i64::MAX`.
pub open spec fn fp_len3_spec(x: int, y: int, z: int) -> int {
    sat_i64(sqrt_floor((x * x + y * y + z * z) as nat) as int)
}

pub fn fp_len3(x: i64, y: i64, z: i64) -> (r: i64)
    ensures
        r == fp_len3_spec(x as int, y as int, z as int),
{
    assert(0 <= (x as int) * (x as int) && 0 <= (y as int) * (y as int) && 0 <= (z as int) * (
    z as int) && (x as int) * (x as int) < i128::MAX && (y as int) * (y as int) < i128::MAX && (
    z as int) * (z as int) < i128::MAX && (x as int) * (x as int) + (y as int) * (y as int) + (
    z as int) * (z as int) <= u128::MAX) by (nonlinear_arith)
        requires
            i64::MIN <= x <= i64::MAX && i64::MIN <= y <= i64::MAX && i64::MIN <= z <= i64::MAX;
    let xx: i128 = (x as i128) * (x as i128);
    let yy: i128 = (y as i128) * (y as i128);
    let zz: i128 = (z as i128) * (z as i128);
    let s: u128 = (xx as u128) + (yy as u128) + (zz as u128);
    let r: u128 = isqrt128(s);
    if r > i64::MAX as u128 {
        i64::MAX
    } else {
        r as i64
    }
}

/// Square root in fixed point: floor of the root of a non-negative value;
/// non-positive values root to zero.
pub open spec fn fp_sqrt_spec(a: int) -> int {
    if a <= 0 {
        0
    } else {
        sat_i64(sqrt_floor((a * FP_SCALE as int) as nat) as int)
    }
}

pub fn fp_sqrt(a: i64) -> (r: i64)
    ensures
        r == fp_sqrt_spec(a as int),
{
    if a <= 0 {
        return 0;
    }
    assert((a as int) * (FP_SCALE as int) <= u128::MAX) by (nonlinear_arith)
        requires 0 < a <= i64::MAX;
    let wide: u128 = (a as u128) * (FP_SCALE as u128);
    let root: u128 = isqrt128(wide);
    if root > i64::MAX as u128 {
        i64::MAX
    } else {
        root as i64
    }
}

/// Linear interpolation `a + (b - a)·t` with saturating steps.
pub open spec fn fp_lerp_spec(a: int, b: int, t: int) -> int {
    fp_add_spec(a, fp_mul_spec(fp_sub_spec(b, a), t))
}

pub fn fp_lerp(a: i64, b: i64, t: i64) -> (r: i64)
    ensures
        r == fp_lerp_spec(a as int, b as int, t as int),
{
    fp_add(a, fp_mul(fp_sub(b, a), t))
}

} // verus!
