//! Rays and their analytic sphere intersection.
use vstd::prelude::*;

use crate::fixed::{fp_add, fp_add_spec, fp_mul, fp_mul_spec, fp_sqrt, fp_sqrt_spec, fp_sub,
    fp_sub_spec};
use crate::vecfp::Vec3Fp;

verus! {

/// A ray: origin and direction.
#[derive(PartialEq, Eq, Structural, Clone, Copy, Debug)]
pub struct Ray {
    pub o: Vec3Fp,
    pub d: Vec3Fp,
}

/// What `Ray::sphere` computes: the smaller non-negative root of the
/// quadratic hit equation, if the ray meets the sphere in front of its
/// origin.
pub open spec fn spec_ray_sphere(ray: Ray, center: Vec3Fp, radius: i64) -> Option<i64> {
    let l = center.spec_sub(ray.o);
    let tca = l.spec_dot(ray.d);
    let d2 = fp_sub_spec(l.spec_dot(l), fp_mul_spec(tca, tca));
    let radius2 = fp_mul_spec(radius as int, radius as int);
    if d2 > radius2 {
        None
    } else {
        let thc = fp_sqrt_spec(fp_sub_spec(radius2, d2));
        let t0 = fp_sub_spec(tca, thc);
        let t1 = fp_add_spec(tca, thc);
        let lo = if t0 > t1 {
            t1
        } else {
            t0
        };
        let hi = if t0 > t1 {
            t0
        } else {
            t1
        };
        if lo < 0 {
            if hi < 0 {
                None
            } else {
                Some(hi as i64)
            }
        } else {
            Some(lo as i64)
        }
    }
}

impl Ray {
    pub fn new(o: Vec3Fp, d: Vec3Fp) -> (r: Self)
        ensures
            r.o == o,
            r.d == d,
    {
        Ray { o, d }
    }

    /// Returns the position on the ray at the given distance.
    pub fn at(&self, d: i64) -> (r: Vec3Fp)
        ensures
            r == self.o.spec_add(self.d.spec_scale(d as int)),
    {
        self.o.add(self.d.scale(d))
    }

    /// The nearest forward intersection with a sphere, if any; exactly
    /// `spec_ray_sphere`.
    pub fn sphere(&self, center: Vec3Fp, radius: i64) -> (r: Option<i64>)
        ensures
            r == spec_ray_sphere(*self, center, radius),
    {
        let l: Vec3Fp = center.sub(self.o);
        let tca: i64 = l.dot(self.d);
        let d2: i64 = fp_sub(l.dot(l), fp_mul(tca, tca));
        let radius2: i64 = fp_mul(radius, radius);
        if d2 > radius2 {
            return None;
        }
        let thc: i64 = fp_sqrt(fp_sub(radius2, d2));
        let mut t0: i64 = fp_sub(tca, thc);
        let mut t1: i64 = fp_add(tca, thc);
        if t0 > t1 {
            let tmp: i64 = t0;
            t0 = t1;
            t1 = tmp;
        }
        if t0 < 0 {
            t0 = t1;
            if t0 < 0 {
                return None;
            }
        }
        Some(t0)
    }
}

} // verus!
