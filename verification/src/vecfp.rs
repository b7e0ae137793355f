//! Fixed-point 2- and 3-component vectors.
use vstd::prelude::*;

use crate::fixed::{fp_add, fp_add_spec, fp_div, fp_div_spec, fp_len, fp_len3, fp_len3_spec,
    fp_len_spec, fp_mul, fp_mul_spec, fp_neg, fp_sub, fp_sub_spec, sat_i64};

verus! {

#[derive(PartialEq, Eq, Structural, Clone, Copy, Debug)]
pub struct Vec2Fp {
    pub x: i64,
    pub y: i64,
}

#[derive(PartialEq, Eq, Structural, Clone, Copy, Debug)]
pub struct Vec3Fp {
    pub x: i64,
    pub y: i64,
    pub z: i64,
}

pub fn vec2fp(x: i64, y: i64) -> (r: Vec2Fp)
    ensures
        r == (Vec2Fp { x, y }),
{
    Vec2Fp { x, y }
}

pub fn vec3fp(x: i64, y: i64, z: i64) -> (r: Vec3Fp)
    ensures
        r == (Vec3Fp { x, y, z }),
{
    Vec3Fp { x, y, z }
}

impl Vec2Fp {
    pub open spec fn spec_zero() -> Vec2Fp {
        Vec2Fp { x: 0, y: 0 }
    }

    pub fn zero() -> (r: Vec2Fp)
        ensures
            r == Vec2Fp::spec_zero(),
    {
        Vec2Fp { x: 0, y: 0 }
    }

    pub open spec fn spec_add(self, o: Vec2Fp) -> Vec2Fp {
        Vec2Fp { x: fp_add_spec(self.x as int, o.x as int) as i64, y: fp_add_spec(
            self.y as int,
            o.y as int,
        ) as i64 }
    }

    pub fn add(self, o: Vec2Fp) -> (r: Vec2Fp)
        ensures
            r == self.spec_add(o),
    {
        Vec2Fp { x: fp_add(self.x, o.x), y: fp_add(self.y, o.y) }
    }

    pub open spec fn spec_sub(self, o: Vec2Fp) -> Vec2Fp {
        Vec2Fp { x: fp_sub_spec(self.x as int, o.x as int) as i64, y: fp_sub_spec(
            self.y as int,
            o.y as int,
        ) as i64 }
    }

    pub fn sub(self, o: Vec2Fp) -> (r: Vec2Fp)
        ensures
            r == self.spec_sub(o),
    {
        Vec2Fp { x: fp_sub(self.x, o.x), y: fp_sub(self.y, o.y) }
    }

    /// Euclidean length of the vector.
    pub open spec fn spec_length(self) -> int {
        fp_len_spec(self.x as int, self.y as int)
    }

    pub fn length(self) -> (r: i64)
        ensures
            r == self.spec_length(),
    {
        fp_len(self.x, self.y)
    }
}

impl Vec3Fp {
    pub open spec fn spec_zero() -> Vec3Fp {
        Vec3Fp { x: 0, y: 0, z: 0 }
    }

    pub fn zero() -> (r: Vec3Fp)
        ensures
            r == Vec3Fp::spec_zero(),
    {
        Vec3Fp { x: 0, y: 0, z: 0 }
    }

    pub open spec fn spec_add(self, o: Vec3Fp) -> Vec3Fp {
        Vec3Fp {
            x: fp_add_spec(self.x as int, o.x as int) as i64,
            y: fp_add_spec(self.y as int, o.y as int) as i64,
            z: fp_add_spec(self.z as int, o.z as int) as i64,
        }
    }

    pub fn add(self, o: Vec3Fp) -> (r: Vec3Fp)
        ensures
            r == self.spec_add(o),
    {
        Vec3Fp { x: fp_add(self.x, o.x), y: fp_add(self.y, o.y), z: fp_add(self.z, o.z) }
    }

    pub open spec fn spec_sub(self, o: Vec3Fp) -> Vec3Fp {
        Vec3Fp {
            x: fp_sub_spec(self.x as int, o.x as int) as i64,
            y: fp_sub_spec(self.y as int, o.y as int) as i64,
            z: fp_sub_spec(self.z as int, o.z as int) as i64,
        }
    }

    pub fn sub(self, o: Vec3Fp) -> (r: Vec3Fp)
        ensures
            r == self.spec_sub(o),
    {
        Vec3Fp { x: fp_sub(self.x, o.x), y: fp_sub(self.y, o.y), z: fp_sub(self.z, o.z) }
    }

    pub open spec fn spec_neg(self) -> Vec3Fp {
        Vec3Fp {
            x: sat_i64(-(self.x as int)) as i64,
            y: sat_i64(-(self.y as int)) as i64,
            z: sat_i64(-(self.z as int)) as i64,
        }
    }

    pub fn neg(self) -> (r: Vec3Fp)
        ensures
            r == self.spec_neg(),
    {
        Vec3Fp { x: fp_neg(self.x), y: fp_neg(self.y), z: fp_neg(self.z) }
    }

    /// Componentwise scaling by a fixed-point factor.
    pub open spec fn spec_scale(self, t: int) -> Vec3Fp {
        Vec3Fp {
            x: fp_mul_spec(self.x as int, t) as i64,
            y: fp_mul_spec(self.y as int, t) as i64,
            z: fp_mul_spec(self.z as int, t) as i64,
        }
    }

    pub fn scale(self, t: i64) -> (r: Vec3Fp)
        ensures
            r == self.spec_scale(t as int),
    {
        Vec3Fp { x: fp_mul(self.x, t), y: fp_mul(self.y, t), z: fp_mul(self.z, t) }
    }

    /// Fixed-point dot product.
    pub open spec fn spec_dot(self, o: Vec3Fp) -> int {
        fp_add_spec(
            fp_add_spec(
                fp_mul_spec(self.x as int, o.x as int),
                fp_mul_spec(self.y as int, o.y as int),
            ),
            fp_mul_spec(self.z as int, o.z as int),
        )
    }

    pub fn dot(self, o: Vec3Fp) -> (r: i64)
        ensures
            r == self.spec_dot(o),
    {
        fp_add(fp_add(fp_mul(self.x, o.x), fp_mul(self.y, o.y)), fp_mul(self.z, o.z))
    }

    /// Euclidean length of the vector.
    pub open spec fn spec_length(self) -> int {
        fp_len3_spec(self.x as int, self.y as int, self.z as int)
    }

    pub fn length(self) -> (r: i64)
        ensures
            r == self.spec_length(),
    {
        fp_len3(self.x, self.y, self.z)
    }

    /// Componentwise division by the vector's own length; the zero vector
    /// stays in place.
    pub open spec fn spec_normalize(self) -> Vec3Fp {
        let l = self.spec_length();
        if l == 0 {
            self
        } else {
            Vec3Fp {
                x: fp_div_spec(self.x as int, l) as i64,
                y: fp_div_spec(self.y as int, l) as i64,
                z: fp_div_spec(self.z as int, l) as i64,
            }
        }
    }

    pub fn normalize(self) -> (r: Vec3Fp)
        ensures
            r == self.spec_normalize(),
    {
        let l: i64 = self.length();
        if l == 0 {
            self
        } else {
            Vec3Fp { x: fp_div(self.x, l), y: fp_div(self.y, l), z: fp_div(self.z, l) }
        }
    }

    /// Fixed-point cross product.
    pub open spec fn spec_cross(self, o: Vec3Fp) -> Vec3Fp {
        Vec3Fp {
            x: fp_sub_spec(
                fp_mul_spec(self.y as int, o.z as int),
                fp_mul_spec(self.z as int, o.y as int),
            ) as i64,
            y: fp_sub_spec(
                fp_mul_spec(self.z as int, o.x as int),
                fp_mul_spec(self.x as int, o.z as int),
            ) as i64,
            z: fp_sub_spec(
                fp_mul_spec(self.x as int, o.y as int),
                fp_mul_spec(self.y as int, o.x as int),
            ) as i64,
        }
    }

    pub fn cross(self, o: Vec3Fp) -> (r: Vec3Fp)
        ensures
            r == self.spec_cross(o),
    {
        Vec3Fp {
            x: fp_sub(fp_mul(self.y, o.z), fp_mul(self.z, o.y)),
            y: fp_sub(fp_mul(self.z, o.x), fp_mul(self.x, o.z)),
            z: fp_sub(fp_mul(self.x, o.y), fp_mul(self.y, o.x)),
        }
    }
}

} // verus!
