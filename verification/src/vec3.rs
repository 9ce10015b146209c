//! Three-component fixed-point vectors.

use vstd::prelude::*;

use crate::fixed::{
    fx_add, fx_add_s, fx_clamp, fx_div, fx_div_s, fx_mul, fx_mul_s, fx_ok, fx_sub, fx_sub_s, isqrt,
    lemma_sqrt_floor, sqrt_floor, FX_MAX,
};

verus! {

/// A point or direction, each coordinate a 48.16 fixed-point scalar.
#[derive(Clone, Copy, Debug, PartialEq, Eq, Structural)]
pub struct Vec3 {
    pub x: i64,
    pub y: i64,
    pub z: i64,
}

/// All three coordinates are in the admitted fixed-point range.
pub open spec fn v3_ok(v: Vec3) -> bool {
    fx_ok(v.x) && fx_ok(v.y) && fx_ok(v.z)
}

pub open spec fn v3_add_s(a: Vec3, b: Vec3) -> Vec3 {
    Vec3 {
        x: fx_add_s(a.x as int, b.x as int) as i64,
        y: fx_add_s(a.y as int, b.y as int) as i64,
        z: fx_add_s(a.z as int, b.z as int) as i64,
    }
}

pub open spec fn v3_sub_s(a: Vec3, b: Vec3) -> Vec3 {
    Vec3 {
        x: fx_sub_s(a.x as int, b.x as int) as i64,
        y: fx_sub_s(a.y as int, b.y as int) as i64,
        z: fx_sub_s(a.z as int, b.z as int) as i64,
    }
}

pub open spec fn v3_scale_s(a: Vec3, s: int) -> Vec3 {
    Vec3 {
        x: fx_mul_s(a.x as int, s) as i64,
        y: fx_mul_s(a.y as int, s) as i64,
        z: fx_mul_s(a.z as int, s) as i64,
    }
}

pub open spec fn v3_dot_s(a: Vec3, b: Vec3) -> int {
    fx_add_s(
        fx_add_s(fx_mul_s(a.x as int, b.x as int), fx_mul_s(a.y as int, b.y as int)),
        fx_mul_s(a.z as int, b.z as int),
    )
}

pub open spec fn v3_cross_s(a: Vec3, b: Vec3) -> Vec3 {
    Vec3 {
        x: fx_sub_s(fx_mul_s(a.y as int, b.z as int), fx_mul_s(a.z as int, b.y as int)) as i64,
        y: fx_sub_s(fx_mul_s(a.z as int, b.x as int), fx_mul_s(a.x as int, b.z as int)) as i64,
        z: fx_sub_s(fx_mul_s(a.x as int, b.y as int), fx_mul_s(a.y as int, b.x as int)) as i64,
    }
}

/// Euclidean length of the raw coordinates, saturated into range.
pub open spec fn v3_len_s(a: Vec3) -> int {
    fx_clamp(sqrt_floor(a.x * a.x + a.y * a.y + a.z * a.z))
}

/// Unit vector along `a` (zero when `a` has zero length).
pub open spec fn v3_norm_s(a: Vec3) -> Vec3 {
    let l = v3_len_s(a);
    Vec3 {
        x: fx_div_s(a.x as int, l) as i64,
        y: fx_div_s(a.y as int, l) as i64,
        z: fx_div_s(a.z as int, l) as i64,
    }
}

impl Vec3 {
    /// The zero vector.
    pub fn zero() -> (r: Vec3)
        ensures
            r == (Vec3 { x: 0, y: 0, z: 0 }),
    {
        Vec3 { x: 0, y: 0, z: 0 }
    }

    /// Component-wise saturating addition.
    pub fn plus(self, b: Vec3) -> (r: Vec3)
        requires
            v3_ok(self),
            v3_ok(b),
        ensures
            r == v3_add_s(self, b),
            v3_ok(r),
    {
        Vec3 { x: fx_add(self.x, b.x), y: fx_add(self.y, b.y), z: fx_add(self.z, b.z) }
    }

    /// Component-wise saturating subtraction.
    pub fn minus(self, b: Vec3) -> (r: Vec3)
        requires
            v3_ok(self),
            v3_ok(b),
        ensures
            r == v3_sub_s(self, b),
            v3_ok(r),
    {
        Vec3 { x: fx_sub(self.x, b.x), y: fx_sub(self.y, b.y), z: fx_sub(self.z, b.z) }
    }

    /// Scaling by a fixed-point factor.
    pub fn scale(self, s: i64) -> (r: Vec3)
        requires
            v3_ok(self),
            fx_ok(s),
        ensures
            r == v3_scale_s(self, s as int),
            v3_ok(r),
    {
        Vec3 { x: fx_mul(self.x, s), y: fx_mul(self.y, s), z: fx_mul(self.z, s) }
    }

    /// Fixed-point dot product.
    pub fn dot(self, b: Vec3) -> (r: i64)
        requires
            v3_ok(self),
            v3_ok(b),
        ensures
            r == v3_dot_s(self, b),
            fx_ok(r),
    {
        fx_add(fx_add(fx_mul(self.x, b.x), fx_mul(self.y, b.y)), fx_mul(self.z, b.z))
    }

    /// Fixed-point cross product.
    pub fn cross(self, b: Vec3) -> (r: Vec3)
        requires
            v3_ok(self),
            v3_ok(b),
        ensures
            r == v3_cross_s(self, b),
            v3_ok(r),
    {
        Vec3 {
            x: fx_sub(fx_mul(self.y, b.z), fx_mul(self.z, b.y)),
            y: fx_sub(fx_mul(self.z, b.x), fx_mul(self.x, b.z)),
            z: fx_sub(fx_mul(self.x, b.y), fx_mul(self.y, b.x)),
        }
    }

    /// Euclidean length of the raw coordinates, saturated into range.
    pub fn length(self) -> (r: i64)
        requires
            v3_ok(self),
        ensures
            r == v3_len_s(self),
            0 <= r <= FX_MAX,
    {
        let ux: u64 = if self.x < 0 { (-self.x) as u64 } else { self.x as u64 };
        let uy: u64 = if self.y < 0 { (-self.y) as u64 } else { self.y as u64 };
        let uz: u64 = if self.z < 0 { (-self.z) as u64 } else { self.z as u64 };
        proof {
            assert((ux as int) * (ux as int) == (self.x as int) * (self.x as int)
                && (ux as int) * (ux as int) <= (FX_MAX as int) * (FX_MAX as int))
                by (nonlinear_arith)
                requires
                    ux == vstd::math::abs(self.x as int),
                    -FX_MAX <= self.x <= FX_MAX,
            ;
            assert((uy as int) * (uy as int) == (self.y as int) * (self.y as int)
                && (uy as int) * (uy as int) <= (FX_MAX as int) * (FX_MAX as int))
                by (nonlinear_arith)
                requires
                    uy == vstd::math::abs(self.y as int),
                    -FX_MAX <= self.y <= FX_MAX,
            ;
            assert((uz as int) * (uz as int) == (self.z as int) * (self.z as int)
                && (uz as int) * (uz as int) <= (FX_MAX as int) * (FX_MAX as int))
                by (nonlinear_arith)
                requires
                    uz == vstd::math::abs(self.z as int),
                    -FX_MAX <= self.z <= FX_MAX,
            ;
        }
        let s: u64 = ux * ux + uy * uy + uz * uz;
        let r: u64 = isqrt(s);
        proof {
            lemma_sqrt_floor(s as int);
        }
        if r > FX_MAX as u64 {
            FX_MAX
        } else {
            r as i64
        }
    }

    /// Unit vector along `self` (zero when the length is zero).
    pub fn normalized(self) -> (r: Vec3)
        requires
            v3_ok(self),
        ensures
            r == v3_norm_s(self),
            v3_ok(r),
    {
        let l = self.length();
        Vec3 { x: fx_div(self.x, l), y: fx_div(self.y, l), z: fx_div(self.z, l) }
    }
}

} // verus!
