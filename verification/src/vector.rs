//! Fixed-point vectors in two, three and four dimensions, with the
//! homogeneous-coordinate conversions of the pipeline: lifting a point by
//! appending a 1 coordinate, and projecting it back down by a perspective
//! divide.

use vstd::prelude::*;
use crate::fx::{
    Fx, fx_of, fx_add, fx_sub, fx_mul, fx_div, fx_norm3_spec, isqrt_spec, sat_i64,
    lemma_i64_mul_fits, isqrt_u128,
};

verus! {

/// A 2D fixed-point vector.
#[derive(Clone, Copy, PartialEq, Eq, Structural, Debug)]
pub struct Fx2 {
    pub x: Fx,
    pub y: Fx,
}

/// A 3D fixed-point vector.
#[derive(Clone, Copy, PartialEq, Eq, Structural, Debug)]
pub struct Fx3 {
    pub x: Fx,
    pub y: Fx,
    pub z: Fx,
}

/// A 4D (homogeneous) fixed-point vector.
#[derive(Clone, Copy, PartialEq, Eq, Structural, Debug)]
pub struct Fx4 {
    pub x: Fx,
    pub y: Fx,
    pub z: Fx,
    pub w: Fx,
}

/// Componentwise subtraction of 3D vectors.
pub open spec fn v3_sub_spec(a: Fx3, b: Fx3) -> Fx3 {
    Fx3 {
        x: fx_of(fx_sub(a.x.v(), b.x.v())),
        y: fx_of(fx_sub(a.y.v(), b.y.v())),
        z: fx_of(fx_sub(a.z.v(), b.z.v())),
    }
}

/// The cross product of 3D vectors.
pub open spec fn v3_cross_spec(a: Fx3, b: Fx3) -> Fx3 {
    Fx3 {
        x: fx_of(fx_sub(fx_mul(a.y.v(), b.z.v()), fx_mul(a.z.v(), b.y.v()))),
        y: fx_of(fx_sub(fx_mul(a.z.v(), b.x.v()), fx_mul(a.x.v(), b.z.v()))),
        z: fx_of(fx_sub(fx_mul(a.x.v(), b.y.v()), fx_mul(a.y.v(), b.x.v()))),
    }
}

/// The dot product of 3D vectors.
pub open spec fn v3_dot_spec(a: Fx3, b: Fx3) -> int {
    fx_add(fx_add(fx_mul(a.x.v(), b.x.v()), fx_mul(a.y.v(), b.y.v())), fx_mul(a.z.v(), b.z.v()))
}

/// The Euclidean norm of a 3D vector.
pub open spec fn v3_norm_spec(a: Fx3) -> int {
    fx_norm3_spec(a.x.v(), a.y.v(), a.z.v())
}

/// The vector scaled to unit length: each component divided by the norm.
/// A zero vector divides by zero, which saturates componentwise.
pub open spec fn v3_normalize_spec(a: Fx3) -> Fx3 {
    let n = v3_norm_spec(a);
    Fx3 {
        x: fx_of(fx_div(a.x.v(), n)),
        y: fx_of(fx_div(a.y.v(), n)),
        z: fx_of(fx_div(a.z.v(), n)),
    }
}

/// Perspective projection of a 3D vector to 2D: divide x and y by z.
pub open spec fn project_to_2d_spec(v: Fx3) -> Fx2 {
    Fx2 { x: fx_of(fx_div(v.x.v(), v.z.v())), y: fx_of(fx_div(v.y.v(), v.z.v())) }
}

/// Perspective projection of a 4D vector to 3D: divide x, y and z by w.
pub open spec fn project_to_3d_spec(v: Fx4) -> Fx3 {
    Fx3 {
        x: fx_of(fx_div(v.x.v(), v.w.v())),
        y: fx_of(fx_div(v.y.v(), v.w.v())),
        z: fx_of(fx_div(v.z.v(), v.w.v())),
    }
}

impl Fx2 {
    pub fn new(x: Fx, y: Fx) -> (r: Fx2)
        ensures
            r == (Fx2 { x, y }),
    {
        Fx2 { x, y }
    }

    pub fn zeros() -> (r: Fx2)
        ensures
            r == (Fx2 { x: fx_of(0), y: fx_of(0) }),
    {
        Fx2 { x: Fx::zero(), y: Fx::zero() }
    }
}

impl Fx3 {
    pub fn new(x: Fx, y: Fx, z: Fx) -> (r: Fx3)
        ensures
            r == (Fx3 { x, y, z }),
    {
        Fx3 { x, y, z }
    }

    pub fn zeros() -> (r: Fx3)
        ensures
            r == (Fx3 { x: fx_of(0), y: fx_of(0), z: fx_of(0) }),
    {
        Fx3 { x: Fx::zero(), y: Fx::zero(), z: Fx::zero() }
    }

    pub fn sub(self, o: Fx3) -> (r: Fx3)
        ensures
            r == v3_sub_spec(self, o),
    {
        Fx3 { x: self.x.sub(o.x), y: self.y.sub(o.y), z: self.z.sub(o.z) }
    }

    pub fn cross(self, o: Fx3) -> (r: Fx3)
        ensures
            r == v3_cross_spec(self, o),
    {
        Fx3 {
            x: self.y.mul(o.z).sub(self.z.mul(o.y)),
            y: self.z.mul(o.x).sub(self.x.mul(o.z)),
            z: self.x.mul(o.y).sub(self.y.mul(o.x)),
        }
    }

    pub fn dot(self, o: Fx3) -> (r: Fx)
        ensures
            r.v() == v3_dot_spec(self, o),
    {
        self.x.mul(o.x).add(self.y.mul(o.y)).add(self.z.mul(o.z))
    }

    /// The Euclidean norm, computed as the integer square root of the sum of
    /// the squared raw components.
    pub fn norm(self) -> (r: Fx)
        ensures
            r.v() == v3_norm_spec(self),
    {
        let sx = square_to_u128(self.x.raw);
        let sy = square_to_u128(self.y.raw);
        let sz = square_to_u128(self.z.raw);
        proof {
            assert(sx <= 0x4000_0000_0000_0000_0000_0000_0000_0000u128 && sy
                <= 0x4000_0000_0000_0000_0000_0000_0000_0000u128 && sz
                <= 0x4000_0000_0000_0000_0000_0000_0000_0000u128) by (nonlinear_arith)
                requires
                    sx == (self.x.raw as int) * (self.x.raw as int),
                    sy == (self.y.raw as int) * (self.y.raw as int),
                    sz == (self.z.raw as int) * (self.z.raw as int),
                    i64::MIN <= self.x.raw <= i64::MAX,
                    i64::MIN <= self.y.raw <= i64::MAX,
                    i64::MIN <= self.z.raw <= i64::MAX,
            ;
        }
        let s = sx + sy + sz;
        let rt = isqrt_u128(s);
        if rt > i64::MAX as u128 {
            Fx { raw: i64::MAX }
        } else {
            Fx { raw: rt as i64 }
        }
    }

    /// The vector scaled to unit length.
    pub fn normalize(self) -> (r: Fx3)
        ensures
            r == v3_normalize_spec(self),
    {
        let n = self.norm();
        Fx3 { x: self.x.div(n), y: self.y.div(n), z: self.z.div(n) }
    }
}

impl Fx4 {
    pub fn new(x: Fx, y: Fx, z: Fx, w: Fx) -> (r: Fx4)
        ensures
            r == (Fx4 { x, y, z, w }),
    {
        Fx4 { x, y, z, w }
    }
}

/// The square of an `i64`, exact in a `u128`.
fn square_to_u128(a: i64) -> (r: u128)
    ensures
        r as int == (a as int) * (a as int),
{
    proof {
        lemma_i64_mul_fits(a as int, a as int);
        assert((a as int) * (a as int) >= 0) by (nonlinear_arith);
    }
    let aa = a as i128;
    let p = aa * aa;
    p as u128
}

/// Project 3D coordinates into 2D by dividing the x and y coordinates by the
/// z coordinate.
pub fn project_to_2d(vector: Fx3) -> (r: Fx2)
    ensures
        r == project_to_2d_spec(vector),
{
    Fx2 { x: vector.x.div(vector.z), y: vector.y.div(vector.z) }
}

/// Project 4D coordinates into 3D by dividing the x, y, and z coordinates by
/// the w coordinate.
pub fn project_to_3d(vector: Fx4) -> (r: Fx3)
    ensures
        r == project_to_3d_spec(vector),
{
    Fx3 { x: vector.x.div(vector.w), y: vector.y.div(vector.w), z: vector.z.div(vector.w) }
}

/// Create a 3D vector from a 2D point by setting the z coordinate to 1.
pub fn vectorize_to_3d(point: Fx2) -> (r: Fx3)
    ensures
        r == (Fx3 { x: point.x, y: point.y, z: fx_of(crate::fx::SCALE as int) }),
{
    Fx3 { x: point.x, y: point.y, z: Fx::one() }
}

/// Create a 4D vector from a 3D point by setting the w coordinate to 1.
pub fn vectorize_to_4d(point: Fx3) -> (r: Fx4)
    ensures
        r == (Fx4 { x: point.x, y: point.y, z: point.z, w: fx_of(crate::fx::SCALE as int) }),
{
    Fx4 { x: point.x, y: point.y, z: point.z, w: Fx::one() }
}

} // verus!
