//! 4x4 fixed-point matrices, stored as four row vectors. These carry the
//! view, projection and viewport transforms of the pipeline, which are
//! combined by matrix multiplication and applied to homogeneous vertices.

use vstd::prelude::*;
use crate::fx::{Fx, fx_of, fx_add, fx_mul, SCALE};
use crate::vector::Fx4;

verus! {

/// A 4x4 fixed-point matrix; `r0` through `r3` are its rows.
#[derive(Clone, Copy, PartialEq, Eq, Structural, Debug)]
pub struct Mat4 {
    pub r0: Fx4,
    pub r1: Fx4,
    pub r2: Fx4,
    pub r3: Fx4,
}

/// The dot product of two rows of four, saturating at every step.
pub open spec fn dot4_spec(a: Fx4, b: Fx4) -> int {
    fx_add(
        fx_add(fx_add(fx_mul(a.x.v(), b.x.v()), fx_mul(a.y.v(), b.y.v())), fx_mul(a.z.v(), b.z.v())),
        fx_mul(a.w.v(), b.w.v()),
    )
}

/// The identity matrix.
pub open spec fn mat_identity_spec() -> Mat4 {
    Mat4 {
        r0: Fx4 { x: fx_of(SCALE as int), y: fx_of(0), z: fx_of(0), w: fx_of(0) },
        r1: Fx4 { x: fx_of(0), y: fx_of(SCALE as int), z: fx_of(0), w: fx_of(0) },
        r2: Fx4 { x: fx_of(0), y: fx_of(0), z: fx_of(SCALE as int), w: fx_of(0) },
        r3: Fx4 { x: fx_of(0), y: fx_of(0), z: fx_of(0), w: fx_of(SCALE as int) },
    }
}

/// The columns of a matrix, as rows of its transpose.
pub open spec fn col0_spec(m: Mat4) -> Fx4 {
    Fx4 { x: m.r0.x, y: m.r1.x, z: m.r2.x, w: m.r3.x }
}

pub open spec fn col1_spec(m: Mat4) -> Fx4 {
    Fx4 { x: m.r0.y, y: m.r1.y, z: m.r2.y, w: m.r3.y }
}

pub open spec fn col2_spec(m: Mat4) -> Fx4 {
    Fx4 { x: m.r0.z, y: m.r1.z, z: m.r2.z, w: m.r3.z }
}

pub open spec fn col3_spec(m: Mat4) -> Fx4 {
    Fx4 { x: m.r0.w, y: m.r1.w, z: m.r2.w, w: m.r3.w }
}

/// One row of a matrix product: the row dotted with each column.
pub open spec fn mul_row_spec(a: Fx4, b: Mat4) -> Fx4 {
    Fx4 {
        x: fx_of(dot4_spec(a, col0_spec(b))),
        y: fx_of(dot4_spec(a, col1_spec(b))),
        z: fx_of(dot4_spec(a, col2_spec(b))),
        w: fx_of(dot4_spec(a, col3_spec(b))),
    }
}

/// The matrix product.
pub open spec fn mat_mul_spec(a: Mat4, b: Mat4) -> Mat4 {
    Mat4 {
        r0: mul_row_spec(a.r0, b),
        r1: mul_row_spec(a.r1, b),
        r2: mul_row_spec(a.r2, b),
        r3: mul_row_spec(a.r3, b),
    }
}

/// The matrix applied to a homogeneous column vector.
pub open spec fn mat_vec_spec(m: Mat4, v: Fx4) -> Fx4 {
    Fx4 {
        x: fx_of(dot4_spec(m.r0, v)),
        y: fx_of(dot4_spec(m.r1, v)),
        z: fx_of(dot4_spec(m.r2, v)),
        w: fx_of(dot4_spec(m.r3, v)),
    }
}

impl Fx4 {
    /// The saturating dot product of two rows of four.
    pub fn dot4(self, o: Fx4) -> (r: Fx)
        ensures
            r.v() == dot4_spec(self, o),
    {
        self.x.mul(o.x).add(self.y.mul(o.y)).add(self.z.mul(o.z)).add(self.w.mul(o.w))
    }
}

impl Mat4 {
    /// The identity matrix.
    pub fn identity() -> (r: Mat4)
        ensures
            r == mat_identity_spec(),
    {
        let zero = Fx::zero();
        let one = Fx::one();
        Mat4 {
            r0: Fx4 { x: one, y: zero, z: zero, w: zero },
            r1: Fx4 { x: zero, y: one, z: zero, w: zero },
            r2: Fx4 { x: zero, y: zero, z: one, w: zero },
            r3: Fx4 { x: zero, y: zero, z: zero, w: one },
        }
    }

    fn col0(self) -> (r: Fx4)
        ensures
            r == col0_spec(self),
    {
        Fx4 { x: self.r0.x, y: self.r1.x, z: self.r2.x, w: self.r3.x }
    }

    fn col1(self) -> (r: Fx4)
        ensures
            r == col1_spec(self),
    {
        Fx4 { x: self.r0.y, y: self.r1.y, z: self.r2.y, w: self.r3.y }
    }

    fn col2(self) -> (r: Fx4)
        ensures
            r == col2_spec(self),
    {
        Fx4 { x: self.r0.z, y: self.r1.z, z: self.r2.z, w: self.r3.z }
    }

    fn col3(self) -> (r: Fx4)
        ensures
            r == col3_spec(self),
    {
        Fx4 { x: self.r0.w, y: self.r1.w, z: self.r2.w, w: self.r3.w }
    }

    /// The matrix product `self * o`.
    pub fn mul_mat(self, o: Mat4) -> (r: Mat4)
        ensures
            r == mat_mul_spec(self, o),
    {
        let c0 = o.col0();
        let c1 = o.col1();
        let c2 = o.col2();
        let c3 = o.col3();
        Mat4 {
            r0: Fx4 {
                x: self.r0.dot4(c0),
                y: self.r0.dot4(c1),
                z: self.r0.dot4(c2),
                w: self.r0.dot4(c3),
            },
            r1: Fx4 {
                x: self.r1.dot4(c0),
                y: self.r1.dot4(c1),
                z: self.r1.dot4(c2),
                w: self.r1.dot4(c3),
            },
            r2: Fx4 {
                x: self.r2.dot4(c0),
                y: self.r2.dot4(c1),
                z: self.r2.dot4(c2),
                w: self.r2.dot4(c3),
            },
            r3: Fx4 {
                x: self.r3.dot4(c0),
                y: self.r3.dot4(c1),
                z: self.r3.dot4(c2),
                w: self.r3.dot4(c3),
            },
        }
    }

    /// The matrix applied to a homogeneous column vector.
    pub fn mul_vec(self, v: Fx4) -> (r: Fx4)
        ensures
            r == mat_vec_spec(self, v),
    {
        Fx4 { x: self.r0.dot4(v), y: self.r1.dot4(v), z: self.r2.dot4(v), w: self.r3.dot4(v) }
    }
}

} // verus!
