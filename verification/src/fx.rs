//! Fixed-point scalars.
//!
//! Every real-valued quantity of the renderer (coordinates, matrix entries,
//! light intensities, depth values) is a binary fixed-point number: an `i64`
//! holding the value times `SCALE`. All operations saturate at the `i64`
//! range instead of wrapping or panicking, so every function here is total
//! and its result is pinned exactly by a spec function.

use vstd::prelude::*;

verus! {

/// Raw units per 1.0: fixed-point values carry 16 fractional bits.
pub const SCALE: i64 = 65536;

/// Saturate a mathematical integer into the `i64` range.
pub open spec fn sat_i64(x: int) -> int {
    if x > i64::MAX as int {
        i64::MAX as int
    } else if x < i64::MIN as int {
        i64::MIN as int
    } else {
        x
    }
}

/// Saturate a mathematical integer into the `i128` range.
pub open spec fn sat_i128(x: int) -> int {
    if x > i128::MAX as int {
        i128::MAX as int
    } else if x < i128::MIN as int {
        i128::MIN as int
    } else {
        x
    }
}

/// Division truncated toward zero: the rounding used by machine division.
/// The result on `b == 0` is 0 here; the callers that can divide by zero
/// (`fx_div`, `sdiv128_spec`) handle that case before applying `tdiv`.
pub open spec fn tdiv(a: int, b: int) -> int {
    if a == 0 {
        0
    } else if a > 0 && b > 0 {
        a / b
    } else if a < 0 && b < 0 {
        (a * -1) / (b * -1)
    } else if a < 0 {
        ((a * -1) / b) * -1
    } else {
        (a / (b * -1)) * -1
    }
}

/// Saturating fixed-point addition.
pub open spec fn fx_add(a: int, b: int) -> int {
    sat_i64(a + b)
}

/// Saturating fixed-point subtraction.
pub open spec fn fx_sub(a: int, b: int) -> int {
    sat_i64(a - b)
}

/// Saturating fixed-point multiplication: the raw product carries twice the
/// scale, so it is divided back down by `SCALE`, truncating toward zero.
pub open spec fn fx_mul(a: int, b: int) -> int {
    sat_i64(tdiv(a * b, SCALE as int))
}

/// Saturating fixed-point division. A zero divisor saturates to the signed
/// end of the range, standing in for the infinities of real arithmetic.
pub open spec fn fx_div(a: int, b: int) -> int {
    if b == 0 {
        if a >= 0 {
            i64::MAX as int
        } else {
            i64::MIN as int
        }
    } else {
        sat_i64(tdiv(a * (SCALE as int), b))
    }
}

/// Saturating negation (`-i64::MIN` saturates to `i64::MAX`).
pub open spec fn fx_neg(a: int) -> int {
    sat_i64(-a)
}

/// Saturating absolute value.
pub open spec fn fx_abs(a: int) -> int {
    sat_i64(if a < 0 { -a } else { a })
}

/// The larger of two values.
pub open spec fn fx_max(a: int, b: int) -> int {
    if a >= b {
        a
    } else {
        b
    }
}

/// The product of two `i64`-range values stays in the `i128` range.
pub proof fn lemma_i64_mul_fits(a: int, b: int)
    requires
        i64::MIN <= a <= i64::MAX,
        i64::MIN <= b <= i64::MAX,
    ensures
        i128::MIN < a * b <= i128::MAX,
{
    assert((-0x8000_0000_0000_0000 <= a <= 0x7fff_ffff_ffff_ffff && -0x8000_0000_0000_0000 <= b
        <= 0x7fff_ffff_ffff_ffff) ==> -0x4000_0000_0000_0000_0000_0000_0000_0000 <= a * b
        <= 0x4000_0000_0000_0000_0000_0000_0000_0000) by (nonlinear_arith);
}

/// The integer square root: the largest `r` with `r * r <= n`.
pub open spec fn isqrt_spec(n: nat) -> nat
    decreases n,
{
    if n == 0 {
        0
    } else {
        let r = isqrt_spec((n - 1) as nat);
        if (r + 1) * (r + 1) <= n {
            r + 1
        } else {
            r
        }
    }
}

/// `isqrt_spec(n)` is bracketed by the two neighbouring squares.
pub proof fn lemma_isqrt_bounds(n: nat)
    ensures
        isqrt_spec(n) * isqrt_spec(n) <= n,
        n < (isqrt_spec(n) + 1) * (isqrt_spec(n) + 1),
    decreases n,
{
    if n > 0 {
        lemma_isqrt_bounds((n - 1) as nat);
        let r = isqrt_spec((n - 1) as nat);
        if (r + 1) * (r + 1) <= n {
            assert(isqrt_spec(n) == r + 1);
            assert(isqrt_spec(n) * isqrt_spec(n) <= n);
            assert(n <= (r + 1) * (r + 1));
            assert((r + 1) * (r + 1) < (r + 2) * (r + 2)) by (nonlinear_arith);
            assert(n < (r + 2) * (r + 2));
            assert(isqrt_spec(n) + 1 == r + 2);
            assert((isqrt_spec(n) + 1) * (isqrt_spec(n) + 1) == (r + 2) * (r + 2));
            assert(n < (isqrt_spec(n) + 1) * (isqrt_spec(n) + 1));
        } else {
            assert(isqrt_spec(n) == r);
            assert(isqrt_spec(n) * isqrt_spec(n) <= n);
            assert(n < (isqrt_spec(n) + 1) * (isqrt_spec(n) + 1));
        }
    } else {
        assert(isqrt_spec(n) == 0);
        assert(isqrt_spec(n) * isqrt_spec(n) <= n);
        assert(n < (isqrt_spec(n) + 1) * (isqrt_spec(n) + 1)) by (nonlinear_arith)
            requires
                n == 0nat && isqrt_spec(n) == 0nat,
        ;
    }
}

/// Any `r` bracketed by the neighbouring squares of `n` is its square root.
pub proof fn lemma_isqrt_unique(n: nat, r: nat)
    requires
        r * r <= n,
        n < (r + 1) * (r + 1),
    ensures
        r == isqrt_spec(n),
{
    lemma_isqrt_bounds(n);
    let s = isqrt_spec(n);
    if r < s {
        assert((r + 1) * (r + 1) <= s * s) by (nonlinear_arith)
            requires
                r + 1 <= s,
        ;
    } else if s < r {
        assert((s + 1) * (s + 1) <= r * r) by (nonlinear_arith)
            requires
                s + 1 <= r,
        ;
    }
}

/// The Euclidean norm of a 3D raw vector: the integer square root of the sum
/// of the squares, saturated into the `i64` range.
pub open spec fn fx_norm3_spec(x: int, y: int, z: int) -> int {
    sat_i64(isqrt_spec((x * x + y * y + z * z) as nat) as int)
}

/// Binary search for the integer square root of a `u128`.
pub fn isqrt_u128(n: u128) -> (r: u128)
    ensures
        r as nat == isqrt_spec(n as nat),
{
    let mut lo: u128 = 0;
    let mut hi: u128 = if n > 0xffff_ffff_ffff_ffff {
        0xffff_ffff_ffff_ffff
    } else {
        n
    };
    proof {
        if n > 0xffff_ffff_ffff_ffff {
            assert(n < (0xffff_ffff_ffff_ffffnat + 1) * (0xffff_ffff_ffff_ffffnat + 1))
                by (nonlinear_arith)
                requires
                    n <= u128::MAX,
            ;
        } else {
            assert((n as nat) < (n as nat + 1) * (n as nat + 1)) by (nonlinear_arith);
        }
    }
    while lo < hi
        invariant
            lo <= hi,
            hi <= 0xffff_ffff_ffff_ffff,
            lo * lo <= n,
            (n as nat) < (hi as nat + 1) * (hi as nat + 1),
        decreases hi - lo,
    {
        let mid = lo + (hi - lo + 1) / 2;
        proof {
            assert(mid * mid <= 0xffff_ffff_ffff_ffff * 0xffff_ffff_ffff_ffff)
                by (nonlinear_arith)
                requires
                    mid <= 0xffff_ffff_ffff_ffff,
            ;
        }
        if mid * mid <= n {
            lo = mid;
        } else {
            hi = mid - 1;
        }
    }
    proof {
        lemma_isqrt_unique(n as nat, lo as nat);
    }
    lo
}

/// A fixed-point scalar: the represented value is `raw / SCALE`.
#[derive(Clone, Copy, PartialEq, Eq, Structural, Debug)]
pub struct Fx {
    pub raw: i64,
}

/// The scalar with the given raw value, for use in specifications.
pub open spec fn fx_of(r: int) -> Fx {
    Fx { raw: r as i64 }
}

/// Truncating division on `i128`. The one overflowing quotient,
/// `i128::MIN / -1`, is excluded by the precondition.
pub fn tdiv_i128(a: i128, b: i128) -> (r: i128)
    requires
        b != 0,
        !(a == i128::MIN && b == -1),
    ensures
        r == tdiv(a as int, b as int),
{
    proof {
        let aa = if a >= 0 {
            a as int
        } else {
            -(a as int)
        };
        let bb = if b >= 0 {
            b as int
        } else {
            -(b as int)
        };
        if a != 0 {
            vstd::arithmetic::div_mod::lemma_div_pos_is_pos(aa, bb);
            if a > i128::MIN {
                vstd::arithmetic::div_mod::lemma_div_nonincreasing(aa, bb);
            } else if bb >= 2 {
                vstd::arithmetic::div_mod::lemma_div_is_ordered_by_denominator(aa, 2, bb);
            } else {
                assert(aa / 1int == aa);
            }
        }
    }
    let q = a.checked_div(b);
    q.unwrap()
}

/// Clamp an `i128` into the `i64` range.
pub fn clamp_to_i64(q: i128) -> (r: i64)
    ensures
        r as int == sat_i64(q as int),
{
    if q > i64::MAX as i128 {
        i64::MAX
    } else if q < i64::MIN as i128 {
        i64::MIN
    } else {
        q as i64
    }
}

/// Saturating `i128` addition.
pub fn sadd_i128(a: i128, b: i128) -> (r: i128)
    ensures
        r as int == sat_i128(a + b),
{
    match a.checked_add(b) {
        Some(s) => s,
        None => if a >= 0 {
            i128::MAX
        } else {
            i128::MIN
        },
    }
}

/// Saturating `i128` subtraction.
pub fn ssub_i128(a: i128, b: i128) -> (r: i128)
    ensures
        r as int == sat_i128(a - b),
{
    match a.checked_sub(b) {
        Some(s) => s,
        None => if a >= 0 {
            i128::MAX
        } else {
            i128::MIN
        },
    }
}

/// Saturating `i128` multiplication.
pub fn smul_i128(a: i128, b: i128) -> (r: i128)
    ensures
        r as int == sat_i128(a * b),
{
    match a.checked_mul(b) {
        Some(p) => p,
        None => {
            proof {
                assert(a >= 0 && b >= 0 ==> a * b >= 0) by (nonlinear_arith);
                assert(a < 0 && b < 0 ==> a * b > 0) by (nonlinear_arith);
                assert(a >= 0 && b < 0 ==> a * b <= 0) by (nonlinear_arith);
                assert(a < 0 && b >= 0 ==> a * b <= 0) by (nonlinear_arith);
            }
            if (a >= 0) == (b >= 0) {
                i128::MAX
            } else {
                i128::MIN
            }
        },
    }
}

/// What a saturating `i128` quotient is: truncating division, saturated, with
/// a zero divisor sent to the signed end of the range.
pub open spec fn sdiv128_spec(a: int, b: int) -> int {
    if b == 0 {
        if a >= 0 {
            i128::MAX as int
        } else {
            i128::MIN as int
        }
    } else {
        sat_i128(tdiv(a, b))
    }
}

/// Saturating `i128` division, total in both arguments.
pub fn sdiv_i128(a: i128, b: i128) -> (r: i128)
    ensures
        r as int == sdiv128_spec(a as int, b as int),
{
    if b == 0 {
        if a >= 0 {
            i128::MAX
        } else {
            i128::MIN
        }
    } else if a == i128::MIN && b == -1 {
        proof {
            assert(tdiv(a as int, b as int) == -(i128::MIN as int)) by {
                assert((-(i128::MIN as int)) / 1int == -(i128::MIN as int));
            }
        }
        i128::MAX
    } else {
        tdiv_i128(a, b)
    }
}

impl Fx {
    /// The raw representation as a mathematical integer.
    pub open spec fn v(self) -> int {
        self.raw as int
    }

    /// The whole number `i`, as a fixed-point value.
    pub fn from_int(i: i64) -> (r: Fx)
        ensures
            r.raw as int == sat_i64(i * (SCALE as int)),
    {
        proof {
            lemma_i64_mul_fits(i as int, SCALE as int);
        }
        let p = (i as i128) * (SCALE as i128);
        Fx { raw: clamp_to_i64(p) }
    }

    /// The fixed-point value with the given raw representation.
    pub fn from_raw(raw: i64) -> (r: Fx)
        ensures
            r.raw == raw,
    {
        Fx { raw }
    }

    /// Zero.
    pub fn zero() -> (r: Fx)
        ensures
            r.raw == 0,
    {
        Fx { raw: 0 }
    }

    /// One.
    pub fn one() -> (r: Fx)
        ensures
            r.raw == SCALE,
    {
        Fx { raw: SCALE }
    }

    /// The whole part of the value, truncated toward zero.
    pub fn trunc(self) -> (r: i64)
        ensures
            r as int == tdiv(self.raw as int, SCALE as int),
    {
        let q = tdiv_i128(self.raw as i128, SCALE as i128);
        proof {
            let aa = if self.raw >= 0 {
                self.raw as int
            } else {
                -(self.raw as int)
            };
            if self.raw != 0 {
                vstd::arithmetic::div_mod::lemma_div_nonincreasing(aa, SCALE as int);
                vstd::arithmetic::div_mod::lemma_div_pos_is_pos(aa, SCALE as int);
            }
        }
        q as i64
    }

    pub fn add(self, o: Fx) -> (r: Fx)
        ensures
            r.raw as int == fx_add(self.raw as int, o.raw as int),
    {
        match self.raw.checked_add(o.raw) {
            Some(s) => Fx { raw: s },
            None => if self.raw >= 0 {
                Fx { raw: i64::MAX }
            } else {
                Fx { raw: i64::MIN }
            },
        }
    }

    pub fn sub(self, o: Fx) -> (r: Fx)
        ensures
            r.raw as int == fx_sub(self.raw as int, o.raw as int),
    {
        match self.raw.checked_sub(o.raw) {
            Some(s) => Fx { raw: s },
            None => if self.raw >= 0 {
                Fx { raw: i64::MAX }
            } else {
                Fx { raw: i64::MIN }
            },
        }
    }

    pub fn mul(self, o: Fx) -> (r: Fx)
        ensures
            r.raw as int == fx_mul(self.raw as int, o.raw as int),
    {
        proof {
            lemma_i64_mul_fits(self.raw as int, o.raw as int);
        }
        let p = (self.raw as i128) * (o.raw as i128);
        let q = tdiv_i128(p, SCALE as i128);
        Fx { raw: clamp_to_i64(q) }
    }

    pub fn div(self, o: Fx) -> (r: Fx)
        ensures
            r.raw as int == fx_div(self.raw as int, o.raw as int),
    {
        if o.raw == 0 {
            if self.raw >= 0 {
                Fx { raw: i64::MAX }
            } else {
                Fx { raw: i64::MIN }
            }
        } else {
            proof {
                lemma_i64_mul_fits(self.raw as int, SCALE as int);
            }
            let p = (self.raw as i128) * (SCALE as i128);
            let q = tdiv_i128(p, o.raw as i128);
            Fx { raw: clamp_to_i64(q) }
        }
    }

    pub fn neg(self) -> (r: Fx)
        ensures
            r.raw as int == fx_neg(self.raw as int),
    {
        if self.raw == i64::MIN {
            Fx { raw: i64::MAX }
        } else {
            Fx { raw: -self.raw }
        }
    }

    pub fn abs(self) -> (r: Fx)
        ensures
            r.raw as int == fx_abs(self.raw as int),
    {
        if self.raw < 0 {
            self.neg()
        } else {
            self
        }
    }

    pub fn max(self, o: Fx) -> (r: Fx)
        ensures
            r.raw as int == fx_max(self.raw as int, o.raw as int),
    {
        if self.raw >= o.raw {
            self
        } else {
            o
        }
    }
}

} // verus!
