//! Fixed-point scalars: signed values counted in millionths of a unit.
//!
//! Every operation is specified exactly over the raw integer count, with
//! division rounding toward zero, so callers can state frame arithmetic
//! (zoom factors, rotation deltas) to the last millionth.

use vstd::prelude::*;
use vstd::arithmetic::div_mod::{lemma_div_is_ordered, lemma_div_nonincreasing, lemma_div_pos_is_pos};

verus! {

/// Raw counts per unit: one unit is a million raw steps.
pub const FX_SCALE: i64 = 1_000_000;

/// A fixed-point scalar; its value is `raw / FX_SCALE` units.
#[derive(Clone, Copy, PartialEq, Eq, Structural, Debug)]
pub struct Fx {
    pub raw: i64,
}

/// Integer division rounding toward zero, the rounding the executable
/// operations below use.
pub open spec fn trunc_div(a: int, d: int) -> int {
    if a >= 0 {
        a / d
    } else {
        -((-a) / d)
    }
}

/// The raw count of the product of two fixed-point scalars.
pub open spec fn mul_raw(a: int, b: int) -> int {
    trunc_div(a * b, FX_SCALE as int)
}

/// Division by a positive divisor rounds toward zero, so the quotient's
/// magnitude never exceeds the dividend's.
pub proof fn lemma_trunc_div_bound(a: int, d: int, bound: int)
    requires
        1 <= d,
        -bound <= a <= bound,
    ensures
        -bound <= trunc_div(a, d) <= bound,
{
    if a >= 0 {
        lemma_div_pos_is_pos(a, d);
        lemma_div_nonincreasing(a, d);
    } else {
        lemma_div_pos_is_pos(-a, d);
        lemma_div_nonincreasing(-a, d);
    }
}

/// The scaled product of bounded scalars is bounded by the scaled product
/// of the bounds.
pub proof fn lemma_mul_raw_bound(a: int, b: int, ab: int, bb: int)
    requires
        -ab <= a <= ab,
        -bb <= b <= bb,
        0 <= ab,
        0 <= bb,
    ensures
        -((ab * bb) / (FX_SCALE as int)) <= mul_raw(a, b) <= (ab * bb) / (FX_SCALE as int),
{
    assert(-(ab * bb) <= a * b <= ab * bb) by (nonlinear_arith)
        requires
            -ab <= a <= ab,
            -bb <= b <= bb,
            0 <= ab,
            0 <= bb,
    ;
    let s: int = FX_SCALE as int;
    if a * b >= 0 {
        lemma_div_pos_is_pos(a * b, s);
        lemma_div_is_ordered(a * b, ab * bb, s);
    } else {
        lemma_div_pos_is_pos(-(a * b), s);
        lemma_div_is_ordered(-(a * b), ab * bb, s);
    }
}

/// Truncating division on wide integers; the building block of the
/// fixed-point operations.
fn i128_trunc_div(x: i128, d: i128) -> (q: i128)
    requires
        1 <= d,
        i128::MIN < x,
    ensures
        q == trunc_div(x as int, d as int),
        x >= 0 ==> 0 <= q <= x,
        x < 0 ==> x <= q <= 0,
{
    if x >= 0 {
        let ux: u128 = x as u128;
        let uq: u128 = ux / (d as u128);
        proof {
            lemma_div_pos_is_pos(x as int, d as int);
            lemma_div_nonincreasing(x as int, d as int);
        }
        uq as i128
    } else {
        let nx: i128 = -x;
        let un: u128 = nx as u128;
        let uq: u128 = un / (d as u128);
        proof {
            lemma_div_pos_is_pos(nx as int, d as int);
            lemma_div_nonincreasing(nx as int, d as int);
        }
        -(uq as i128)
    }
}

impl Fx {
    /// The zero scalar.
    pub fn zero() -> (r: Fx)
        ensures
            r.raw == 0,
    {
        Fx { raw: 0 }
    }

    pub fn add(self, other: Fx) -> (r: Fx)
        requires
            i64::MIN <= self.raw + other.raw <= i64::MAX,
        ensures
            r.raw == self.raw + other.raw,
    {
        Fx { raw: self.raw + other.raw }
    }

    pub fn sub(self, other: Fx) -> (r: Fx)
        requires
            i64::MIN <= self.raw - other.raw <= i64::MAX,
        ensures
            r.raw == self.raw - other.raw,
    {
        Fx { raw: self.raw - other.raw }
    }

    pub fn neg(self) -> (r: Fx)
        requires
            i64::MIN < self.raw,
        ensures
            r.raw == -self.raw,
    {
        Fx { raw: -self.raw }
    }

    /// The larger of two scalars.
    pub fn max_with(self, other: Fx) -> (r: Fx)
        ensures
            r.raw == vstd::math::max(self.raw as int, other.raw as int),
    {
        if self.raw >= other.raw {
            self
        } else {
            other
        }
    }

    /// The fixed-point product: `(self.raw * other.raw) / FX_SCALE`,
    /// rounded toward zero.
    pub fn mul_scaled(self, other: Fx) -> (r: Fx)
        requires
            i64::MIN <= mul_raw(self.raw as int, other.raw as int) <= i64::MAX,
        ensures
            r.raw == mul_raw(self.raw as int, other.raw as int),
    {
        let a: i128 = self.raw as i128;
        let b: i128 = other.raw as i128;
        proof {
            assert(-0x4000_0000_0000_0000_0000_0000_0000_0000
                <= a * b <= 0x4000_0000_0000_0000_0000_0000_0000_0000) by (nonlinear_arith)
                requires
                    -0x8000_0000_0000_0000 <= a <= 0x7fff_ffff_ffff_ffff,
                    -0x8000_0000_0000_0000 <= b <= 0x7fff_ffff_ffff_ffff,
            ;
        }
        let p: i128 = a * b;
        let q: i128 = i128_trunc_div(p, FX_SCALE as i128);
        Fx { raw: q as i64 }
    }

    /// Division of a scalar by a positive integer count (for example a
    /// viewport extent in pixels), rounded toward zero.
    pub fn div_int(self, d: i64) -> (r: Fx)
        requires
            1 <= d,
        ensures
            r.raw == trunc_div(self.raw as int, d as int),
    {
        // the magnitude of the quotient never exceeds the dividend's,
        // so widening and narrowing keep the value representable
        let q: i128 = i128_trunc_div(self.raw as i128, d as i128);
        Fx { raw: q as i64 }
    }
}

} // verus!
