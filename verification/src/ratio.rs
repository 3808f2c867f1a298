//! An exact scalar for the beta formulas.
//!
//! [`Ratio`] is a quotient of two machine integers, read as the extended
//! real `num / den`.  A zero denominator plays the role that division by
//! zero plays for machine floats: `num > 0` is positive infinity, `num < 0`
//! negative infinity, and `0 / 0` the undefined value.  The arithmetic the
//! beta formulas need — division, squaring, a clamp against zero — is total
//! and exact wherever the result is representable; a numerator too large to
//! represent overflows to the infinity of its sign, and a denominator too
//! large underflows to zero.
//!
//! This gives the strategies a scalar whose degenerate cases (a converged
//! gradient, a vanishing denominator) behave the way the formulas expect,
//! while every step of the arithmetic remains a proved, executable function.

use crate::math::ScalarOps;
use vstd::prelude::*;

verus! {

/// A scalar `num / den`, with `den == 0` encoding the non-finite values.
#[derive(Clone, Copy, Debug, PartialEq, Eq, Structural)]
pub struct Ratio {
    /// Numerator.
    pub num: i64,
    /// Denominator; `0` encodes an infinity (or, with `num == 0`, the
    /// undefined value).
    pub den: i64,
}

impl Ratio {
    /// The undefined value `0 / 0`.
    pub open spec fn is_nan(self) -> bool {
        self.num == 0 && self.den == 0
    }

    /// A finite value: the denominator is non-zero.
    pub open spec fn is_finite(self) -> bool {
        self.den != 0
    }

    /// The value is zero, positive or positive infinity.  The sign is read
    /// from both fields, so a value stored with a negative denominator is
    /// judged by the quotient it denotes.
    pub open spec fn is_nonneg(self) -> bool {
        if self.den > 0 {
            self.num >= 0
        } else if self.den < 0 {
            self.num <= 0
        } else {
            self.num > 0
        }
    }

    /// The value is finite and strictly positive.
    pub open spec fn is_pos(self) -> bool {
        (self.den > 0 && self.num > 0) || (self.den < 0 && self.num < 0)
    }

    /// Numerator of the sign-normalized form (denominator made
    /// non-negative).
    pub open spec fn canon_num(self) -> int {
        if self.den < 0 {
            -(self.num as int)
        } else {
            self.num as int
        }
    }

    /// Denominator of the sign-normalized form.
    pub open spec fn canon_den(self) -> int {
        if self.den < 0 {
            -(self.den as int)
        } else {
            self.den as int
        }
    }
}

/// The `Ratio` that stands for the exact quotient `n / d`: the sign is moved
/// into the numerator, a numerator out of range overflows to the infinity of
/// its sign, and a denominator out of range underflows to zero.
pub open spec fn make_spec(n: int, d: int) -> Ratio {
    let n2: int = if d < 0 {
        -n
    } else {
        n
    };
    let d2: int = if d < 0 {
        -d
    } else {
        d
    };
    if n2 > i64::MAX as int || n2 < i64::MIN as int {
        Ratio { num: if n2 > 0 { 1i64 } else { -1i64 }, den: 0 }
    } else if d2 > i64::MAX as int {
        Ratio { num: 0, den: 1 }
    } else {
        Ratio { num: n2 as i64, den: d2 as i64 }
    }
}

/// Build the `Ratio` standing for `n / d`.
fn make(n: i128, d: i128) -> (r: Ratio)
    requires
        n != i128::MIN,
        d != i128::MIN,
    ensures
        r == make_spec(n as int, d as int),
{
    let n2: i128 = if d < 0 { -n } else { n };
    let d2: i128 = if d < 0 { -d } else { d };
    if n2 > i64::MAX as i128 || n2 < i64::MIN as i128 {
        Ratio { num: if n2 > 0 { 1 } else { -1 }, den: 0 }
    } else if d2 > i64::MAX as i128 {
        Ratio { num: 0, den: 1 }
    } else {
        Ratio { num: n2 as i64, den: d2 as i64 }
    }
}

/// The product of two `i64`s, computed exactly in a wider type.
fn mul_wide(a: i64, b: i64) -> (r: i128)
    ensures
        r as int == a as int * b as int,
        r != i128::MIN,
{
    proof {
        assert((a as int) * (b as int) < i128::MAX as int && (a as int) * (b as int)
            > i128::MIN as int) by (nonlinear_arith)
            requires
                i64::MIN as int <= a as int <= i64::MAX as int,
                i64::MIN as int <= b as int <= i64::MAX as int,
        ;
    }
    (a as i128) * (b as i128)
}

/// The sign-normalized fields of `x` as wide integers, so that products of
/// two of them are exact.
fn canon_parts(x: Ratio) -> (r: (i128, i128))
    ensures
        r.0 as int == x.canon_num(),
        r.1 as int == x.canon_den(),
        -9223372036854775808 <= r.0 as int <= 9223372036854775808,
        0 <= r.1 as int <= 9223372036854775808,
{
    if x.den < 0 {
        (-(x.num as i128), -(x.den as i128))
    } else {
        (x.num as i128, x.den as i128)
    }
}

/// The product of two sign-normalized fields, computed exactly.
fn mul_canon(a: i128, b: i128) -> (r: i128)
    requires
        -9223372036854775808 <= a as int <= 9223372036854775808,
        -9223372036854775808 <= b as int <= 9223372036854775808,
    ensures
        r as int == a as int * b as int,
        r != i128::MIN,
{
    proof {
        assert((a as int) * (b as int) < i128::MAX as int && (a as int) * (b as int)
            > i128::MIN as int) by (nonlinear_arith)
            requires
                -9223372036854775808 <= a as int <= 9223372036854775808,
                -9223372036854775808 <= b as int <= 9223372036854775808,
        ;
    }
    a * b
}

impl ScalarOps for Ratio {
    open spec fn zero_spec() -> Ratio {
        Ratio { num: 0, den: 1 }
    }

    open spec fn div_spec(self, other: Ratio) -> Ratio {
        make_spec(
            self.canon_num() * other.canon_den(),
            self.canon_den() * other.canon_num(),
        )
    }

    open spec fn max_spec(self, other: Ratio) -> Ratio {
        if self.is_nan() {
            other
        } else if other.is_nan() {
            self
        } else if self.canon_num() * other.canon_den() >= other.canon_num()
            * self.canon_den() {
            self
        } else {
            other
        }
    }

    open spec fn square_spec(self) -> Ratio {
        make_spec(
            self.num as int * self.num as int,
            self.den as int * self.den as int,
        )
    }

    open spec fn is_finite(self) -> bool {
        self.is_finite()
    }

    open spec fn is_nonneg(self) -> bool {
        self.is_nonneg()
    }

    open spec fn is_pos(self) -> bool {
        self.is_pos()
    }

    fn zero() -> (r: Ratio) {
        Ratio { num: 0, den: 1 }
    }

    fn div(self, other: Ratio) -> (r: Ratio) {
        let a = canon_parts(self);
        let b = canon_parts(other);
        make(mul_canon(a.0, b.1), mul_canon(a.1, b.0))
    }

    fn max(self, other: Ratio) -> (r: Ratio) {
        if self.num == 0 && self.den == 0 {
            other
        } else if other.num == 0 && other.den == 0 {
            self
        } else {
            let a = canon_parts(self);
            let b = canon_parts(other);
            if mul_canon(a.0, b.1) >= mul_canon(b.0, a.1) {
                self
            } else {
                other
            }
        }
    }

    fn square(self) -> (r: Ratio) {
        make(mul_wide(self.num, self.num), mul_wide(self.den, self.den))
    }

    proof fn lemma_div_nonneg(a: Ratio, b: Ratio) {
        let an = a.canon_num();
        let ad = a.canon_den();
        let bn = b.canon_num();
        let bd = b.canon_den();
        assert(an >= 0 && ad >= 0 && (ad == 0 ==> an > 0));
        assert(bn > 0 && bd > 0);
        assert(an * bd >= 0) by (nonlinear_arith)
            requires
                an >= 0,
                bd > 0,
        ;
        assert(ad * bn >= 0) by (nonlinear_arith)
            requires
                ad >= 0,
                bn > 0,
        ;
        assert(ad * bn == 0 ==> ad == 0) by (nonlinear_arith)
            requires
                bn > 0,
        ;
        assert(ad == 0 ==> an * bd > 0) by (nonlinear_arith)
            requires
                ad == 0 ==> an > 0,
                bd > 0,
        ;
    }

    proof fn lemma_div_zero_denominator(a: Ratio) {
        let an = a.canon_num();
        let ad = a.canon_den();
        assert(Ratio::zero_spec().canon_num() == 0);
        assert(Ratio::zero_spec().canon_den() == 1);
        assert(an * 1 == an);
        assert(ad * 0 == 0);
    }

    proof fn lemma_clamp_nonneg(b: Ratio) {
        let z = Ratio::zero_spec();
        assert(z.canon_num() == 0);
        assert(z.canon_den() == 1);
        assert(0 * b.canon_den() == 0);
        assert(b.canon_num() * 1 == b.canon_num());
    }
}

} // verus!
