//! Ready vector types implementing the algebra capabilities.
//!
//! Two storage shapes show that the strategies are independent of the
//! representation behind the capabilities:
//!
//! - [`Vec2`], a fixed pair of components;
//! - [`DenseVector`], a dense, heap-allocated vector.
//!
//! Both carry exact integer components and hand the strategies [`Ratio`]
//! scalars.  `Vec2` implements every capability; `DenseVector` implements
//! the dot product alone, which is all the Fletcher–Reeves strategy asks
//! for — capabilities are opted into one by one, and a vector type without
//! a norm or a subtraction still drives the strategies that need neither.
//!
//! The admissibility predicates bound components (and, for the dense type,
//! the dimension) so that every sum of products in a dot product is
//! representable exactly; within those bounds the capability models are the
//! textbook formulas with nothing rounded or clamped.  The norm asks, in
//! addition, that the squared magnitude be a perfect square, since an exact
//! scalar cannot carry an irrational root; the strategies' admissibility
//! predicates inherit whatever the capabilities they use ask for.

use crate::math::{ArgminDot, ArgminNorm, ArgminSub, GradientDot};
use crate::ratio::{make_spec, Ratio};
use vstd::prelude::*;

verus! {

/// Largest component magnitude admitted by the dot products.
pub const DOT_LIMIT: i64 = 2097152;

/// Largest component magnitude admitted by the subtractions; half of
/// `DOT_LIMIT`, so a difference of admissible components is itself an
/// admissible dot operand.
pub const SUB_LIMIT: i64 = 1048576;

/// Largest dimension admitted by the dense dot product.
pub const LEN_LIMIT: usize = 65536;

/// `r` is the non-negative integer square root of `s`.
pub open spec fn is_sqrt(r: int, s: int) -> bool {
    0 <= r && r * r == s
}

/// A vector of two components.
#[derive(Clone, Copy, Debug, PartialEq, Eq, Structural)]
pub struct Vec2 {
    /// First component.
    pub x: i64,
    /// Second component.
    pub y: i64,
}

impl Vec2 {
    /// Both components are bounded by `limit` in magnitude.
    pub open spec fn bounded(self, limit: int) -> bool {
        -limit <= self.x as int <= limit && -limit <= self.y as int <= limit
    }

    /// The exact dot product of `self` with `other`.
    pub open spec fn dot_sum(self, other: Vec2) -> int {
        self.x as int * other.x as int + self.y as int * other.y as int
    }
}

impl ArgminDot<Vec2, Ratio> for Vec2 {
    open spec fn dot_req(&self, other: &Vec2) -> bool {
        self.bounded(DOT_LIMIT as int) && other.bounded(DOT_LIMIT as int)
    }

    open spec fn dot_spec(&self, other: &Vec2) -> Ratio {
        make_spec(self.dot_sum(*other), 1)
    }

    fn dot(&self, other: &Vec2) -> (r: Ratio) {
        proof {
            assert(-4398046511104 <= self.x as int * other.x as int <= 4398046511104
                && -4398046511104 <= self.y as int * other.y as int
                <= 4398046511104) by (nonlinear_arith)
                requires
                    -2097152 <= self.x as int <= 2097152,
                    -2097152 <= other.x as int <= 2097152,
                    -2097152 <= self.y as int <= 2097152,
                    -2097152 <= other.y as int <= 2097152,
            ;
        }
        let n: i64 = self.x * other.x + self.y * other.y;
        Ratio { num: n, den: 1 }
    }
}

impl ArgminSub<Vec2, Vec2> for Vec2 {
    open spec fn sub_req(&self, other: &Vec2) -> bool {
        self.bounded(SUB_LIMIT as int) && other.bounded(SUB_LIMIT as int)
    }

    open spec fn sub_spec(&self, other: &Vec2) -> Vec2 {
        Vec2 { x: (self.x as int - other.x as int) as i64, y: (self.y as int - other.y as int) as i64 }
    }

    fn sub(&self, other: &Vec2) -> (r: Vec2) {
        Vec2 { x: self.x - other.x, y: self.y - other.y }
    }
}

/// The Euclidean norm, exact on pairs whose squared magnitude is a perfect
/// square (the zero vector included, with norm zero).
impl ArgminNorm<Ratio> for Vec2 {
    open spec fn norm_req(&self) -> bool {
        self.bounded(DOT_LIMIT as int) && (exists|r: int| is_sqrt(r, self.dot_sum(*self)))
    }

    open spec fn norm_spec(&self) -> Ratio {
        if exists|r: int| is_sqrt(r, self.dot_sum(*self)) {
            let r = choose|r: int| is_sqrt(r, self.dot_sum(*self));
            Ratio { num: r as i64, den: 1 }
        } else {
            Ratio { num: 0, den: 1 }
        }
    }

    fn norm(&self) -> (r: Ratio) {
        proof {
            assert(0 <= self.x as int * self.x as int <= 4398046511104 && 0 <= self.y
                as int * self.y as int <= 4398046511104) by (nonlinear_arith)
                requires
                    -2097152 <= self.x as int <= 2097152,
                    -2097152 <= self.y as int <= 2097152,
            ;
        }
        let s: i64 = self.x * self.x + self.y * self.y;
        let ghost w = choose|r: int| is_sqrt(r, self.dot_sum(*self));
        proof {
            assert(w <= 4194304) by (nonlinear_arith)
                requires
                    0 <= w,
                    w * w == s as int,
                    s as int <= 8796093022208,
            ;
        }
        let mut k: i64 = 0;
        let mut sq: i64 = 0;
        while sq < s
            invariant
                0 <= k as int <= w,
                sq as int == (k as int) * (k as int),
                w * w == s as int,
                w <= 4194304,
                s as int <= 8796093022208,
            decreases w - k,
        {
            proof {
                assert(k < w) by (nonlinear_arith)
                    requires
                        0 <= k as int <= w,
                        w * w == s as int,
                        sq as int == (k as int) * (k as int),
                        (sq as int) < (s as int),
                ;
                assert((k as int + 1) * (k as int + 1) <= w * w) by (nonlinear_arith)
                    requires
                        0 <= k as int,
                        (k as int) < w,
                ;
                assert((k as int + 1) * (k as int + 1) == (k as int) * (k as int) + 2
                    * (k as int) + 1) by (nonlinear_arith);
            }
            sq = sq + 2 * k + 1;
            k = k + 1;
        }
        proof {
            assert(k as int == w) by (nonlinear_arith)
                requires
                    0 <= k as int <= w,
                    w * w == s as int,
                    sq as int == (k as int) * (k as int),
                    (sq as int) >= (s as int),
            ;
            let r1 = choose|r: int| is_sqrt(r, self.dot_sum(*self));
            assert(r1 == w) by (nonlinear_arith)
                requires
                    is_sqrt(r1, s as int),
                    is_sqrt(w, s as int),
            ;
        }
        Ratio { num: k, den: 1 }
    }
}

impl GradientDot<Ratio> for Vec2 {
    open spec fn is_zero(&self) -> bool {
        self.x == 0 && self.y == 0
    }

    proof fn lemma_dot_self_nonneg(&self) {
        assert(self.dot_sum(*self) >= 0) by (nonlinear_arith);
    }

    proof fn lemma_dot_self_pos(&self) {
        assert(1 <= self.dot_sum(*self) <= 8796093022208) by (nonlinear_arith)
            requires
                -2097152 <= self.x as int <= 2097152,
                -2097152 <= self.y as int <= 2097152,
                self.x != 0 || self.y != 0,
        ;
    }

    proof fn lemma_dot_self_zero(&self) {
        assert(self.dot_sum(*self) == 0);
    }
}

/// Every component of `s` is bounded by `limit` in magnitude.
pub open spec fn bounded_comps(s: Seq<i64>, limit: int) -> bool {
    forall|i: int| 0 <= i < s.len() ==> -limit <= #[trigger] s[i] as int <= limit
}

/// The exact dot product of the first `n` components of `a` and `b`.
pub open spec fn dot_prefix(a: Seq<i64>, b: Seq<i64>, n: int) -> int
    decreases n,
{
    if n <= 0 {
        0
    } else {
        dot_prefix(a, b, n - 1) + a[n - 1] as int * b[n - 1] as int
    }
}

/// A prefix dot product of vectors with bounded components is itself
/// bounded, one product bound per term.
proof fn lemma_dot_prefix_bound(a: Seq<i64>, b: Seq<i64>, n: int)
    requires
        0 <= n <= a.len(),
        n <= b.len(),
        bounded_comps(a, DOT_LIMIT as int),
        bounded_comps(b, DOT_LIMIT as int),
    ensures
        -4398046511104 * n <= dot_prefix(a, b, n) <= 4398046511104 * n,
    decreases n,
{
    if n > 0 {
        lemma_dot_prefix_bound(a, b, n - 1);
        assert(-4398046511104 <= a[n - 1] as int * b[n - 1] as int
            <= 4398046511104) by (nonlinear_arith)
            requires
                -2097152 <= a[n - 1] as int <= 2097152,
                -2097152 <= b[n - 1] as int <= 2097152,
        ;
    }
}

/// A prefix dot product of a vector with itself is never negative.
proof fn lemma_dot_prefix_self_nonneg(a: Seq<i64>, n: int)
    requires
        n <= a.len(),
    ensures
        dot_prefix(a, a, n) >= 0,
    decreases n,
{
    if n > 0 {
        lemma_dot_prefix_self_nonneg(a, n - 1);
        assert(a[n - 1] as int * a[n - 1] as int >= 0) by (nonlinear_arith);
    }
}

/// A prefix dot product of a vector with itself is strictly positive as
/// soon as the prefix holds a non-zero component.
proof fn lemma_dot_prefix_self_pos(a: Seq<i64>, j: int, n: int)
    requires
        0 <= j < n <= a.len(),
        a[j] != 0,
    ensures
        dot_prefix(a, a, n) >= 1,
    decreases n,
{
    if j == n - 1 {
        lemma_dot_prefix_self_nonneg(a, n - 1);
        assert(a[n - 1] as int * a[n - 1] as int >= 1) by (nonlinear_arith)
            requires
                a[n - 1] as int != 0,
        ;
    } else {
        lemma_dot_prefix_self_pos(a, j, n - 1);
        assert(a[n - 1] as int * a[n - 1] as int >= 0) by (nonlinear_arith);
    }
}

/// A prefix dot product of the zero vector with itself is zero.
proof fn lemma_dot_prefix_self_zero(a: Seq<i64>, n: int)
    requires
        n <= a.len(),
        forall|i: int| 0 <= i < a.len() ==> a[i] == 0,
    ensures
        dot_prefix(a, a, n) == 0,
    decreases n,
{
    if n > 0 {
        lemma_dot_prefix_self_zero(a, n - 1);
        assert(a[n - 1] as int * a[n - 1] as int == 0) by (nonlinear_arith)
            requires
                a[n - 1] as int == 0,
        ;
    }
}

/// A dense, heap-allocated vector of components.
#[derive(Clone, Debug, PartialEq, Eq)]
pub struct DenseVector {
    /// The components, in order.
    pub data: Vec<i64>,
}

impl ArgminDot<DenseVector, Ratio> for DenseVector {
    open spec fn dot_req(&self, other: &DenseVector) -> bool {
        self.data@.len() == other.data@.len() && self.data@.len() <= LEN_LIMIT
            && bounded_comps(self.data@, DOT_LIMIT as int) && bounded_comps(
            other.data@,
            DOT_LIMIT as int,
        )
    }

    open spec fn dot_spec(&self, other: &DenseVector) -> Ratio {
        make_spec(dot_prefix(self.data@, other.data@, self.data@.len() as int), 1)
    }

    fn dot(&self, other: &DenseVector) -> (r: Ratio) {
        let n = self.data.len();
        let mut acc: i64 = 0;
        let mut i: usize = 0;
        while i < n
            invariant
                i <= n,
                n == self.data@.len(),
                n == other.data@.len(),
                n <= 65536,
                bounded_comps(self.data@, DOT_LIMIT as int),
                bounded_comps(other.data@, DOT_LIMIT as int),
                acc as int == dot_prefix(self.data@, other.data@, i as int),
                -4398046511104 * (i as int) <= acc as int <= 4398046511104 * (
                i as int),
            decreases n - i,
        {
            proof {
                assert(-4398046511104 <= self.data@[i as int] as int * other.data@[
                    i as int] as int <= 4398046511104) by (nonlinear_arith)
                    requires
                        -2097152 <= self.data@[i as int] as int <= 2097152,
                        -2097152 <= other.data@[i as int] as int <= 2097152,
                ;
            }
            acc = acc + self.data[i] * other.data[i];
            i = i + 1;
        }
        Ratio { num: acc, den: 1 }
    }
}

impl GradientDot<Ratio> for DenseVector {
    open spec fn is_zero(&self) -> bool {
        forall|i: int| 0 <= i < self.data@.len() ==> self.data@[i] == 0
    }

    proof fn lemma_dot_self_nonneg(&self) {
        lemma_dot_prefix_self_nonneg(self.data@, self.data@.len() as int);
    }

    proof fn lemma_dot_self_pos(&self) {
        let a = self.data@;
        let j = choose|j: int| 0 <= j < a.len() && a[j] != 0;
        lemma_dot_prefix_self_pos(a, j, a.len() as int);
        lemma_dot_prefix_bound(a, a, a.len() as int);
    }

    proof fn lemma_dot_self_zero(&self) {
        lemma_dot_prefix_self_zero(self.data@, self.data@.len() as int);
    }
}

} // verus!
