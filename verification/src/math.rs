//! Vector-algebra capability traits.
//!
//! A beta-update formula touches its operands only through a handful of
//! operations: an inner product, an elementwise subtraction, a norm, and a
//! little scalar arithmetic.  Each operation is its own trait, so a concrete
//! vector type opts into exactly the capabilities it can honestly provide and
//! a strategy demands exactly the capabilities its formula needs.
//!
//! Every capability carries a specification-level model (`*_spec`) and, where
//! an operation is partial on a concrete representation, an admissibility
//! predicate (`*_req`) that the executable method requires.  The strategies'
//! contracts are stated purely in terms of these models.

use vstd::prelude::*;

verus! {

/// Inner-product capability: `dot(a, b)` is the scalar Σ aᵢ·bᵢ.
///
/// `Rhs` is the type of the right operand and `F` the scalar result type, so
/// a vector type may offer dot products against several operand types.
pub trait ArgminDot<Rhs, F> {
    /// Operand pairs on which the implementation defines its dot product
    /// (for example: equal dimensions, components small enough that the
    /// exact sum is representable).
    spec fn dot_req(&self, other: &Rhs) -> bool;

    /// The value `dot` returns.
    spec fn dot_spec(&self, other: &Rhs) -> F;

    /// Compute the inner product of `self` and `other`; neither operand is
    /// changed.
    fn dot(&self, other: &Rhs) -> (r: F)
        requires
            self.dot_req(other),
        ensures
            r == self.dot_spec(other),
    ;
}

/// Elementwise-subtraction capability: `sub(a, b)` is the vector a − b.
pub trait ArgminSub<Rhs, Out> {
    /// Operand pairs on which the implementation defines its subtraction.
    spec fn sub_req(&self, other: &Rhs) -> bool;

    /// The value `sub` returns.
    spec fn sub_spec(&self, other: &Rhs) -> Out;

    /// Compute the elementwise difference `self - other`; neither operand is
    /// changed.
    fn sub(&self, other: &Rhs) -> (r: Out)
        requires
            self.sub_req(other),
        ensures
            r == self.sub_spec(other),
    ;
}

/// Norm capability: `norm(a)` is a non-negative magnitude of `a`.
pub trait ArgminNorm<F> {
    /// Vectors on which the implementation defines its norm.
    spec fn norm_req(&self) -> bool;

    /// The value `norm` returns.
    spec fn norm_spec(&self) -> F;

    /// Compute the norm of `self`; the operand is not changed.
    fn norm(&self) -> (r: F)
        requires
            self.norm_req(),
        ensures
            r == self.norm_spec(),
    ;
}

/// Scalar capability: the arithmetic a beta formula performs on the values
/// the vector capabilities hand back — division, squaring, and a clamp
/// against a zero constant.
///
/// The sign predicates and the three laws express what every implementation
/// must guarantee about that arithmetic; the strategy-level results (such as
/// the non-negativity of a clamped beta) are proved from these laws alone.
pub trait ScalarOps: Sized {
    /// The zero constant `zero` returns.
    spec fn zero_spec() -> Self;

    /// The value `div` returns.
    spec fn div_spec(self, other: Self) -> Self;

    /// The value `max` returns.
    spec fn max_spec(self, other: Self) -> Self;

    /// The value `square` returns.
    spec fn square_spec(self) -> Self;

    /// The scalar is a finite number (neither infinite nor undefined).
    spec fn is_finite(self) -> bool;

    /// The scalar is zero, positive, or positive infinity — in particular it
    /// is a definite value, not an undefined one.
    spec fn is_nonneg(self) -> bool;

    /// The scalar is finite and strictly positive.
    spec fn is_pos(self) -> bool;

    /// Construct the zero scalar.
    fn zero() -> (r: Self)
        ensures
            r == Self::zero_spec(),
    ;

    /// Divide `self` by `other`.  Division is total: a zero divisor yields a
    /// non-finite result, as the degenerate-denominator edge cases of the
    /// beta formulas demand.
    fn div(self, other: Self) -> (r: Self)
        ensures
            r == self.div_spec(other),
    ;

    /// The larger of `self` and `other`.
    fn max(self, other: Self) -> (r: Self)
        ensures
            r == self.max_spec(other),
    ;

    /// `self` multiplied by itself.
    fn square(self) -> (r: Self)
        ensures
            r == self.square_spec(),
    ;

    /// A quotient of a non-negative numerator and a positive denominator is
    /// non-negative.
    proof fn lemma_div_nonneg(a: Self, b: Self)
        requires
            a.is_nonneg(),
            b.is_pos(),
        ensures
            a.div_spec(b).is_nonneg(),
    ;

    /// Dividing by zero never produces a finite value.
    proof fn lemma_div_zero_denominator(a: Self)
        ensures
            !a.div_spec(Self::zero_spec()).is_finite(),
    ;

    /// Clamping against zero yields a non-negative value, and leaves a
    /// positive value unchanged.
    proof fn lemma_clamp_nonneg(b: Self)
        ensures
            Self::zero_spec().max_spec(b).is_nonneg(),
            b.is_pos() ==> Self::zero_spec().max_spec(b) == b,
    ;
}

/// Laws of the self-dot product of a gradient, needed to reason about the
/// beta formulas whose denominator is a squared gradient magnitude.
///
/// A gradient type provides, beyond the dot product itself, a zero test and
/// proofs that `g · g` behaves like a squared magnitude: never negative,
/// strictly positive on a non-zero gradient, and zero on the zero gradient.
pub trait GradientDot<F: ScalarOps>: ArgminDot<Self, F> + Sized {
    /// The gradient is the zero vector.
    spec fn is_zero(&self) -> bool;

    /// The dot product of a gradient with itself is never negative.
    proof fn lemma_dot_self_nonneg(&self)
        ensures
            self.dot_spec(self).is_nonneg(),
    ;

    /// The dot product of an admissible non-zero gradient with itself is
    /// strictly positive.
    proof fn lemma_dot_self_pos(&self)
        requires
            self.dot_req(self),
            !self.is_zero(),
        ensures
            self.dot_spec(self).is_pos(),
    ;

    /// The dot product of the zero gradient with itself is the zero scalar.
    proof fn lemma_dot_self_zero(&self)
        requires
            self.is_zero(),
        ensures
            self.dot_spec(self) == F::zero_spec(),
    ;
}

} // verus!
