//! Beta update methods for nonlinear conjugate gradient solvers.
//!
//! Each iteration of an NLCG solver calls the selected strategy's
//! [`NLCGBetaUpdate::update`] with the previous gradient ∇f_k, the new
//! gradient ∇f_{k+1} and the previous search direction p_k, and receives
//! the scalar beta that weighs the previous direction in the next one.
//!
//! The four strategies are stateless unit structs; `update` is a pure
//! function of its arguments, and its contract pins the result to the
//! strategy's formula, spelled out over the capability models of
//! [`crate::math`].  Degenerate denominators (a converged gradient, a
//! direction orthogonal to the gradient change) are not errors here: the
//! division is total and yields a non-finite scalar, which the outer solver
//! must detect and answer with a restart or an abort.
//!
//! Reference: Jorge Nocedal and Stephen J. Wright (2006). Numerical
//! Optimization. Springer. ISBN 0-387-30303-0.

use crate::math::{ArgminDot, ArgminNorm, ArgminSub, GradientDot, ScalarOps};
use vstd::prelude::*;

verus! {

/// Common interface for beta update methods (nonlinear CG).
///
/// `G` is the gradient type, `P` the search-direction type and `F` the
/// scalar type of the result.
pub trait NLCGBetaUpdate<G, P, F> {
    /// Inputs the strategy's formula is defined on: the conjunction of the
    /// admissibility predicates of the capability calls the formula makes.
    spec fn update_req(&self, nabla_f_k: &G, nabla_f_k_p_1: &G, p_k: &P) -> bool;

    /// The beta the strategy's formula yields.
    spec fn update_spec(&self, nabla_f_k: &G, nabla_f_k_p_1: &G, p_k: &P) -> F;

    /// Update beta.
    /// Parameter 1: ∇f_k
    /// Parameter 2: ∇f_{k+1}
    /// Parameter 3: p_k
    ///
    /// The result is exactly `update_spec` of the inputs, so repeated calls
    /// on identical inputs return identical values, and no input is changed.
    fn update(&self, nabla_f_k: &G, nabla_f_k_p_1: &G, p_k: &P) -> (beta: F)
        requires
            self.update_req(nabla_f_k, nabla_f_k_p_1, p_k),
        ensures
            beta == self.update_spec(nabla_f_k, nabla_f_k_p_1, p_k),
    ;
}

/// Fletcher and Reeves (FR) method:
/// `beta = (∇f_{k+1} · ∇f_{k+1}) / (∇f_k · ∇f_k)`.
#[derive(Default, Copy, Clone, Debug)]
pub struct FletcherReeves {}

impl FletcherReeves {
    /// Constructor
    pub fn new() -> (r: Self)
        ensures
            r == (FletcherReeves {}),
    {
        FletcherReeves {}
    }
}

impl<G, P, F> NLCGBetaUpdate<G, P, F> for FletcherReeves where
    G: ArgminDot<G, F>,
    F: ScalarOps,
 {
    open spec fn update_req(&self, dfk: &G, dfk1: &G, pk: &P) -> bool {
        dfk.dot_req(dfk) && dfk1.dot_req(dfk1)
    }

    open spec fn update_spec(&self, dfk: &G, dfk1: &G, pk: &P) -> F {
        dfk1.dot_spec(dfk1).div_spec(dfk.dot_spec(dfk))
    }

    fn update(&self, dfk: &G, dfk1: &G, _pk: &P) -> F {
        dfk1.dot(dfk1).div(dfk.dot(dfk))
    }
}

/// Polak and Ribiere (PR) method:
/// `beta = (∇f_{k+1} · (∇f_{k+1} − ∇f_k)) / ‖∇f_k‖²`.
#[derive(Default, Copy, Clone, Debug)]
pub struct PolakRibiere {}

impl PolakRibiere {
    /// Constructor
    pub fn new() -> (r: Self)
        ensures
            r == (PolakRibiere {}),
    {
        PolakRibiere {}
    }
}

impl<G, P, F> NLCGBetaUpdate<G, P, F> for PolakRibiere where
    G: ArgminDot<G, F> + ArgminSub<G, G> + ArgminNorm<F>,
    F: ScalarOps,
 {
    open spec fn update_req(&self, dfk: &G, dfk1: &G, pk: &P) -> bool {
        dfk.norm_req() && dfk1.sub_req(dfk) && dfk1.dot_req(&dfk1.sub_spec(dfk))
    }

    open spec fn update_spec(&self, dfk: &G, dfk1: &G, pk: &P) -> F {
        dfk1.dot_spec(&dfk1.sub_spec(dfk)).div_spec(dfk.norm_spec().square_spec())
    }

    fn update(&self, dfk: &G, dfk1: &G, _pk: &P) -> F {
        let dfk_norm_sq = dfk.norm().square();
        dfk1.dot(&dfk1.sub(dfk)).div(dfk_norm_sq)
    }
}

/// Polak and Ribiere Plus (PR+) method:
/// `beta = max(0, PR beta)`.
///
/// Clamping a negative PR beta to zero turns the next step into a pure
/// steepest-descent step, an automatic restart whenever the raw PR value
/// would reverse the direction.
#[derive(Default, Copy, Clone, Debug)]
pub struct PolakRibierePlus {}

impl PolakRibierePlus {
    /// Constructor
    pub fn new() -> (r: Self)
        ensures
            r == (PolakRibierePlus {}),
    {
        PolakRibierePlus {}
    }
}

impl<G, P, F> NLCGBetaUpdate<G, P, F> for PolakRibierePlus where
    G: ArgminDot<G, F> + ArgminSub<G, G> + ArgminNorm<F>,
    F: ScalarOps,
 {
    open spec fn update_req(&self, dfk: &G, dfk1: &G, pk: &P) -> bool {
        dfk.norm_req() && dfk1.sub_req(dfk) && dfk1.dot_req(&dfk1.sub_spec(dfk))
    }

    open spec fn update_spec(&self, dfk: &G, dfk1: &G, pk: &P) -> F {
        F::zero_spec().max_spec(
            dfk1.dot_spec(&dfk1.sub_spec(dfk)).div_spec(dfk.norm_spec().square_spec()),
        )
    }

    fn update(&self, dfk: &G, dfk1: &G, _pk: &P) -> F {
        let dfk_norm_sq = dfk.norm().square();
        let beta = dfk1.dot(&dfk1.sub(dfk)).div(dfk_norm_sq);
        F::zero().max(beta)
    }
}

/// Hestenes and Stiefel (HS) method: with `d = ∇f_{k+1} − ∇f_k`,
/// `beta = (∇f_{k+1} · d) / (d · p_k)`.
#[derive(Default, Copy, Clone, Debug)]
pub struct HestenesStiefel {}

impl HestenesStiefel {
    /// Constructor
    pub fn new() -> (r: Self)
        ensures
            r == (HestenesStiefel {}),
    {
        HestenesStiefel {}
    }
}

impl<G, P, F> NLCGBetaUpdate<G, P, F> for HestenesStiefel where
    G: ArgminDot<G, F> + ArgminDot<P, F> + ArgminSub<G, G>,
    F: ScalarOps,
 {
    open spec fn update_req(&self, dfk: &G, dfk1: &G, pk: &P) -> bool {
        dfk1.sub_req(dfk) && dfk1.dot_req(&dfk1.sub_spec(dfk)) && dfk1.sub_spec(
            dfk,
        ).dot_req(pk)
    }

    open spec fn update_spec(&self, dfk: &G, dfk1: &G, pk: &P) -> F {
        dfk1.dot_spec(&dfk1.sub_spec(dfk)).div_spec(dfk1.sub_spec(dfk).dot_spec(pk))
    }

    fn update(&self, dfk: &G, dfk1: &G, pk: &P) -> F {
        let d = dfk1.sub(dfk);
        dfk1.dot(&d).div(d.dot(pk))
    }
}

/// Law: for a non-zero previous gradient within the dot capability's reach,
/// the Fletcher–Reeves beta is non-negative — it is a ratio of two squared
/// gradient magnitudes.
pub proof fn lemma_fletcher_reeves_nonneg<G, P, F>(dfk: &G, dfk1: &G, pk: &P) where
    G: GradientDot<F>,
    F: ScalarOps,

    requires
        dfk.dot_req(dfk),
        !dfk.is_zero(),
    ensures
        (FletcherReeves {}).update_spec(dfk, dfk1, pk).is_nonneg(),
{
    dfk1.lemma_dot_self_nonneg();
    dfk.lemma_dot_self_pos();
    F::lemma_div_nonneg(dfk1.dot_spec(dfk1), dfk.dot_spec(dfk));
}

/// Law: on a degenerate (zero) previous gradient the Fletcher–Reeves beta is
/// not finite — positive infinity, or the undefined value when the numerator
/// is zero as well.  The outer solver, not this component, must detect the
/// non-finite beta and restart.
pub proof fn lemma_fletcher_reeves_degenerate<G, P, F>(dfk: &G, dfk1: &G, pk: &P) where
    G: GradientDot<F>,
    F: ScalarOps,

    requires
        dfk.is_zero(),
    ensures
        !(FletcherReeves {}).update_spec(dfk, dfk1, pk).is_finite(),
{
    dfk.lemma_dot_self_zero();
    F::lemma_div_zero_denominator(dfk1.dot_spec(dfk1));
}

/// Law: the Polak–Ribière-plus beta is the Polak–Ribière beta clamped
/// against zero, on every input.
pub proof fn lemma_polak_ribiere_plus_clamps<G, P, F>(dfk: &G, dfk1: &G, pk: &P) where
    G: ArgminDot<G, F> + ArgminSub<G, G> + ArgminNorm<F>,
    F: ScalarOps,

    ensures
        (PolakRibierePlus {}).update_spec(dfk, dfk1, pk) == F::zero_spec().max_spec(
            (PolakRibiere {}).update_spec(dfk, dfk1, pk),
        ),
{
}

/// Law: `update` is deterministic.  Its contract pins the returned beta to
/// `update_spec`, a pure function of the inputs alone, so two calls of any
/// strategy on identical inputs return equal values.
pub proof fn lemma_update_deterministic<G, P, F, S>(
    s: &S,
    dfk: &G,
    dfk1: &G,
    pk: &P,
    beta1: F,
    beta2: F,
) where S: NLCGBetaUpdate<G, P, F>
    requires
        beta1 == s.update_spec(dfk, dfk1, pk),
        beta2 == s.update_spec(dfk, dfk1, pk),
    ensures
        beta1 == beta2,
{
}

/// Law: the Polak–Ribière-plus beta is never negative, on every input.
pub proof fn lemma_polak_ribiere_plus_nonneg<G, P, F>(dfk: &G, dfk1: &G, pk: &P) where
    G: ArgminDot<G, F> + ArgminSub<G, G> + ArgminNorm<F>,
    F: ScalarOps,

    ensures
        (PolakRibierePlus {}).update_spec(dfk, dfk1, pk).is_nonneg(),
{
    F::lemma_clamp_nonneg(
        dfk1.dot_spec(&dfk1.sub_spec(dfk)).div_spec(dfk.norm_spec().square_spec()),
    );
}

} // verus!

