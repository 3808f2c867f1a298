use nlcg_beta::beta::{
    FletcherReeves, HestenesStiefel, NLCGBetaUpdate, PolakRibiere, PolakRibierePlus,
};
use nlcg_beta::math::{ArgminNorm, ArgminSub, ScalarOps};
use nlcg_beta::ratio::Ratio;
use nlcg_beta::vectors::{DenseVector, Vec2};

fn r(num: i64, den: i64) -> Ratio {
    Ratio { num, den }
}

// The four strategies on one hand-computed example:
// grad_prev = [1, 0], grad_new = [0, 1], dir_prev = [1, 0].
#[test]
fn variant_selection_example() {
    let g0 = Vec2 { x: 1, y: 0 };
    let g1 = Vec2 { x: 0, y: 1 };
    let p = Vec2 { x: 1, y: 0 };
    // FR: (0*0 + 1*1) / (1*1 + 0*0) = 1
    assert_eq!(FletcherReeves::new().update(&g0, &g1, &p), r(1, 1));
    // PR: [0,1]*[-1,1] / 1^2 = 1
    assert_eq!(PolakRibiere::new().update(&g0, &g1, &p), r(1, 1));
    // PR+: max(0, 1) = 1
    assert_eq!(PolakRibierePlus::new().update(&g0, &g1, &p), r(1, 1));
    // HS: d = [-1,1]; ([0,1]*d) / (d*[1,0]) = 1 / -1 = -1
    assert_eq!(HestenesStiefel::new().update(&g0, &g1, &p), r(-1, 1));
}

// Fletcher-Reeves on non-zero gradients: an exact, non-negative ratio of
// squared magnitudes, kept as the unreduced quotient 5/25.
#[test]
fn fletcher_reeves_nonnegative_ratio() {
    let g0 = Vec2 { x: 3, y: 4 };
    let g1 = Vec2 { x: 1, y: -2 };
    let p = Vec2 { x: 0, y: 0 };
    let beta = FletcherReeves::new().update(&g0, &g1, &p);
    assert_eq!(beta, r(5, 25));
    assert!(beta.num >= 0 && beta.den > 0);
}

// An input whose PR numerator is negative: PR+ differs from PR and is
// exactly zero.
#[test]
fn polak_ribiere_plus_clamps_to_zero() {
    let g0 = Vec2 { x: 2, y: 0 };
    let g1 = Vec2 { x: 1, y: 0 };
    let p = Vec2 { x: 1, y: 0 };
    // PR: g1 * (g1 - g0) = [1,0]*[-1,0] = -1; denominator 2^2 = 4.
    let pr = PolakRibiere::new().update(&g0, &g1, &p);
    assert_eq!(pr, r(-1, 4));
    let prp = PolakRibierePlus::new().update(&g0, &g1, &p);
    assert_eq!(prp, r(0, 1));
    assert_ne!(pr, prp);
}

// PR+ equals PR whenever PR is already non-negative.
#[test]
fn polak_ribiere_plus_keeps_positive_beta() {
    let g0 = Vec2 { x: 1, y: 0 };
    let g1 = Vec2 { x: 0, y: 1 };
    let p = Vec2 { x: 1, y: 0 };
    let pr = PolakRibiere::new().update(&g0, &g1, &p);
    let prp = PolakRibierePlus::new().update(&g0, &g1, &p);
    assert_eq!(pr, prp);
}

// A degenerate (zero) previous gradient: FR's beta is positive infinity,
// encoded as a zero denominator — not an error or a panic.
#[test]
fn fletcher_reeves_degenerate_gradient_infinite() {
    let g0 = Vec2 { x: 0, y: 0 };
    let g1 = Vec2 { x: 0, y: 1 };
    let p = Vec2 { x: 1, y: 0 };
    let beta = FletcherReeves::new().update(&g0, &g1, &p);
    assert_eq!(beta, r(1, 0));
    assert!(beta.den == 0);
}

// Both gradients zero: FR's beta is the undefined value 0/0.
#[test]
fn fletcher_reeves_degenerate_gradient_nan() {
    let z = Vec2 { x: 0, y: 0 };
    let p = Vec2 { x: 1, y: 0 };
    let beta = FletcherReeves::new().update(&z, &z, &p);
    assert_eq!(beta, r(0, 0));
}

// Hestenes-Stiefel with the direction orthogonal to the gradient change:
// a zero denominator, surfaced as a non-finite value.
#[test]
fn hestenes_stiefel_orthogonal_denominator() {
    let g0 = Vec2 { x: 1, y: 0 };
    let g1 = Vec2 { x: 2, y: 0 };
    let p = Vec2 { x: 0, y: 3 };
    // d = [1, 0]; numerator g1*d = 2; denominator d*p = 0.
    let beta = HestenesStiefel::new().update(&g0, &g1, &p);
    assert_eq!(beta, r(2, 0));
    assert!(beta.den == 0);
}

// Calling update twice with identical inputs (the very same references)
// yields identical results, and the inputs are untouched.
#[test]
fn update_is_deterministic_and_pure() {
    let g0 = Vec2 { x: 7, y: -3 };
    let g1 = Vec2 { x: -2, y: 5 };
    let p = Vec2 { x: 1, y: 1 };
    let first = PolakRibierePlus::new().update(&g0, &g1, &p);
    let second = PolakRibierePlus::new().update(&g0, &g1, &p);
    assert_eq!(first, second);
    assert_eq!(g0, Vec2 { x: 7, y: -3 });
    assert_eq!(g1, Vec2 { x: -2, y: 5 });
    assert_eq!(p, Vec2 { x: 1, y: 1 });
    let hs1 = HestenesStiefel::new().update(&g0, &g1, &p);
    let hs2 = HestenesStiefel::new().update(&g0, &g1, &p);
    assert_eq!(hs1, hs2);
}

// A different storage shape behind the same capability: a dense vector
// offering only the dot product still drives Fletcher-Reeves, and agrees
// with the pair type on the same values.
#[test]
fn dense_vector_substitutes_for_pair() {
    let g0 = DenseVector { data: vec![1, 0] };
    let g1 = DenseVector { data: vec![0, 1] };
    let p = DenseVector { data: vec![1, 0] };
    assert_eq!(FletcherReeves::new().update(&g0, &g1, &p), r(1, 1));

    let h0 = DenseVector { data: vec![1, 2, 3] };
    let h1 = DenseVector { data: vec![2, 0, 1] };
    let beta = FletcherReeves::new().update(&h0, &h1, &p);
    assert_eq!(beta, r(5, 14));
}

// The scalar arithmetic at its edges: division by zero saturates to an
// infinity, oversized quotients to the infinity of their sign, and the
// clamp ignores the undefined value.
#[test]
fn ratio_arithmetic_edges() {
    assert_eq!(r(1, 1).div(r(0, 1)), r(1, 0));
    assert_eq!(r(-3, 2).div(r(0, 1)), r(-3, 0));
    assert_eq!(r(i64::MAX, 1).div(r(1, i64::MAX)), r(1, 0));
    assert_eq!(r(-2, 3).square(), r(4, 9));
    assert_eq!(Ratio::zero().max(r(0, 0)), r(0, 1));
    assert_eq!(Ratio::zero().max(r(-5, 7)), r(0, 1));
    assert_eq!(Ratio::zero().max(r(5, 7)), r(5, 7));
    // A value stored with a negative denominator is judged by the quotient
    // it denotes: -2/-3 is positive, so the clamp keeps it.
    assert_eq!(Ratio::zero().max(r(-2, -3)), r(-2, -3));
    // Division normalizes the sign into the numerator.
    assert_eq!(r(1, -2).div(r(1, 1)), r(-1, 2));
}

// Elementwise subtraction leaves its operands alone and is exact.
#[test]
fn vec2_subtraction_is_exact() {
    let a = Vec2 { x: 3, y: -4 };
    let b = Vec2 { x: 5, y: 2 };
    assert_eq!(a.sub(&b), Vec2 { x: -2, y: -6 });
    assert_eq!(a, Vec2 { x: 3, y: -4 });
    assert_eq!(b, Vec2 { x: 5, y: 2 });
}

// The norm of a pair whose squared magnitude is a perfect square.
#[test]
fn vec2_norm_is_integer_square_root() {
    let v = Vec2 { x: 3, y: 4 };
    assert_eq!(v.norm(), r(5, 1));
    let z = Vec2 { x: 0, y: 0 };
    assert_eq!(z.norm(), r(0, 1));
}
