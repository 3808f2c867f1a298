//! Beta-update strategies for nonlinear conjugate gradient (NLCG) solvers.
//!
//! An NLCG solver forms each new search direction by blending the freshly
//! computed gradient with the previous search direction; the scalar weight of
//! that blend is called beta.  This crate provides the four textbook formulas
//! for beta — Fletcher–Reeves, Polak–Ribière, Polak–Ribière-plus and
//! Hestenes–Stiefel — as interchangeable, stateless strategies behind the
//! [`beta::NLCGBetaUpdate`] interface.
//!
//! The strategies are generic over the vector and scalar representations of
//! the caller, reached only through the narrow capability traits of
//! [`math`] (dot product, elementwise subtraction, norm, scalar arithmetic).
//! Each strategy demands exactly the capabilities its formula needs, so a
//! vector type that lacks, say, a norm can still drive the strategies that do
//! not use one.
//!
//! [`ratio`] supplies an exact scalar that models the arithmetic the formulas
//! perform, including the division-by-zero edge cases that a degenerate
//! gradient provokes, and [`vectors`] supplies two ready vector types — a
//! fixed pair and a dense vector — that implement the capabilities.

pub mod beta;
pub mod math;
pub mod ratio;
pub mod vectors;
