//! Variable-order, variable-step BDF integration of stiff systems
//! `M y' = f(t, y)`, with the Newton iteration and the Jacobian-caching
//! operator that the stepper drives.
//!
//! The arithmetic is abstract: every routine is generic over a
//! [`scalar::Scalar`], and each contract states its result as a term over
//! that scalar's operations. Nothing is assumed of the operations, so what
//! is proved holds of rounded arithmetic as it does of exact arithmetic.
//!
//! - [`scalar`], [`vector`], [`matrix`]: the scalar and the dense kernels.
//! - [`op`], [`linear_solver`]: what a problem, an operator and a linear
//!   solver offer; [`callable`] and [`op::sdirk`]: the operators of the
//!   implicit steps.
//! - [`nonlinear_solver`]: the convergence monitor and the Newton iteration.
//! - [`ode_solver`]: the problem and the state, the BDF coefficients, the
//!   table of differences, the stepper, and problems with known solutions.

pub mod scalar;
pub mod vector;
pub mod matrix;
pub mod errors;
pub mod op;
pub mod linear_solver;
pub mod callable;
pub mod nonlinear_solver;
pub mod ode_solver;
