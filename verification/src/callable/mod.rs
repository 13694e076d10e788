//! The operators that the nonlinear solver is given.

pub mod ode;
pub mod unit;
