//! Numerical integrators for initial value problems of ordinary differential
//! equations, scalar and vector-valued, over a saturating decimal fixed-point
//! scalar.
//!
//! A caller supplies a derivative object (the [`ode::ODE`] or
//! [`ode_sys::ODESYS`] capability) together with initial conditions; an
//! integrator repeatedly queries the derivative, advances the independent
//! variable step by step, and returns the final state.  Every stepping
//! algorithm is specified exactly: its contract equates the returned state
//! with a spec-level recursion over the fixed-point arithmetic.

pub mod error;
pub mod examples;
pub mod fixed;
pub mod ode;
pub mod ode_sys;
