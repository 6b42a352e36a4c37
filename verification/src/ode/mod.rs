//! Scalar ordinary differential equations and their integrators.
//!
//! A caller implements [`ODE`] for the equation `dy/dx = f(x, y)` and hands
//! it to one of the [`ODESolver`] methods, which advance `y` from `x0` until
//! the independent variable reaches `x_target`.  Each method's contract
//! equates its result with a spec-level recursion over the fixed-point
//! arithmetic, after validating the step size and direction.

pub mod adams_bashforth;
pub mod adams_moulton;
pub mod bogacki_shampine;
pub mod euler;
pub mod heun;
pub mod qss;
pub mod qss1;
pub mod rk;
pub mod rkf;

use vstd::prelude::*;

use crate::error::SolverError;
use crate::fixed::Fx;

verus! {

/// The derivative capability a caller supplies for a scalar equation.
///
/// `deriv` is the mathematical description of the derivative on raw
/// fixed-point values; `eval` computes it, and every integrator contract is
/// stated over `deriv`.
pub trait ODE {
    /// The value `eval` returns, as a function of the operands' raw
    /// fixed-point values.
    spec fn deriv(&self, x: int, y: int) -> int;

    /// Evaluate the derivative `dy/dx` at `(x, y)`.
    fn eval(&self, x: Fx, y: Fx) -> (r: Fx)
        ensures
            r@ == self.deriv(x@, y@),
    ;
}

/// Solver for scalar ordinary differential equations.  Each associated
/// method implements one stepping algorithm over an [`ODE`].
pub struct ODESolver;

/// The step `h` moves from `x0` toward `x_target` (trivially true when the
/// two ends coincide).
pub open spec fn step_dir_ok(x0: int, xt: int, h: int) -> bool {
    (x0 < xt ==> h > 0) && (x0 > xt ==> h < 0)
}

/// How many steps a fixed-step run takes: the number of iterations a loop
/// `while x < x_target { x += h }` performs (mirrored for negative `h`),
/// the last step possibly overshooting the target by less than `h`.
pub open spec fn ivp_steps(x0: int, xt: int, h: int) -> nat {
    if x0 < xt && h > 0 {
        ((xt - x0 + h - 1) / h) as nat
    } else if x0 > xt && h < 0 {
        ((x0 - xt + (-h) - 1) / (-h)) as nat
    } else {
        0
    }
}

/// The independent variable after `n` saturating steps of `h` from `x`.
pub open spec fn x_after_s(x: int, h: int, n: nat) -> int
    decreases n,
{
    if n == 0 {
        x
    } else {
        x_after_s(crate::fixed::fx_add_s(x, h), h, (n - 1) as nat)
    }
}

/// Appending one step: the position after `n + 1` steps is one saturating
/// step past the position after `n` steps.
pub proof fn lemma_x_after_snoc(x: int, h: int, n: nat)
    ensures
        x_after_s(x, h, (n + 1) as nat) == crate::fixed::fx_add_s(x_after_s(x, h, n), h),
    decreases n,
{
    if n == 0 {
        assert(x_after_s(x, h, 1) == x_after_s(crate::fixed::fx_add_s(x, h), h, 0));
    } else {
        lemma_x_after_snoc(crate::fixed::fx_add_s(x, h), h, (n - 1) as nat);
        assert(x_after_s(x, h, (n + 1) as nat) == x_after_s(
            crate::fixed::fx_add_s(x, h),
            h,
            n,
        ));
    }
}

/// Validation shared by every scalar method: a zero step size is refused,
/// then a step pointing away from the target; otherwise the bounded step
/// count of the run is returned.
pub(crate) fn scalar_steps(x0: Fx, h: Fx, xt: Fx) -> (r: Result<u128, SolverError>)
    ensures
        match r {
            Ok(n) => h@ != 0 && step_dir_ok(x0@, xt@, h@) && n as nat == ivp_steps(
                x0@,
                xt@,
                h@,
            ),
            Err(e) => (h@ == 0 || !step_dir_ok(x0@, xt@, h@)) && e == (if h@ == 0 {
                SolverError::ZeroStepSize
            } else {
                SolverError::InvalidStepDirection
            }),
        },
{
    let hr = h.raw();
    let x0r = x0.raw();
    let xtr = xt.raw();
    if hr == 0 {
        return Err(SolverError::ZeroStepSize);
    }
    if (x0r < xtr && hr < 0) || (x0r > xtr && hr > 0) {
        return Err(SolverError::InvalidStepDirection);
    }
    if x0r < xtr {
        let delta: u128 = (xtr as i128 - x0r as i128) as u128;
        let mag: u128 = hr as u128;
        let n: u128 = (delta + mag - 1) / mag;
        Ok(n)
    } else if x0r > xtr {
        let delta: u128 = (x0r as i128 - xtr as i128) as u128;
        let mag: u128 = (-(hr as i128)) as u128;
        let n: u128 = (delta + mag - 1) / mag;
        Ok(n)
    } else {
        Ok(0)
    }
}

} // verus!
