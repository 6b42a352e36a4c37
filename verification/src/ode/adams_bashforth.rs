//! The Adams-Bashforth scheme, in its one-step-lookahead form.
//!
//! Instead of keeping a history of earlier derivative evaluations, each step
//! predicts the next slope with an Euler probe and combines the two slopes
//! with the two-step Adams-Bashforth weights.

use vstd::prelude::*;

use crate::error::SolverError;
use crate::fixed::{fx_add_s, fx_mul_s, fx_mulfrac_s, fx_sub_s, Fx};
use crate::ode::{ivp_steps, scalar_steps, step_dir_ok, ODESolver, ODE};

verus! {

/// One Adams-Bashforth update: `f0 = f(x, y)`, `f1 = f(x + h, y + h * f0)`,
/// advance by `h * (3/2 * f1 - 1/2 * f0)`.
pub open spec fn ab_step_s<D: ODE>(ode: &D, x: int, y: int, h: int) -> int {
    let f0 = ode.deriv(x, y);
    let f1 = ode.deriv(fx_add_s(x, h), fx_add_s(y, fx_mul_s(h, f0)));
    fx_add_s(y, fx_mul_s(h, fx_sub_s(fx_mulfrac_s(f1, 3, 2), fx_mulfrac_s(f0, 1, 2))))
}

/// The state after `n` Adams-Bashforth steps from `(x, y)`.
pub open spec fn ab_run_s<D: ODE>(ode: &D, x: int, y: int, h: int, n: nat) -> int
    decreases n,
{
    if n == 0 {
        y
    } else {
        ab_run_s(ode, fx_add_s(x, h), ab_step_s(ode, x, y, h), h, (n - 1) as nat)
    }
}

impl ODESolver {
    /// Solve the initial value problem with the one-step-lookahead
    /// Adams-Bashforth scheme, stepping from `(x0, y0)` until `x` reaches
    /// `x_target`.
    pub fn ab_ivp<D: ODE>(&self, ode: &D, x0: Fx, y0: Fx, h: Fx, x_target: Fx) -> (r: Result<
        Fx,
        SolverError,
    >)
        ensures
            h@ == 0 ==> r == Err::<Fx, SolverError>(SolverError::ZeroStepSize),
            h@ != 0 && !step_dir_ok(x0@, x_target@, h@) ==> r == Err::<Fx, SolverError>(
                SolverError::InvalidStepDirection,
            ),
            h@ != 0 && step_dir_ok(x0@, x_target@, h@) ==> (r matches Ok(y) && y@ == ab_run_s(
                ode,
                x0@,
                y0@,
                h@,
                ivp_steps(x0@, x_target@, h@),
            )),
    {
        let n = match scalar_steps(x0, h, x_target) {
            Ok(n) => n,
            Err(e) => {
                return Err(e);
            },
        };
        let mut x = x0;
        let mut y = y0;
        let mut i: u128 = 0;
        while i < n
            invariant
                i <= n,
                ab_run_s(ode, x@, y@, h@, (n - i) as nat) == ab_run_s(ode, x0@, y0@, h@, n as nat),
            decreases n - i,
        {
            let f0 = ode.eval(x, y);
            let f1 = ode.eval(x.add(h), y.add(h.mul(f0)));
            y = y.add(h.mul(f1.mul_frac(3, 2).sub(f0.mul_frac(1, 2))));
            x = x.add(h);
            i = i + 1;
        }
        Ok(y)
    }
}

} // verus!
