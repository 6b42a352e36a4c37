//! The Adams-Moulton scheme, in its one-step-lookahead form.
//!
//! The implicit slope is approximated by an Euler probe of the next point,
//! and the two slopes are combined with the trapezoidal Adams-Moulton
//! weights `(5 f1 + 8 f0) / 12`.

use vstd::prelude::*;

use crate::error::SolverError;
use crate::fixed::{fx_add_s, fx_divi_s, fx_mul_s, fx_muli_s, Fx};
use crate::ode::{ivp_steps, scalar_steps, step_dir_ok, ODESolver, ODE};

verus! {

/// One Adams-Moulton update: `f0 = f(x, y)`, `f1 = f(x + h, y + h * f0)`,
/// advance by `h * (5 f1 + 8 f0) / 12`.
pub open spec fn am_step_s<D: ODE>(ode: &D, x: int, y: int, h: int) -> int {
    let f0 = ode.deriv(x, y);
    let f1 = ode.deriv(fx_add_s(x, h), fx_add_s(y, fx_mul_s(h, f0)));
    fx_add_s(y, fx_divi_s(fx_mul_s(h, fx_add_s(fx_muli_s(f1, 5), fx_muli_s(f0, 8))), 12))
}

/// The state after `n` Adams-Moulton steps from `(x, y)`.
pub open spec fn am_run_s<D: ODE>(ode: &D, x: int, y: int, h: int, n: nat) -> int
    decreases n,
{
    if n == 0 {
        y
    } else {
        am_run_s(ode, fx_add_s(x, h), am_step_s(ode, x, y, h), h, (n - 1) as nat)
    }
}

impl ODESolver {
    /// Solve the initial value problem with the one-step-lookahead
    /// Adams-Moulton scheme, stepping from `(x0, y0)` until `x` reaches
    /// `x_target`.
    pub fn am_ivp<D: ODE>(&self, ode: &D, x0: Fx, y0: Fx, h: Fx, x_target: Fx) -> (r: Result<
        Fx,
        SolverError,
    >)
        ensures
            h@ == 0 ==> r == Err::<Fx, SolverError>(SolverError::ZeroStepSize),
            h@ != 0 && !step_dir_ok(x0@, x_target@, h@) ==> r == Err::<Fx, SolverError>(
                SolverError::InvalidStepDirection,
            ),
            h@ != 0 && step_dir_ok(x0@, x_target@, h@) ==> (r matches Ok(y) && y@ == am_run_s(
                ode,
                x0@,
                y0@,
                h@,
                ivp_steps(x0@, x_target@, h@),
            )),
    {
        let n = match scalar_steps(x0, h, x_target) {
            Ok(n) => n,
            Err(e) => {
                return Err(e);
            },
        };
        let mut x = x0;
        let mut y = y0;
        let mut i: u128 = 0;
        while i < n
            invariant
                i <= n,
                am_run_s(ode, x@, y@, h@, (n - i) as nat) == am_run_s(ode, x0@, y0@, h@, n as nat),
            decreases n - i,
        {
            let f0 = ode.eval(x, y);
            let f1 = ode.eval(x.add(h), y.add(h.mul(f0)));
            y = y.add(h.mul(f1.mul_int(5).add(f0.mul_int(8))).div_int(12));
            x = x.add(h);
            i = i + 1;
        }
        Ok(y)
    }
}

} // verus!
