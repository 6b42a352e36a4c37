//! The Euler method.

use vstd::prelude::*;

use crate::error::SolverError;
use crate::fixed::{fx_add_s, fx_mul_s, Fx};
use crate::ode::{ivp_steps, scalar_steps, step_dir_ok, ODESolver, ODE};

verus! {

/// One Euler update: `y + h * f(x, y)`.
pub open spec fn euler_step_s<D: ODE>(ode: &D, x: int, y: int, h: int) -> int {
    fx_add_s(y, fx_mul_s(h, ode.deriv(x, y)))
}

/// The state after `n` Euler steps from `(x, y)`, the independent variable
/// advancing by `h` each step.
pub open spec fn euler_run_s<D: ODE>(ode: &D, x: int, y: int, h: int, n: nat) -> int
    decreases n,
{
    if n == 0 {
        y
    } else {
        euler_run_s(ode, fx_add_s(x, h), euler_step_s(ode, x, y, h), h, (n - 1) as nat)
    }
}

impl ODESolver {
    /// Solve the initial value problem with the Euler method: starting from
    /// `(x0, y0)`, repeat `y += h * f(x, y); x += h` until `x` reaches
    /// `x_target`, the last step possibly overshooting it.
    pub fn eu_ivp<D: ODE>(&self, ode: &D, x0: Fx, y0: Fx, h: Fx, x_target: Fx) -> (r: Result<
        Fx,
        SolverError,
    >)
        ensures
            h@ == 0 ==> r == Err::<Fx, SolverError>(SolverError::ZeroStepSize),
            h@ != 0 && !step_dir_ok(x0@, x_target@, h@) ==> r == Err::<Fx, SolverError>(
                SolverError::InvalidStepDirection,
            ),
            h@ != 0 && step_dir_ok(x0@, x_target@, h@) ==> (r matches Ok(y) && y@ == euler_run_s(
                ode,
                x0@,
                y0@,
                h@,
                ivp_steps(x0@, x_target@, h@),
            )),
    {
        let n = match scalar_steps(x0, h, x_target) {
            Ok(n) => n,
            Err(e) => {
                return Err(e);
            },
        };
        let mut x = x0;
        let mut y = y0;
        let mut i: u128 = 0;
        while i < n
            invariant
                i <= n,
                euler_run_s(ode, x@, y@, h@, (n - i) as nat) == euler_run_s(
                    ode,
                    x0@,
                    y0@,
                    h@,
                    n as nat,
                ),
            decreases n - i,
        {
            let slope = ode.eval(x, y);
            y = y.add(h.mul(slope));
            x = x.add(h);
            i = i + 1;
        }
        Ok(y)
    }
}

} // verus!
