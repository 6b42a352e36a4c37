//! A first-order quantized-flavoured solver on the shared solver type.
//!
//! This variant advances the state exactly as the Euler method does — its
//! contract is stated over the same run recursion — and exists alongside the
//! thresholded family in [`crate::ode::qss`].

use vstd::prelude::*;

use crate::error::SolverError;
use crate::fixed::Fx;
use crate::ode::euler::euler_run_s;
use crate::ode::{ivp_steps, scalar_steps, step_dir_ok, ODESolver, ODE};

verus! {

impl ODESolver {
    /// Solve the initial value problem with first-order steps
    /// `y += h * f(x, y)`, from `(x0, y0)` until `x` reaches `x_target`; the
    /// result coincides with the Euler method's.
    pub fn qss1_ivp<D: ODE>(&self, mod_ode: &D, x0: Fx, y0: Fx, h: Fx, x_target: Fx) -> (r: Result<
        Fx,
        SolverError,
    >)
        ensures
            h@ == 0 ==> r == Err::<Fx, SolverError>(SolverError::ZeroStepSize),
            h@ != 0 && !step_dir_ok(x0@, x_target@, h@) ==> r == Err::<Fx, SolverError>(
                SolverError::InvalidStepDirection,
            ),
            h@ != 0 && step_dir_ok(x0@, x_target@, h@) ==> (r matches Ok(y) && y@ == euler_run_s(
                mod_ode,
                x0@,
                y0@,
                h@,
                ivp_steps(x0@, x_target@, h@),
            )),
    {
        let n = match scalar_steps(x0, h, x_target) {
            Ok(n) => n,
            Err(e) => {
                return Err(e);
            },
        };
        let mut x = x0;
        let mut y = y0;
        let mut i: u128 = 0;
        while i < n
            invariant
                i <= n,
                euler_run_s(mod_ode, x@, y@, h@, (n - i) as nat) == euler_run_s(
                    mod_ode,
                    x0@,
                    y0@,
                    h@,
                    n as nat,
                ),
            decreases n - i,
        {
            let slope = mod_ode.eval(x, y);
            y = y.add(h.mul(slope));
            x = x.add(h);
            i = i + 1;
        }
        Ok(y)
    }
}

} // verus!
