//! The Heun method (explicit trapezoidal predictor-corrector).

use vstd::prelude::*;

use crate::error::SolverError;
use crate::fixed::{fx_add_s, fx_divi_s, fx_mul_s, Fx};
use crate::ode::{ivp_steps, scalar_steps, step_dir_ok, ODESolver, ODE};

verus! {

/// One Heun update: predict `y* = y + h * f(x, y)`, then correct with the
/// averaged slope `y + (f(x + h, y*) + f(x, y)) * h / 2`.
pub open spec fn heun_step_s<D: ODE>(ode: &D, x: int, y: int, h: int) -> int {
    let f0 = ode.deriv(x, y);
    let yp = fx_add_s(y, fx_mul_s(h, f0));
    let f1 = ode.deriv(fx_add_s(x, h), yp);
    fx_add_s(y, fx_divi_s(fx_mul_s(fx_add_s(f1, f0), h), 2))
}

/// The state after `n` Heun steps from `(x, y)`.
pub open spec fn heun_run_s<D: ODE>(ode: &D, x: int, y: int, h: int, n: nat) -> int
    decreases n,
{
    if n == 0 {
        y
    } else {
        heun_run_s(ode, fx_add_s(x, h), heun_step_s(ode, x, y, h), h, (n - 1) as nat)
    }
}

impl ODESolver {
    /// Solve the initial value problem with the Heun method: at each step
    /// predict with an Euler step, then advance `y` by the average of the
    /// slopes at both ends, until `x` reaches `x_target`.
    pub fn he_ivp<D: ODE>(&self, ode: &D, x0: Fx, y0: Fx, h: Fx, x_target: Fx) -> (r: Result<
        Fx,
        SolverError,
    >)
        ensures
            h@ == 0 ==> r == Err::<Fx, SolverError>(SolverError::ZeroStepSize),
            h@ != 0 && !step_dir_ok(x0@, x_target@, h@) ==> r == Err::<Fx, SolverError>(
                SolverError::InvalidStepDirection,
            ),
            h@ != 0 && step_dir_ok(x0@, x_target@, h@) ==> (r matches Ok(y) && y@ == heun_run_s(
                ode,
                x0@,
                y0@,
                h@,
                ivp_steps(x0@, x_target@, h@),
            )),
    {
        let n = match scalar_steps(x0, h, x_target) {
            Ok(n) => n,
            Err(e) => {
                return Err(e);
            },
        };
        let mut x = x0;
        let mut y = y0;
        let mut i: u128 = 0;
        while i < n
            invariant
                i <= n,
                heun_run_s(ode, x@, y@, h@, (n - i) as nat) == heun_run_s(
                    ode,
                    x0@,
                    y0@,
                    h@,
                    n as nat,
                ),
            decreases n - i,
        {
            let slope = ode.eval(x, y);
            let yp = y.add(h.mul(slope));
            let f1 = ode.eval(x.add(h), yp);
            y = y.add(f1.add(slope).mul(h).div_int(2));
            x = x.add(h);
            i = i + 1;
        }
        Ok(y)
    }
}

} // verus!
