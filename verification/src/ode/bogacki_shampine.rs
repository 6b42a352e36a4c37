//! The Bogacki-Shampine method.
//!
//! A four-stage explicit Runge-Kutta scheme; each step combines the four
//! stages into a single accepted value with the embedded weights, and the
//! step size stays fixed throughout the run.

use vstd::prelude::*;

use crate::error::SolverError;
use crate::fixed::{fx_add_s, fx_divi_s, fx_mul_s, fx_mulfrac_s, Fx};
use crate::ode::{ivp_steps, scalar_steps, step_dir_ok, ODESolver, ODE};

verus! {

/// One Bogacki-Shampine update.  Three stages build the third-order value
/// `y* = y + 2/3 k1 + 1/9 k2 + 4/9 k3`; a fourth evaluation at `y*` then
/// produces the accepted `y + 7/24 k1 + 1/4 k2 + 1/3 k3 + 1/8 k4`.
pub open spec fn bs_step_s<D: ODE>(ode: &D, x: int, y: int, h: int) -> int {
    let k1 = fx_mul_s(h, ode.deriv(x, y));
    let k2 = fx_mul_s(h, ode.deriv(fx_add_s(x, fx_divi_s(h, 2)), fx_add_s(y, fx_divi_s(k1, 2))));
    let k3 = fx_mul_s(
        h,
        ode.deriv(fx_add_s(x, fx_mulfrac_s(h, 3, 4)), fx_add_s(y, fx_mulfrac_s(k2, 3, 4))),
    );
    let yp = fx_add_s(
        fx_add_s(fx_add_s(y, fx_mulfrac_s(k1, 2, 3)), fx_mulfrac_s(k2, 1, 9)),
        fx_mulfrac_s(k3, 4, 9),
    );
    let k4 = fx_mul_s(h, ode.deriv(x, yp));
    fx_add_s(
        fx_add_s(
            fx_add_s(fx_add_s(y, fx_mulfrac_s(k1, 7, 24)), fx_mulfrac_s(k2, 1, 4)),
            fx_mulfrac_s(k3, 1, 3),
        ),
        fx_mulfrac_s(k4, 1, 8),
    )
}

/// The state after `n` Bogacki-Shampine steps from `(x, y)`.
pub open spec fn bs_run_s<D: ODE>(ode: &D, x: int, y: int, h: int, n: nat) -> int
    decreases n,
{
    if n == 0 {
        y
    } else {
        bs_run_s(ode, fx_add_s(x, h), bs_step_s(ode, x, y, h), h, (n - 1) as nat)
    }
}

impl ODESolver {
    /// Solve the initial value problem with the Bogacki-Shampine method at a
    /// fixed step size, stepping from `(x0, y0)` until `x` reaches
    /// `x_target`.
    pub fn bs_ivp<D: ODE>(&self, ode: &D, x0: Fx, y0: Fx, h: Fx, x_target: Fx) -> (r: Result<
        Fx,
        SolverError,
    >)
        ensures
            h@ == 0 ==> r == Err::<Fx, SolverError>(SolverError::ZeroStepSize),
            h@ != 0 && !step_dir_ok(x0@, x_target@, h@) ==> r == Err::<Fx, SolverError>(
                SolverError::InvalidStepDirection,
            ),
            h@ != 0 && step_dir_ok(x0@, x_target@, h@) ==> (r matches Ok(y) && y@ == bs_run_s(
                ode,
                x0@,
                y0@,
                h@,
                ivp_steps(x0@, x_target@, h@),
            )),
    {
        let n = match scalar_steps(x0, h, x_target) {
            Ok(n) => n,
            Err(e) => {
                return Err(e);
            },
        };
        let mut x = x0;
        let mut y = y0;
        let mut i: u128 = 0;
        while i < n
            invariant
                i <= n,
                bs_run_s(ode, x@, y@, h@, (n - i) as nat) == bs_run_s(ode, x0@, y0@, h@, n as nat),
            decreases n - i,
        {
            let k1 = h.mul(ode.eval(x, y));
            let k2 = h.mul(ode.eval(x.add(h.div_int(2)), y.add(k1.div_int(2))));
            let k3 = h.mul(ode.eval(x.add(h.mul_frac(3, 4)), y.add(k2.mul_frac(3, 4))));
            let yp = y.add(k1.mul_frac(2, 3)).add(k2.mul_frac(1, 9)).add(k3.mul_frac(4, 9));
            let k4 = h.mul(ode.eval(x, yp));
            y = y.add(k1.mul_frac(7, 24)).add(k2.mul_frac(1, 4)).add(k3.mul_frac(1, 3)).add(
                k4.mul_frac(1, 8),
            );
            x = x.add(h);
            i = i + 1;
        }
        Ok(y)
    }
}

} // verus!
