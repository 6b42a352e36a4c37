//! The Euler method for systems.

use vstd::prelude::*;

use crate::error::SolverError;
use crate::fixed::{fx_add_s, Fx};
use crate::ode::{ivp_steps, scalar_steps, step_dir_ok};
use crate::ode_sys::{add_vec, seq_add_vs, seq_scale_vs, vec_scalar_mul, ODESysSolver, ODESYS};

verus! {

/// The state after `n` Euler steps from `(x, y)`, or nothing if some
/// derivative evaluation along the way returns a vector of the wrong length.
pub open spec fn eu_sys_run_s<D: ODESYS>(
    ode: &D,
    x: int,
    y: Seq<int>,
    h: int,
    n: nat,
) -> Option<Seq<int>>
    decreases n,
{
    if n == 0 {
        Some(y)
    } else {
        let dy = ode.deriv(x, y);
        if dy.len() != y.len() {
            None
        } else {
            eu_sys_run_s(ode, fx_add_s(x, h), seq_add_vs(y, seq_scale_vs(dy, h)), h, (n - 1) as nat)
        }
    }
}

impl ODESysSolver {
    /// Solve the initial value problem with the Euler method: starting from
    /// `(x, y)`, repeat `y += h * f(x, y); x += h` elementwise until `x`
    /// reaches `x_target`.  The returned vector has the initial state's
    /// length.
    #[verifier::loop_isolation(false)]
    pub fn eu_solve<D: ODESYS>(&self, ode: &D, x: Fx, y: Vec<Fx>, x_target: Fx, h: Fx) -> (r:
        Result<Vec<Fx>, SolverError>)
        ensures
            h@ == 0 ==> r == Err::<Vec<Fx>, SolverError>(SolverError::ZeroStepSize),
            h@ != 0 && !step_dir_ok(x@, x_target@, h@) ==> r == Err::<Vec<Fx>, SolverError>(
                SolverError::InvalidStepDirection,
            ),
            h@ != 0 && step_dir_ok(x@, x_target@, h@) ==> match eu_sys_run_s(
                ode,
                x@,
                y.deep_view(),
                h@,
                ivp_steps(x@, x_target@, h@),
            ) {
                Some(s) => r matches Ok(v) && v.deep_view() == s && v@.len() == y@.len(),
                None => r == Err::<Vec<Fx>, SolverError>(SolverError::DimensionMismatch),
            },
    {
        let n = match scalar_steps(x, h, x_target) {
            Ok(n) => n,
            Err(e) => {
                return Err(e);
            },
        };
        let ghost y0v = y.deep_view();
        let mut x_val = x;
        let mut y = y;
        let mut i: u128 = 0;
        while i < n
            invariant
                i <= n,
                y@.len() == y0v.len(),
                eu_sys_run_s(ode, x_val@, y.deep_view(), h@, (n - i) as nat) == eu_sys_run_s(
                    ode,
                    x@,
                    y0v,
                    h@,
                    n as nat,
                ),
            decreases n - i,
        {
            let k = ode.eval(&x_val, &y);
            if k.len() != y.len() {
                return Err(SolverError::DimensionMismatch);
            }
            let dy = vec_scalar_mul(&k, h);
            y = add_vec(&y, &dy);
            x_val = x_val.add(h);
            i = i + 1;
        }
        Ok(y)
    }
}

} // verus!
