//! The leapfrog method for systems.

use vstd::prelude::*;

use crate::error::SolverError;
use crate::fixed::{fx_add_s, Fx};
use crate::ode::{ivp_steps, scalar_steps, step_dir_ok};
use crate::ode_sys::{
    add_vec, seq_add_vs, seq_divi_vs, seq_scale_vs, vec_div_int, vec_scalar_mul, ODESysSolver,
    ODESYS,
};

verus! {

/// The state after `n` leapfrog steps from `(x, y)`: each step contributes
/// two half-step kicks `h/2 * f`, one evaluated before and one after the
/// independent variable advances; nothing if some derivative evaluation
/// along the way returns a vector of the wrong length.
pub open spec fn lf_sys_run_s<D: ODESYS>(
    ode: &D,
    x: int,
    y: Seq<int>,
    h: int,
    n: nat,
) -> Option<Seq<int>>
    decreases n,
{
    if n == 0 {
        Some(y)
    } else {
        let d1 = ode.deriv(x, y);
        if d1.len() != y.len() {
            None
        } else {
            let y1 = seq_add_vs(y, seq_divi_vs(seq_scale_vs(d1, h), 2));
            let x1 = fx_add_s(x, h);
            let d2 = ode.deriv(x1, y1);
            if d2.len() != y.len() {
                None
            } else {
                let y2 = seq_add_vs(y1, seq_divi_vs(seq_scale_vs(d2, h), 2));
                lf_sys_run_s(ode, x1, y2, h, (n - 1) as nat)
            }
        }
    }
}

impl ODESysSolver {
    /// Solve the initial value problem with the leapfrog method: each step
    /// kicks the state by `h/2 * f(x, y)`, advances `x`, and kicks again by
    /// `h/2 * f(x + h, y')`, until `x` reaches `x_target`.  The returned
    /// vector has the initial state's length.
    #[verifier::loop_isolation(false)]
    pub fn lf_solve<D: ODESYS>(&self, ode: &D, x: Fx, y: Vec<Fx>, x_target: Fx, h: Fx) -> (r:
        Result<Vec<Fx>, SolverError>)
        ensures
            h@ == 0 ==> r == Err::<Vec<Fx>, SolverError>(SolverError::ZeroStepSize),
            h@ != 0 && !step_dir_ok(x@, x_target@, h@) ==> r == Err::<Vec<Fx>, SolverError>(
                SolverError::InvalidStepDirection,
            ),
            h@ != 0 && step_dir_ok(x@, x_target@, h@) ==> match lf_sys_run_s(
                ode,
                x@,
                y.deep_view(),
                h@,
                ivp_steps(x@, x_target@, h@),
            ) {
                Some(s) => r matches Ok(v) && v.deep_view() == s && v@.len() == y@.len(),
                None => r == Err::<Vec<Fx>, SolverError>(SolverError::DimensionMismatch),
            },
    {
        let n = match scalar_steps(x, h, x_target) {
            Ok(n) => n,
            Err(e) => {
                return Err(e);
            },
        };
        let ghost y0v = y.deep_view();
        let mut x_val = x;
        let mut y = y;
        let mut i: u128 = 0;
        while i < n
            invariant
                i <= n,
                y@.len() == y0v.len(),
                lf_sys_run_s(ode, x_val@, y.deep_view(), h@, (n - i) as nat) == lf_sys_run_s(
                    ode,
                    x@,
                    y0v,
                    h@,
                    n as nat,
                ),
            decreases n - i,
        {
            let dy = ode.eval(&x_val, &y);
            if dy.len() != y.len() {
                return Err(SolverError::DimensionMismatch);
            }
            let half_dy = vec_div_int(&vec_scalar_mul(&dy, h), 2);
            y = add_vec(&y, &half_dy);
            x_val = x_val.add(h);
            let next_dy = ode.eval(&x_val, &y);
            if next_dy.len() != y.len() {
                return Err(SolverError::DimensionMismatch);
            }
            let next_half_dy = vec_div_int(&vec_scalar_mul(&next_dy, h), 2);
            y = add_vec(&y, &next_half_dy);
            i = i + 1;
        }
        Ok(y)
    }
}

} // verus!
