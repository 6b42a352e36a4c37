//! The velocity-Verlet-flavoured method for systems.
//!
//! The run is given as a range `[a, b]` and a step count `n`, from which the
//! step `h = (b - a) / n` derives; each of the `n` iterations applies a half
//! kick, a full kick at the midpoint, and a closing half kick that re-uses
//! the opening one.

use vstd::prelude::*;

use crate::error::SolverError;
use crate::fixed::{fx_add_s, fx_divi_s, fx_sub_s, Fx};
use crate::ode_sys::{
    add_vec, seq_add_vs, seq_scale_vs, step_from_range, vec_scalar_mul, ODESysSolver, ODESYS,
};

verus! {

/// The state after `n` Verlet iterations from `(x, y)` with step `h`.  Each
/// iteration kicks by `h/2 * f(x, y)`, drifts by `h * f(x + h/2, y')`, then
/// kicks by the opening half kick plus `h/2 * f(x + h, y'')`, the
/// independent variable advancing by `h/2` after each of the three
/// evaluations; nothing if some derivative evaluation along the way returns
/// a vector of the wrong length.
pub open spec fn ve_sys_run_s<D: ODESYS>(
    ode: &D,
    x: int,
    y: Seq<int>,
    h: int,
    n: nat,
) -> Option<Seq<int>>
    decreases n,
{
    if n == 0 {
        Some(y)
    } else {
        let hd = fx_divi_s(h, 2);
        let d1 = ode.deriv(x, y);
        if d1.len() != y.len() {
            None
        } else {
            let kick1 = seq_scale_vs(d1, hd);
            let y1 = seq_add_vs(y, kick1);
            let x1 = fx_add_s(x, hd);
            let d2 = ode.deriv(x1, y1);
            if d2.len() != y.len() {
                None
            } else {
                let y2 = seq_add_vs(y1, seq_scale_vs(d2, h));
                let x2 = fx_add_s(x1, hd);
                let d3 = ode.deriv(x2, y2);
                if d3.len() != y.len() {
                    None
                } else {
                    let y3 = seq_add_vs(y2, seq_add_vs(kick1, seq_scale_vs(d3, hd)));
                    ve_sys_run_s(ode, fx_add_s(x2, hd), y3, h, (n - 1) as nat)
                }
            }
        }
    }
}

impl ODESysSolver {
    /// Solve the initial value problem with the velocity-Verlet-flavoured
    /// method over `n` iterations of step `(b - a) / n`, starting at
    /// `(x, y)`.  The returned vector has the initial state's length; a step
    /// that truncates to zero is refused.
    #[verifier::loop_isolation(false)]
    pub fn ve_solve<D: ODESYS>(&self, ode: &D, x: Fx, y: Vec<Fx>, a: Fx, b: Fx, n: usize) -> (r:
        Result<Vec<Fx>, SolverError>)
        ensures
            n == 0 ==> (r matches Ok(v) && v.deep_view() == y.deep_view()),
            n > 0 && fx_divi_s(fx_sub_s(b@, a@), n as int) == 0 ==> r == Err::<
                Vec<Fx>,
                SolverError,
            >(SolverError::ZeroStepSize),
            n > 0 && fx_divi_s(fx_sub_s(b@, a@), n as int) != 0 ==> match ve_sys_run_s(
                ode,
                x@,
                y.deep_view(),
                fx_divi_s(fx_sub_s(b@, a@), n as int),
                n as nat,
            ) {
                Some(s) => r matches Ok(v) && v.deep_view() == s && v@.len() == y@.len(),
                None => r == Err::<Vec<Fx>, SolverError>(SolverError::DimensionMismatch),
            },
    {
        if n == 0 {
            return Ok(y);
        }
        let h = step_from_range(a, b, n);
        if h.raw() == 0 {
            return Err(SolverError::ZeroStepSize);
        }
        let half_dt = h.div_int(2);
        let ghost y0v = y.deep_view();
        let mut x_val = x;
        let mut y = y;
        let mut i: usize = 0;
        while i < n
            invariant
                i <= n,
                y@.len() == y0v.len(),
                ve_sys_run_s(ode, x_val@, y.deep_view(), h@, (n - i) as nat) == ve_sys_run_s(
                    ode,
                    x@,
                    y0v,
                    h@,
                    n as nat,
                ),
            decreases n - i,
        {
            let dy = ode.eval(&x_val, &y);
            if dy.len() != y.len() {
                return Err(SolverError::DimensionMismatch);
            }
            let k1 = vec_scalar_mul(&dy, half_dt);
            y = add_vec(&y, &k1);
            x_val = x_val.add(half_dt);
            let dy = ode.eval(&x_val, &y);
            if dy.len() != y.len() {
                return Err(SolverError::DimensionMismatch);
            }
            let k2 = vec_scalar_mul(&dy, h);
            y = add_vec(&y, &k2);
            x_val = x_val.add(half_dt);
            let dy = ode.eval(&x_val, &y);
            if dy.len() != y.len() {
                return Err(SolverError::DimensionMismatch);
            }
            y = add_vec(&y, &add_vec(&k1, &vec_scalar_mul(&dy, half_dt)));
            x_val = x_val.add(half_dt);
            i = i + 1;
        }
        Ok(y)
    }
}

} // verus!
