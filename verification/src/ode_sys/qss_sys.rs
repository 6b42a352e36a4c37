//! A quantized two-stage method for systems.
//!
//! The run is given as a range `[a, b]` and a step count `n`, from which the
//! step `h = (b - a) / n` derives.  Each iteration takes a two-stage update
//! with half weights, then commits an extra first-order kick `h * k1`
//! componentwise wherever the first half kick's magnitude reaches the
//! quantum `delta_q`.

use vstd::prelude::*;

use crate::error::SolverError;
use crate::fixed::{fx_abs_s, fx_add_s, fx_divi_s, fx_mul_s, fx_sub_s, Fx};
use crate::ode_sys::{
    add_vec, seq_add_vs, seq_divi_vs, seq_scale_vs, step_from_range, vec_div_int, vec_scalar_mul,
    ODESYS,
};

verus! {

/// One quantized two-stage update of the state vector at `(x, y)`, or
/// nothing if some stage's derivative has the wrong length.  The half
/// weights `c1 = c2 = d1 = d2 = 1/2` scale both the probe and the feedback;
/// the final pass re-adds `h * k1` to every component whose half kick `dy`
/// reached the quantum `dq`.
pub open spec fn qss_sys_step_s<D: ODESYS>(
    ode: &D,
    x: int,
    y: Seq<int>,
    h: int,
    dq: int,
) -> Option<Seq<int>> {
    let k1 = ode.deriv(x, y);
    if k1.len() != y.len() {
        None
    } else {
        let dy = seq_divi_vs(seq_scale_vs(k1, h), 2);
        let dy_temp = seq_scale_vs(seq_scale_vs(k1, 500_000_000_000), h);
        let y1 = seq_add_vs(y, seq_scale_vs(dy, 500_000_000_000));
        let k2 = ode.deriv(fx_add_s(x, fx_mul_s(500_000_000_000, h)), y1);
        if k2.len() != y.len() {
            None
        } else {
            let dy_temp2 = seq_add_vs(dy_temp, seq_scale_vs(seq_scale_vs(k2, 500_000_000_000), h));
            let y2 = seq_add_vs(y1, seq_scale_vs(dy_temp2, 500_000_000_000));
            Some(
                Seq::new(
                    y2.len(),
                    |i: int|
                        if fx_abs_s(dy[i]) >= dq {
                            fx_add_s(y2[i], fx_mul_s(h, k1[i]))
                        } else {
                            y2[i]
                        },
                ),
            )
        }
    }
}

/// The state after `n` quantized two-stage steps from `(x, y)`, or nothing
/// if some derivative evaluation along the way returns a vector of the
/// wrong length.
pub open spec fn qss_sys_run_s<D: ODESYS>(
    ode: &D,
    x: int,
    y: Seq<int>,
    h: int,
    dq: int,
    n: nat,
) -> Option<Seq<int>>
    decreases n,
{
    if n == 0 {
        Some(y)
    } else {
        match qss_sys_step_s(ode, x, y, h, dq) {
            None => None,
            Some(y2) => qss_sys_run_s(ode, fx_add_s(x, h), y2, h, dq, (n - 1) as nat),
        }
    }
}

/// Solver for the quantized two-stage method over systems.
pub struct QSSSysSolver;

impl QSSSysSolver {
    /// Solve the initial value problem with the quantized two-stage method
    /// over `n` iterations of step `(b - a) / n`, starting at `(x, y)` with
    /// quantum `delta_q`.  The returned vector has the initial state's
    /// length; a step that truncates to zero is refused.
    #[verifier::loop_isolation(false)]
    pub fn solve<D: ODESYS>(
        &self,
        ode: &D,
        x: Fx,
        y: Vec<Fx>,
        a: Fx,
        b: Fx,
        n: usize,
        delta_q: Fx,
    ) -> (r: Result<Vec<Fx>, SolverError>)
        ensures
            n == 0 ==> (r matches Ok(v) && v.deep_view() == y.deep_view()),
            n > 0 && fx_divi_s(fx_sub_s(b@, a@), n as int) == 0 ==> r == Err::<
                Vec<Fx>,
                SolverError,
            >(SolverError::ZeroStepSize),
            n > 0 && fx_divi_s(fx_sub_s(b@, a@), n as int) != 0 ==> match qss_sys_run_s(
                ode,
                x@,
                y.deep_view(),
                fx_divi_s(fx_sub_s(b@, a@), n as int),
                delta_q@,
                n as nat,
            ) {
                Some(s) => r matches Ok(v) && v.deep_view() == s && v@.len() == y@.len(),
                None => r == Err::<Vec<Fx>, SolverError>(SolverError::DimensionMismatch),
            },
    {
        if n == 0 {
            return Ok(y);
        }
        let h = step_from_range(a, b, n);
        if h.raw() == 0 {
            return Err(SolverError::ZeroStepSize);
        }
        let half = Fx::from_raw(500_000_000_000);
        let ghost y0v = y.deep_view();
        let mut x_val = x;
        let mut y = y;
        let mut i: usize = 0;
        while i < n
            invariant
                i <= n,
                y@.len() == y0v.len(),
                qss_sys_run_s(ode, x_val@, y.deep_view(), h@, delta_q@, (n - i) as nat)
                    == qss_sys_run_s(ode, x@, y0v, h@, delta_q@, n as nat),
            decreases n - i,
        {
            let k1 = ode.eval(&x_val, &y);
            if k1.len() != y.len() {
                return Err(SolverError::DimensionMismatch);
            }
            let dy = vec_div_int(&vec_scalar_mul(&k1, h), 2);
            let dy_temp = vec_scalar_mul(&vec_scalar_mul(&k1, half), h);
            y = add_vec(&y, &vec_scalar_mul(&dy, half));
            let k2 = ode.eval(&x_val.add(half.mul(h)), &y);
            if k2.len() != y.len() {
                return Err(SolverError::DimensionMismatch);
            }
            let dy_temp2 = add_vec(&dy_temp, &vec_scalar_mul(&vec_scalar_mul(&k2, half), h));
            y = add_vec(&y, &vec_scalar_mul(&dy_temp2, half));
            let ghost y2v = y.deep_view();
            let mut committed: Vec<Fx> = Vec::new();
            let mut j: usize = 0;
            while j < y.len()
                invariant
                    j <= y@.len(),
                    y@.len() == dy@.len() && y@.len() == k1@.len(),
                    committed@.len() == j,
                    forall|t: int|
                        0 <= t < j ==> (#[trigger] committed@[t])@ == (if fx_abs_s(
                            (dy@[t])@,
                        ) >= delta_q@ {
                            fx_add_s((y@[t])@, fx_mul_s(h@, (k1@[t])@))
                        } else {
                            (y@[t])@
                        }),
                decreases y@.len() - j,
            {
                if delta_q.le(dy[j].abs()) {
                    committed.push(y[j].add(h.mul(k1[j])));
                } else {
                    committed.push(y[j]);
                }
                j = j + 1;
            }
            proof {
                assert(committed.deep_view() =~= Seq::new(
                    y2v.len(),
                    |t: int|
                        if fx_abs_s(dy.deep_view()[t]) >= delta_q@ {
                            fx_add_s(y2v[t], fx_mul_s(h@, k1.deep_view()[t]))
                        } else {
                            y2v[t]
                        },
                ));
            }
            y = committed;
            x_val = x_val.add(h);
            i = i + 1;
        }
        Ok(y)
    }
}

} // verus!
