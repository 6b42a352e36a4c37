//! The Forest-Ruth-flavoured four-stage method for systems.
//!
//! Each step evaluates four stages; the first two probe the midpoint with
//! half of the previous stage, the third probes with twice its stage, and
//! the stages combine with the weights `(k1 + 2 (k2 + k3) + k4) / 6`.

use vstd::prelude::*;

use crate::error::SolverError;
use crate::fixed::{fx_add_s, fx_mul_s, Fx};
use crate::ode::{ivp_steps, scalar_steps, step_dir_ok};
use crate::ode_sys::{
    add_vec, seq_add_vs, seq_divi_vs, seq_scale_vs, vec_div_int, vec_scalar_mul, ODESysSolver,
    ODESYS,
};

verus! {

/// One Forest-Ruth-flavoured update of the state vector at `(x, y)`, or
/// nothing if some stage's derivative has the wrong length.
pub open spec fn fr_sys_step_s<D: ODESYS>(ode: &D, x: int, y: Seq<int>, h: int) -> Option<
    Seq<int>,
> {
    let d1 = ode.deriv(x, y);
    if d1.len() != y.len() {
        None
    } else {
        let k1 = seq_scale_vs(d1, h);
        let xm = fx_add_s(x, fx_mul_s(h, 500_000_000_000));
        let d2 = ode.deriv(xm, seq_add_vs(y, seq_scale_vs(k1, 500_000_000_000)));
        if d2.len() != y.len() {
            None
        } else {
            let k2 = seq_scale_vs(d2, h);
            let d3 = ode.deriv(xm, seq_add_vs(y, seq_scale_vs(k2, 500_000_000_000)));
            if d3.len() != y.len() {
                None
            } else {
                let k3 = seq_scale_vs(d3, h);
                let d4 = ode.deriv(
                    fx_add_s(x, h),
                    seq_add_vs(y, seq_scale_vs(k3, 2_000_000_000_000)),
                );
                if d4.len() != y.len() {
                    None
                } else {
                    let k4 = seq_scale_vs(d4, h);
                    Some(
                        seq_add_vs(
                            y,
                            seq_divi_vs(
                                seq_add_vs(
                                    k1,
                                    seq_add_vs(
                                        seq_scale_vs(seq_add_vs(k2, k3), 2_000_000_000_000),
                                        k4,
                                    ),
                                ),
                                6,
                            ),
                        ),
                    )
                }
            }
        }
    }
}

/// The state after `n` Forest-Ruth-flavoured steps from `(x, y)`, or
/// nothing if some derivative evaluation along the way returns a vector of
/// the wrong length.
pub open spec fn fr_sys_run_s<D: ODESYS>(
    ode: &D,
    x: int,
    y: Seq<int>,
    h: int,
    n: nat,
) -> Option<Seq<int>>
    decreases n,
{
    if n == 0 {
        Some(y)
    } else {
        match fr_sys_step_s(ode, x, y, h) {
            None => None,
            Some(y2) => fr_sys_run_s(ode, fx_add_s(x, h), y2, h, (n - 1) as nat),
        }
    }
}

impl ODESysSolver {
    /// Solve the initial value problem with the Forest-Ruth-flavoured
    /// four-stage method, stepping from `(x, y)` until `x` reaches
    /// `x_target`.  The returned vector has the initial state's length.
    #[verifier::loop_isolation(false)]
    pub fn fr_solve<D: ODESYS>(&self, ode: &D, x: Fx, y: Vec<Fx>, x_target: Fx, h: Fx) -> (r:
        Result<Vec<Fx>, SolverError>)
        ensures
            h@ == 0 ==> r == Err::<Vec<Fx>, SolverError>(SolverError::ZeroStepSize),
            h@ != 0 && !step_dir_ok(x@, x_target@, h@) ==> r == Err::<Vec<Fx>, SolverError>(
                SolverError::InvalidStepDirection,
            ),
            h@ != 0 && step_dir_ok(x@, x_target@, h@) ==> match fr_sys_run_s(
                ode,
                x@,
                y.deep_view(),
                h@,
                ivp_steps(x@, x_target@, h@),
            ) {
                Some(s) => r matches Ok(v) && v.deep_view() == s && v@.len() == y@.len(),
                None => r == Err::<Vec<Fx>, SolverError>(SolverError::DimensionMismatch),
            },
    {
        let n = match scalar_steps(x, h, x_target) {
            Ok(n) => n,
            Err(e) => {
                return Err(e);
            },
        };
        let half = Fx::from_raw(500_000_000_000);
        let two = Fx::from_raw(2_000_000_000_000);
        let ghost y0v = y.deep_view();
        let mut x_val = x;
        let mut y = y;
        let mut i: u128 = 0;
        while i < n
            invariant
                i <= n,
                y@.len() == y0v.len(),
                fr_sys_run_s(ode, x_val@, y.deep_view(), h@, (n - i) as nat) == fr_sys_run_s(
                    ode,
                    x@,
                    y0v,
                    h@,
                    n as nat,
                ),
            decreases n - i,
        {
            let d1 = ode.eval(&x_val, &y);
            if d1.len() != y.len() {
                return Err(SolverError::DimensionMismatch);
            }
            let k1 = vec_scalar_mul(&d1, h);
            let xm = x_val.add(h.mul(half));
            let y_temp_1 = add_vec(&y, &vec_scalar_mul(&k1, half));
            let d2 = ode.eval(&xm, &y_temp_1);
            if d2.len() != y.len() {
                return Err(SolverError::DimensionMismatch);
            }
            let k2 = vec_scalar_mul(&d2, h);
            let y_temp_2 = add_vec(&y, &vec_scalar_mul(&k2, half));
            let d3 = ode.eval(&xm, &y_temp_2);
            if d3.len() != y.len() {
                return Err(SolverError::DimensionMismatch);
            }
            let k3 = vec_scalar_mul(&d3, h);
            let y_temp_3 = add_vec(&y, &vec_scalar_mul(&k3, two));
            let d4 = ode.eval(&x_val.add(h), &y_temp_3);
            if d4.len() != y.len() {
                return Err(SolverError::DimensionMismatch);
            }
            let k4 = vec_scalar_mul(&d4, h);
            let combined = add_vec(&k1, &add_vec(&vec_scalar_mul(&add_vec(&k2, &k3), two), &k4));
            y = add_vec(&y, &vec_div_int(&combined, 6));
            x_val = x_val.add(h);
            i = i + 1;
        }
        Ok(y)
    }
}

} // verus!
