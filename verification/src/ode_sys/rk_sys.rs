//! The classical fourth-order Runge-Kutta method for systems.

use vstd::prelude::*;

use crate::error::SolverError;
use crate::fixed::{fx_add_s, fx_divi_s, Fx};
use crate::ode::{ivp_steps, scalar_steps, step_dir_ok};
use crate::ode_sys::{
    add_vec, seq_add_vs, seq_divi_vs, seq_scale_vs, vec_div_int, vec_scalar_mul, ODESysSolver,
    ODESYS,
};

verus! {

/// One fourth-order Runge-Kutta update of the state vector at `(x, y)`:
/// stages at the start, the midpoint (twice) and the end of the step,
/// combined as `(k1 + 2 k2 + 2 k3 + k4) / 6`; nothing if some stage's
/// derivative has the wrong length.
pub open spec fn rk4_sys_step_s<D: ODESYS>(ode: &D, x: int, y: Seq<int>, h: int) -> Option<
    Seq<int>,
> {
    let d1 = ode.deriv(x, y);
    if d1.len() != y.len() {
        None
    } else {
        let k1 = seq_scale_vs(d1, h);
        let xm = fx_add_s(x, fx_divi_s(h, 2));
        let d2 = ode.deriv(xm, seq_add_vs(y, seq_scale_vs(k1, 500_000_000_000)));
        if d2.len() != y.len() {
            None
        } else {
            let k2 = seq_scale_vs(d2, h);
            let d3 = ode.deriv(xm, seq_add_vs(y, seq_scale_vs(k2, 500_000_000_000)));
            if d3.len() != y.len() {
                None
            } else {
                let k3 = seq_scale_vs(d3, h);
                let d4 = ode.deriv(fx_add_s(x, h), seq_add_vs(y, k3));
                if d4.len() != y.len() {
                    None
                } else {
                    let k4 = seq_scale_vs(d4, h);
                    Some(
                        seq_add_vs(
                            y,
                            seq_divi_vs(
                                seq_add_vs(
                                    k1,
                                    seq_add_vs(
                                        seq_scale_vs(k2, 2_000_000_000_000),
                                        seq_add_vs(seq_scale_vs(k3, 2_000_000_000_000), k4),
                                    ),
                                ),
                                6,
                            ),
                        ),
                    )
                }
            }
        }
    }
}

/// The state after `n` fourth-order Runge-Kutta steps from `(x, y)`, or
/// nothing if some derivative evaluation along the way returns a vector of
/// the wrong length.
pub open spec fn rk_sys_run_s<D: ODESYS>(
    ode: &D,
    x: int,
    y: Seq<int>,
    h: int,
    n: nat,
) -> Option<Seq<int>>
    decreases n,
{
    if n == 0 {
        Some(y)
    } else {
        match rk4_sys_step_s(ode, x, y, h) {
            None => None,
            Some(y2) => rk_sys_run_s(ode, fx_add_s(x, h), y2, h, (n - 1) as nat),
        }
    }
}

/// One fourth-order Runge-Kutta step of the state vector: the four stages
/// are evaluated through `f` and combined with the classical weights; a
/// stage of the wrong length fails with a dimension mismatch.
#[verifier::loop_isolation(false)]
pub fn rk4_step<D: ODESYS>(x: Fx, y_n: &Vec<Fx>, h: Fx, f: &D) -> (r: Result<Vec<Fx>, SolverError>)
    ensures
        match rk4_sys_step_s(f, x@, y_n.deep_view(), h@) {
            Some(s) => r matches Ok(v) && v.deep_view() == s && v@.len() == y_n@.len(),
            None => r == Err::<Vec<Fx>, SolverError>(SolverError::DimensionMismatch),
        },
{
    let half = Fx::from_raw(500_000_000_000);
    let two = Fx::from_raw(2_000_000_000_000);
    let d1 = f.eval(&x, y_n);
    if d1.len() != y_n.len() {
        return Err(SolverError::DimensionMismatch);
    }
    let k1 = vec_scalar_mul(&d1, h);
    let xm = x.add(h.div_int(2));
    let d2 = f.eval(&xm, &add_vec(y_n, &vec_scalar_mul(&k1, half)));
    if d2.len() != y_n.len() {
        return Err(SolverError::DimensionMismatch);
    }
    let k2 = vec_scalar_mul(&d2, h);
    let d3 = f.eval(&xm, &add_vec(y_n, &vec_scalar_mul(&k2, half)));
    if d3.len() != y_n.len() {
        return Err(SolverError::DimensionMismatch);
    }
    let k3 = vec_scalar_mul(&d3, h);
    let d4 = f.eval(&x.add(h), &add_vec(y_n, &k3));
    if d4.len() != y_n.len() {
        return Err(SolverError::DimensionMismatch);
    }
    let k4 = vec_scalar_mul(&d4, h);
    let combined = add_vec(
        &k1,
        &add_vec(&vec_scalar_mul(&k2, two), &add_vec(&vec_scalar_mul(&k3, two), &k4)),
    );
    Ok(add_vec(y_n, &vec_div_int(&combined, 6)))
}

impl ODESysSolver {
    /// Solve the initial value problem with the classical fourth-order
    /// Runge-Kutta method, stepping from `(x, y)` until `x` reaches
    /// `x_target`.  The returned vector has the initial state's length.
    #[verifier::loop_isolation(false)]
    pub fn rk_solve<D: ODESYS>(&self, ode: &D, x: Fx, y: Vec<Fx>, x_target: Fx, h: Fx) -> (r:
        Result<Vec<Fx>, SolverError>)
        ensures
            h@ == 0 ==> r == Err::<Vec<Fx>, SolverError>(SolverError::ZeroStepSize),
            h@ != 0 && !step_dir_ok(x@, x_target@, h@) ==> r == Err::<Vec<Fx>, SolverError>(
                SolverError::InvalidStepDirection,
            ),
            h@ != 0 && step_dir_ok(x@, x_target@, h@) ==> match rk_sys_run_s(
                ode,
                x@,
                y.deep_view(),
                h@,
                ivp_steps(x@, x_target@, h@),
            ) {
                Some(s) => r matches Ok(v) && v.deep_view() == s && v@.len() == y@.len(),
                None => r == Err::<Vec<Fx>, SolverError>(SolverError::DimensionMismatch),
            },
    {
        let n = match scalar_steps(x, h, x_target) {
            Ok(n) => n,
            Err(e) => {
                return Err(e);
            },
        };
        let ghost y0v = y.deep_view();
        let mut x_val = x;
        let mut y = y;
        let mut i: u128 = 0;
        while i < n
            invariant
                i <= n,
                y@.len() == y0v.len(),
                rk_sys_run_s(ode, x_val@, y.deep_view(), h@, (n - i) as nat) == rk_sys_run_s(
                    ode,
                    x@,
                    y0v,
                    h@,
                    n as nat,
                ),
            decreases n - i,
        {
            let result = match rk4_step(x_val, &y, h, ode) {
                Ok(v) => v,
                Err(e) => {
                    return Err(e);
                },
            };
            y = result;
            x_val = x_val.add(h);
            i = i + 1;
        }
        Ok(y)
    }
}

} // verus!
