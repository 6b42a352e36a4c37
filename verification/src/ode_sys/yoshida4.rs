//! The Yoshida fourth-order composition method for systems.
//!
//! The composition coefficients derive from the cube root of two:
//! `c1 = 1 / (2 - 2^(1/3))`, `c2 = -2^(1/3) * c1`, `d1 = 1 - 2 c1`,
//! `d2 = 1 - 2 c2`.  Each step scales two derivative evaluations by `c1 * h`
//! and feeds them back with the weights `d1`, `c2` and `d2`.

use vstd::prelude::*;

use crate::error::SolverError;
use crate::fixed::{fx_add_s, fx_div_s, fx_mul_s, fx_muli_s, fx_neg_s, fx_sub_s, Fx};
use crate::ode::{ivp_steps, scalar_steps, step_dir_ok};
use crate::ode_sys::{add_vec, seq_add_vs, seq_scale_vs, vec_scalar_mul, ODESysSolver, ODESYS};

verus! {

/// The cube root of two as a raw fixed-point value, rounded to the scale.
pub const CBRT2_RAW: i64 = 1_259_921_049_895;

/// The first composition coefficient, `1 / (2 - 2^(1/3))`.
pub open spec fn y4_c1_s() -> int {
    fx_div_s(1_000_000_000_000, fx_sub_s(2_000_000_000_000, CBRT2_RAW as int))
}

/// The second composition coefficient, `-2^(1/3) * c1`.
pub open spec fn y4_c2_s() -> int {
    fx_mul_s(fx_neg_s(CBRT2_RAW as int), y4_c1_s())
}

/// The first feedback weight, `1 - 2 c1`.
pub open spec fn y4_d1_s() -> int {
    fx_sub_s(1_000_000_000_000, fx_muli_s(y4_c1_s(), 2))
}

/// The second feedback weight, `1 - 2 c2`.
pub open spec fn y4_d2_s() -> int {
    fx_sub_s(1_000_000_000_000, fx_muli_s(y4_c2_s(), 2))
}

/// The state after `n` Yoshida steps from `(x, y)`: each step applies the
/// first kick `c1 * h * f(x, y)` with the weights `d1` and `c2`, then the
/// second kick `c1 * h * f(x + c2 * h, y')` with the weight `d2`; nothing if
/// some derivative evaluation along the way returns a vector of the wrong
/// length.
pub open spec fn y4_sys_run_s<D: ODESYS>(
    ode: &D,
    x: int,
    y: Seq<int>,
    h: int,
    n: nat,
) -> Option<Seq<int>>
    decreases n,
{
    if n == 0 {
        Some(y)
    } else {
        let k1 = ode.deriv(x, y);
        if k1.len() != y.len() {
            None
        } else {
            let dy = seq_scale_vs(seq_scale_vs(k1, y4_c1_s()), h);
            let y1 = seq_add_vs(y, seq_scale_vs(dy, y4_d1_s()));
            let y2 = seq_add_vs(y1, seq_scale_vs(dy, y4_c2_s()));
            let k2 = ode.deriv(fx_add_s(x, fx_mul_s(y4_c2_s(), h)), y2);
            if k2.len() != y.len() {
                None
            } else {
                let dy2 = seq_scale_vs(seq_scale_vs(k2, y4_c1_s()), h);
                let y3 = seq_add_vs(y2, seq_scale_vs(dy2, y4_d2_s()));
                y4_sys_run_s(ode, fx_add_s(x, h), y3, h, (n - 1) as nat)
            }
        }
    }
}

impl ODESysSolver {
    /// Solve the initial value problem with the Yoshida fourth-order
    /// composition method, stepping from `(x, y)` until `x` reaches
    /// `x_target`.  The returned vector has the initial state's length.
    #[verifier::loop_isolation(false)]
    pub fn y4_solve<D: ODESYS>(&self, ode: &D, x: Fx, y: Vec<Fx>, x_target: Fx, h: Fx) -> (r:
        Result<Vec<Fx>, SolverError>)
        ensures
            h@ == 0 ==> r == Err::<Vec<Fx>, SolverError>(SolverError::ZeroStepSize),
            h@ != 0 && !step_dir_ok(x@, x_target@, h@) ==> r == Err::<Vec<Fx>, SolverError>(
                SolverError::InvalidStepDirection,
            ),
            h@ != 0 && step_dir_ok(x@, x_target@, h@) ==> match y4_sys_run_s(
                ode,
                x@,
                y.deep_view(),
                h@,
                ivp_steps(x@, x_target@, h@),
            ) {
                Some(s) => r matches Ok(v) && v.deep_view() == s && v@.len() == y@.len(),
                None => r == Err::<Vec<Fx>, SolverError>(SolverError::DimensionMismatch),
            },
    {
        let n = match scalar_steps(x, h, x_target) {
            Ok(n) => n,
            Err(e) => {
                return Err(e);
            },
        };
        let one = Fx::from_raw(1_000_000_000_000);
        let two = Fx::from_raw(2_000_000_000_000);
        let cbrt2 = Fx::from_raw(CBRT2_RAW);
        let c1 = one.div(two.sub(cbrt2));
        let c2 = cbrt2.neg().mul(c1);
        let d1 = one.sub(c1.mul_int(2));
        let d2 = one.sub(c2.mul_int(2));
        let ghost y0v = y.deep_view();
        let mut x_val = x;
        let mut y = y;
        let mut i: u128 = 0;
        while i < n
            invariant
                i <= n,
                y@.len() == y0v.len(),
                y4_sys_run_s(ode, x_val@, y.deep_view(), h@, (n - i) as nat) == y4_sys_run_s(
                    ode,
                    x@,
                    y0v,
                    h@,
                    n as nat,
                ),
            decreases n - i,
        {
            let k1 = ode.eval(&x_val, &y);
            if k1.len() != y.len() {
                return Err(SolverError::DimensionMismatch);
            }
            let dy = vec_scalar_mul(&vec_scalar_mul(&k1, c1), h);
            y = add_vec(&y, &vec_scalar_mul(&dy, d1));
            y = add_vec(&y, &vec_scalar_mul(&dy, c2));
            let k2 = ode.eval(&x_val.add(c2.mul(h)), &y);
            if k2.len() != y.len() {
                return Err(SolverError::DimensionMismatch);
            }
            let dy2 = vec_scalar_mul(&vec_scalar_mul(&k2, c1), h);
            y = add_vec(&y, &vec_scalar_mul(&dy2, d2));
            x_val = x_val.add(h);
            i = i + 1;
        }
        Ok(y)
    }
}

} // verus!
