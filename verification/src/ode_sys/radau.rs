//! The Radau-flavoured single-stage method for systems.
//!
//! Each step evaluates the derivative once, at the state shifted by the step
//! size in every component, and advances the state by `h` times that slope;
//! the stage is evaluated explicitly rather than solved implicitly.

use vstd::prelude::*;

use crate::error::SolverError;
use crate::fixed::{fx_add_s, Fx};
use crate::ode::{ivp_steps, scalar_steps, step_dir_ok};
use crate::ode_sys::{
    add_vec, fill_vec, seq_add_vs, seq_scale_vs, vec_scalar_mul, ODESysSolver, ODESYS,
};

verus! {

/// The state after `n` Radau-flavoured steps from `(x, y)`: each step
/// evaluates `f` at `(x, y + h)` (the shift applied to every component) and
/// advances by `h` times that slope; nothing if some derivative evaluation
/// along the way returns a vector of the wrong length.
pub open spec fn ia_sys_run_s<D: ODESYS>(
    ode: &D,
    x: int,
    y: Seq<int>,
    h: int,
    n: nat,
) -> Option<Seq<int>>
    decreases n,
{
    if n == 0 {
        Some(y)
    } else {
        let d1 = ode.deriv(x, seq_add_vs(y, Seq::new(y.len(), |i: int| h)));
        if d1.len() != y.len() {
            None
        } else {
            ia_sys_run_s(ode, fx_add_s(x, h), seq_add_vs(y, seq_scale_vs(d1, h)), h, (n - 1) as nat)
        }
    }
}

impl ODESysSolver {
    /// Solve the initial value problem with the Radau-flavoured single-stage
    /// method, stepping from `(x, y)` until `x` reaches `x_target`.  The
    /// returned vector has the initial state's length.
    #[verifier::loop_isolation(false)]
    pub fn ia_solve<D: ODESYS>(&self, ode: &D, x: Fx, y: Vec<Fx>, x_target: Fx, h: Fx) -> (r:
        Result<Vec<Fx>, SolverError>)
        ensures
            h@ == 0 ==> r == Err::<Vec<Fx>, SolverError>(SolverError::ZeroStepSize),
            h@ != 0 && !step_dir_ok(x@, x_target@, h@) ==> r == Err::<Vec<Fx>, SolverError>(
                SolverError::InvalidStepDirection,
            ),
            h@ != 0 && step_dir_ok(x@, x_target@, h@) ==> match ia_sys_run_s(
                ode,
                x@,
                y.deep_view(),
                h@,
                ivp_steps(x@, x_target@, h@),
            ) {
                Some(s) => r matches Ok(v) && v.deep_view() == s && v@.len() == y@.len(),
                None => r == Err::<Vec<Fx>, SolverError>(SolverError::DimensionMismatch),
            },
    {
        let n = match scalar_steps(x, h, x_target) {
            Ok(n) => n,
            Err(e) => {
                return Err(e);
            },
        };
        let ghost y0v = y.deep_view();
        let mut x_val = x;
        let mut y = y;
        let mut i: u128 = 0;
        while i < n
            invariant
                i <= n,
                y@.len() == y0v.len(),
                ia_sys_run_s(ode, x_val@, y.deep_view(), h@, (n - i) as nat) == ia_sys_run_s(
                    ode,
                    x@,
                    y0v,
                    h@,
                    n as nat,
                ),
            decreases n - i,
        {
            let shift = fill_vec(h, y.len());
            let probe = add_vec(&y, &shift);
            let k1 = ode.eval(&x_val, &probe);
            if k1.len() != y.len() {
                return Err(SolverError::DimensionMismatch);
            }
            proof {
                assert(probe.deep_view() =~= seq_add_vs(
                    y.deep_view(),
                    Seq::new(y.deep_view().len(), |i: int| h@),
                ));
            }
            y = add_vec(&y, &vec_scalar_mul(&k1, h));
            x_val = x_val.add(h);
            i = i + 1;
        }
        Ok(y)
    }
}

} // verus!
