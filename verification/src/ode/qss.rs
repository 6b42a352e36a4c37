//! The quantized state system (QSS) family, as threshold-gated explicit
//! Runge-Kutta steps.
//!
//! Each variant computes a trial update with an explicit scheme of order
//! one, two or three, and commits it only when the magnitude of the change
//! reaches the quantum `delta_q`; otherwise the state holds its previous
//! value.  This is a coarse, synchronous approximation of event-driven
//! quantization, not the literal QSS semantics.

use vstd::prelude::*;

use crate::error::SolverError;
use crate::fixed::{fx_abs_s, fx_add_s, fx_divi_s, fx_mul_s, fx_muli_s, fx_neg_s, fx_sub_s, Fx};
use crate::ode::{ivp_steps, lemma_x_after_snoc, scalar_steps, step_dir_ok, x_after_s, ODE};

verus! {

/// Commit `upd` only when it differs from `prev` by at least `dq`.
pub open spec fn qss_commit_s(prev: int, upd: int, dq: int) -> int {
    if fx_abs_s(fx_sub_s(upd, prev)) >= dq {
        upd
    } else {
        prev
    }
}

/// One first-order quantized update: the Euler trial `y + h * f(x, y)`,
/// committed only when the change reaches `dq`.
pub open spec fn qss1_step_s<D: ODE>(ode: &D, x: int, y: int, h: int, dq: int) -> int {
    let k1 = ode.deriv(x, y);
    qss_commit_s(y, fx_add_s(y, fx_mul_s(h, k1)), dq)
}

/// One second-order quantized update: the trapezoidal trial
/// `y + h * (k1 + k2) / 2`, committed only when the change reaches `dq`.
pub open spec fn qss2_step_s<D: ODE>(ode: &D, x: int, y: int, h: int, dq: int) -> int {
    let k1 = ode.deriv(x, y);
    let k2 = ode.deriv(fx_add_s(x, h), fx_add_s(y, fx_mul_s(h, k1)));
    qss_commit_s(y, fx_add_s(y, fx_divi_s(fx_mul_s(h, fx_add_s(k1, k2)), 2)), dq)
}

/// One third-order quantized update: the Simpson-weighted trial
/// `y + h * (k1 + 4 k2 + k3) / 6`, committed only when the change reaches
/// `dq`.
pub open spec fn qss3_step_s<D: ODE>(ode: &D, x: int, y: int, h: int, dq: int) -> int {
    let k1 = ode.deriv(x, y);
    let k2 = ode.deriv(fx_add_s(x, fx_divi_s(h, 2)), fx_add_s(y, fx_mul_s(fx_divi_s(h, 2), k1)));
    let k3 = ode.deriv(
        fx_add_s(x, h),
        fx_add_s(y, fx_mul_s(h, fx_add_s(fx_neg_s(k1), fx_muli_s(k2, 2)))),
    );
    qss_commit_s(
        y,
        fx_add_s(y, fx_divi_s(fx_mul_s(h, fx_add_s(fx_add_s(k1, fx_muli_s(k2, 4)), k3)), 6)),
        dq,
    )
}

/// The state after `n` first-order quantized steps from `(x, y)`.
pub open spec fn qss1_run_s<D: ODE>(ode: &D, x: int, y: int, h: int, dq: int, n: nat) -> int
    decreases n,
{
    if n == 0 {
        y
    } else {
        qss1_run_s(ode, fx_add_s(x, h), qss1_step_s(ode, x, y, h, dq), h, dq, (n - 1) as nat)
    }
}

/// The state after `n` second-order quantized steps from `(x, y)`.
pub open spec fn qss2_run_s<D: ODE>(ode: &D, x: int, y: int, h: int, dq: int, n: nat) -> int
    decreases n,
{
    if n == 0 {
        y
    } else {
        qss2_run_s(ode, fx_add_s(x, h), qss2_step_s(ode, x, y, h, dq), h, dq, (n - 1) as nat)
    }
}

/// The state after `n` third-order quantized steps from `(x, y)`.
pub open spec fn qss3_run_s<D: ODE>(ode: &D, x: int, y: int, h: int, dq: int, n: nat) -> int
    decreases n,
{
    if n == 0 {
        y
    } else {
        qss3_run_s(ode, fx_add_s(x, h), qss3_step_s(ode, x, y, h, dq), h, dq, (n - 1) as nat)
    }
}

/// Peeling the last step off a first-order quantized run: the state after
/// `n + 1` steps is one update, taken at the `n`-th position, of the state
/// after `n` steps.
proof fn lemma_qss1_run_unfold_last<D: ODE>(ode: &D, x: int, y: int, h: int, dq: int, n: nat)
    ensures
        qss1_run_s(ode, x, y, h, dq, (n + 1) as nat) == qss1_step_s(
            ode,
            x_after_s(x, h, n),
            qss1_run_s(ode, x, y, h, dq, n),
            h,
            dq,
        ),
    decreases n,
{
    if n == 0 {
        assert(qss1_run_s(ode, x, y, h, dq, 1) == qss1_run_s(
            ode,
            fx_add_s(x, h),
            qss1_step_s(ode, x, y, h, dq),
            h,
            dq,
            0,
        ));
    } else {
        lemma_qss1_run_unfold_last(
            ode,
            fx_add_s(x, h),
            qss1_step_s(ode, x, y, h, dq),
            h,
            dq,
            (n - 1) as nat,
        );
        assert(qss1_run_s(ode, x, y, h, dq, (n + 1) as nat) == qss1_run_s(
            ode,
            fx_add_s(x, h),
            qss1_step_s(ode, x, y, h, dq),
            h,
            dq,
            n,
        ));
    }
}

/// Solver for the quantized state system family.
pub struct QSSSolver {}

impl QSSSolver {
    /// One first-order quantized update of `y`, committed only when the
    /// change reaches `delta_q`.
    pub fn update<D: ODE>(&self, ode: &D, x: Fx, y: Fx, h: Fx, delta_q: Fx) -> (r: Fx)
        ensures
            r@ == qss1_step_s(ode, x@, y@, h@, delta_q@),
    {
        let k1 = ode.eval(x, y);
        let q_prev = y;
        let updated_value = q_prev.add(h.mul(k1));
        if delta_q.le(updated_value.sub(q_prev).abs()) {
            updated_value
        } else {
            q_prev
        }
    }

    /// One second-order quantized update of `y`, committed only when the
    /// change reaches `delta_q`.
    pub fn update2<D: ODE>(&self, ode: &D, x: Fx, y: Fx, h: Fx, delta_q: Fx) -> (r: Fx)
        ensures
            r@ == qss2_step_s(ode, x@, y@, h@, delta_q@),
    {
        let k1 = ode.eval(x, y);
        let k2 = ode.eval(x.add(h), y.add(h.mul(k1)));
        let q_prev = y;
        let updated_value = q_prev.add(h.mul(k1.add(k2)).div_int(2));
        if delta_q.le(updated_value.sub(q_prev).abs()) {
            updated_value
        } else {
            q_prev
        }
    }

    /// One third-order quantized update of `y`, committed only when the
    /// change reaches `delta_q`.
    pub fn update3<D: ODE>(&self, ode: &D, x: Fx, y: Fx, h: Fx, delta_q: Fx) -> (r: Fx)
        ensures
            r@ == qss3_step_s(ode, x@, y@, h@, delta_q@),
    {
        let k1 = ode.eval(x, y);
        let k2 = ode.eval(x.add(h.div_int(2)), y.add(h.div_int(2).mul(k1)));
        let k3 = ode.eval(x.add(h), y.add(h.mul(k1.neg().add(k2.mul_int(2)))));
        let q_prev = y;
        let updated_value = q_prev.add(h.mul(k1.add(k2.mul_int(4)).add(k3)).div_int(6));
        if delta_q.le(updated_value.sub(q_prev).abs()) {
            updated_value
        } else {
            q_prev
        }
    }

    /// Solve the initial value problem with first-order quantized steps and
    /// return the whole trajectory: a leading zero entry, then the state
    /// after each of the `ivp_steps` steps.
    pub fn ivp_qss1<D: ODE>(
        &self,
        ode: &D,
        x0: Fx,
        y0: Fx,
        h: Fx,
        x_target: Fx,
        delta_q: Fx,
    ) -> (r: Result<Vec<Fx>, SolverError>)
        ensures
            h@ == 0 ==> r == Err::<Vec<Fx>, SolverError>(SolverError::ZeroStepSize),
            h@ != 0 && !step_dir_ok(x0@, x_target@, h@) ==> r == Err::<Vec<Fx>, SolverError>(
                SolverError::InvalidStepDirection,
            ),
            h@ != 0 && step_dir_ok(x0@, x_target@, h@) ==> (r matches Ok(v) && {
                &&& v@.len() == ivp_steps(x0@, x_target@, h@) + 1
                &&& (v@[0])@ == 0
                &&& forall|i: int|
                    1 <= i <= ivp_steps(x0@, x_target@, h@) ==> (#[trigger] v@[i])@ == qss1_run_s(
                        ode,
                        x0@,
                        y0@,
                        h@,
                        delta_q@,
                        i as nat,
                    )
            }),
    {
        let n = match scalar_steps(x0, h, x_target) {
            Ok(n) => n,
            Err(e) => {
                return Err(e);
            },
        };
        let mut x = x0;
        let mut y = y0;
        let mut res: Vec<Fx> = Vec::new();
        res.push(Fx::zero());
        let mut i: u128 = 0;
        while i < n
            invariant
                i <= n,
                res@.len() == i + 1,
                (res@[0])@ == 0,
                x@ == x_after_s(x0@, h@, i as nat),
                y@ == qss1_run_s(ode, x0@, y0@, h@, delta_q@, i as nat),
                forall|j: int|
                    1 <= j <= i ==> (#[trigger] res@[j])@ == qss1_run_s(
                        ode,
                        x0@,
                        y0@,
                        h@,
                        delta_q@,
                        j as nat,
                    ),
            decreases n - i,
        {
            proof {
                lemma_qss1_run_unfold_last(ode, x0@, y0@, h@, delta_q@, i as nat);
                lemma_x_after_snoc(x0@, h@, i as nat);
            }
            y = self.update(ode, x, y, h, delta_q);
            x = x.add(h);
            res.push(y);
            i = i + 1;
        }
        Ok(res)
    }

    /// Solve the initial value problem with second-order quantized steps,
    /// from `(x0, y0)` until `x` reaches `x_target`.
    pub fn ivp_qss2<D: ODE>(
        &self,
        ode: &D,
        x0: Fx,
        y0: Fx,
        h: Fx,
        x_target: Fx,
        delta_q: Fx,
    ) -> (r: Result<Fx, SolverError>)
        ensures
            h@ == 0 ==> r == Err::<Fx, SolverError>(SolverError::ZeroStepSize),
            h@ != 0 && !step_dir_ok(x0@, x_target@, h@) ==> r == Err::<Fx, SolverError>(
                SolverError::InvalidStepDirection,
            ),
            h@ != 0 && step_dir_ok(x0@, x_target@, h@) ==> (r matches Ok(y) && y@ == qss2_run_s(
                ode,
                x0@,
                y0@,
                h@,
                delta_q@,
                ivp_steps(x0@, x_target@, h@),
            )),
    {
        let n = match scalar_steps(x0, h, x_target) {
            Ok(n) => n,
            Err(e) => {
                return Err(e);
            },
        };
        let mut x = x0;
        let mut y = y0;
        let mut i: u128 = 0;
        while i < n
            invariant
                i <= n,
                qss2_run_s(ode, x@, y@, h@, delta_q@, (n - i) as nat) == qss2_run_s(
                    ode,
                    x0@,
                    y0@,
                    h@,
                    delta_q@,
                    n as nat,
                ),
            decreases n - i,
        {
            y = self.update2(ode, x, y, h, delta_q);
            x = x.add(h);
            i = i + 1;
        }
        Ok(y)
    }

    /// Solve the initial value problem with third-order quantized steps,
    /// from `(x0, y0)` until `x` reaches `x_target`.
    pub fn ivp_qss3<D: ODE>(
        &self,
        ode: &D,
        x0: Fx,
        y0: Fx,
        h: Fx,
        x_target: Fx,
        delta_q: Fx,
    ) -> (r: Result<Fx, SolverError>)
        ensures
            h@ == 0 ==> r == Err::<Fx, SolverError>(SolverError::ZeroStepSize),
            h@ != 0 && !step_dir_ok(x0@, x_target@, h@) ==> r == Err::<Fx, SolverError>(
                SolverError::InvalidStepDirection,
            ),
            h@ != 0 && step_dir_ok(x0@, x_target@, h@) ==> (r matches Ok(y) && y@ == qss3_run_s(
                ode,
                x0@,
                y0@,
                h@,
                delta_q@,
                ivp_steps(x0@, x_target@, h@),
            )),
    {
        let n = match scalar_steps(x0, h, x_target) {
            Ok(n) => n,
            Err(e) => {
                return Err(e);
            },
        };
        let mut x = x0;
        let mut y = y0;
        let mut i: u128 = 0;
        while i < n
            invariant
                i <= n,
                qss3_run_s(ode, x@, y@, h@, delta_q@, (n - i) as nat) == qss3_run_s(
                    ode,
                    x0@,
                    y0@,
                    h@,
                    delta_q@,
                    n as nat,
                ),
            decreases n - i,
        {
            y = self.update3(ode, x, y, h, delta_q);
            x = x.add(h);
            i = i + 1;
        }
        Ok(y)
    }
}

} // verus!
